//! Guest access through the barrier: the record, its status, and the audit
//! log entry.

use vstd::prelude::*;

verus! {

/// Where a guest access stands in its life.
///
/// `Pending` is where every access starts. `Expired`, `Completed` and
/// `Cancelled` are terminal.
#[derive(Debug, Clone, Copy, PartialEq, Eq, Structural)]
pub enum GuestAccessStatus {
    Pending,
    Active,
    Expired,
    Completed,
    Cancelled,
}

/// What can happen to a guest access.
#[derive(Debug, Clone, Copy, PartialEq, Eq, Structural)]
pub enum AccessEvent {
    /// The guest passed the barrier inwards with a valid code.
    Entry,
    /// The guest passed the barrier outwards.
    Exit,
    /// The issuing resident withdrew the access.
    Cancel,
    /// The window for a first entry closed unused.
    Expire,
}

impl GuestAccessStatus {
    /// No event leads out of a terminal status.
    pub open spec fn spec_is_terminal(self) -> bool {
        self == GuestAccessStatus::Expired || self == GuestAccessStatus::Completed || self
            == GuestAccessStatus::Cancelled
    }

    #[verifier::when_used_as_spec(spec_is_terminal)]
    pub fn is_terminal(self) -> (r: bool)
        ensures
            r == self.spec_is_terminal(),
    {
        match self {
            GuestAccessStatus::Pending | GuestAccessStatus::Active => false,
            _ => true,
        }
    }

    /// The transition table: the status that `event` leads to from `self`,
    /// or `None` where the event is not allowed.
    pub open spec fn spec_next(self, event: AccessEvent) -> Option<GuestAccessStatus> {
        match (self, event) {
            (GuestAccessStatus::Pending, AccessEvent::Entry) => Some(GuestAccessStatus::Active),
            (GuestAccessStatus::Pending, AccessEvent::Cancel) => Some(GuestAccessStatus::Cancelled),
            (GuestAccessStatus::Pending, AccessEvent::Expire) => Some(GuestAccessStatus::Expired),
            (GuestAccessStatus::Active, AccessEvent::Exit) => Some(GuestAccessStatus::Completed),
            _ => None,
        }
    }

    #[verifier::when_used_as_spec(spec_next)]
    pub fn next(self, event: AccessEvent) -> (r: Option<GuestAccessStatus>)
        ensures
            r == self.spec_next(event),
    {
        match self {
            GuestAccessStatus::Pending => match event {
                AccessEvent::Entry => Some(GuestAccessStatus::Active),
                AccessEvent::Cancel => Some(GuestAccessStatus::Cancelled),
                AccessEvent::Expire => Some(GuestAccessStatus::Expired),
                AccessEvent::Exit => None,
            },
            GuestAccessStatus::Active => match event {
                AccessEvent::Exit => Some(GuestAccessStatus::Completed),
                _ => None,
            },
            GuestAccessStatus::Expired => None,
            GuestAccessStatus::Completed => None,
            GuestAccessStatus::Cancelled => None,
        }
    }

    /// One edge of the transition graph leads from `self` to `to`.
    pub open spec fn steps_to(self, to: GuestAccessStatus) -> bool {
        exists|event: AccessEvent| self.spec_next(event) == Some(to)
    }
}

impl Default for GuestAccessStatus {
    fn default() -> (r: Self)
        ensures
            r == GuestAccessStatus::Pending,
    {
        GuestAccessStatus::Pending
    }
}

/// Timestamps count microseconds since the Unix epoch, UTC.
pub const MICROS_PER_MINUTE: i64 = 60_000_000;

/// The characters of an optional text.
pub open spec fn text_view(t: Option<String>) -> Option<Seq<char>> {
    match t {
        Some(s) => Some(s@),
        None => None,
    }
}

/// A copy of an optional text.
pub fn clone_text(t: &Option<String>) -> (r: Option<String>)
    ensures
        text_view(r) == text_view(*t),
{
    match t {
        Some(s) => Some(s.clone()),
        None => None,
    }
}

/// A time-bounded authorisation for one guest to pass the barrier with a
/// one-time code.
#[derive(Debug)]
pub struct GuestAccess {
    pub id: u128,
    pub complex_id: u128,
    pub created_by: u128,
    pub guest_name: Option<String>,
    pub guest_phone: Option<String>,
    pub vehicle_number: Option<String>,
    pub access_code: String,
    pub qr_code_url: Option<String>,
    pub duration_minutes: i32,
    pub expires_at: i64,
    pub entered_at: Option<i64>,
    pub exited_at: Option<i64>,
    pub status: GuestAccessStatus,
    pub owner_notified: bool,
    pub chairman_notified: bool,
    pub overstay_notified: bool,
    pub created_at: i64,
}

/// A guest access as a mathematical value: texts are sequences of characters.
pub struct GuestAccessView {
    pub id: u128,
    pub complex_id: u128,
    pub created_by: u128,
    pub guest_name: Option<Seq<char>>,
    pub guest_phone: Option<Seq<char>>,
    pub vehicle_number: Option<Seq<char>>,
    pub access_code: Seq<char>,
    pub qr_code_url: Option<Seq<char>>,
    pub duration_minutes: i32,
    pub expires_at: i64,
    pub entered_at: Option<i64>,
    pub exited_at: Option<i64>,
    pub status: GuestAccessStatus,
    pub owner_notified: bool,
    pub chairman_notified: bool,
    pub overstay_notified: bool,
    pub created_at: i64,
}

impl View for GuestAccess {
    type V = GuestAccessView;

    open spec fn view(&self) -> GuestAccessView {
        GuestAccessView {
            id: self.id,
            complex_id: self.complex_id,
            created_by: self.created_by,
            guest_name: text_view(self.guest_name),
            guest_phone: text_view(self.guest_phone),
            vehicle_number: text_view(self.vehicle_number),
            access_code: self.access_code@,
            qr_code_url: text_view(self.qr_code_url),
            duration_minutes: self.duration_minutes,
            expires_at: self.expires_at,
            entered_at: self.entered_at,
            exited_at: self.exited_at,
            status: self.status,
            owner_notified: self.owner_notified,
            chairman_notified: self.chairman_notified,
            overstay_notified: self.overstay_notified,
            created_at: self.created_at,
        }
    }
}

impl GuestAccessView {
    /// The timestamps agree with the status: an entry time is set exactly
    /// when the guest is or was inside, an exit time exactly when the visit
    /// is completed.
    pub open spec fn wf(self) -> bool {
        &&& self.entered_at is Some <==> (self.status == GuestAccessStatus::Active || self.status
            == GuestAccessStatus::Completed)
        &&& self.exited_at is Some <==> self.status == GuestAccessStatus::Completed
    }

    /// The code is still taken: the access is neither used up nor withdrawn.
    pub open spec fn is_live(self) -> bool {
        !self.status.spec_is_terminal()
    }

    /// The deadline of a new access that is created at `now`.
    pub open spec fn deadline(now: i64, duration_minutes: i32) -> int {
        now + duration_minutes * MICROS_PER_MINUTE
    }

    /// A newly issued access: pending, unused, nobody notified.
    pub open spec fn issued(
        id: u128,
        complex_id: u128,
        created_by: u128,
        guest_name: Option<Seq<char>>,
        guest_phone: Option<Seq<char>>,
        vehicle_number: Option<Seq<char>>,
        access_code: Seq<char>,
        duration_minutes: i32,
        now: i64,
    ) -> GuestAccessView {
        GuestAccessView {
            id,
            complex_id,
            created_by,
            guest_name,
            guest_phone,
            vehicle_number,
            access_code,
            qr_code_url: None,
            duration_minutes,
            expires_at: Self::deadline(now, duration_minutes) as i64,
            entered_at: None,
            exited_at: None,
            status: GuestAccessStatus::Pending,
            owner_notified: false,
            chairman_notified: false,
            overstay_notified: false,
            created_at: now,
        }
    }

    /// The barrier lets this guest in on `code` at `now`.
    pub open spec fn admits_entry(self, code: Seq<char>, now: i64) -> bool {
        self.access_code == code && self.status == GuestAccessStatus::Pending && self.expires_at
            > now
    }

    /// The barrier lets this guest out on `code`.
    pub open spec fn admits_exit(self, code: Seq<char>) -> bool {
        self.access_code == code && self.status == GuestAccessStatus::Active
    }

    /// `requester` may withdraw this access.
    pub open spec fn admits_cancel(self, requester: u128) -> bool {
        self.created_by == requester && self.status == GuestAccessStatus::Pending
    }

    /// The window for a first entry has closed at `now`, unused.
    pub open spec fn is_stale(self, now: i64) -> bool {
        self.status == GuestAccessStatus::Pending && self.expires_at <= now
    }

    /// The moment from which a guest who entered is overstaying.
    pub open spec fn leave_by(self) -> int {
        self.entered_at->0 + self.duration_minutes * MICROS_PER_MINUTE
    }

    /// The guest is inside past the authorised time at `now`, and the
    /// resident has not been told yet.
    pub open spec fn is_overstaying(self, now: i64) -> bool {
        &&& self.status == GuestAccessStatus::Active
        &&& self.entered_at is Some
        &&& !self.overstay_notified
        &&& now > self.leave_by()
    }

    /// This access after the guest entered at `now`.
    pub open spec fn entered(self, now: i64) -> GuestAccessView {
        GuestAccessView { status: GuestAccessStatus::Active, entered_at: Some(now), ..self }
    }

    /// This access after the guest left at `now`.
    pub open spec fn exited(self, now: i64) -> GuestAccessView {
        GuestAccessView { status: GuestAccessStatus::Completed, exited_at: Some(now), ..self }
    }

    /// This access after it was withdrawn.
    pub open spec fn cancelled(self) -> GuestAccessView {
        GuestAccessView { status: GuestAccessStatus::Cancelled, ..self }
    }

    /// This access after its window closed unused.
    pub open spec fn expired(self) -> GuestAccessView {
        GuestAccessView { status: GuestAccessStatus::Expired, ..self }
    }

    /// This access after the expiry sweep at `now`: expired where its window
    /// has closed unused, else as it was.
    pub open spec fn swept(self, now: i64) -> GuestAccessView {
        if self.is_stale(now) {
            self.expired()
        } else {
            self
        }
    }

    /// This access after the resident was told of the entry.
    pub open spec fn with_owner_notified(self) -> GuestAccessView {
        GuestAccessView { owner_notified: true, ..self }
    }

    /// This access after the resident was told of the overstay.
    pub open spec fn with_overstay_notified(self) -> GuestAccessView {
        GuestAccessView { overstay_notified: true, ..self }
    }

    /// This access with a link to its QR code.
    pub open spec fn with_qr_code_url(self, url: Seq<char>) -> GuestAccessView {
        GuestAccessView { qr_code_url: Some(url), ..self }
    }

    /// What no operation ever changes: who, for whom, which code, how long
    /// and until when.
    pub open spec fn same_grant(self, other: GuestAccessView) -> bool {
        &&& self.id == other.id
        &&& self.complex_id == other.complex_id
        &&& self.created_by == other.created_by
        &&& self.guest_name == other.guest_name
        &&& self.guest_phone == other.guest_phone
        &&& self.vehicle_number == other.vehicle_number
        &&& self.access_code == other.access_code
        &&& self.duration_minutes == other.duration_minutes
        &&& self.expires_at == other.expires_at
        &&& self.created_at == other.created_at
    }

    /// `self` is a later state of `earlier`: the grant is the same, the
    /// status is the same or one edge further, a timestamp once set stays,
    /// and a notification flag once raised stays raised.
    pub open spec fn follows(self, earlier: GuestAccessView) -> bool {
        &&& self.same_grant(earlier)
        &&& (self.status == earlier.status || earlier.status.steps_to(self.status))
        &&& (earlier.entered_at is Some ==> self.entered_at == earlier.entered_at)
        &&& (earlier.exited_at is Some ==> self.exited_at == earlier.exited_at)
        &&& (earlier.owner_notified ==> self.owner_notified)
        &&& (earlier.chairman_notified ==> self.chairman_notified)
        &&& (earlier.overstay_notified ==> self.overstay_notified)
    }
}

impl Clone for GuestAccess {
    fn clone(&self) -> (r: Self)
        ensures
            r@ == self@,
    {
        GuestAccess {
            id: self.id,
            complex_id: self.complex_id,
            created_by: self.created_by,
            guest_name: clone_text(&self.guest_name),
            guest_phone: clone_text(&self.guest_phone),
            vehicle_number: clone_text(&self.vehicle_number),
            access_code: self.access_code.clone(),
            qr_code_url: clone_text(&self.qr_code_url),
            duration_minutes: self.duration_minutes,
            expires_at: self.expires_at,
            entered_at: self.entered_at,
            exited_at: self.exited_at,
            status: self.status,
            owner_notified: self.owner_notified,
            chairman_notified: self.chairman_notified,
            overstay_notified: self.overstay_notified,
            created_at: self.created_at,
        }
    }
}

impl GuestAccess {
    /// Issues a pending access at `now`, good for a first entry until
    /// `now + duration_minutes`. `None` where that deadline cannot be
    /// represented.
    pub fn issue(
        id: u128,
        complex_id: u128,
        created_by: u128,
        guest_name: Option<String>,
        guest_phone: Option<String>,
        vehicle_number: Option<String>,
        access_code: String,
        duration_minutes: i32,
        now: i64,
    ) -> (r: Option<GuestAccess>)
        ensures
            r is Some <==> i64::MIN <= GuestAccessView::deadline(now, duration_minutes) <= i64::MAX,
            r matches Some(a) ==> a@ == GuestAccessView::issued(
                id,
                complex_id,
                created_by,
                text_view(guest_name),
                text_view(guest_phone),
                text_view(vehicle_number),
                access_code@,
                duration_minutes,
                now,
            ),
    {
        let span: i64 = (duration_minutes as i64) * MICROS_PER_MINUTE;
        match now.checked_add(span) {
            Some(expires_at) => Some(
                GuestAccess {
                    id,
                    complex_id,
                    created_by,
                    guest_name,
                    guest_phone,
                    vehicle_number,
                    access_code,
                    qr_code_url: None,
                    duration_minutes,
                    expires_at,
                    entered_at: None,
                    exited_at: None,
                    status: GuestAccessStatus::Pending,
                    owner_notified: false,
                    chairman_notified: false,
                    overstay_notified: false,
                    created_at: now,
                },
            ),
            None => None,
        }
    }

    /// Whether the timestamps agree with the status.
    pub fn is_well_formed(&self) -> (r: bool)
        ensures
            r == self@.wf(),
    {
        let inside = match self.status {
            GuestAccessStatus::Active | GuestAccessStatus::Completed => true,
            _ => false,
        };
        let done = match self.status {
            GuestAccessStatus::Completed => true,
            _ => false,
        };
        self.entered_at.is_some() == inside && self.exited_at.is_some() == done
    }

    /// Whether the guest is inside past the authorised time at `now` with
    /// the resident not yet told.
    pub fn is_overstaying(&self, now: i64) -> (r: bool)
        ensures
            r == self@.is_overstaying(now),
    {
        match self.status {
            GuestAccessStatus::Active => match self.entered_at {
                Some(entered_at) => {
                    let span: i64 = (self.duration_minutes as i64) * MICROS_PER_MINUTE;
                    !self.overstay_notified && match entered_at.checked_add(span) {
                        Some(leave_by) => now > leave_by,
                        None => span < 0,
                    }
                },
                None => false,
            },
            _ => false,
        }
    }
}

/// How an attempt to send a notification ended. Sending where notifications
/// are switched off counts as delivered.
#[derive(Debug, Clone, Copy, PartialEq, Eq, Structural)]
pub enum Delivery {
    Delivered,
    Failed,
}

/// Which way a vehicle passed the barrier.
#[derive(Debug, Clone, Copy, PartialEq, Eq, Structural)]
pub enum BarrierAction {
    Entry,
    Exit,
}

/// One line of the audit log: a passage of the barrier that was accepted.
/// Lines are only ever appended; a line's place in the log is its identity.
#[derive(Debug)]
pub struct BarrierAccessLog {
    pub complex_id: u128,
    pub barrier_id: Option<u128>,
    pub user_id: Option<u128>,
    pub guest_access_id: Option<u128>,
    pub action: BarrierAction,
    pub vehicle_number: Option<String>,
    pub created_at: i64,
}

/// A line of the audit log as a mathematical value.
pub struct BarrierAccessLogView {
    pub complex_id: u128,
    pub barrier_id: Option<u128>,
    pub user_id: Option<u128>,
    pub guest_access_id: Option<u128>,
    pub action: BarrierAction,
    pub vehicle_number: Option<Seq<char>>,
    pub created_at: i64,
}

impl View for BarrierAccessLog {
    type V = BarrierAccessLogView;

    open spec fn view(&self) -> BarrierAccessLogView {
        BarrierAccessLogView {
            complex_id: self.complex_id,
            barrier_id: self.barrier_id,
            user_id: self.user_id,
            guest_access_id: self.guest_access_id,
            action: self.action,
            vehicle_number: text_view(self.vehicle_number),
            created_at: self.created_at,
        }
    }
}

impl Clone for BarrierAccessLog {
    fn clone(&self) -> (r: Self)
        ensures
            r@ == self@,
    {
        BarrierAccessLog {
            complex_id: self.complex_id,
            barrier_id: self.barrier_id,
            user_id: self.user_id,
            guest_access_id: self.guest_access_id,
            action: self.action,
            vehicle_number: clone_text(&self.vehicle_number),
            created_at: self.created_at,
        }
    }
}

impl BarrierAccessLogView {
    /// The line that records that the resident `user_id` opened the barrier
    /// of the complex `complex_id` at `now`.
    pub open spec fn of_resident(complex_id: u128, user_id: u128, now: i64) -> BarrierAccessLogView {
        BarrierAccessLogView {
            complex_id,
            barrier_id: None,
            user_id: Some(user_id),
            guest_access_id: None,
            action: BarrierAction::Entry,
            vehicle_number: None,
            created_at: now,
        }
    }

    /// The line that records a guest's passage: the vehicle seen at the
    /// barrier where there is one, else the vehicle named when the access
    /// was issued.
    pub open spec fn of_guest(
        guest: GuestAccessView,
        action: BarrierAction,
        barrier_id: Option<u128>,
        observed_vehicle: Option<Seq<char>>,
        now: i64,
    ) -> BarrierAccessLogView {
        BarrierAccessLogView {
            complex_id: guest.complex_id,
            barrier_id,
            user_id: None,
            guest_access_id: Some(guest.id),
            action,
            vehicle_number: if observed_vehicle is Some {
                observed_vehicle
            } else {
                guest.vehicle_number
            },
            created_at: now,
        }
    }
}

/// A guest access as it is shown to the resident who issued it: without the
/// ids of the complex and of the resident, and without the notification
/// flags.
#[derive(Debug)]
pub struct GuestAccessResponse {
    pub id: u128,
    pub guest_name: Option<String>,
    pub guest_phone: Option<String>,
    pub vehicle_number: Option<String>,
    pub access_code: String,
    pub qr_code_url: Option<String>,
    pub duration_minutes: i32,
    pub expires_at: i64,
    pub entered_at: Option<i64>,
    pub exited_at: Option<i64>,
    pub status: GuestAccessStatus,
    pub created_at: i64,
}

impl GuestAccessResponse {
    /// This response shows the access `ga`.
    pub open spec fn shows(&self, ga: GuestAccessView) -> bool {
        &&& self.id == ga.id
        &&& text_view(self.guest_name) == ga.guest_name
        &&& text_view(self.guest_phone) == ga.guest_phone
        &&& text_view(self.vehicle_number) == ga.vehicle_number
        &&& self.access_code@ == ga.access_code
        &&& text_view(self.qr_code_url) == ga.qr_code_url
        &&& self.duration_minutes == ga.duration_minutes
        &&& self.expires_at == ga.expires_at
        &&& self.entered_at == ga.entered_at
        &&& self.exited_at == ga.exited_at
        &&& self.status == ga.status
        &&& self.created_at == ga.created_at
    }
}

impl vstd::std_specs::convert::FromSpecImpl<GuestAccess> for GuestAccessResponse {
    open spec fn obeys_from_spec() -> bool {
        true
    }

    open spec fn from_spec(ga: GuestAccess) -> Self {
        GuestAccessResponse {
            id: ga.id,
            guest_name: ga.guest_name,
            guest_phone: ga.guest_phone,
            vehicle_number: ga.vehicle_number,
            access_code: ga.access_code,
            qr_code_url: ga.qr_code_url,
            duration_minutes: ga.duration_minutes,
            expires_at: ga.expires_at,
            entered_at: ga.entered_at,
            exited_at: ga.exited_at,
            status: ga.status,
            created_at: ga.created_at,
        }
    }
}

impl From<GuestAccess> for GuestAccessResponse {
    fn from(ga: GuestAccess) -> (r: Self)
        ensures
            r.shows(ga@),
    {
        GuestAccessResponse {
            id: ga.id,
            guest_name: ga.guest_name,
            guest_phone: ga.guest_phone,
            vehicle_number: ga.vehicle_number,
            access_code: ga.access_code,
            qr_code_url: ga.qr_code_url,
            duration_minutes: ga.duration_minutes,
            expires_at: ga.expires_at,
            entered_at: ga.entered_at,
            exited_at: ga.exited_at,
            status: ga.status,
            created_at: ga.created_at,
        }
    }
}

/// The length of a visit, in minutes, where the resident names none.
pub const DEFAULT_DURATION_MINUTES: i32 = 30;

/// A resident's request for a guest access.
#[derive(Debug)]
pub struct CreateGuestAccessRequest {
    pub guest_name: Option<String>,
    pub guest_phone: Option<String>,
    pub vehicle_number: Option<String>,
    pub duration_minutes: Option<i32>,
}

impl CreateGuestAccessRequest {
    /// The length of the visit that is asked for: the one named, or half an
    /// hour.
    pub fn requested_duration(&self) -> (minutes: i32)
        ensures
            minutes == match self.duration_minutes {
                Some(m) => m,
                None => DEFAULT_DURATION_MINUTES,
            },
    {
        match self.duration_minutes {
            Some(m) => m,
            None => DEFAULT_DURATION_MINUTES,
        }
    }
}

/// What a barrier reports when a vehicle asks to pass.
#[derive(Debug)]
pub struct BarrierEntryRequest {
    pub access_code: Option<String>,
    pub vehicle_number: Option<String>,
    pub barrier_id: Option<u128>,
}

/// The answer to a request that returns nothing else.
#[derive(Debug)]
pub struct SuccessResponse {
    pub success: bool,
    pub message: String,
}

/// How a call at the intercom ended.
#[derive(Debug, Clone, Copy, PartialEq, Eq, Structural)]
pub enum IntercomCallStatus {
    Missed,
    Answered,
    Opened,
    Rejected,
}

} // verus!
