//! Guest access through the barrier: issuing one-time codes, letting guests
//! in and out, withdrawing an access, and the periodic sweeps that expire
//! unused codes and find guests who overstay.
//!
//! Every operation is a guarded transition on one record: it looks the record
//! up by what the operation requires of it (the code and the status), and
//! changes it only where that still holds. A replayed code therefore finds
//! nothing.

use vstd::prelude::*;
use crate::error::{AppError, AppResult, ErrorKind};
use crate::models::security::{
    BarrierAccessLog, BarrierAccessLogView, BarrierAction, Delivery, GuestAccess,
    GuestAccessStatus, GuestAccessView, clone_text, text_view,
};
use crate::services::auth_service::{AuthService, is_one_time_code};
use crate::services::external::{
    base64_encode, base64_standard, clock_text, new_identifier, qr_code_png, render_qr_code_png,
    utc_clock_text,
};
use crate::services::sms_service::{SmsDecision, SmsService, guest_entry_text, overstay_text};

verus! {

/// The longest visit, in minutes, that a resident can grant unless the
/// service is set up otherwise.
pub const DEFAULT_MAX_DURATION_MINUTES: i32 = 240;

/// What an operation requires of the record it acts on.
pub enum LookupView {
    /// Pending, with this code, and not past its deadline at `now`.
    Entry { code: Seq<char>, now: i64 },
    /// Active, with this code.
    Exit { code: Seq<char> },
    /// The record with this id.
    ById { id: u128 },
    /// Not yet in a terminal status, with this code.
    LiveCode { code: Seq<char> },
}

impl LookupView {
    pub open spec fn admits(self, r: GuestAccessView) -> bool {
        match self {
            LookupView::Entry { code, now } => r.admits_entry(code, now),
            LookupView::Exit { code } => r.admits_exit(code),
            LookupView::ById { id } => r.id == id,
            LookupView::LiveCode { code } => r.access_code == code && r.is_live(),
        }
    }
}

enum Lookup {
    Entry { code: String, now: i64 },
    Exit { code: String },
    ById { id: u128 },
    LiveCode { code: String },
}

impl View for Lookup {
    type V = LookupView;

    closed spec fn view(&self) -> LookupView {
        match self {
            Lookup::Entry { code, now } => LookupView::Entry { code: code@, now: *now },
            Lookup::Exit { code } => LookupView::Exit { code: code@ },
            Lookup::ById { id } => LookupView::ById { id: *id },
            Lookup::LiveCode { code } => LookupView::LiveCode { code: code@ },
        }
    }
}

impl Lookup {
    fn admits(&self, r: &GuestAccess) -> (b: bool)
        ensures
            b == self@.admits(r@),
    {
        match self {
            Lookup::Entry { code, now } => r.access_code == *code && r.status
                == GuestAccessStatus::Pending && r.expires_at > *now,
            Lookup::Exit { code } => r.access_code == *code && r.status
                == GuestAccessStatus::Active,
            Lookup::ById { id } => r.id == *id,
            Lookup::LiveCode { code } => r.access_code == *code && !r.status.is_terminal(),
        }
    }
}

/// The position of the first record at or after `from` that `lookup` admits.
pub open spec fn position_from(records: Seq<GuestAccessView>, lookup: LookupView, from: int) -> Option<
    int,
>
    decreases records.len() - from,
{
    if from < 0 || from >= records.len() {
        None
    } else if lookup.admits(records[from]) {
        Some(from)
    } else {
        position_from(records, lookup, from + 1)
    }
}

/// What `position_from` finds is admitted and is the first such record; what
/// it does not find is not there.
pub proof fn lemma_position_from(records: Seq<GuestAccessView>, lookup: LookupView, from: int)
    requires
        0 <= from,
    ensures
        match position_from(records, lookup, from) {
            Some(i) => from <= i < records.len() && lookup.admits(records[i]) && forall|j: int|
                from <= j < i ==> !lookup.admits(#[trigger] records[j]),
            None => forall|j: int|
                from <= j < records.len() ==> !lookup.admits(#[trigger] records[j]),
        },
    decreases records.len() - from,
{
    if from < records.len() && !lookup.admits(records[from]) {
        lemma_position_from(records, lookup, from + 1);
    }
}

/// The first admitted record at or after `from` is what `position_from` finds.
pub proof fn lemma_position_is(
    records: Seq<GuestAccessView>,
    lookup: LookupView,
    from: int,
    i: int,
)
    requires
        0 <= from <= i < records.len(),
        lookup.admits(records[i]),
        forall|j: int| from <= j < i ==> !lookup.admits(#[trigger] records[j]),
    ensures
        position_from(records, lookup, from) == Some(i),
    decreases i - from,
{
    if from < i {
        lemma_position_is(records, lookup, from + 1, i);
    }
}

/// The state of the barrier service as a mathematical value: the guest
/// accesses in the order they were issued, the audit log in the order it was
/// written, and the ceiling on a visit's length.
pub struct BarrierState {
    pub records: Seq<GuestAccessView>,
    pub log: Seq<BarrierAccessLogView>,
    pub max_duration_minutes: i32,
}

impl BarrierState {
    /// Each record's timestamps agree with its status, no id occurs twice,
    /// and no code occurs twice among the records that are still live.
    pub open spec fn wf(self) -> bool {
        &&& forall|i: int| 0 <= i < self.records.len() ==> (#[trigger] self.records[i]).wf()
        &&& forall|i: int, j: int|
            0 <= i < j < self.records.len() ==> (#[trigger] self.records[i]).id != (
            #[trigger] self.records[j]).id
        &&& forall|i: int, j: int|
            0 <= i < j < self.records.len() && (#[trigger] self.records[i]).is_live() && (
            #[trigger] self.records[j]).is_live() ==> self.records[i].access_code
                != self.records[j].access_code
    }

    /// The position of the first record that `lookup` admits.
    pub open spec fn position(self, lookup: LookupView) -> Option<int> {
        position_from(self.records, lookup, 0)
    }

    /// Why an access with these properties cannot be issued, if it cannot.
    pub open spec fn issue_refusal(
        self,
        id: u128,
        access_code: Seq<char>,
        duration_minutes: i32,
        now: i64,
    ) -> Option<ErrorKind> {
        let deadline = GuestAccessView::deadline(now, duration_minutes);
        if duration_minutes > self.max_duration_minutes {
            Some(ErrorKind::Validation)
        } else if deadline < i64::MIN || deadline > i64::MAX {
            Some(ErrorKind::Validation)
        } else if self.position(LookupView::ById { id }) is Some {
            Some(ErrorKind::Conflict)
        } else if self.position(LookupView::LiveCode { code: access_code }) is Some {
            Some(ErrorKind::Conflict)
        } else {
            None
        }
    }

    /// What the resident who asks for `grant` is told.
    pub open spec fn issue_result(self, grant: GuestAccessView) -> Result<
        GuestAccessView,
        ErrorKind,
    > {
        match self.issue_refusal(
            grant.id,
            grant.access_code,
            grant.duration_minutes,
            grant.created_at,
        ) {
            Some(kind) => Err(kind),
            None => Ok(grant),
        }
    }

    /// The state with one more record, issued last.
    pub open spec fn with_record(self, record: GuestAccessView) -> BarrierState {
        BarrierState { records: self.records.push(record), ..self }
    }

    /// The state after an access with these properties was asked for: it is
    /// there, pending, unless it was refused.
    pub open spec fn after_issue(self, grant: GuestAccessView) -> BarrierState {
        if self.issue_refusal(
            grant.id,
            grant.access_code,
            grant.duration_minutes,
            grant.created_at,
        ) is None {
            self.with_record(grant)
        } else {
            self
        }
    }

    /// Why a record that exists elsewhere cannot be taken in, if it cannot:
    /// its timestamps disagree with its status, or its id or its live code
    /// is taken.
    pub open spec fn restore_refusal(self, record: GuestAccessView) -> Option<ErrorKind> {
        if !record.wf() {
            Some(ErrorKind::Validation)
        } else if self.position(LookupView::ById { id: record.id }) is Some {
            Some(ErrorKind::Conflict)
        } else if record.is_live() && self.position(
            LookupView::LiveCode { code: record.access_code },
        ) is Some {
            Some(ErrorKind::Conflict)
        } else {
            None
        }
    }

    /// The state after a record that exists elsewhere was offered.
    pub open spec fn after_restore(self, record: GuestAccessView) -> BarrierState {
        if self.restore_refusal(record) is None {
            self.with_record(record)
        } else {
            self
        }
    }

    /// The state after a barrier reported an entry on `code` at `now`.
    pub open spec fn after_entry(
        self,
        code: Seq<char>,
        observed_vehicle: Option<Seq<char>>,
        barrier_id: Option<u128>,
        now: i64,
    ) -> BarrierState {
        match self.position(LookupView::Entry { code, now }) {
            Some(i) => BarrierState {
                records: self.records.update(i, self.records[i].entered(now)),
                log: self.log.push(
                    BarrierAccessLogView::of_guest(
                        self.records[i],
                        BarrierAction::Entry,
                        barrier_id,
                        observed_vehicle,
                        now,
                    ),
                ),
                ..self
            },
            None => self,
        }
    }

    /// What a barrier that reports an entry on `code` at `now` is told.
    pub open spec fn entry_result(self, code: Seq<char>, now: i64) -> Result<
        GuestAccessView,
        ErrorKind,
    > {
        match self.position(LookupView::Entry { code, now }) {
            Some(i) => Ok(self.records[i].entered(now)),
            None => Err(ErrorKind::NotFound),
        }
    }

    /// The state after a barrier reported an exit on `code` at `now`.
    pub open spec fn after_exit(self, code: Seq<char>, barrier_id: Option<u128>, now: i64) -> BarrierState {
        match self.position(LookupView::Exit { code }) {
            Some(i) => BarrierState {
                records: self.records.update(i, self.records[i].exited(now)),
                log: self.log.push(
                    BarrierAccessLogView::of_guest(
                        self.records[i],
                        BarrierAction::Exit,
                        barrier_id,
                        None,
                        now,
                    ),
                ),
                ..self
            },
            None => self,
        }
    }

    /// What a barrier that reports an exit on `code` at `now` is told.
    pub open spec fn exit_result(self, code: Seq<char>, now: i64) -> Result<
        GuestAccessView,
        ErrorKind,
    > {
        match self.position(LookupView::Exit { code }) {
            Some(i) => Ok(self.records[i].exited(now)),
            None => Err(ErrorKind::NotFound),
        }
    }

    /// What `requester` is told who asks to withdraw the access `id`: only
    /// its creator may, and only while it is pending.
    pub open spec fn cancel_result(self, id: u128, requester: u128) -> Result<(), ErrorKind> {
        match self.position(LookupView::ById { id }) {
            Some(i) => if self.records[i].created_by != requester {
                Err(ErrorKind::Forbidden)
            } else if self.records[i].status != GuestAccessStatus::Pending {
                Err(ErrorKind::NotFound)
            } else {
                Ok(())
            },
            None => Err(ErrorKind::NotFound),
        }
    }

    /// The state after `requester` asked to withdraw the access `id`.
    pub open spec fn after_cancel(self, id: u128, requester: u128) -> BarrierState {
        match self.position(LookupView::ById { id }) {
            Some(i) => if self.records[i].admits_cancel(requester) {
                BarrierState { records: self.records.update(i, self.records[i].cancelled()), ..self }
            } else {
                self
            },
            None => self,
        }
    }
}

/// The records whose window for a first entry has closed unused at `now`.
pub open spec fn stale_at(now: i64) -> spec_fn(GuestAccessView) -> bool {
    |r: GuestAccessView| r.is_stale(now)
}

/// The records of guests who are overstaying at `now` with the resident not
/// yet told.
pub open spec fn overstaying_at(now: i64) -> spec_fn(GuestAccessView) -> bool {
    |r: GuestAccessView| r.is_overstaying(now)
}

impl BarrierState {
    /// The state after the expiry sweep at `now`: every pending access whose
    /// deadline has passed is expired, and nothing else changes.
    pub open spec fn after_expiry_sweep(self, now: i64) -> BarrierState {
        BarrierState {
            records: self.records.map_values(|r: GuestAccessView| r.swept(now)),
            ..self
        }
    }

    /// The accesses that the overstay sweep at `now` reports, in the order
    /// they were issued.
    pub open spec fn overstays(self, now: i64) -> Seq<GuestAccessView> {
        self.records.filter(overstaying_at(now))
    }

    /// `page` is one page of the history of the complex `complex_id`: there
    /// is an order of all its accesses, each once and newest first, in which
    /// `page` is what follows the first `offset`, up to `limit` of them.
    pub open spec fn has_history_page(
        self,
        page: Seq<GuestAccessView>,
        complex_id: u128,
        limit: i64,
        offset: i64,
    ) -> bool {
        exists|all: Seq<GuestAccessView>|
            newest_first(all) && all.to_multiset() == self.records.filter(
                issued_in(complex_id),
            ).to_multiset() && #[trigger] is_page(page, all, limit, offset)
    }

    /// The state after a resident opened the barrier with their own account.
    pub open spec fn after_open(self, complex_id: u128, user_id: u128, now: i64) -> BarrierState {
        BarrierState {
            log: self.log.push(BarrierAccessLogView::of_resident(complex_id, user_id, now)),
            ..self
        }
    }

    /// The state with one more line in the audit log, written last.
    pub open spec fn with_line(self, line: BarrierAccessLogView) -> BarrierState {
        BarrierState { log: self.log.push(line), ..self }
    }

    /// `page` is one page of the barrier's history in the complex
    /// `complex_id`: there is an order of all its lines, each once and latest
    /// first, in which `page` is what follows the first `offset`, up to
    /// `limit` of them.
    pub open spec fn has_log_page(
        self,
        page: Seq<BarrierAccessLogView>,
        complex_id: u128,
        limit: i64,
        offset: i64,
    ) -> bool {
        exists|all: Seq<BarrierAccessLogView>|
            latest_first(all) && all.to_multiset() == self.log.filter(
                logged_in(complex_id),
            ).to_multiset() && #[trigger] is_log_page(page, all, limit, offset)
    }

    /// The name of the guest whose passage `line` records: the name on the
    /// access that the line refers to, where it refers to one that is there
    /// and that carries a name.
    pub open spec fn guest_name_for(self, line: BarrierAccessLogView) -> Option<Seq<char>> {
        match line.guest_access_id {
            Some(id) => match self.position(LookupView::ById { id }) {
                Some(i) => self.records[i].guest_name,
                None => None,
            },
            None => None,
        }
    }

    /// The state after the attempt to tell the resident of the entry under
    /// the access `id` ended in `delivery`.
    pub open spec fn after_entry_notice(self, id: u128, delivery: Delivery) -> BarrierState {
        match self.position(LookupView::ById { id }) {
            Some(i) => if delivery == Delivery::Delivered {
                BarrierState {
                    records: self.records.update(i, self.records[i].with_owner_notified()),
                    ..self
                }
            } else {
                self
            },
            None => self,
        }
    }

    /// The state after the attempt to tell the resident of the overstay under
    /// the access `id` ended in `delivery`.
    pub open spec fn after_overstay_notice(self, id: u128, delivery: Delivery) -> BarrierState {
        match self.position(LookupView::ById { id }) {
            Some(i) => if delivery == Delivery::Delivered {
                BarrierState {
                    records: self.records.update(i, self.records[i].with_overstay_notified()),
                    ..self
                }
            } else {
                self
            },
            None => self,
        }
    }

    /// The state after the access `id` was given a link to its QR code.
    pub open spec fn after_qr_code(self, id: u128, url: Seq<char>) -> BarrierState {
        match self.position(LookupView::ById { id }) {
            Some(i) => BarrierState {
                records: self.records.update(i, self.records[i].with_qr_code_url(url)),
                ..self
            },
            None => self,
        }
    }
}

/// The accesses of the complex `complex_id` that are pending or active.
pub open spec fn live_in(complex_id: u128) -> spec_fn(GuestAccessView) -> bool {
    |r: GuestAccessView| r.complex_id == complex_id && r.is_live()
}

/// The accesses of the complex `complex_id`, whatever their status.
pub open spec fn issued_in(complex_id: u128) -> spec_fn(GuestAccessView) -> bool {
    |r: GuestAccessView| r.complex_id == complex_id
}

/// The lines of the audit log that belong to the complex `complex_id`.
pub open spec fn logged_in(complex_id: u128) -> spec_fn(BarrierAccessLogView) -> bool {
    |l: BarrierAccessLogView| l.complex_id == complex_id
}

/// The lines stand latest first: none was written before one that follows
/// it.
pub open spec fn latest_first(lines: Seq<BarrierAccessLogView>) -> bool {
    forall|i: int, j: int|
        0 <= i < j < lines.len() ==> (#[trigger] lines[i]).created_at >= (
        #[trigger] lines[j]).created_at
}

/// `page` is what a reader who skips `offset` lines and then takes `limit`
/// finds in `all`.
pub open spec fn is_log_page(
    page: Seq<BarrierAccessLogView>,
    all: Seq<BarrierAccessLogView>,
    limit: i64,
    offset: i64,
) -> bool {
    let from = if offset < all.len() {
        offset as int
    } else {
        all.len() as int
    };
    let to = if from + limit < all.len() {
        from + limit
    } else {
        all.len() as int
    };
    page == all.subrange(from, to)
}

/// The accesses stand newest first: none was issued before one that follows
/// it.
pub open spec fn newest_first(records: Seq<GuestAccessView>) -> bool {
    forall|i: int, j: int|
        0 <= i < j < records.len() ==> (#[trigger] records[i]).created_at >= (
        #[trigger] records[j]).created_at
}

/// `page` is what a reader who skips `offset` accesses and then takes `limit`
/// finds in `all`.
pub open spec fn is_page(
    page: Seq<GuestAccessView>,
    all: Seq<GuestAccessView>,
    limit: i64,
    offset: i64,
) -> bool {
    let from = if offset < all.len() {
        offset as int
    } else {
        all.len() as int
    };
    let to = if from + limit < all.len() {
        from + limit
    } else {
        all.len() as int
    };
    page == all.subrange(from, to)
}

/// An answer of the service as a mathematical value: the access that was
/// returned, or the kind of the refusal.
pub open spec fn answer_view(r: AppResult<GuestAccess>) -> Result<GuestAccessView, ErrorKind> {
    match r {
        Ok(a) => Ok(a@),
        Err(e) => Err(e.spec_kind()),
    }
}

/// An answer without a value as a mathematical value.
pub open spec fn outcome_view(r: AppResult<()>) -> Result<(), ErrorKind> {
    match r {
        Ok(_) => Ok(()),
        Err(e) => Err(e.spec_kind()),
    }
}

/// The request for `grant`, whose code is a one-time code, took the service
/// from `before` to `after` and was answered with `answer`.
pub open spec fn issued_under(
    before: BarrierState,
    after: BarrierState,
    answer: Result<GuestAccessView, ErrorKind>,
    grant: GuestAccessView,
) -> bool {
    &&& is_one_time_code(grant.access_code)
    &&& after == before.after_issue(grant)
    &&& answer == before.issue_result(grant)
}

/// The name under which a guest who gave none is mentioned.
pub open spec fn default_guest_name() -> Seq<char> {
    "Гость"@
}

/// The name under which the guest of an access is mentioned.
pub open spec fn guest_name_of(access: GuestAccessView) -> Seq<char> {
    match access.guest_name {
        Some(name) => name,
        None => default_guest_name(),
    }
}

/// What a QR code for the access code `code` holds.
pub open spec fn qr_payload_text(code: Seq<char>) -> Seq<char> {
    "LOCALHOOD:"@ + code
}

/// The link that embeds a PNG picture given in base64.
pub open spec fn png_data_url(encoded: Seq<char>) -> Seq<char> {
    "data:image/png;base64,"@ + encoded
}

/// A picture of this many bytes can be written in base64.
pub open spec fn fits_base64(len: nat) -> bool {
    (len / 3 + 1) * 4 <= usize::MAX
}

/// Issues guest accesses and processes what the barrier and the residents
/// report. It owns the records and the audit log; nothing else changes them.
pub struct BarrierService {
    sms_service: SmsService,
    records: Vec<GuestAccess>,
    log: Vec<BarrierAccessLog>,
    max_duration_minutes: i32,
}

/// The views of a sequence of records.
pub open spec fn record_views(records: Seq<GuestAccess>) -> Seq<GuestAccessView> {
    Seq::new(records.len(), |i: int| records[i]@)
}

/// The views of a sequence of log lines.
pub open spec fn log_views(log: Seq<BarrierAccessLog>) -> Seq<BarrierAccessLogView> {
    Seq::new(log.len(), |i: int| log[i]@)
}

impl View for BarrierService {
    type V = BarrierState;

    closed spec fn view(&self) -> BarrierState {
        BarrierState {
            records: record_views(self.records@),
            log: log_views(self.log@),
            max_duration_minutes: self.max_duration_minutes,
        }
    }
}

/// The text of the refusal when no access can be entered on a code.
pub open spec fn entry_refused_text() -> Seq<char> {
    "Код доступа не найден или истёк"@
}

/// The text of the refusal when no access can be left on a code.
pub open spec fn exit_refused_text() -> Seq<char> {
    "Активный гостевой доступ не найден"@
}

/// The text of the refusal when there is no access to withdraw.
pub open spec fn cancel_refused_text() -> Seq<char> {
    "Гостевой доступ не найден"@
}

impl BarrierService {
    /// The message composer this service was set up with.
    pub closed spec fn spec_sms_service(&self) -> SmsService {
        self.sms_service
    }

    /// A service with no records yet and the default ceiling on a visit.
    pub fn new(sms_service: SmsService) -> (r: Self)
        ensures
            r@.wf(),
            r@.records.len() == 0,
            r@.log.len() == 0,
            r@.max_duration_minutes == DEFAULT_MAX_DURATION_MINUTES,
            r.spec_sms_service() == sms_service,
    {
        BarrierService {
            sms_service,
            records: Vec::new(),
            log: Vec::new(),
            max_duration_minutes: DEFAULT_MAX_DURATION_MINUTES,
        }
    }

    /// A service with no records yet and `max_duration_minutes` as the
    /// ceiling on a visit.
    pub fn with_max_duration(sms_service: SmsService, max_duration_minutes: i32) -> (r: Self)
        ensures
            r@.wf(),
            r@.records.len() == 0,
            r@.log.len() == 0,
            r@.max_duration_minutes == max_duration_minutes,
            r.spec_sms_service() == sms_service,
    {
        BarrierService { sms_service, records: Vec::new(), log: Vec::new(), max_duration_minutes }
    }

    /// Issues an access under the given id and code.
    ///
    /// Refused with `Validation` where the visit is longer than the ceiling
    /// or its deadline cannot be represented, and with `Conflict` where the
    /// id is taken or the code is carried by an access that is still live.
    /// Else the access is there, pending until `now + duration_minutes`, and
    /// a copy is returned. Nobody is notified.
    pub fn issue_guest_access(
        &mut self,
        id: u128,
        access_code: String,
        complex_id: u128,
        user_id: u128,
        guest_name: Option<String>,
        guest_phone: Option<String>,
        vehicle_number: Option<String>,
        duration_minutes: i32,
        now: i64,
    ) -> (r: AppResult<GuestAccess>)
        requires
            old(self)@.wf(),
        ensures
            final(self)@.wf(),
            final(self).spec_sms_service() == old(self).spec_sms_service(),
            final(self)@ == old(self)@.after_issue(
                GuestAccessView::issued(
                    id,
                    complex_id,
                    user_id,
                    text_view(guest_name),
                    text_view(guest_phone),
                    text_view(vehicle_number),
                    access_code@,
                    duration_minutes,
                    now,
                ),
            ),
            answer_view(r) == old(self)@.issue_result(
                GuestAccessView::issued(
                    id,
                    complex_id,
                    user_id,
                    text_view(guest_name),
                    text_view(guest_phone),
                    text_view(vehicle_number),
                    access_code@,
                    duration_minutes,
                    now,
                ),
            ),
    {
        if duration_minutes > self.max_duration_minutes {
            return Err(AppError::Validation(String::from_str("Слишком долгий гостевой доступ")));
        }
        let by_id = Lookup::ById { id };
        let by_code = Lookup::LiveCode { code: access_code.clone() };
        let id_taken = self.find(&by_id).is_some();
        let code_taken = self.find(&by_code).is_some();
        match GuestAccess::issue(
            id,
            complex_id,
            user_id,
            guest_name,
            guest_phone,
            vehicle_number,
            access_code,
            duration_minutes,
            now,
        ) {
            None => Err(AppError::Validation(String::from_str("Недопустимое время доступа"))),
            Some(record) => {
                if id_taken || code_taken {
                    Err(AppError::Conflict(String::from_str("Код доступа уже используется")))
                } else {
                    proof {
                        lemma_position_from(old(self)@.records, by_id@, 0);
                        lemma_position_from(old(self)@.records, by_code@, 0);
                    }
                    let answer = record.clone();
                    self.records.push(record);
                    assert(self@.records =~= old(self)@.records.push(record@));
                    Ok(answer)
                }
            },
        }
    }

    /// Takes in a record that exists elsewhere, as it is.
    ///
    /// Refused with `Validation` where its timestamps disagree with its
    /// status, and with `Conflict` where its id is taken, or where it is
    /// live and its code is carried by another live access.
    pub fn restore(&mut self, record: GuestAccess) -> (r: AppResult<()>)
        requires
            old(self)@.wf(),
        ensures
            final(self)@.wf(),
            final(self).spec_sms_service() == old(self).spec_sms_service(),
            final(self)@ == old(self)@.after_restore(record@),
            outcome_view(r) == match old(self)@.restore_refusal(record@) {
                Some(kind) => Err::<(), ErrorKind>(kind),
                None => Ok::<(), ErrorKind>(()),
            },
    {
        if !record.is_well_formed() {
            return Err(AppError::Validation(String::from_str("Некорректная запись доступа")));
        }
        let by_id = Lookup::ById { id: record.id };
        if self.find(&by_id).is_some() {
            return Err(AppError::Conflict(String::from_str("Запись доступа уже существует")));
        }
        let by_code = Lookup::LiveCode { code: record.access_code.clone() };
        if !record.status.is_terminal() && self.find(&by_code).is_some() {
            return Err(AppError::Conflict(String::from_str("Код доступа уже используется")));
        }
        proof {
            lemma_position_from(old(self)@.records, by_id@, 0);
            lemma_position_from(old(self)@.records, by_code@, 0);
        }
        self.records.push(record);
        assert(self@.records =~= old(self)@.records.push(record@));
        Ok(())
    }

    fn find(&self, lookup: &Lookup) -> (r: Option<usize>)
        ensures
            match r {
                Some(i) => self@.position(lookup@) == Some(i as int) && i < self.records.len(),
                None => self@.position(lookup@) is None,
            },
    {
        let n = self.records.len();
        let mut i: usize = 0;
        while i < n
            invariant
                n == self.records.len(),
                i <= n,
                self@.position(lookup@) == position_from(self@.records, lookup@, i as int),
            decreases n - i,
        {
            if lookup.admits(&self.records[i]) {
                return Some(i);
            }
            i += 1;
        }
        None
    }

    /// The barrier reports that a vehicle asks to enter on `access_code` at
    /// `now`.
    ///
    /// Admits the guest where a pending access carries that code and its
    /// deadline is still ahead: the access becomes active, `now` is stamped
    /// as the entry time, and a line is appended to the audit log, with the
    /// vehicle seen at the barrier where there is one. In every other case
    /// nothing changes and the answer is `NotFound`.
    pub fn process_entry(
        &mut self,
        access_code: &str,
        vehicle_number: Option<&str>,
        barrier_id: Option<u128>,
        now: i64,
    ) -> (r: AppResult<GuestAccess>)
        requires
            old(self)@.wf(),
        ensures
            final(self)@.wf(),
            final(self).spec_sms_service() == old(self).spec_sms_service(),
            final(self)@ == old(self)@.after_entry(
                access_code@,
                match vehicle_number {
                    Some(v) => Some(v@),
                    None => None,
                },
                barrier_id,
                now,
            ),
            answer_view(r) == old(self)@.entry_result(access_code@, now),
            r is Err ==> (r matches Err(AppError::NotFound(text)) && text@ == entry_refused_text()),
    {
        let lookup = Lookup::Entry { code: access_code.to_owned(), now };
        match self.find(&lookup) {
            Some(i) => {
                proof {
                    lemma_position_from(old(self)@.records, lookup@, 0);
                }
                let before = self.records[i].clone();
                let mut after = self.records[i].clone();
                after.status = GuestAccessStatus::Active;
                after.entered_at = Some(now);
                let line = BarrierAccessLog {
                    complex_id: before.complex_id,
                    barrier_id,
                    user_id: None,
                    guest_access_id: Some(before.id),
                    action: BarrierAction::Entry,
                    vehicle_number: match vehicle_number {
                        Some(v) => Some(v.to_owned()),
                        None => clone_text(&before.vehicle_number),
                    },
                    created_at: now,
                };
                let answer = after.clone();
                self.records[i] = after;
                self.log.push(line);
                assert(final(self)@.records =~= old(self)@.records.update(
                    i as int,
                    old(self)@.records[i as int].entered(now),
                ));
                assert(self@.log =~= old(self)@.log.push(line@));
                Ok(answer)
            },
            None => Err(AppError::NotFound(String::from_str("Код доступа не найден или истёк"))),
        }
    }

    /// The barrier reports that a vehicle asks to leave on `access_code` at
    /// `now`.
    ///
    /// Lets the guest out where an active access carries that code: the
    /// access becomes completed, `now` is stamped as the exit time, and a
    /// line is appended to the audit log. In every other case, a pending
    /// access that was never entered among them, nothing changes and the
    /// answer is `NotFound`.
    pub fn process_exit(&mut self, access_code: &str, barrier_id: Option<u128>, now: i64) -> (r:
        AppResult<GuestAccess>)
        requires
            old(self)@.wf(),
        ensures
            final(self)@.wf(),
            final(self).spec_sms_service() == old(self).spec_sms_service(),
            final(self)@ == old(self)@.after_exit(access_code@, barrier_id, now),
            answer_view(r) == old(self)@.exit_result(access_code@, now),
            r is Err ==> (r matches Err(AppError::NotFound(text)) && text@ == exit_refused_text()),
    {
        let lookup = Lookup::Exit { code: access_code.to_owned() };
        match self.find(&lookup) {
            Some(i) => {
                proof {
                    lemma_position_from(old(self)@.records, lookup@, 0);
                }
                let before = self.records[i].clone();
                let mut after = self.records[i].clone();
                after.status = GuestAccessStatus::Completed;
                after.exited_at = Some(now);
                let line = BarrierAccessLog {
                    complex_id: before.complex_id,
                    barrier_id,
                    user_id: None,
                    guest_access_id: Some(before.id),
                    action: BarrierAction::Exit,
                    vehicle_number: clone_text(&before.vehicle_number),
                    created_at: now,
                };
                let answer = after.clone();
                self.records[i] = after;
                self.log.push(line);
                assert(final(self)@.records =~= old(self)@.records.update(
                    i as int,
                    old(self)@.records[i as int].exited(now),
                ));
                assert(self@.log =~= old(self)@.log.push(line@));
                Ok(answer)
            },
            None => Err(
                AppError::NotFound(String::from_str("Активный гостевой доступ не найден")),
            ),
        }
    }

    /// The resident `user_id` asks to withdraw the access `access_id`.
    ///
    /// Only the resident who issued an access may withdraw it, and only while
    /// it is pending: anyone else is answered `Forbidden`, whatever the
    /// status; the creator is answered `NotFound` once the access is active
    /// or in a terminal status, as is anyone who names an access that does
    /// not exist. Nothing changes unless the answer is `Ok`.
    pub fn cancel_access(&mut self, access_id: u128, user_id: u128) -> (r: AppResult<()>)
        requires
            old(self)@.wf(),
        ensures
            final(self)@.wf(),
            final(self).spec_sms_service() == old(self).spec_sms_service(),
            final(self)@ == old(self)@.after_cancel(access_id, user_id),
            outcome_view(r) == old(self)@.cancel_result(access_id, user_id),
            r matches Err(AppError::NotFound(text)) ==> text@ == cancel_refused_text(),
    {
        let lookup = Lookup::ById { id: access_id };
        match self.find(&lookup) {
            Some(i) => {
                proof {
                    lemma_position_from(old(self)@.records, lookup@, 0);
                }
                if self.records[i].created_by != user_id {
                    Err(AppError::Forbidden)
                } else if self.records[i].status != GuestAccessStatus::Pending {
                    Err(AppError::NotFound(String::from_str("Гостевой доступ не найден")))
                } else {
                    self.records[i].status = GuestAccessStatus::Cancelled;
                    assert(final(self)@.records =~= old(self)@.records.update(
                        i as int,
                        old(self)@.records[i as int].cancelled(),
                    ));
                    Ok(())
                }
            },
            None => Err(AppError::NotFound(String::from_str("Гостевой доступ не найден"))),
        }
    }

    /// The expiry sweep at `now`: expires every pending access whose deadline
    /// has passed, and returns how many those were. Run again at the same
    /// moment it finds none.
    pub fn expire_old_access(&mut self, now: i64) -> (count: usize)
        requires
            old(self)@.wf(),
        ensures
            final(self)@.wf(),
            final(self).spec_sms_service() == old(self).spec_sms_service(),
            final(self)@ == old(self)@.after_expiry_sweep(now),
            count == old(self)@.records.filter(stale_at(now)).len(),
    {
        let n = self.records.len();
        let mut count: usize = 0;
        let mut i: usize = 0;
        proof {
            assert(old(self)@.records.take(0) =~= Seq::<GuestAccessView>::empty());
            reveal(Seq::filter);
        }
        while i < n
            invariant
                n == self.records.len(),
                n == old(self)@.records.len(),
                i <= n,
                count <= i,
                count == old(self)@.records.take(i as int).filter(stale_at(now)).len(),
                self@.log == old(self)@.log,
                self@.max_duration_minutes == old(self)@.max_duration_minutes,
                self.spec_sms_service() == old(self).spec_sms_service(),
                forall|j: int| 0 <= j < i ==> #[trigger] self@.records[j] == old(self)@.records[j].swept(now),
                forall|j: int| i <= j < n ==> #[trigger] self@.records[j] == old(self)@.records[j],
            decreases n - i,
        {
            let ghost before = self@.records;
            proof {
                let seen = old(self)@.records.take(i as int);
                assert(old(self)@.records.take(i + 1) =~= seen.push(old(self)@.records[i as int]));
                seen.lemma_filter_push(old(self)@.records[i as int], stale_at(now));
                assert(stale_at(now)(before[i as int]) == before[i as int].is_stale(now));
            }
            if self.records[i].status == GuestAccessStatus::Pending && self.records[i].expires_at
                <= now {
                self.records[i].status = GuestAccessStatus::Expired;
                count += 1;
                assert(self@.records =~= before.update(i as int, before[i as int].expired()));
            }
            i += 1;
        }
        proof {
            assert(old(self)@.records.take(n as int) =~= old(self)@.records);
            assert(self@.records =~= old(self)@.after_expiry_sweep(now).records);
        }
        count
    }

    /// The overstay sweep at `now`: the accesses of guests who entered, have
    /// not left, are past their authorised time, and whose resident has not
    /// been told yet; in the order they were issued. Nothing changes: the
    /// caller tries to notify each resident and reports how that went with
    /// `confirm_overstay_notice`.
    pub fn check_overstays(&self, now: i64) -> (due: Vec<GuestAccess>)
        ensures
            record_views(due@) == self@.overstays(now),
    {
        let n = self.records.len();
        let mut due: Vec<GuestAccess> = Vec::new();
        let mut i: usize = 0;
        proof {
            assert(self@.records.take(0) =~= Seq::<GuestAccessView>::empty());
            reveal(Seq::filter);
            assert(record_views(due@) =~= self@.records.take(0).filter(overstaying_at(now)));
        }
        while i < n
            invariant
                n == self.records.len(),
                i <= n,
                record_views(due@) == self@.records.take(i as int).filter(overstaying_at(now)),
            decreases n - i,
        {
            proof {
                let seen = self@.records.take(i as int);
                assert(self@.records.take(i + 1) =~= seen.push(self@.records[i as int]));
                seen.lemma_filter_push(self@.records[i as int], overstaying_at(now));
            }
            if self.records[i].is_overstaying(now) {
                let ghost before = record_views(due@);
                due.push(self.records[i].clone());
                assert(record_views(due@) =~= before.push(self@.records[i as int]));
            }
            i += 1;
        }
        proof {
            assert(self@.records.take(n as int) =~= self@.records);
        }
        due
    }

    /// Reports how the attempt to tell the resident of the entry under
    /// `access_id` ended. The access is marked as notified only where the
    /// message was delivered; a failed attempt changes nothing. The answer
    /// says whether the access was marked.
    pub fn confirm_entry_notice(&mut self, access_id: u128, delivery: Delivery) -> (marked: bool)
        requires
            old(self)@.wf(),
        ensures
            final(self)@.wf(),
            final(self).spec_sms_service() == old(self).spec_sms_service(),
            final(self)@ == old(self)@.after_entry_notice(access_id, delivery),
            marked == (delivery == Delivery::Delivered && old(self)@.position(
                LookupView::ById { id: access_id },
            ) is Some),
    {
        let lookup = Lookup::ById { id: access_id };
        match self.find(&lookup) {
            Some(i) => {
                proof {
                    lemma_position_from(old(self)@.records, lookup@, 0);
                }
                match delivery {
                    Delivery::Delivered => {
                        self.records[i].owner_notified = true;
                        assert(final(self)@.records =~= old(self)@.records.update(
                            i as int,
                            old(self)@.records[i as int].with_owner_notified(),
                        ));
                        true
                    },
                    Delivery::Failed => false,
                }
            },
            None => false,
        }
    }

    /// Reports how the attempt to tell the resident of the overstay under
    /// `access_id` ended. The access is marked as notified only where the
    /// message was delivered, so that a failed attempt is made again by the
    /// next sweep and a delivered one never is. The status does not change.
    /// The answer says whether the access was marked.
    pub fn confirm_overstay_notice(&mut self, access_id: u128, delivery: Delivery) -> (marked:
        bool)
        requires
            old(self)@.wf(),
        ensures
            final(self)@.wf(),
            final(self).spec_sms_service() == old(self).spec_sms_service(),
            final(self)@ == old(self)@.after_overstay_notice(access_id, delivery),
            marked == (delivery == Delivery::Delivered && old(self)@.position(
                LookupView::ById { id: access_id },
            ) is Some),
    {
        let lookup = Lookup::ById { id: access_id };
        match self.find(&lookup) {
            Some(i) => {
                proof {
                    lemma_position_from(old(self)@.records, lookup@, 0);
                }
                match delivery {
                    Delivery::Delivered => {
                        self.records[i].overstay_notified = true;
                        assert(final(self)@.records =~= old(self)@.records.update(
                            i as int,
                            old(self)@.records[i as int].with_overstay_notified(),
                        ));
                        true
                    },
                    Delivery::Failed => false,
                }
            },
            None => false,
        }
    }
}

impl BarrierService {
    /// Issues an access for a guest of the resident `user_id` in the complex
    /// `complex_id`, good for a first entry until `now + duration_minutes`,
    /// under a fresh id and a fresh six-digit code.
    ///
    /// The id and the code are drawn at random; with them the request is
    /// decided as `issue_guest_access` says: refused with `Validation` where
    /// the visit is longer than the ceiling, with `Conflict` where the code
    /// drawn is carried by a live access.
    pub fn create_guest_access(
        &mut self,
        complex_id: u128,
        user_id: u128,
        guest_name: Option<String>,
        guest_phone: Option<String>,
        vehicle_number: Option<String>,
        duration_minutes: i32,
        now: i64,
    ) -> (r: AppResult<GuestAccess>)
        requires
            old(self)@.wf(),
        ensures
            final(self)@.wf(),
            final(self).spec_sms_service() == old(self).spec_sms_service(),
            exists|id: u128, code: Seq<char>| #[trigger]
                issued_under(
                    old(self)@,
                    final(self)@,
                    answer_view(r),
                    GuestAccessView::issued(
                        id,
                        complex_id,
                        user_id,
                        text_view(guest_name),
                        text_view(guest_phone),
                        text_view(vehicle_number),
                        code,
                        duration_minutes,
                        now,
                    ),
                ),
    {
        let id = new_identifier();
        let access_code = AuthService::generate_access_code();
        let ghost code = access_code@;
        let r = self.issue_guest_access(
            id,
            access_code,
            complex_id,
            user_id,
            guest_name,
            guest_phone,
            vehicle_number,
            duration_minutes,
            now,
        );
        assert(issued_under(
            old(self)@,
            self@,
            answer_view(r),
            GuestAccessView::issued(
                id,
                complex_id,
                user_id,
                text_view(guest_name),
                text_view(guest_phone),
                text_view(vehicle_number),
                code,
                duration_minutes,
                now,
            ),
        ));
        r
    }

    /// What to tell the resident of `access` about the guest's entry at
    /// `now`, given the phone number that was found for the resident.
    ///
    /// Nothing where no phone number was found. Else the decision of the
    /// message service on a text that names the guest, or "Гость" where the
    /// access names none, and the time of day of `now` in UTC. For a moment
    /// whose time of day cannot be told, further than 8 * 10^18 microseconds
    /// from the epoch, there may be nothing to tell.
    pub fn entry_notification(&self, access: &GuestAccess, owner_phone: Option<&str>, now: i64) -> (r:
        Option<SmsDecision>)
        ensures
            owner_phone is None ==> r is None,
            owner_phone is Some && -8_000_000_000_000_000_000 <= now <= 8_000_000_000_000_000_000
                ==> r is Some,
            r matches Some(d) ==> owner_phone is Some && self.spec_sms_service().decides(
                d,
                owner_phone->0@,
                guest_entry_text(guest_name_of(access@), clock_text(now)),
            ),
    {
        match owner_phone {
            None => None,
            Some(phone) => match utc_clock_text(now) {
                None => None,
                Some(time) => {
                    let d = match &access.guest_name {
                        Some(name) => self.sms_service.guest_entry_message(
                            phone,
                            name.as_str(),
                            time.as_str(),
                        ),
                        None => self.sms_service.guest_entry_message(phone, "Гость", time.as_str()),
                    };
                    Some(d)
                },
            },
        }
    }

    /// What to tell the resident of `access` about the guest's overstay,
    /// given the phone number that was found for the resident.
    ///
    /// Nothing where no phone number was found. Else the decision of the
    /// message service on a text that names the guest, or "Гость" where the
    /// access names none, and the minutes that were granted.
    pub fn overstay_notification(&self, access: &GuestAccess, owner_phone: Option<&str>) -> (r:
        Option<SmsDecision>)
        ensures
            r is Some <==> owner_phone is Some,
            r matches Some(d) ==> self.spec_sms_service().decides(
                d,
                owner_phone->0@,
                overstay_text(guest_name_of(access@), access.duration_minutes),
            ),
    {
        match owner_phone {
            None => None,
            Some(phone) => {
                let d = match &access.guest_name {
                    Some(name) => self.sms_service.overstay_message(
                        phone,
                        name.as_str(),
                        access.duration_minutes,
                    ),
                    None => self.sms_service.overstay_message(
                        phone,
                        "Гость",
                        access.duration_minutes,
                    ),
                };
                Some(d)
            },
        }
    }

    /// Gives the access `access_id` the link to its QR code. The answer says
    /// whether there is such an access.
    pub fn attach_qr_code(&mut self, access_id: u128, url: String) -> (found: bool)
        requires
            old(self)@.wf(),
        ensures
            final(self)@.wf(),
            final(self).spec_sms_service() == old(self).spec_sms_service(),
            final(self)@ == old(self)@.after_qr_code(access_id, url@),
            found == old(self)@.position(LookupView::ById { id: access_id }) is Some,
    {
        let lookup = Lookup::ById { id: access_id };
        match self.find(&lookup) {
            Some(i) => {
                proof {
                    lemma_position_from(old(self)@.records, lookup@, 0);
                }
                self.records[i].qr_code_url = Some(url);
                assert(final(self)@.records =~= old(self)@.records.update(
                    i as int,
                    old(self)@.records[i as int].with_qr_code_url(url@),
                ));
                true
            },
            None => false,
        }
    }

    /// The access `access_id`, if there is one.
    pub fn get(&self, access_id: u128) -> (r: Option<GuestAccess>)
        ensures
            match r {
                Some(a) => self@.position(LookupView::ById { id: access_id }) matches Some(i)
                    && a@ == self@.records[i],
                None => self@.position(LookupView::ById { id: access_id }) is None,
            },
    {
        let lookup = Lookup::ById { id: access_id };
        match self.find(&lookup) {
            Some(i) => Some(self.records[i].clone()),
            None => None,
        }
    }

    /// The audit log, oldest line first.
    pub fn access_log(&self) -> (log: &Vec<BarrierAccessLog>)
        ensures
            log_views(log@) == self@.log,
    {
        &self.log
    }

    /// The ceiling on a visit's length, in minutes.
    pub fn max_duration_minutes(&self) -> (m: i32)
        ensures
            m == self@.max_duration_minutes,
    {
        self.max_duration_minutes
    }

    /// The message service this service was set up with.
    pub fn sms_service(&self) -> (s: &SmsService)
        ensures
            *s == self.spec_sms_service(),
    {
        &self.sms_service
    }
}

/// Inserting into a sequence adds one element to what it holds.
proof fn lemma_insert_to_multiset(s: Seq<GuestAccessView>, k: int, x: GuestAccessView)
    requires
        0 <= k <= s.len(),
    ensures
        s.insert(k, x).to_multiset() == s.to_multiset().insert(x),
{
    let t = s.insert(k, x);
    vstd::seq_lib::to_multiset_remove(t, k);
    assert(t.remove(k) =~= s);
    t.to_multiset_ensures();
    assert(t.contains(x)) by {
        assert(t[k] == x);
    }
    assert(t.to_multiset() =~= s.to_multiset().insert(x));
}

/// Puts `record` into `out`, which stands newest first, before the first
/// access that was issued earlier than it.
fn insert_newest_first(out: &mut Vec<GuestAccess>, record: GuestAccess)
    requires
        newest_first(record_views(old(out)@)),
    ensures
        newest_first(record_views(final(out)@)),
        record_views(final(out)@).to_multiset() == record_views(old(out)@).to_multiset().insert(
            record@,
        ),
{
    let n = out.len();
    let mut k: usize = 0;
    while k < n && out[k].created_at >= record.created_at
        invariant
            n == out.len(),
            k <= n,
            out@ == old(out)@,
            forall|j: int| 0 <= j < k ==> (#[trigger] record_views(out@)[j]).created_at
                >= record.created_at,
        decreases n - k,
    {
        k += 1;
    }
    let ghost before = record_views(out@);
    let ghost x = record@;
    out.insert(k, record);
    proof {
        assert(record_views(out@) =~= before.insert(k as int, x));
        lemma_insert_to_multiset(before, k as int, x);
        let after = before.insert(k as int, x);
        assert forall|i: int, j: int| 0 <= i < j < after.len() implies (#[trigger] after[i]).created_at
            >= (#[trigger] after[j]).created_at by {
            if j < k {
                assert(after[i] == before[i] && after[j] == before[j]);
            } else if j == k {
                assert(after[i] == before[i]);
            } else if i < k {
                assert(after[i] == before[i] && after[j] == before[j - 1]);
            } else if i == k {
                assert(after[j] == before[j - 1]);
                assert(before[k as int].created_at < x.created_at);
                if j - 1 > k {
                    assert(before[k as int].created_at >= before[j - 1].created_at);
                }
            } else {
                assert(after[i] == before[i - 1] && after[j] == before[j - 1]);
            }
        }
    }
}

/// Inserting into a sequence of lines adds one line to what it holds.
proof fn lemma_insert_line_to_multiset(
    s: Seq<BarrierAccessLogView>,
    k: int,
    x: BarrierAccessLogView,
)
    requires
        0 <= k <= s.len(),
    ensures
        s.insert(k, x).to_multiset() == s.to_multiset().insert(x),
{
    let t = s.insert(k, x);
    vstd::seq_lib::to_multiset_remove(t, k);
    assert(t.remove(k) =~= s);
    t.to_multiset_ensures();
    assert(t.contains(x)) by {
        assert(t[k] == x);
    }
    assert(t.to_multiset() =~= s.to_multiset().insert(x));
}

/// Puts `line` into `out`, which stands latest first, before the first line
/// that was written earlier than it.
fn insert_latest_first(out: &mut Vec<BarrierAccessLog>, line: BarrierAccessLog)
    requires
        latest_first(log_views(old(out)@)),
    ensures
        latest_first(log_views(final(out)@)),
        log_views(final(out)@).to_multiset() == log_views(old(out)@).to_multiset().insert(line@),
{
    let n = out.len();
    let mut k: usize = 0;
    while k < n && out[k].created_at >= line.created_at
        invariant
            n == out.len(),
            k <= n,
            out@ == old(out)@,
            forall|j: int| 0 <= j < k ==> (#[trigger] log_views(out@)[j]).created_at
                >= line.created_at,
        decreases n - k,
    {
        k += 1;
    }
    let ghost before = log_views(out@);
    let ghost x = line@;
    out.insert(k, line);
    proof {
        assert(log_views(out@) =~= before.insert(k as int, x));
        lemma_insert_line_to_multiset(before, k as int, x);
        let after = before.insert(k as int, x);
        assert forall|i: int, j: int| 0 <= i < j < after.len() implies (#[trigger] after[i]).created_at
            >= (#[trigger] after[j]).created_at by {
            if j < k {
                assert(after[i] == before[i] && after[j] == before[j]);
            } else if j == k {
                assert(after[i] == before[i]);
            } else if i < k {
                assert(after[i] == before[i] && after[j] == before[j - 1]);
            } else if i == k {
                assert(after[j] == before[j - 1]);
                assert(before[k as int].created_at < x.created_at);
                if j - 1 > k {
                    assert(before[k as int].created_at >= before[j - 1].created_at);
                }
            } else {
                assert(after[i] == before[i - 1] && after[j] == before[j - 1]);
            }
        }
    }
}

impl BarrierService {
    fn newest_first_where(&self, complex_id: u128, live_only: bool) -> (out: Vec<GuestAccess>)
        ensures
            newest_first(record_views(out@)),
            record_views(out@).to_multiset() == self@.records.filter(
                if live_only {
                    live_in(complex_id)
                } else {
                    issued_in(complex_id)
                },
            ).to_multiset(),
    {
        let ghost keep = if live_only {
            live_in(complex_id)
        } else {
            issued_in(complex_id)
        };
        let n = self.records.len();
        let mut out: Vec<GuestAccess> = Vec::new();
        let mut i: usize = 0;
        proof {
            assert(self@.records.take(0) =~= Seq::<GuestAccessView>::empty());
            reveal(Seq::filter);
            assert(record_views(out@) =~= self@.records.take(0).filter(keep));
        }
        while i < n
            invariant
                n == self.records.len(),
                i <= n,
                keep == if live_only {
                    live_in(complex_id)
                } else {
                    issued_in(complex_id)
                },
                newest_first(record_views(out@)),
                record_views(out@).to_multiset() == self@.records.take(i as int).filter(
                    keep,
                ).to_multiset(),
            decreases n - i,
        {
            proof {
                let seen = self@.records.take(i as int);
                assert(self@.records.take(i + 1) =~= seen.push(self@.records[i as int]));
                seen.lemma_filter_push(self@.records[i as int], keep);
                vstd::seq_lib::to_multiset_build(seen.filter(keep), self@.records[i as int]);
            }
            let record = &self.records[i];
            if record.complex_id == complex_id && (!live_only || !record.status.is_terminal()) {
                insert_newest_first(&mut out, record.clone());
            }
            i += 1;
        }
        proof {
            assert(self@.records.take(n as int) =~= self@.records);
        }
        out
    }

    /// A resident opens the barrier of their complex with their own account:
    /// a line is appended to the audit log, and nothing else changes.
    pub fn open_barrier(&mut self, complex_id: u128, user_id: u128, now: i64)
        requires
            old(self)@.wf(),
        ensures
            final(self)@.wf(),
            final(self).spec_sms_service() == old(self).spec_sms_service(),
            final(self)@ == old(self)@.after_open(complex_id, user_id, now),
    {
        let line = BarrierAccessLog {
            complex_id,
            barrier_id: None,
            user_id: Some(user_id),
            guest_access_id: None,
            action: BarrierAction::Entry,
            vehicle_number: None,
            created_at: now,
        };
        self.log.push(line);
        assert(self@.log =~= old(self)@.log.push(line@));
    }

    /// Takes in a line of the audit log that was written elsewhere, as the
    /// last line.
    pub fn restore_line(&mut self, line: BarrierAccessLog)
        requires
            old(self)@.wf(),
        ensures
            final(self)@.wf(),
            final(self).spec_sms_service() == old(self).spec_sms_service(),
            final(self)@ == old(self)@.with_line(line@),
    {
        self.log.push(line);
        assert(self@.log =~= old(self)@.log.push(line@));
    }

    /// One page of the barrier's history in the complex `complex_id`: of all
    /// the lines of the audit log that belong to it, each once and latest
    /// first, the `limit` that follow the first `offset`. A negative `limit`
    /// or `offset` is refused with `Validation`.
    pub fn get_barrier_history(&self, complex_id: u128, limit: i64, offset: i64) -> (r: AppResult<
        Vec<BarrierAccessLog>,
    >)
        ensures
            r is Ok <==> limit >= 0 && offset >= 0,
            r matches Ok(page) ==> self@.has_log_page(log_views(page@), complex_id, limit, offset),
            r matches Err(e) ==> e.spec_kind() == ErrorKind::Validation,
    {
        if limit < 0 || offset < 0 {
            return Err(AppError::Validation(String::from_str("Недопустимая страница")));
        }
        let ghost keep = logged_in(complex_id);
        let n = self.log.len();
        let mut all: Vec<BarrierAccessLog> = Vec::new();
        let mut i: usize = 0;
        proof {
            assert(self@.log.take(0) =~= Seq::<BarrierAccessLogView>::empty());
            reveal(Seq::filter);
            assert(log_views(all@) =~= self@.log.take(0).filter(keep));
        }
        while i < n
            invariant
                n == self.log.len(),
                i <= n,
                keep == logged_in(complex_id),
                latest_first(log_views(all@)),
                log_views(all@).to_multiset() == self@.log.take(i as int).filter(
                    keep,
                ).to_multiset(),
            decreases n - i,
        {
            proof {
                let seen = self@.log.take(i as int);
                assert(self@.log.take(i + 1) =~= seen.push(self@.log[i as int]));
                seen.lemma_filter_push(self@.log[i as int], keep);
                vstd::seq_lib::to_multiset_build(seen.filter(keep), self@.log[i as int]);
            }
            if self.log[i].complex_id == complex_id {
                insert_latest_first(&mut all, self.log[i].clone());
            }
            i += 1;
        }
        proof {
            assert(self@.log.take(n as int) =~= self@.log);
        }
        let m = all.len();
        let from: usize = if (offset as u64) < (m as u64) {
            offset as usize
        } else {
            m
        };
        let to: usize = if (limit as u64) < ((m - from) as u64) {
            from + (limit as usize)
        } else {
            m
        };
        let mut page: Vec<BarrierAccessLog> = Vec::new();
        let mut k: usize = from;
        while k < to
            invariant
                from <= k <= to <= m,
                m == all.len(),
                log_views(page@) == log_views(all@).subrange(from as int, k as int),
            decreases to - k,
        {
            let ghost before = log_views(page@);
            page.push(all[k].clone());
            assert(log_views(page@) =~= before.push(all@[k as int]@));
            assert(log_views(page@) =~= log_views(all@).subrange(from as int, k + 1));
            k += 1;
        }
        proof {
            let whole = log_views(all@);
            assert(latest_first(whole) && whole.to_multiset() == self@.log.filter(
                logged_in(complex_id),
            ).to_multiset() && is_log_page(log_views(page@), whole, limit, offset));
        }
        Ok(page)
    }

    /// The name of the guest whose passage `line` records, if the line
    /// refers to an access that is there and that carries a name.
    pub fn guest_name_for(&self, line: &BarrierAccessLog) -> (name: Option<String>)
        ensures
            text_view(name) == self@.guest_name_for(line@),
    {
        match line.guest_access_id {
            Some(id) => {
                let lookup = Lookup::ById { id };
                match self.find(&lookup) {
                    Some(i) => clone_text(&self.records[i].guest_name),
                    None => None,
                }
            },
            None => None,
        }
    }

    /// The guests of the complex `complex_id` who are expected or inside:
    /// its pending and active accesses, each once, newest first.
    pub fn get_active_guests(&self, complex_id: u128) -> (guests: Vec<GuestAccess>)
        ensures
            newest_first(record_views(guests@)),
            record_views(guests@).to_multiset() == self@.records.filter(
                live_in(complex_id),
            ).to_multiset(),
    {
        self.newest_first_where(complex_id, true)
    }

    /// One page of the history of the complex `complex_id`: of all its
    /// accesses, each once and newest first, the `limit` that follow the
    /// first `offset`. A negative `limit` or `offset` is refused with
    /// `Validation`.
    pub fn get_access_history(&self, complex_id: u128, limit: i64, offset: i64) -> (r: AppResult<
        Vec<GuestAccess>,
    >)
        ensures
            r is Ok <==> limit >= 0 && offset >= 0,
            r matches Ok(page) ==> self@.has_history_page(
                record_views(page@),
                complex_id,
                limit,
                offset,
            ),
            r matches Err(e) ==> e.spec_kind() == ErrorKind::Validation,
    {
        if limit < 0 || offset < 0 {
            return Err(AppError::Validation(String::from_str("Недопустимая страница")));
        }
        let all = self.newest_first_where(complex_id, false);
        let n = all.len();
        let from: usize = if (offset as u64) < (n as u64) {
            offset as usize
        } else {
            n
        };
        let to: usize = if (limit as u64) < ((n - from) as u64) {
            from + (limit as usize)
        } else {
            n
        };
        let mut page: Vec<GuestAccess> = Vec::new();
        let mut i: usize = from;
        while i < to
            invariant
                from <= i <= to <= n,
                n == all.len(),
                record_views(page@) == record_views(all@).subrange(from as int, i as int),
            decreases to - i,
        {
            let ghost before = record_views(page@);
            page.push(all[i].clone());
            assert(record_views(page@) =~= before.push(all@[i as int]@));
            assert(record_views(page@) =~= record_views(all@).subrange(from as int, i + 1));
            i += 1;
        }
        proof {
            let whole = record_views(all@);
            assert(newest_first(whole) && whole.to_multiset() == self@.records.filter(
                issued_in(complex_id),
            ).to_multiset() && is_page(record_views(page@), whole, limit, offset));
        }
        Ok(page)
    }
}

/// The number of lines on a page of history where the reader names none.
pub const DEFAULT_PAGE_LIMIT: i64 = 50;

/// The largest number of lines on a page of history.
pub const MAX_PAGE_LIMIT: i64 = 100;

/// The number of lines on the page that a reader asks for: what they name,
/// or fifty, and a hundred at most.
pub open spec fn page_limit(limit: Option<i64>) -> i64 {
    let asked = match limit {
        Some(l) => l,
        None => DEFAULT_PAGE_LIMIT,
    };
    if asked < MAX_PAGE_LIMIT {
        asked
    } else {
        MAX_PAGE_LIMIT
    }
}

/// The number of lines that stand before the page that a reader asks for:
/// the number of the page, counted from zero, times the lines on a page; the
/// nearest number that can be represented where that one cannot.
pub open spec fn page_offset(page: Option<i64>, limit: Option<i64>) -> i64 {
    let skipped = match page {
        Some(p) => p,
        None => 0,
    } * page_limit(limit);
    if skipped > i64::MAX {
        i64::MAX
    } else if skipped < i64::MIN {
        i64::MIN
    } else {
        skipped as i64
    }
}

/// The limit and the offset of the page of history that a reader asks for.
pub fn history_window(page: Option<i64>, limit: Option<i64>) -> (r: (i64, i64))
    ensures
        r.0 == page_limit(limit),
        r.1 == page_offset(page, limit),
{
    let asked = match limit {
        Some(l) => l,
        None => DEFAULT_PAGE_LIMIT,
    };
    let lines = if asked < MAX_PAGE_LIMIT {
        asked
    } else {
        MAX_PAGE_LIMIT
    };
    let number = match page {
        Some(p) => p,
        None => 0,
    };
    let offset = match number.checked_mul(lines) {
        Some(skipped) => skipped,
        None => {
            assert(number * lines > i64::MAX || number * lines < i64::MIN);
            if (number < 0) != (lines < 0) {
                assert(number * lines <= 0) by (nonlinear_arith)
                    requires
                        (number < 0) != (lines < 0),
                ;
                i64::MIN
            } else {
                assert(number * lines >= 0) by (nonlinear_arith)
                    requires
                        (number < 0) == (lines < 0),
                ;
                i64::MAX
            }
        },
    };
    (lines, offset)
}

/// What a QR code for the access code `code` holds.
pub fn qr_payload(code: &str) -> (r: String)
    ensures
        r@ == qr_payload_text(code@),
{
    let mut r = String::from_str("LOCALHOOD:");
    r.append(code);
    r
}

/// The QR code of `data` as a PNG picture, or the refusal of the encoder as
/// an internal error.
pub fn generate_qr_code(data: &str) -> (r: AppResult<Vec<u8>>)
    ensures
        match r {
            Ok(png) => qr_code_png(data@) == Ok::<Seq<u8>, Seq<char>>(png@),
            Err(AppError::Internal(text)) => qr_code_png(data@) == Err::<Seq<u8>, Seq<char>>(
                text@,
            ),
            Err(_) => false,
        },
{
    match render_qr_code_png(data) {
        Ok(png) => Ok(png),
        Err(text) => Err(AppError::Internal(text)),
    }
}

/// The link that embeds the PNG picture `png`: `None` where the picture is
/// too large to be written in base64.
pub fn png_link(png: &Vec<u8>) -> (r: Option<String>)
    ensures
        match r {
            Some(url) => fits_base64(png@.len()) && url@ == png_data_url(base64_standard(png@)),
            None => !fits_base64(png@.len()),
        },
{
    if png.len() / 3 < usize::MAX / 4 {
        let encoded = base64_encode(png.as_slice());
        let mut url = String::from_str("data:image/png;base64,");
        url.append(encoded.as_str());
        Some(url)
    } else {
        None
    }
}

/// The text of the refusal when a picture is too large for a link.
pub open spec fn picture_too_large_text() -> Seq<char> {
    "QR code image is too large"@
}

/// The QR code of `data` as a link that embeds its PNG picture.
///
/// The refusal of the encoder comes back as an internal error under the
/// encoder's text, and so does a picture that is too large to be written in
/// base64.
pub fn generate_qr_code_base64(data: &str) -> (r: AppResult<String>)
    ensures
        match qr_code_png(data@) {
            Ok(png) => if fits_base64(png.len()) {
                r matches Ok(url) && url@ == png_data_url(base64_standard(png))
            } else {
                r matches Err(AppError::Internal(text)) && text@ == picture_too_large_text()
            },
            Err(refusal) => r matches Err(AppError::Internal(text)) && text@ == refusal,
        },
{
    match generate_qr_code(data) {
        Ok(png) => match png_link(&png) {
            Some(url) => Ok(url),
            None => Err(AppError::Internal(String::from_str("QR code image is too large"))),
        },
        Err(e) => Err(e),
    }
}

} // verus!
