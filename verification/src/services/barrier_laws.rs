//! What holds of the barrier service whatever it is asked to do, in whatever
//! order: stated over the states of `BarrierState` and proved from the
//! operations' definitions.

use vstd::prelude::*;
use crate::error::ErrorKind;
use crate::models::security::{
    AccessEvent, BarrierAccessLogView, BarrierAction, Delivery, GuestAccessStatus,
    GuestAccessView,
};
use crate::services::barrier_service::{
    BarrierState, LookupView, lemma_position_from, lemma_position_is, overstaying_at,
};

verus! {

/// One request to the barrier service.
pub enum Operation {
    Issue {
        id: u128,
        complex_id: u128,
        created_by: u128,
        guest_name: Option<Seq<char>>,
        guest_phone: Option<Seq<char>>,
        vehicle_number: Option<Seq<char>>,
        access_code: Seq<char>,
        duration_minutes: i32,
        now: i64,
    },
    Restore { record: GuestAccessView },
    Entry { code: Seq<char>, observed_vehicle: Option<Seq<char>>, barrier_id: Option<u128>, now: i64 },
    Exit { code: Seq<char>, barrier_id: Option<u128>, now: i64 },
    Cancel { id: u128, requester: u128 },
    ExpirySweep { now: i64 },
    EntryNotice { id: u128, delivery: Delivery },
    OverstayNotice { id: u128, delivery: Delivery },
    QrCode { id: u128, url: Seq<char> },
    Open { complex_id: u128, user_id: u128, now: i64 },
    RestoreLine { line: BarrierAccessLogView },
}

impl BarrierState {
    /// The state after one request.
    pub open spec fn apply(self, op: Operation) -> BarrierState {
        match op {
            Operation::Issue {
                id,
                complex_id,
                created_by,
                guest_name,
                guest_phone,
                vehicle_number,
                access_code,
                duration_minutes,
                now,
            } => self.after_issue(
                GuestAccessView::issued(
                    id,
                    complex_id,
                    created_by,
                    guest_name,
                    guest_phone,
                    vehicle_number,
                    access_code,
                    duration_minutes,
                    now,
                ),
            ),
            Operation::Restore { record } => self.after_restore(record),
            Operation::Entry { code, observed_vehicle, barrier_id, now } => self.after_entry(
                code,
                observed_vehicle,
                barrier_id,
                now,
            ),
            Operation::Exit { code, barrier_id, now } => self.after_exit(code, barrier_id, now),
            Operation::Cancel { id, requester } => self.after_cancel(id, requester),
            Operation::ExpirySweep { now } => self.after_expiry_sweep(now),
            Operation::EntryNotice { id, delivery } => self.after_entry_notice(id, delivery),
            Operation::OverstayNotice { id, delivery } => self.after_overstay_notice(id, delivery),
            Operation::QrCode { id, url } => self.after_qr_code(id, url),
            Operation::Open { complex_id, user_id, now } => self.after_open(
                complex_id,
                user_id,
                now,
            ),
            Operation::RestoreLine { line } => self.with_line(line),
        }
    }

    /// The state after a series of requests, first to last.
    pub open spec fn run(self, ops: Seq<Operation>) -> BarrierState
        decreases ops.len(),
    {
        if ops.len() == 0 {
            self
        } else {
            self.run(ops.drop_last()).apply(ops.last())
        }
    }

    /// Wherever both timestamps of a record are set, the entry is not after
    /// the exit.
    pub open spec fn timely(self) -> bool {
        forall|i: int|
            0 <= i < self.records.len() && (#[trigger] self.records[i]).entered_at is Some
                && self.records[i].exited_at is Some ==> self.records[i].entered_at->0
                <= self.records[i].exited_at->0
    }
}

impl Operation {
    /// The request does not stamp an exit that lies before the entry: the
    /// clock did not run backwards between the two, and a record taken in
    /// from elsewhere has its own timestamps in order.
    pub open spec fn keeps_time(self, s: BarrierState) -> bool {
        match self {
            Operation::Exit { code, barrier_id, now } => match s.position(
                LookupView::Exit { code },
            ) {
                Some(i) => s.records[i].entered_at->0 <= now,
                None => true,
            },
            Operation::Restore { record } => record.entered_at is Some && record.exited_at is Some
                ==> record.entered_at->0 <= record.exited_at->0,
            _ => true,
        }
    }
}

impl GuestAccessStatus {
    /// `to` can be reached from `self` along the edges of the transition
    /// graph.
    pub open spec fn reaches(self, to: GuestAccessStatus) -> bool {
        ||| self == to
        ||| self.steps_to(to)
        ||| (self == GuestAccessStatus::Pending && to == GuestAccessStatus::Completed)
    }
}

/// The transition graph has exactly four edges, none of them out of a
/// terminal status, and none from pending straight to completed.
pub proof fn law_transition_graph(from: GuestAccessStatus, to: GuestAccessStatus)
    ensures
        from.steps_to(to) <==> (from == GuestAccessStatus::Pending && (to
            == GuestAccessStatus::Active || to == GuestAccessStatus::Expired || to
            == GuestAccessStatus::Cancelled)) || (from == GuestAccessStatus::Active && to
            == GuestAccessStatus::Completed),
        from.spec_is_terminal() ==> !from.steps_to(to),
        !GuestAccessStatus::Pending.steps_to(GuestAccessStatus::Completed),
{
    if from.spec_next(AccessEvent::Entry) == Some(to) || from.spec_next(AccessEvent::Exit) == Some(
        to,
    ) || from.spec_next(AccessEvent::Cancel) == Some(to) || from.spec_next(AccessEvent::Expire)
        == Some(to) {
    }
    if from == GuestAccessStatus::Pending && to == GuestAccessStatus::Active {
        assert(from.spec_next(AccessEvent::Entry) == Some(to));
    }
    if from == GuestAccessStatus::Pending && to == GuestAccessStatus::Expired {
        assert(from.spec_next(AccessEvent::Expire) == Some(to));
    }
    if from == GuestAccessStatus::Pending && to == GuestAccessStatus::Cancelled {
        assert(from.spec_next(AccessEvent::Cancel) == Some(to));
    }
    if from == GuestAccessStatus::Active && to == GuestAccessStatus::Completed {
        assert(from.spec_next(AccessEvent::Exit) == Some(to));
    }
}

/// Reaching is walking: a status reaches itself, reaches what it steps to,
/// and reaches whatever is one more edge away from what it reaches.
pub proof fn law_reaches_is_a_walk(a: GuestAccessStatus, b: GuestAccessStatus, c: GuestAccessStatus)
    ensures
        a.reaches(a),
        a.steps_to(b) ==> a.reaches(b),
        a.reaches(b) && b.steps_to(c) ==> a.reaches(c),
        a.reaches(b) && b.reaches(c) ==> a.reaches(c),
        a.reaches(b) ==> a == b || a.steps_to(b) || (a.steps_to(GuestAccessStatus::Active)
            && GuestAccessStatus::Active.steps_to(b)),
{
    law_transition_graph(a, b);
    law_transition_graph(b, c);
    law_transition_graph(a, c);
    law_transition_graph(a, GuestAccessStatus::Active);
    law_transition_graph(GuestAccessStatus::Active, b);
}

/// Every request leaves the state well formed: timestamps agree with the
/// statuses, ids stay unique, and no two live accesses share a code.
pub proof fn law_well_formed(s: BarrierState, op: Operation)
    requires
        s.wf(),
    ensures
        s.apply(op).wf(),
{
    match op {
        Operation::Issue { id, access_code, .. } => {
            lemma_position_from(s.records, LookupView::ById { id }, 0);
            lemma_position_from(s.records, LookupView::LiveCode { code: access_code }, 0);
        },
        Operation::Restore { record } => {
            lemma_position_from(s.records, LookupView::ById { id: record.id }, 0);
            lemma_position_from(s.records, LookupView::LiveCode { code: record.access_code }, 0);
        },
        Operation::Entry { code, observed_vehicle, barrier_id, now } => {
            lemma_position_from(s.records, LookupView::Entry { code, now }, 0);
        },
        Operation::Exit { code, barrier_id, now } => {
            lemma_position_from(s.records, LookupView::Exit { code }, 0);
        },
        Operation::Cancel { id, requester } => {
            lemma_position_from(s.records, LookupView::ById { id }, 0);
        },
        Operation::ExpirySweep { now } => {},
        Operation::EntryNotice { id, delivery } => {
            lemma_position_from(s.records, LookupView::ById { id }, 0);
        },
        Operation::OverstayNotice { id, delivery } => {
            lemma_position_from(s.records, LookupView::ById { id }, 0);
        },
        Operation::QrCode { id, url } => {
            lemma_position_from(s.records, LookupView::ById { id }, 0);
        },
        Operation::Open { .. } => {},
        Operation::RestoreLine { .. } => {},
    }
}

/// No request removes a record or a line of the audit log, rewrites a line,
/// or changes the ceiling; and each record is, after the request, a later
/// state of what it was: the same grant with the same deadline, a status
/// that is the same or one edge further, timestamps that stay once set, and
/// notification flags that stay once raised.
pub proof fn law_one_step(s: BarrierState, op: Operation, i: int)
    requires
        s.wf(),
        0 <= i < s.records.len(),
    ensures
        s.records.len() <= s.apply(op).records.len(),
        s.log.is_prefix_of(s.apply(op).log),
        s.apply(op).max_duration_minutes == s.max_duration_minutes,
        s.apply(op).records[i].follows(s.records[i]),
        s.apply(op).records[i].status == s.records[i].status || s.records[i].status.steps_to(
            s.apply(op).records[i].status,
        ),
{
    match op {
        Operation::Issue { .. } => {},
        Operation::Restore { record } => {},
        Operation::Entry { code, observed_vehicle, barrier_id, now } => {
            lemma_position_from(s.records, LookupView::Entry { code, now }, 0);
            assert(GuestAccessStatus::Pending.spec_next(AccessEvent::Entry) == Some(
                GuestAccessStatus::Active,
            ));
        },
        Operation::Exit { code, barrier_id, now } => {
            lemma_position_from(s.records, LookupView::Exit { code }, 0);
            assert(GuestAccessStatus::Active.spec_next(AccessEvent::Exit) == Some(
                GuestAccessStatus::Completed,
            ));
        },
        Operation::Cancel { id, requester } => {
            lemma_position_from(s.records, LookupView::ById { id }, 0);
            assert(GuestAccessStatus::Pending.spec_next(AccessEvent::Cancel) == Some(
                GuestAccessStatus::Cancelled,
            ));
        },
        Operation::ExpirySweep { now } => {
            assert(GuestAccessStatus::Pending.spec_next(AccessEvent::Expire) == Some(
                GuestAccessStatus::Expired,
            ));
        },
        Operation::EntryNotice { id, delivery } => {
            lemma_position_from(s.records, LookupView::ById { id }, 0);
        },
        Operation::OverstayNotice { id, delivery } => {
            lemma_position_from(s.records, LookupView::ById { id }, 0);
        },
        Operation::QrCode { id, url } => {
            lemma_position_from(s.records, LookupView::ById { id }, 0);
        },
        Operation::Open { .. } => {},
        Operation::RestoreLine { .. } => {},
    }
}

impl GuestAccessView {
    /// `self` is what `earlier` has become over time: the same grant, a
    /// status reached by walking the transition graph, timestamps that stayed
    /// once set, and notification flags that stayed once raised.
    pub open spec fn descends_from(self, earlier: GuestAccessView) -> bool {
        &&& self.same_grant(earlier)
        &&& earlier.status.reaches(self.status)
        &&& (earlier.entered_at is Some ==> self.entered_at == earlier.entered_at)
        &&& (earlier.exited_at is Some ==> self.exited_at == earlier.exited_at)
        &&& (earlier.owner_notified ==> self.owner_notified)
        &&& (earlier.chairman_notified ==> self.chairman_notified)
        &&& (earlier.overstay_notified ==> self.overstay_notified)
    }
}

/// The audit log is written by the barrier alone. An entry or an exit that
/// is accepted appends exactly one line, which names the access and the
/// direction; so does a resident who opens the barrier, and a line that is
/// taken in from elsewhere. Every other request, a refused entry or exit
/// among them, leaves the log as it was.
pub proof fn law_audit_log(s: BarrierState, op: Operation)
    requires
        s.wf(),
    ensures
        match op {
            Operation::Entry { code, observed_vehicle, barrier_id, now } => match s.entry_result(
                code,
                now,
            ) {
                Ok(a) => s.apply(op).log == s.log.push(s.apply(op).log.last()) && s.apply(
                    op,
                ).log.last().guest_access_id == Some(a.id) && s.apply(op).log.last().action
                    == BarrierAction::Entry && s.apply(op).log.last().created_at == now,
                Err(_) => s.apply(op).log == s.log,
            },
            Operation::Exit { code, barrier_id, now } => match s.exit_result(code, now) {
                Ok(a) => s.apply(op).log == s.log.push(s.apply(op).log.last()) && s.apply(
                    op,
                ).log.last().guest_access_id == Some(a.id) && s.apply(op).log.last().action
                    == BarrierAction::Exit && s.apply(op).log.last().created_at == now,
                Err(_) => s.apply(op).log == s.log,
            },
            Operation::Open { complex_id, user_id, now } => s.apply(op).log == s.log.push(
                BarrierAccessLogView::of_resident(complex_id, user_id, now),
            ),
            Operation::RestoreLine { line } => s.apply(op).log == s.log.push(line),
            _ => s.apply(op).log == s.log,
        },
{
    match op {
        Operation::Entry { code, observed_vehicle, barrier_id, now } => {
            lemma_position_from(s.records, LookupView::Entry { code, now }, 0);
        },
        Operation::Exit { code, barrier_id, now } => {
            lemma_position_from(s.records, LookupView::Exit { code }, 0);
        },
        _ => {},
    }
}

/// The service is well formed after any series of requests.
pub proof fn law_always_well_formed(s: BarrierState, ops: Seq<Operation>)
    requires
        s.wf(),
    ensures
        s.run(ops).wf(),
    decreases ops.len(),
{
    if ops.len() > 0 {
        law_always_well_formed(s, ops.drop_last());
        law_well_formed(s.run(ops.drop_last()), ops.last());
    }
}

/// Sample the service at any two moments of any series of requests: it is
/// well formed at both, nothing was removed from the records or the audit
/// log in between, and every record of the earlier moment is found at the
/// later one as what it has become by walking the transition graph, one edge
/// per request at most.
pub proof fn law_history(s: BarrierState, ops: Seq<Operation>, earlier: int, later: int, i: int)
    requires
        s.wf(),
        0 <= earlier <= later <= ops.len(),
        0 <= i < s.run(ops.take(earlier)).records.len(),
    ensures
        s.run(ops.take(earlier)).wf(),
        s.run(ops.take(later)).wf(),
        s.run(ops.take(earlier)).records.len() <= s.run(ops.take(later)).records.len(),
        s.run(ops.take(earlier)).log.is_prefix_of(s.run(ops.take(later)).log),
        s.run(ops.take(later)).records[i].descends_from(s.run(ops.take(earlier)).records[i]),
    decreases later,
{
    law_always_well_formed(s, ops.take(earlier));
    law_always_well_formed(s, ops.take(later));
    if earlier < later {
        let before = s.run(ops.take(later - 1));
        let op = ops[later - 1];
        assert(ops.take(later).drop_last() =~= ops.take(later - 1));
        assert(ops.take(later).last() == op);
        assert(s.run(ops.take(later)) == before.apply(op));
        law_history(s, ops, earlier, later - 1, i);
        law_one_step(before, op, i);
        law_reaches_is_a_walk(
            s.run(ops.take(earlier)).records[i].status,
            before.records[i].status,
            before.apply(op).records[i].status,
        );
    }
}

/// A code lets one vehicle in: once an entry on a code has been accepted,
/// the next entry on that code is refused with `NotFound` and changes
/// nothing, whenever it comes and whatever the barrier saw.
pub proof fn law_entry_is_exclusive(
    s: BarrierState,
    code: Seq<char>,
    observed_vehicle: Option<Seq<char>>,
    barrier_id: Option<u128>,
    now: i64,
    second_vehicle: Option<Seq<char>>,
    second_barrier_id: Option<u128>,
    second_now: i64,
)
    requires
        s.wf(),
        s.entry_result(code, now) is Ok,
    ensures
        s.after_entry(code, observed_vehicle, barrier_id, now).entry_result(code, second_now)
            == Err::<GuestAccessView, ErrorKind>(ErrorKind::NotFound),
        s.after_entry(code, observed_vehicle, barrier_id, now).after_entry(
            code,
            second_vehicle,
            second_barrier_id,
            second_now,
        ) == s.after_entry(code, observed_vehicle, barrier_id, now),
{
    let t = s.after_entry(code, observed_vehicle, barrier_id, now);
    lemma_position_from(s.records, LookupView::Entry { code, now }, 0);
    lemma_position_from(t.records, LookupView::Entry { code, now: second_now }, 0);
}

/// While a guest is inside on a code, nobody enters on that code.
pub proof fn law_no_entry_while_inside(s: BarrierState, i: int, now: i64)
    requires
        s.wf(),
        0 <= i < s.records.len(),
        s.records[i].status == GuestAccessStatus::Active,
    ensures
        s.entry_result(s.records[i].access_code, now) == Err::<GuestAccessView, ErrorKind>(
            ErrorKind::NotFound,
        ),
{
    lemma_position_from(s.records, LookupView::Entry { code: s.records[i].access_code, now }, 0);
}

/// The deadline decides, not the sweep: an entry on the code of a pending
/// access whose deadline has come is refused with `NotFound` and changes
/// nothing, whether or not the expiry sweep has run.
pub proof fn law_expiry_wins(
    s: BarrierState,
    i: int,
    observed_vehicle: Option<Seq<char>>,
    barrier_id: Option<u128>,
    now: i64,
)
    requires
        s.wf(),
        0 <= i < s.records.len(),
        s.records[i].status == GuestAccessStatus::Pending,
        s.records[i].expires_at <= now,
    ensures
        s.entry_result(s.records[i].access_code, now) == Err::<GuestAccessView, ErrorKind>(
            ErrorKind::NotFound,
        ),
        s.after_entry(s.records[i].access_code, observed_vehicle, barrier_id, now) == s,
{
    lemma_position_from(s.records, LookupView::Entry { code: s.records[i].access_code, now }, 0);
}

/// What the expiry sweep expired stays out: the access is expired after the
/// sweep, and an entry on its code is refused from then on, at any time.
pub proof fn law_swept_code_is_dead(s: BarrierState, i: int, now: i64, later: i64)
    requires
        s.wf(),
        0 <= i < s.records.len(),
        s.records[i].is_stale(now),
    ensures
        s.after_expiry_sweep(now).records[i].status == GuestAccessStatus::Expired,
        s.after_expiry_sweep(now).entry_result(s.records[i].access_code, later) == Err::<
            GuestAccessView,
            ErrorKind,
        >(ErrorKind::NotFound),
{
    let t = s.after_expiry_sweep(now);
    lemma_position_from(t.records, LookupView::Entry { code: s.records[i].access_code, now: later }, 0);
}

/// The entry is never after the exit, as long as the clock does not run
/// backwards between the two: a request that keeps time leaves the
/// timestamps of every record in order.
pub proof fn law_timestamps_in_order(s: BarrierState, op: Operation)
    requires
        s.wf(),
        s.timely(),
        op.keeps_time(s),
    ensures
        s.apply(op).timely(),
{
    match op {
        Operation::Issue { id, access_code, .. } => {},
        Operation::Restore { record } => {},
        Operation::Entry { code, observed_vehicle, barrier_id, now } => {
            lemma_position_from(s.records, LookupView::Entry { code, now }, 0);
        },
        Operation::Exit { code, barrier_id, now } => {
            lemma_position_from(s.records, LookupView::Exit { code }, 0);
        },
        Operation::Cancel { id, requester } => {
            lemma_position_from(s.records, LookupView::ById { id }, 0);
        },
        Operation::ExpirySweep { now } => {},
        Operation::EntryNotice { id, delivery } => {
            lemma_position_from(s.records, LookupView::ById { id }, 0);
        },
        Operation::OverstayNotice { id, delivery } => {
            lemma_position_from(s.records, LookupView::ById { id }, 0);
        },
        Operation::QrCode { id, url } => {
            lemma_position_from(s.records, LookupView::ById { id }, 0);
        },
        Operation::Open { .. } => {},
        Operation::RestoreLine { .. } => {},
    }
}

/// An overstay is told once. Of the accesses that the sweep reports, exactly
/// one carries the id of an overstaying guest. Once a message for it was
/// delivered the access is still active, and no later sweep reports it
/// again; after a failed attempt the sweep reports what it reported before.
pub proof fn law_overstay_told_once(s: BarrierState, i: int, now: i64, later: i64)
    requires
        s.wf(),
        0 <= i < s.records.len(),
        s.records[i].is_overstaying(now),
    ensures
        exists|k: int|
            0 <= k < s.overstays(now).len() && (#[trigger] s.overstays(now)[k]).id
                == s.records[i].id,
        forall|k: int, l: int|
            0 <= k < s.overstays(now).len() && 0 <= l < s.overstays(now).len() && (
            #[trigger] s.overstays(now)[k]).id == s.records[i].id && (
            #[trigger] s.overstays(now)[l]).id == s.records[i].id ==> k == l,
        s.after_overstay_notice(s.records[i].id, Delivery::Delivered).records[i].status
            == GuestAccessStatus::Active,
        s.after_overstay_notice(s.records[i].id, Delivery::Delivered).records[i].overstay_notified,
        forall|k: int|
            0 <= k < s.after_overstay_notice(s.records[i].id, Delivery::Delivered).overstays(
                later,
            ).len() ==> (#[trigger] s.after_overstay_notice(
                s.records[i].id,
                Delivery::Delivered,
            ).overstays(later)[k]).id != s.records[i].id,
        s.after_overstay_notice(s.records[i].id, Delivery::Failed) == s,
{
    let id = s.records[i].id;
    let due = s.overstays(now);
    let p = overstaying_at(now);
    lemma_position_from(s.records, LookupView::ById { id }, 0);
    lemma_position_is(s.records, LookupView::ById { id }, 0, i);
    // The sweep reports the record.
    assert(p(s.records[i]));
    s.records.lemma_filter_contains(p, i);
    let k0 = choose|k: int| 0 <= k < due.len() && due[k] == s.records[i];
    assert(due[k0].id == id);
    // It reports it once.
    lemma_filter_keeps_ids_apart(s.records, p);
    // After a delivered message no sweep reports it.
    let t = s.after_overstay_notice(id, Delivery::Delivered);
    let q = overstaying_at(later);
    assert forall|k: int| 0 <= k < t.overstays(later).len() implies (#[trigger] t.overstays(
        later,
    )[k]).id != id by {
        let r = t.overstays(later)[k];
        t.records.lemma_filter_pred(q, k);
        assert(t.records.filter(q).contains(r));
        t.records.lemma_filter_contains_rev(q, r);
        let j = choose|j: int| 0 <= j < t.records.len() && t.records[j] == r;
        assert(q(r));
        if j != i {
            assert(t.records[j] == s.records[j]);
        }
    }
}

/// Filtering keeps records with different ids different: where no id occurs
/// twice in `records`, none occurs twice among those that `keep` holds of.
pub proof fn lemma_filter_keeps_ids_apart(
    records: Seq<GuestAccessView>,
    keep: spec_fn(GuestAccessView) -> bool,
)
    requires
        forall|i: int, j: int|
            0 <= i < j < records.len() ==> (#[trigger] records[i]).id != (#[trigger] records[j]).id,
    ensures
        forall|k: int, l: int|
            0 <= k < l < records.filter(keep).len() ==> (#[trigger] records.filter(keep)[k]).id != (
            #[trigger] records.filter(keep)[l]).id,
    decreases records.len(),
{
    reveal(Seq::filter);
    if records.len() > 0 {
        let rest = records.drop_last();
        lemma_filter_keeps_ids_apart(rest, keep);
        if keep(records.last()) {
            let kept = rest.filter(keep);
            assert forall|k: int| 0 <= k < kept.len() implies (#[trigger] kept[k]).id
                != records.last().id by {
                assert(kept.contains(kept[k]));
                rest.lemma_filter_contains_rev(keep, kept[k]);
                let j = choose|j: int| 0 <= j < rest.len() && rest[j] == kept[k];
                assert(records[j] == kept[k]);
                assert(records[records.len() - 1] == records.last());
            }
        }
    }
}

/// Withdrawing is guarded. An access that is not pending is never withdrawn;
/// a resident who did not issue the access is answered `Forbidden`, pending
/// or not; and a refused request changes nothing.
pub proof fn law_cancel_guard(s: BarrierState, i: int, requester: u128)
    requires
        s.wf(),
        0 <= i < s.records.len(),
    ensures
        s.records[i].status != GuestAccessStatus::Pending ==> s.cancel_result(
            s.records[i].id,
            requester,
        ) is Err,
        s.records[i].created_by != requester ==> s.cancel_result(s.records[i].id, requester)
            == Err::<(), ErrorKind>(ErrorKind::Forbidden),
        s.cancel_result(s.records[i].id, requester) is Err ==> s.after_cancel(
            s.records[i].id,
            requester,
        ) == s,
        s.cancel_result(s.records[i].id, requester) is Ok ==> s.after_cancel(
            s.records[i].id,
            requester,
        ).records[i].status == GuestAccessStatus::Cancelled,
{
    let id = s.records[i].id;
    lemma_position_from(s.records, LookupView::ById { id }, 0);
    lemma_position_is(s.records, LookupView::ById { id }, 0, i);
}

} // verus!
