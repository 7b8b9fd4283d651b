//! What holds of whole runs of the synchronizer.
use vstd::prelude::*;
use crate::error::ErrorView;
use crate::record::{body_for, RecordView};
use crate::sync::{next, start, ActionView, EventView, Outcome, Stage, SyncView, PROVIDER_COUNT};
use crate::text::{lemma_trimmed_idempotent, trimmed};

verus! {

/// The state reached from `s` through `events`, and every request made on
/// the way, in order.
pub open spec fn run(s: SyncView, events: Seq<EventView>) -> (SyncView, Seq<ActionView>)
    decreases events.len(),
{
    if events.len() == 0 {
        (s, Seq::empty())
    } else {
        let before = run(s, events.drop_last());
        let after = next(before.0, events.last());
        (after.0, before.1.push(after.1))
    }
}

/// `n` echo services that gave no answer.
pub open spec fn silent_providers(n: nat) -> Seq<EventView> {
    Seq::new(n, |j: int| EventView::IpFetched(None))
}

/// The requests to the echo services after the first, up to service `n`.
pub open spec fn later_fetches(n: nat) -> Seq<ActionView> {
    Seq::new(n, |j: int| ActionView::FetchIp((j + 1) as usize))
}

/// For the first `m` records: the record as read, then a write that went
/// through.
pub open spec fn resync_events(recs: Seq<RecordView>, m: nat) -> Seq<EventView>
    decreases m,
{
    if m == 0 {
        Seq::empty()
    } else {
        resync_events(recs, (m - 1) as nat).push(
            EventView::RecordRead(Ok(recs[m - 1])),
        ).push(EventView::RecordUpdated(Ok(())))
    }
}

/// What a rewrite asks for over the first `m` records: each record's write,
/// with the address as content and type, name and proxy flag as read, then
/// the read of the next record, or the end of the run after the last.
pub open spec fn resync_actions(
    ids: Seq<Seq<char>>,
    ip: Seq<char>,
    recs: Seq<RecordView>,
    m: nat,
) -> Seq<ActionView>
    decreases m,
{
    if m == 0 {
        Seq::empty()
    } else {
        let k = m - 1;
        let then = if m < ids.len() {
            ActionView::ReadRecord(ids[m as int])
        } else {
            ActionView::Finish(Outcome::Updated)
        };
        resync_actions(ids, ip, recs, k as nat).push(
            ActionView::UpdateRecord(recs[k].id, body_for(recs[k], ip)),
        ).push(then)
    }
}

proof fn lemma_run_push(s: SyncView, events: Seq<EventView>, e: EventView)
    ensures
        run(s, events.push(e)) == ({
            let before = run(s, events);
            let after = next(before.0, e);
            (after.0, before.1.push(after.1))
        }),
{
    assert(events.push(e).drop_last() == events);
}

proof fn lemma_silent_providers(ids: Seq<Seq<char>>, f: nat)
    requires
        ids.len() > 0,
        f < PROVIDER_COUNT,
    ensures
        run(start(ids).0, silent_providers(f)) == (
        SyncView { ids, ip: Seq::empty(), stage: Stage::Discovering(f as usize) },
        later_fetches(f)),
    decreases f,
{
    if f == 0 {
        assert(silent_providers(0) == Seq::<EventView>::empty());
        assert(later_fetches(0) == Seq::<ActionView>::empty());
    } else {
        lemma_silent_providers(ids, (f - 1) as nat);
        assert(silent_providers(f) == silent_providers((f - 1) as nat).push(
            EventView::IpFetched(None),
        ));
        lemma_run_push(start(ids).0, silent_providers((f - 1) as nat), EventView::IpFetched(None));
        assert(later_fetches(f) == later_fetches((f - 1) as nat).push(
            ActionView::FetchIp(f as usize),
        ));
    }
}

/// Once the address is known the echo services are never asked again: no
/// step outside discovery requests one or goes back to discovery.
pub proof fn law_discovery_is_over(s: SyncView, e: EventView)
    requires
        !(s.stage is Discovering),
    ensures
        !(next(s, e).1 is FetchIp),
        !(next(s, e).0.stage is Discovering),
{
}

/// The echo services are asked one at a time, in order. The first one that
/// answers gives the address, its body trimmed; the next request is the read
/// of the first record, and no later service is asked.
pub proof fn law_first_answer_wins(ids: Seq<Seq<char>>, f: nat, body: Seq<char>)
    requires
        ids.len() > 0,
        f < PROVIDER_COUNT,
    ensures
        run(start(ids).0, silent_providers(f).push(EventView::IpFetched(Some(body)))) == (
        SyncView { ids, ip: trimmed(body), stage: Stage::CheckingDrift },
        later_fetches(f).push(ActionView::ReadRecord(ids[0]))),
{
    lemma_silent_providers(ids, f);
    lemma_run_push(start(ids).0, silent_providers(f), EventView::IpFetched(Some(body)));
}

/// When no echo service answers, the run fails with `NoProviderAvailable`
/// after asking each of them, and makes no call to the DNS provider: the
/// run is over and takes no further event.
pub proof fn law_no_provider_no_dns_call(ids: Seq<Seq<char>>)
    requires
        ids.len() > 0,
    ensures
        run(start(ids).0, silent_providers(PROVIDER_COUNT as nat)) == (
        SyncView { ids, ip: Seq::empty(), stage: Stage::Done },
        later_fetches((PROVIDER_COUNT - 1) as nat).push(
            ActionView::Fail(ErrorView::NoProviderAvailable),
        )),
        forall|e: EventView|
            !run(start(ids).0, silent_providers(PROVIDER_COUNT as nat)).0.accepts(e),
{
    let f = (PROVIDER_COUNT - 1) as nat;
    lemma_silent_providers(ids, f);
    assert(silent_providers(PROVIDER_COUNT as nat) == silent_providers(f).push(
        EventView::IpFetched(None),
    ));
    lemma_run_push(start(ids).0, silent_providers(f), EventView::IpFetched(None));
}

/// When the first record holds exactly the address found, the run ends
/// `Unchanged` right after reading it, and no record is written.
pub proof fn law_same_address_unchanged(
    ids: Seq<Seq<char>>,
    f: nat,
    body: Seq<char>,
    first: RecordView,
)
    requires
        ids.len() > 0,
        f < PROVIDER_COUNT,
        first.content == trimmed(body),
    ensures
        run(
            start(ids).0,
            silent_providers(f).push(EventView::IpFetched(Some(body))).push(
                EventView::RecordRead(Ok(first)),
            ),
        ) == (SyncView { ids, ip: trimmed(body), stage: Stage::Done }, later_fetches(f).push(
            ActionView::ReadRecord(ids[0]),
        ).push(ActionView::Finish(Outcome::Unchanged))),
{
    law_first_answer_wins(ids, f, body);
    lemma_trimmed_idempotent(body);
    lemma_run_push(
        start(ids).0,
        silent_providers(f).push(EventView::IpFetched(Some(body))),
        EventView::RecordRead(Ok(first)),
    );
}

proof fn lemma_resync(s: SyncView, recs: Seq<RecordView>, m: nat)
    requires
        s.wf(),
        s.stage == Stage::Reading(0),
        recs.len() == s.ids.len(),
        m <= s.ids.len(),
    ensures
        run(s, resync_events(recs, m)) == (s.with_stage(
            if m < s.ids.len() {
                Stage::Reading(m as usize)
            } else {
                Stage::Done
            },
        ), resync_actions(s.ids, s.ip, recs, m)),
    decreases m,
{
    if m == 0 {
        assert(s.with_stage(Stage::Reading(0)) == s);
    } else {
        let k = (m - 1) as nat;
        lemma_resync(s, recs, k);
        let read = EventView::RecordRead(Ok(recs[k as int]));
        lemma_run_push(s, resync_events(recs, k), read);
        lemma_run_push(s, resync_events(recs, k).push(read), EventView::RecordUpdated(Ok(())));
    }
}

/// When the first record differs from the address, every record, in list
/// order, is read once and then written once with the address as content,
/// the fixed TTL, and the type, name and proxy flag of its own read; the
/// run then ends `Updated`.
pub proof fn law_drift_rewrites_every_record(s: SyncView, first: RecordView, recs: Seq<RecordView>)
    requires
        s.wf(),
        s.stage == Stage::CheckingDrift,
        trimmed(first.content) != s.ip,
        recs.len() == s.ids.len(),
    ensures
        run(s, seq![EventView::RecordRead(Ok(first))] + resync_events(recs, s.ids.len())) == (
        s.with_stage(Stage::Done),
        seq![ActionView::ReadRecord(s.ids[0])] + resync_actions(s.ids, s.ip, recs, s.ids.len())),
{
    let s0 = s.with_stage(Stage::Reading(0));
    let n = s.ids.len();
    lemma_resync(s0, recs, n);
    lemma_run_prepend(s, EventView::RecordRead(Ok(first)), resync_events(recs, n));
    assert(s0.with_stage(Stage::Done) == s.with_stage(Stage::Done));
}

proof fn lemma_run_prepend(s: SyncView, e: EventView, events: Seq<EventView>)
    ensures
        run(s, seq![e] + events) == ({
            let first = next(s, e);
            let rest = run(first.0, events);
            (rest.0, seq![first.1] + rest.1)
        }),
    decreases events.len(),
{
    let first = next(s, e);
    let whole = seq![e] + events;
    if events.len() == 0 {
        assert(whole.drop_last() == events);
        assert(whole.last() == e);
        assert(run(s, events) == (s, Seq::<ActionView>::empty()));
        assert(run(s, whole) == (first.0, Seq::<ActionView>::empty().push(first.1)));
        assert(seq![first.1] + Seq::<ActionView>::empty() == Seq::<ActionView>::empty().push(
            first.1,
        ));
    } else {
        let init = events.drop_last();
        lemma_run_prepend(s, e, init);
        assert(whole.drop_last() == seq![e] + init);
        assert(whole.last() == events.last());
        let rest = run(first.0, init);
        let last = next(rest.0, events.last());
        assert(run(s, whole) == (last.0, (seq![first.1] + rest.1).push(last.1)));
        assert(run(first.0, events) == (last.0, rest.1.push(last.1)));
        assert(seq![first.1] + rest.1.push(last.1) == (seq![first.1] + rest.1).push(last.1));
    }
}

/// When the write of record `k` fails, the run fails with that error at
/// once: no later record is read or written, and the run takes no further
/// event. Records before `k` keep their writes.
pub proof fn law_failed_update_stops(s: SyncView, recs: Seq<RecordView>, k: nat, msg: Seq<char>)
    requires
        s.wf(),
        s.stage == Stage::Reading(0),
        recs.len() == s.ids.len(),
        k < s.ids.len(),
    ensures
        ({
            let events = resync_events(recs, k).push(EventView::RecordRead(Ok(recs[k as int]))).push(
                EventView::RecordUpdated(Err(msg)),
            );
            &&& run(s, events) == (s.with_stage(Stage::Done), resync_actions(
                s.ids,
                s.ip,
                recs,
                k,
            ).push(ActionView::UpdateRecord(recs[k as int].id, body_for(recs[k as int], s.ip))).push(
                ActionView::Fail(ErrorView::ApiError(msg)),
            ))
            &&& forall|e: EventView| !run(s, events).0.accepts(e)
        }),
{
    lemma_resync(s, recs, k);
    let read = EventView::RecordRead(Ok(recs[k as int]));
    lemma_run_push(s, resync_events(recs, k), read);
    lemma_run_push(s, resync_events(recs, k).push(read), EventView::RecordUpdated(Err(msg)));
}

} // verus!
