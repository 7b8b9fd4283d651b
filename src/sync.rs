//! One run of the synchronizer as a state machine.
//!
//! The machine never touches the network. Each step takes what came of the
//! last call it asked for (an [`Event`]) and answers with the next call to
//! make, or with the end of the run (an [`Action`]). Calls are asked for one
//! at a time, so at most one is ever in flight.
use vstd::prelude::*;
use crate::error::{ErrorView, SyncError};
use crate::record::{body_for, update_body, BodyView, DnsRecord, RecordView, UpdateBody};
use crate::text::{trim_text, trimmed};

verus! {

/// How many echo services the discovery chain holds.
pub const PROVIDER_COUNT: usize = 3;

/// The echo services, in the order in which they are asked.
pub open spec fn provider_url_of(i: int) -> Seq<char> {
    if i == 0 {
        "https://checkip.amazonaws.com"@
    } else if i == 1 {
        "https://api.ipify.org"@
    } else {
        "https://domains.google.com/checkip"@
    }
}

/// The address of echo service `i`.
pub fn provider_url(i: usize) -> (r: &'static str)
    requires
        i < PROVIDER_COUNT,
    ensures
        r@ == provider_url_of(i as int),
{
    if i == 0 {
        "https://checkip.amazonaws.com"
    } else if i == 1 {
        "https://api.ipify.org"
    } else {
        "https://domains.google.com/checkip"
    }
}

/// Where a run stands.
#[derive(Clone, Copy, Debug, PartialEq, Eq, Structural)]
pub enum Stage {
    /// Waiting for the answer of echo service `i`.
    Discovering(usize),
    /// Waiting for the first record, to compare it with the address.
    CheckingDrift,
    /// Waiting for record `k`, to rewrite it.
    Reading(usize),
    /// Waiting for the write of record `k`.
    Updating(usize),
    /// The run is over.
    Done,
}

/// How a run that did not fail ended.
#[derive(Clone, Copy, Debug, PartialEq, Eq, Structural)]
pub enum Outcome {
    /// The first record already held the address; nothing was written.
    Unchanged,
    /// Every record was rewritten with the address.
    Updated,
}

/// What came of the call that the machine asked for.
#[derive(Debug)]
pub enum Event {
    /// The echo service's body, or `None` where the request or the read of
    /// its body failed.
    IpFetched(Option<String>),
    /// The record read, or a description of why the read failed.
    RecordRead(Result<DnsRecord, String>),
    /// Whether the write went through, or a description of why it failed.
    RecordUpdated(Result<(), String>),
}

/// What an [`Event`] holds, as texts.
pub enum EventView {
    IpFetched(Option<Seq<char>>),
    RecordRead(Result<RecordView, Seq<char>>),
    RecordUpdated(Result<(), Seq<char>>),
}

impl View for Event {
    type V = EventView;

    open spec fn view(&self) -> EventView {
        match self {
            Event::IpFetched(b) => EventView::IpFetched(
                match b {
                    Some(t) => Some(t@),
                    None => None,
                },
            ),
            Event::RecordRead(r) => EventView::RecordRead(
                match r {
                    Ok(rec) => Ok(rec@),
                    Err(m) => Err(m@),
                },
            ),
            Event::RecordUpdated(r) => EventView::RecordUpdated(
                match r {
                    Ok(_) => Ok(()),
                    Err(m) => Err(m@),
                },
            ),
        }
    }
}

/// What the machine asks for next.
#[derive(Debug)]
pub enum Action {
    /// Ask echo service `i` for the public address.
    FetchIp(usize),
    /// Read the record with this id.
    ReadRecord(String),
    /// Write this body to the record with this id.
    UpdateRecord(String, UpdateBody),
    /// The run succeeded.
    Finish(Outcome),
    /// The run failed.
    Fail(SyncError),
}

/// What an [`Action`] holds, as texts.
pub enum ActionView {
    FetchIp(usize),
    ReadRecord(Seq<char>),
    UpdateRecord(Seq<char>, BodyView),
    Finish(Outcome),
    Fail(ErrorView),
}

impl View for Action {
    type V = ActionView;

    open spec fn view(&self) -> ActionView {
        match self {
            Action::FetchIp(i) => ActionView::FetchIp(*i),
            Action::ReadRecord(id) => ActionView::ReadRecord(id@),
            Action::UpdateRecord(id, body) => ActionView::UpdateRecord(id@, body@),
            Action::Finish(o) => ActionView::Finish(*o),
            Action::Fail(e) => ActionView::Fail(e@),
        }
    }
}

/// The state of a run: the record ids, the address found (empty until
/// discovery succeeds) and the stage.
pub struct SyncView {
    pub ids: Seq<Seq<char>>,
    pub ip: Seq<char>,
    pub stage: Stage,
}

impl SyncView {
    /// There is a record id, and the stage points inside the provider list
    /// and the record list.
    pub open spec fn wf(self) -> bool {
        &&& 0 < self.ids.len() <= usize::MAX
        &&& match self.stage {
            Stage::Discovering(i) => i < PROVIDER_COUNT,
            Stage::Reading(k) => k < self.ids.len(),
            Stage::Updating(k) => k < self.ids.len(),
            _ => true,
        }
    }

    /// `e` is what the current stage waits for; a finished run waits for
    /// nothing.
    pub open spec fn accepts(self, e: EventView) -> bool {
        match self.stage {
            Stage::Discovering(_) => e is IpFetched,
            Stage::CheckingDrift => e is RecordRead,
            Stage::Reading(_) => e is RecordRead,
            Stage::Updating(_) => e is RecordUpdated,
            Stage::Done => false,
        }
    }

    pub open spec fn with_stage(self, stage: Stage) -> SyncView {
        SyncView { ids: self.ids, ip: self.ip, stage }
    }
}

/// A fresh run over `ids`, and its first request: the first echo service.
pub open spec fn start(ids: Seq<Seq<char>>) -> (SyncView, ActionView) {
    (SyncView { ids, ip: Seq::empty(), stage: Stage::Discovering(0) }, ActionView::FetchIp(0))
}

/// One step of a run: the state after `e`, and what is asked for next.
/// An event that the stage does not wait for ends the run with an empty
/// error; `SyncMachine::step` is never handed one.
pub open spec fn next(s: SyncView, e: EventView) -> (SyncView, ActionView) {
    let stray = (s.with_stage(Stage::Done), ActionView::Fail(ErrorView::ApiError(Seq::empty())));
    match s.stage {
        Stage::Discovering(i) => match e {
            EventView::IpFetched(Some(body)) => (
                SyncView { ids: s.ids, ip: trimmed(body), stage: Stage::CheckingDrift },
                ActionView::ReadRecord(s.ids[0]),
            ),
            EventView::IpFetched(None) => if i + 1 < PROVIDER_COUNT {
                (
                    s.with_stage(Stage::Discovering((i + 1) as usize)),
                    ActionView::FetchIp((i + 1) as usize),
                )
            } else {
                (s.with_stage(Stage::Done), ActionView::Fail(ErrorView::NoProviderAvailable))
            },
            _ => stray,
        },
        Stage::CheckingDrift => match e {
            EventView::RecordRead(Ok(rec)) => if trimmed(rec.content) == s.ip {
                (s.with_stage(Stage::Done), ActionView::Finish(Outcome::Unchanged))
            } else {
                (s.with_stage(Stage::Reading(0)), ActionView::ReadRecord(s.ids[0]))
            },
            EventView::RecordRead(Err(m)) => (
                s.with_stage(Stage::Done),
                ActionView::Fail(ErrorView::ApiError(m)),
            ),
            _ => stray,
        },
        Stage::Reading(k) => match e {
            EventView::RecordRead(Ok(rec)) => (
                s.with_stage(Stage::Updating(k)),
                ActionView::UpdateRecord(rec.id, body_for(rec, s.ip)),
            ),
            EventView::RecordRead(Err(m)) => (
                s.with_stage(Stage::Done),
                ActionView::Fail(ErrorView::ApiError(m)),
            ),
            _ => stray,
        },
        Stage::Updating(k) => match e {
            EventView::RecordUpdated(Ok(_)) => if k + 1 < s.ids.len() {
                (
                    s.with_stage(Stage::Reading((k + 1) as usize)),
                    ActionView::ReadRecord(s.ids[k + 1]),
                )
            } else {
                (s.with_stage(Stage::Done), ActionView::Finish(Outcome::Updated))
            },
            EventView::RecordUpdated(Err(m)) => (
                s.with_stage(Stage::Done),
                ActionView::Fail(ErrorView::ApiError(m)),
            ),
            _ => stray,
        },
        Stage::Done => stray,
    }
}

/// One run of the synchronizer.
pub struct SyncMachine {
    record_ids: Vec<String>,
    ip: String,
    stage: Stage,
}

impl View for SyncMachine {
    type V = SyncView;

    closed spec fn view(&self) -> SyncView {
        SyncView {
            ids: self.record_ids@.map_values(|s: String| s@),
            ip: self.ip@,
            stage: self.stage,
        }
    }
}

impl SyncMachine {
    /// Starts a run over `record_ids` and returns it with its first request.
    pub fn new(record_ids: Vec<String>) -> (r: (SyncMachine, Action))
        requires
            record_ids@.len() > 0,
        ensures
            r.0@.wf(),
            (r.0@, r.1@) == start(record_ids@.map_values(|s: String| s@)),
    {
        let count: usize = record_ids.len();
        assert(count == record_ids@.map_values(|s: String| s@).len());
        let m = SyncMachine { record_ids, ip: String::new(), stage: Stage::Discovering(0) };
        (m, Action::FetchIp(0))
    }

    /// Whether `e` is what the run waits for.
    pub fn accepts(&self, e: &Event) -> (r: bool)
        ensures
            r == self@.accepts(e@),
    {
        match (self.stage, e) {
            (Stage::Discovering(_), Event::IpFetched(_)) => true,
            (Stage::CheckingDrift, Event::RecordRead(_)) => true,
            (Stage::Reading(_), Event::RecordRead(_)) => true,
            (Stage::Updating(_), Event::RecordUpdated(_)) => true,
            _ => false,
        }
    }

    /// Whether the run is over.
    pub fn is_done(&self) -> (r: bool)
        ensures
            r == (self@.stage == Stage::Done),
    {
        match self.stage {
            Stage::Done => true,
            _ => false,
        }
    }

    /// Takes what came of the last request and returns the next one.
    pub fn step(&mut self, event: Event) -> (r: Action)
        requires
            old(self)@.wf(),
            old(self)@.accepts(event@),
        ensures
            final(self)@.wf(),
            (final(self)@, r@) == next(old(self)@, event@),
    {
        assert(self@.ids.len() == self.record_ids@.len());
        match self.stage {
            Stage::Discovering(i) => match event {
                Event::IpFetched(Some(body)) => {
                    self.ip = trim_text(body.as_str());
                    self.stage = Stage::CheckingDrift;
                    Action::ReadRecord(self.record_ids[0].clone())
                },
                Event::IpFetched(None) => {
                    if i + 1 < PROVIDER_COUNT {
                        self.stage = Stage::Discovering(i + 1);
                        Action::FetchIp(i + 1)
                    } else {
                        self.stage = Stage::Done;
                        Action::Fail(SyncError::NoProviderAvailable)
                    }
                },
                _ => unreached(),
            },
            Stage::CheckingDrift => match event {
                Event::RecordRead(Ok(rec)) => {
                    let content = trim_text(rec.content.as_str());
                    if content == self.ip {
                        self.stage = Stage::Done;
                        Action::Finish(Outcome::Unchanged)
                    } else {
                        self.stage = Stage::Reading(0);
                        Action::ReadRecord(self.record_ids[0].clone())
                    }
                },
                Event::RecordRead(Err(m)) => {
                    self.stage = Stage::Done;
                    Action::Fail(SyncError::ApiError(m))
                },
                _ => unreached(),
            },
            Stage::Reading(k) => match event {
                Event::RecordRead(Ok(rec)) => {
                    let body = update_body(&rec, self.ip.as_str());
                    self.stage = Stage::Updating(k);
                    Action::UpdateRecord(rec.id, body)
                },
                Event::RecordRead(Err(m)) => {
                    self.stage = Stage::Done;
                    Action::Fail(SyncError::ApiError(m))
                },
                _ => unreached(),
            },
            Stage::Updating(k) => match event {
                Event::RecordUpdated(Ok(())) => {
                    if k < self.record_ids.len() - 1 {
                        self.stage = Stage::Reading(k + 1);
                        Action::ReadRecord(self.record_ids[k + 1].clone())
                    } else {
                        self.stage = Stage::Done;
                        Action::Finish(Outcome::Updated)
                    }
                },
                Event::RecordUpdated(Err(m)) => {
                    self.stage = Stage::Done;
                    Action::Fail(SyncError::ApiError(m))
                },
                _ => unreached(),
            },
            Stage::Done => unreached(),
        }
    }
}

} // verus!
