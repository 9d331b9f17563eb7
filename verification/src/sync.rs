//! The course of one run: which request comes next, when the run is
//! complete, and when the watermark may advance.
//!
//! A run is driven from outside. It names the next action; the caller
//! performs it and reports what came of it.

use crate::api::{build_url, url_text};
use crate::models::opt_instant;
use crate::timestamp::{instant_text, Instant, Timestamp};
use vstd::prelude::*;

verus! {

/// Where a run stands.
#[derive(Clone, Copy, Debug, PartialEq, Eq, Structural)]
pub enum Phase {
    /// Pages are still being fetched.
    Paging,
    /// The last page was processed; the watermark is due.
    Committed,
    /// A fetch failed for good; the watermark stays.
    Aborted,
}

/// What came of a page request.
#[derive(Clone, Debug, PartialEq, Eq)]
pub enum Event {
    /// The page arrived and every document in it was handed to the store,
    /// whether or not the store took it. `next_cursor` is where the listing
    /// continues, absent on the last page.
    Page { next_cursor: Option<String> },
    /// The request failed in a way that no retry mends.
    Failed,
}

/// What the caller is to do next.
#[derive(Clone, Debug, PartialEq)]
pub enum Action {
    /// Request the page at this address.
    Fetch { url: String },
    /// Store this instant as the watermark; the run is complete.
    Commit { checkpoint: Timestamp },
    /// Do nothing more; the watermark stays as it is.
    Stop,
}

/// The mathematical value of an [`Event`].
pub enum Signal {
    Page { next_cursor: Option<Seq<char>> },
    Failed,
}

/// The mathematical value of an [`Action`].
pub enum Step {
    Fetch { url: Seq<char> },
    Commit { checkpoint: Instant },
    Stop,
}

/// The mathematical value of a [`SyncRun`].
pub struct RunState {
    /// The instant taken before the first request was issued.
    pub started_at: Instant,
    /// The lower bound on the update time that the first request carries;
    /// absent in a full run, and from the second request on.
    pub filter: Option<Instant>,
    /// Where the next page starts; absent before the first page.
    pub cursor: Option<Seq<char>>,
    pub phase: Phase,
}

impl View for Event {
    type V = Signal;

    open spec fn view(&self) -> Signal {
        match *self {
            Event::Page { next_cursor: Some(cursor) } => Signal::Page {
                next_cursor: Some(cursor@),
            },
            Event::Page { next_cursor: None } => Signal::Page { next_cursor: None },
            Event::Failed => Signal::Failed,
        }
    }
}

impl View for Action {
    type V = Step;

    open spec fn view(&self) -> Step {
        match *self {
            Action::Fetch { url } => Step::Fetch { url: url@ },
            Action::Commit { checkpoint } => Step::Commit { checkpoint: checkpoint@ },
            Action::Stop => Step::Stop,
        }
    }
}

/// The text a lower bound on the update time is sent as.
pub open spec fn filter_text(filter: Option<Instant>) -> Option<Seq<char>> {
    match filter {
        Some(instant) => Some(instant_text(instant.secs, instant.nanos)),
        None => None,
    }
}

/// The state in which a run starts: nothing fetched, and the watermark of
/// the last complete run as the filter unless the run is to ignore it.
pub open spec fn initial(checkpoint: Option<Instant>, full: bool, now: Instant) -> RunState {
    RunState {
        started_at: now,
        filter: if full {
            None
        } else {
            checkpoint
        },
        cursor: None,
        phase: Phase::Paging,
    }
}

/// The address of the request that a run in the paging phase issues next.
pub open spec fn request(state: RunState) -> Seq<char> {
    url_text(state.cursor, filter_text(state.filter))
}

/// The state after an event. While paging, a page moves the cursor on and
/// drops the filter, and the page without a cursor completes the run; a
/// failure aborts it. A run that is complete or aborted stays as it is.
pub open spec fn advance(state: RunState, signal: Signal) -> RunState {
    match state.phase {
        Phase::Paging => match signal {
            Signal::Page { next_cursor: Some(cursor) } => RunState {
                filter: None,
                cursor: Some(cursor),
                ..state
            },
            Signal::Page { next_cursor: None } => RunState {
                filter: None,
                cursor: None,
                phase: Phase::Committed,
                ..state
            },
            Signal::Failed => RunState { phase: Phase::Aborted, ..state },
        },
        _ => state,
    }
}

/// The action that answers an event: the next request while the listing
/// continues, the commit of the starting instant once it has ended, and
/// nothing after a failure or outside the paging phase.
pub open spec fn reaction(state: RunState, signal: Signal) -> Step {
    match state.phase {
        Phase::Paging => match signal {
            Signal::Page { next_cursor: Some(cursor) } => Step::Fetch {
                url: request(advance(state, signal)),
            },
            Signal::Page { next_cursor: None } => Step::Commit { checkpoint: state.started_at },
            Signal::Failed => Step::Stop,
        },
        _ => Step::Stop,
    }
}

/// The state after a sequence of events.
pub open spec fn run_through(state: RunState, signals: Seq<Signal>) -> RunState
    decreases signals.len(),
{
    if signals.len() == 0 {
        state
    } else {
        advance(run_through(state, signals.drop_last()), signals.last())
    }
}

/// The watermark after a sequence of events whose actions were all
/// performed, given the watermark `before` them: each commit stores its
/// instant, and no other action touches the watermark.
pub open spec fn watermark_after(
    before: Option<Instant>,
    state: RunState,
    signals: Seq<Signal>,
) -> Option<Instant>
    decreases signals.len(),
{
    if signals.len() == 0 {
        before
    } else {
        match reaction(run_through(state, signals.drop_last()), signals.last()) {
            Step::Commit { checkpoint } => Some(checkpoint),
            _ => watermark_after(before, state, signals.drop_last()),
        }
    }
}

/// Whether a page arrived that names a continuation.
pub open spec fn continues(signal: Signal) -> bool {
    signal matches Signal::Page { next_cursor: Some(_) }
}

/// Whether the signals are the pages of a whole listing: at least one page,
/// each with a continuation but the last, which has none.
pub open spec fn whole_listing(signals: Seq<Signal>) -> bool {
    &&& signals.len() > 0
    &&& forall|i: int| 0 <= i < signals.len() - 1 ==> continues(#[trigger] signals[i])
    &&& signals.last() == (Signal::Page { next_cursor: None })
}

/// No event changes the instant at which a run started, and no event leads
/// out of a phase other than paging.
pub proof fn lemma_run_keeps_start(state: RunState, signals: Seq<Signal>)
    ensures
        run_through(state, signals).started_at == state.started_at,
        state.phase != Phase::Paging ==> run_through(state, signals) == state,
    decreases signals.len(),
{
    if signals.len() > 0 {
        lemma_run_keeps_start(state, signals.drop_last());
    }
}

/// While every page names a continuation, the run stays in the paging phase
/// and the watermark stays untouched.
pub proof fn lemma_paging_continues(
    before: Option<Instant>,
    state: RunState,
    signals: Seq<Signal>,
)
    requires
        state.phase == Phase::Paging,
        forall|i: int| 0 <= i < signals.len() ==> continues(#[trigger] signals[i]),
    ensures
        run_through(state, signals).phase == Phase::Paging,
        run_through(state, signals).started_at == state.started_at,
        signals.len() > 0 ==> run_through(state, signals).filter is None,
        watermark_after(before, state, signals) == before,
    decreases signals.len(),
{
    if signals.len() > 0 {
        lemma_paging_continues(before, state, signals.drop_last());
    }
}

/// The watermark after any sequence of events is the instant at which the
/// run started where the run has completed, and else the watermark before
/// it: never another value.
pub proof fn lemma_watermark_moves_on_completion_only(
    before: Option<Instant>,
    state: RunState,
    signals: Seq<Signal>,
)
    requires
        state.phase == Phase::Paging,
    ensures
        watermark_after(before, state, signals) == if run_through(state, signals).phase
            == Phase::Committed {
            Some(state.started_at)
        } else {
            before
        },
    decreases signals.len(),
{
    if signals.len() > 0 {
        let earlier = signals.drop_last();
        lemma_watermark_moves_on_completion_only(before, state, earlier);
        lemma_run_keeps_start(state, earlier);
        lemma_run_keeps_start(run_through(state, earlier), seq![signals.last()]);
        if run_through(state, earlier).phase != Phase::Paging {
            assert(run_through(state, signals) == run_through(state, earlier));
        }
    }
}

/// A run whose fetch fails for good before the listing has ended is aborted,
/// and whatever is reported to it afterwards, the watermark is the one from
/// before the run.
pub proof fn lemma_failure_keeps_watermark(
    before: Option<Instant>,
    state: RunState,
    signals: Seq<Signal>,
    k: int,
)
    requires
        state.phase == Phase::Paging,
        0 <= k < signals.len(),
        forall|i: int| 0 <= i < k ==> continues(#[trigger] signals[i]),
        signals[k] == Signal::Failed,
    ensures
        run_through(state, signals).phase == Phase::Aborted,
        watermark_after(before, state, signals) == before,
    decreases signals.len(),
{
    let earlier = signals.drop_last();
    if k == signals.len() - 1 {
        assert forall|i: int| 0 <= i < earlier.len() implies continues(#[trigger] earlier[i]) by {
            assert(earlier[i] == signals[i]);
        }
        lemma_paging_continues(before, state, earlier);
    } else {
        assert forall|i: int| 0 <= i < k implies continues(#[trigger] earlier[i]) by {
            assert(earlier[i] == signals[i]);
        }
        assert(earlier[k] == signals[k]);
        lemma_failure_keeps_watermark(before, state, earlier, k);
    }
}

/// The pages of a whole listing are all processed: each page but the last is
/// answered by the request for the next, the run is still paging when the
/// last page arrives, and the last page alone completes the run and commits
/// the instant at which the run started.
pub proof fn lemma_listing_completes_once(
    before: Option<Instant>,
    state: RunState,
    signals: Seq<Signal>,
)
    requires
        state.phase == Phase::Paging,
        whole_listing(signals),
    ensures
        forall|k: int|
            0 <= k < signals.len() ==> (#[trigger] run_through(state, signals.take(k))).phase
                == Phase::Paging,
        forall|k: int|
            0 <= k < signals.len() - 1 ==> #[trigger] reaction(
                run_through(state, signals.take(k)),
                signals[k],
            ) is Fetch,
        reaction(run_through(state, signals.drop_last()), signals.last()) == (Step::Commit {
            checkpoint: state.started_at,
        }),
        run_through(state, signals).phase == Phase::Committed,
        watermark_after(before, state, signals) == Some(state.started_at),
{
    assert forall|k: int| 0 <= k < signals.len() implies (#[trigger] run_through(
        state,
        signals.take(k),
    )).phase == Phase::Paging && (k < signals.len() - 1 ==> reaction(
        run_through(state, signals.take(k)),
        signals[k],
    ) is Fetch) by {
        let prefix = signals.take(k);
        assert forall|i: int| 0 <= i < prefix.len() implies continues(#[trigger] prefix[i]) by {
            assert(prefix[i] == signals[i]);
        }
        lemma_paging_continues(before, state, prefix);
        if k < signals.len() - 1 {
            assert(continues(signals[k]));
        }
    }
    let earlier = signals.drop_last();
    assert(earlier =~= signals.take(signals.len() - 1));
    assert(run_through(state, earlier).phase == Phase::Paging);
    lemma_run_keeps_start(state, earlier);
}

/// The mathematical value of a [`PageTally`].
pub struct Counts {
    pub saved: nat,
    pub failed: nat,
}

/// One more, short of leaving the machine's range.
pub open spec fn counted_up(count: nat) -> nat {
    if count < usize::MAX {
        count + 1
    } else {
        count
    }
}

/// The counts after one more document was handed to the store.
pub open spec fn recorded(counts: Counts, persisted: bool) -> Counts {
    if persisted {
        Counts { saved: counted_up(counts.saved), ..counts }
    } else {
        Counts { failed: counted_up(counts.failed), ..counts }
    }
}

/// How the documents of one page fared at the store. A document that the
/// store refuses is counted and the page goes on.
#[derive(Clone, Copy, Debug, PartialEq, Eq)]
pub struct PageTally {
    saved: usize,
    failed: usize,
}

impl View for PageTally {
    type V = Counts;

    closed spec fn view(&self) -> Counts {
        Counts { saved: self.saved as nat, failed: self.failed as nat }
    }
}

impl PageTally {
    /// The tally of a page of which no document was handed over yet.
    pub fn new() -> (out: PageTally)
        ensures
            out@ == (Counts { saved: 0, failed: 0 }),
    {
        PageTally { saved: 0, failed: 0 }
    }

    /// Counts one document: `persisted` tells whether the store took it.
    pub fn record(&mut self, persisted: bool)
        ensures
            final(self)@ == recorded(old(self)@, persisted),
    {
        if persisted {
            if self.saved < usize::MAX {
                self.saved = self.saved + 1;
            }
        } else {
            if self.failed < usize::MAX {
                self.failed = self.failed + 1;
            }
        }
    }

    /// How many documents the store took.
    pub fn saved(&self) -> (out: usize)
        ensures
            out == self@.saved,
    {
        self.saved
    }

    /// How many documents the store refused.
    pub fn failed(&self) -> (out: usize)
        ensures
            out == self@.failed,
    {
        self.failed
    }
}

/// One run of the synchronisation.
#[derive(Clone, Debug)]
pub struct SyncRun {
    started_at: Timestamp,
    filter: Option<Timestamp>,
    cursor: Option<String>,
    phase: Phase,
}

impl View for SyncRun {
    type V = RunState;

    closed spec fn view(&self) -> RunState {
        RunState {
            started_at: self.started_at@,
            filter: opt_instant(self.filter),
            cursor: match self.cursor {
                Some(cursor) => Some(cursor@),
                None => None,
            },
            phase: self.phase,
        }
    }
}

impl SyncRun {
    /// Starts a run at the instant `now`, which the caller takes before it
    /// issues any request. `checkpoint` is the watermark of the last complete
    /// run; a run that is `full` ignores it. Returns the run and its first
    /// action, the request for the first page.
    pub fn start(checkpoint: Option<Timestamp>, full: bool, now: Timestamp) -> (out: (
        SyncRun,
        Action,
    ))
        ensures
            out.0@ == initial(opt_instant(checkpoint), full, now@),
            out.1@ == (Step::Fetch { url: request(out.0@) }),
    {
        let filter = if full {
            None
        } else {
            checkpoint
        };
        let run = SyncRun { started_at: now, filter, cursor: None, phase: Phase::Paging };
        let url = run.request_url();
        (run, Action::Fetch { url })
    }

    /// The address of the request for the page at the cursor, with the filter
    /// where the run still carries it.
    pub fn request_url(&self) -> (out: String)
        ensures
            out@ == request(self@),
    {
        let cursor: Option<&str> = match &self.cursor {
            Some(text) => Some(text.as_str()),
            None => None,
        };
        let filter: Option<&Timestamp> = match &self.filter {
            Some(ts) => Some(ts),
            None => None,
        };
        build_url(cursor, filter)
    }

    /// Where the run stands.
    pub fn phase(&self) -> (out: Phase)
        ensures
            out == self@.phase,
    {
        self.phase
    }

    /// The instant at which the run started.
    pub fn started_at(&self) -> (out: Timestamp)
        ensures
            out@ == self@.started_at,
    {
        self.started_at
    }

    /// Takes in what came of the last action and names the next one.
    pub fn step(&mut self, event: Event) -> (out: Action)
        ensures
            final(self)@ == advance(old(self)@, event@),
            out@ == reaction(old(self)@, event@),
    {
        match self.phase {
            Phase::Paging => match event {
                Event::Page { next_cursor: Some(cursor) } => {
                    self.filter = None;
                    self.cursor = Some(cursor);
                    let url = self.request_url();
                    Action::Fetch { url }
                },
                Event::Page { next_cursor: None } => {
                    self.filter = None;
                    self.cursor = None;
                    self.phase = Phase::Committed;
                    Action::Commit { checkpoint: self.started_at }
                },
                Event::Failed => {
                    self.phase = Phase::Aborted;
                    Action::Stop
                },
            },
            _ => Action::Stop,
        }
    }
}

} // verus!
