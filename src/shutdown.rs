//! The one-shot shutdown signal and the coordinator that races the three
//! reasons to stop: downlink termination, an interrupt, and the signal.
use vstd::prelude::*;

verus! {

/// One-shot notification that the audio input is exhausted.
pub struct ShutdownSignal {
    pub fired: bool,
}

/// Firing a signal: it is fired afterwards, and the firing counts only if it
/// was not fired before.
pub open spec fn fire_spec(s: ShutdownSignal) -> (ShutdownSignal, bool) {
    (ShutdownSignal { fired: true }, !s.fired)
}

impl ShutdownSignal {
    pub fn new() -> (r: ShutdownSignal)
        ensures
            !r.fired,
    {
        ShutdownSignal { fired: false }
    }

    /// Fires the signal; returns whether this was its first firing. A second
    /// firing is a no-op, never an error.
    pub fn fire(&mut self) -> (first: bool)
        ensures
            (*final(self), first) == fire_spec(*old(self)),
    {
        let first = !self.fired;
        self.fired = true;
        first
    }
}

/// An event that may end the process.
#[derive(PartialEq, Eq, Structural, Clone, Copy, Debug)]
pub enum Completion {
    /// The downlink task ended (close frame, read error or end of stream).
    DownlinkEnded,
    /// An external interrupt was received.
    Interrupted,
    /// The shutdown signal fired.
    SignalFired,
    /// The shutdown signal's sender went away without firing.
    SignalDropped,
}

/// Races the completions: the first one that counts ends the process.
pub struct Coordinator {
    pub exit: Option<Completion>,
}

/// Observing a completion: it ends the process if none has before and it is
/// not a signal dropped unfired; otherwise nothing changes.
pub open spec fn observe_spec(c: Coordinator, e: Completion) -> (Coordinator, bool) {
    if c.exit is None && e != Completion::SignalDropped {
        (Coordinator { exit: Some(e) }, true)
    } else {
        (c, false)
    }
}

/// The coordinator after a run of completions, and for each whether it ended
/// the process.
pub open spec fn coordinator_run(c: Coordinator, es: Seq<Completion>) -> (Coordinator, Seq<bool>)
    decreases es.len(),
{
    if es.len() == 0 {
        (c, seq![])
    } else {
        let (c1, b) = observe_spec(c, es[0]);
        let (c2, bs) = coordinator_run(c1, es.drop_first());
        (c2, seq![b] + bs)
    }
}

/// How many entries of a run ended the process.
pub open spec fn exit_count(bs: Seq<bool>) -> nat
    decreases bs.len(),
{
    if bs.len() == 0 {
        0
    } else {
        (if bs[0] { 1nat } else { 0nat }) + exit_count(bs.drop_first())
    }
}

impl Coordinator {
    pub fn new() -> (r: Coordinator)
        ensures
            r.exit is None,
    {
        Coordinator { exit: None }
    }

    /// Records a completion; returns whether the process ends with it.
    pub fn observe(&mut self, e: Completion) -> (exit_now: bool)
        ensures
            (*final(self), exit_now) == observe_spec(*old(self), e),
    {
        if self.exit.is_none() && e != Completion::SignalDropped {
            self.exit = Some(e);
            true
        } else {
            false
        }
    }

    /// Whether some completion has ended the process.
    pub fn is_done(&self) -> (r: bool)
        ensures
            r == self.exit is Some,
    {
        self.exit.is_some()
    }
}

/// Firing the signal a second time changes nothing and does not count.
pub proof fn lemma_second_fire_is_noop(s: ShutdownSignal)
    ensures
        fire_spec(fire_spec(s).0).0 == fire_spec(s).0,
        !fire_spec(fire_spec(s).0).1,
{
}

/// Whatever completions arrive, in whatever order and however often (a signal
/// fired twice included), the process ends at most once; once it has ended,
/// no later completion changes the coordinator.
pub proof fn lemma_exit_decided_once(c: Coordinator, es: Seq<Completion>)
    ensures
        exit_count(coordinator_run(c, es).1) <= 1,
        c.exit is Some ==> exit_count(coordinator_run(c, es).1) == 0
            && coordinator_run(c, es).0 == c,
    decreases es.len(),
{
    if es.len() > 0 {
        let (c1, b) = observe_spec(c, es[0]);
        lemma_exit_decided_once(c1, es.drop_first());
        let bs = coordinator_run(c1, es.drop_first()).1;
        assert((seq![b] + bs).drop_first() =~= bs);
    }
}

/// The process ends only through a completion that was observed, and never
/// through a signal dropped unfired.
pub proof fn lemma_exit_cause_observed(c: Coordinator, es: Seq<Completion>)
    requires
        c.exit is None,
    ensures
        coordinator_run(c, es).0.exit matches Some(e) ==> es.contains(e) && e != Completion::SignalDropped,
    decreases es.len(),
{
    if es.len() > 0 {
        let (c1, b) = observe_spec(c, es[0]);
        if c1.exit is None {
            lemma_exit_cause_observed(c1, es.drop_first());
            if let Some(e) = coordinator_run(c1, es.drop_first()).0.exit {
                let k = choose|k: int| 0 <= k < es.drop_first().len() && es.drop_first()[k] == e;
                assert(es[k + 1] == e);
            }
        } else {
            lemma_exit_decided_once(c1, es.drop_first());
            assert(es[0] == c1.exit->Some_0);
        }
    }
}

} // verus!
