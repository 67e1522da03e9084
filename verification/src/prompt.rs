//! The loop that takes events one at a time: what happens to a prompt on
//! each, and what is to be done about it.
use vstd::prelude::*;
use crate::event::Event;
use crate::cell::views_of;
use crate::grapheme::StyledGraphemes;
use crate::pane::Pane;
use crate::{PromptSignal, Renderer};

verus! {

/// Where the loop stands.
#[derive(Clone, Copy, Debug, PartialEq, Eq, Structural)]
pub enum Phase {
    /// Waiting for the next event.
    Idle,
    /// A handler is at work on an event.
    Evaluating,
    /// The widgets are being drawn.
    Render,
    /// The result is being taken out.
    Finalizing,
    /// The session is over.
    Terminated,
}

/// What moves the loop from one phase to the next.
#[derive(Clone, Copy, Debug, PartialEq, Eq)]
pub enum Occurrence {
    /// An event came in; `interrupt` says whether it asks for the session
    /// to stop.
    Arrival { interrupt: bool },
    /// The handler gave its signal.
    Signal(PromptSignal),
    /// The widgets have been drawn.
    Drawn,
    /// The result has been taken out.
    Finalized,
}

impl Phase {
    /// The phase that follows on `occurrence`. What does not belong to a
    /// phase leaves it as it is.
    pub open spec fn spec_advance(self, occurrence: Occurrence) -> Phase {
        match (self, occurrence) {
            (Phase::Idle, Occurrence::Arrival { interrupt: true }) => Phase::Terminated,
            (Phase::Idle, Occurrence::Arrival { interrupt: false }) => Phase::Evaluating,
            (Phase::Evaluating, Occurrence::Signal(PromptSignal::Continue)) => Phase::Render,
            (Phase::Evaluating, Occurrence::Signal(PromptSignal::Quit)) => Phase::Finalizing,
            (Phase::Render, Occurrence::Drawn) => Phase::Idle,
            (Phase::Finalizing, Occurrence::Finalized) => Phase::Terminated,
            _ => self,
        }
    }

    /// The phase that follows on `occurrence`.
    #[verifier::when_used_as_spec(spec_advance)]
    pub fn advance(self, occurrence: Occurrence) -> (next: Phase)
        ensures
            next == self.spec_advance(occurrence),
    {
        match (self, occurrence) {
            (Phase::Idle, Occurrence::Arrival { interrupt: true }) => Phase::Terminated,
            (Phase::Idle, Occurrence::Arrival { interrupt: false }) => Phase::Evaluating,
            (Phase::Evaluating, Occurrence::Signal(PromptSignal::Continue)) => Phase::Render,
            (Phase::Evaluating, Occurrence::Signal(PromptSignal::Quit)) => Phase::Finalizing,
            (Phase::Render, Occurrence::Drawn) => Phase::Idle,
            (Phase::Finalizing, Occurrence::Finalized) => Phase::Terminated,
            _ => self,
        }
    }

    /// The phase after the occurrences `run`, taken from left to right.
    pub open spec fn after(self, run: Seq<Occurrence>) -> Phase
        decreases run.len(),
    {
        if run.len() == 0 {
            self
        } else {
            self.after(run.drop_last()).spec_advance(run.last())
        }
    }
}

/// Nothing leads out of the phase in which the session is over.
pub proof fn lemma_terminated_is_final(run: Seq<Occurrence>)
    ensures
        Phase::Terminated.after(run) == Phase::Terminated,
    decreases run.len(),
{
    if run.len() > 0 {
        lemma_terminated_is_final(run.drop_last());
    }
}

/// One event takes the loop from waiting back to waiting, or to the end:
/// an interrupt ends the session at once, a handler that lets the session
/// go on is followed by drawing, and one that ends it by taking the result
/// out.
pub proof fn lemma_rounds(signal: PromptSignal)
    ensures
        Phase::Idle.spec_advance(Occurrence::Arrival { interrupt: true }) == Phase::Terminated,
        Phase::Idle.spec_advance(Occurrence::Arrival { interrupt: false }).spec_advance(
            Occurrence::Signal(PromptSignal::Continue),
        ).spec_advance(Occurrence::Drawn) == Phase::Idle,
        Phase::Idle.spec_advance(Occurrence::Arrival { interrupt: false }).spec_advance(
            Occurrence::Signal(PromptSignal::Quit),
        ).spec_advance(Occurrence::Finalized) == Phase::Terminated,
{
}

/// What is to be done after an event.
pub enum Outcome<T> {
    /// The session goes on: these panes are to be drawn, from top to bottom.
    Draw(Vec<Pane<StyledGraphemes>>),
    /// The session ended with this result.
    Finished(T),
    /// The session was stopped by an interrupt and has no result.
    Interrupted,
    /// The session was over before the event came.
    Over,
}

/// A prompt in a session: the state of its widgets, and where the loop
/// stands.
pub struct Prompt<R: Renderer> {
    renderer: R,
    phase: Phase,
}

impl<R: Renderer> Prompt<R> {
    /// The state of the widgets.
    pub closed spec fn state(&self) -> R::V {
        self.renderer@
    }

    /// Where the loop stands.
    pub closed spec fn stands(&self) -> Phase {
        self.phase
    }

    /// A prompt that waits for its first event.
    pub fn new(renderer: R) -> (p: Self)
        ensures
            p.state() == renderer@,
            p.stands() == Phase::Idle,
    {
        Prompt { renderer, phase: Phase::Idle }
    }

    /// Where the loop stands.
    pub fn phase(&self) -> (phase: Phase)
        ensures
            phase == self.stands(),
    {
        self.phase
    }

    /// The state of the widgets.
    pub fn renderer(&self) -> (r: &R)
        ensures
            r@ == self.state(),
    {
        &self.renderer
    }

    /// Gives the state of the widgets back.
    pub fn into_renderer(self) -> (r: R)
        ensures
            r@ == self.state(),
    {
        self.renderer
    }

    /// Draws the widgets as they are.
    pub fn draw(&self, width: u16, height: u16) -> (panes: Vec<Pane<StyledGraphemes>>)
        ensures
            views_of(panes@) == R::frames(self.state(), width, height),
    {
        self.renderer.create_panes(width, height)
    }

    /// Takes one event through the loop.
    ///
    /// Once the session is over, nothing happens any more. An interrupt
    /// ends the session at once: no handler runs and the widgets stay as
    /// they are. Every other event goes to the active handler. If that lets
    /// the session go on, the widgets are drawn as they then are and the
    /// loop waits again; if it ends the session, the result is taken out
    /// and the session is over.
    pub fn handle(&mut self, event: &Event, width: u16, height: u16) -> (outcome: Outcome<
        R::Return,
    >)
        ensures
            old(self).stands() != Phase::Idle ==> {
                &&& outcome is Over
                &&& final(self).state() == old(self).state()
                &&& final(self).stands() == old(self).stands()
            },
            old(self).stands() == Phase::Idle && event.is_interrupt() ==> {
                &&& outcome is Interrupted
                &&& final(self).state() == old(self).state()
                &&& final(self).stands() == Phase::Terminated
            },
            old(self).stands() == Phase::Idle && !event.is_interrupt() ==> {
                ||| {
                    &&& outcome is Draw
                    &&& R::evaluates_to(
                        old(self).state(),
                        *event,
                        final(self).state(),
                        PromptSignal::Continue,
                    )
                    &&& views_of(outcome->Draw_0@) == R::frames(final(self).state(), width, height)
                    &&& final(self).stands() == Phase::Idle
                }
                ||| {
                    &&& outcome is Finished
                    &&& exists|mid: R::V|
                        {
                            &&& R::evaluates_to(old(self).state(), *event, mid, PromptSignal::Quit)
                            &&& R::finalizes_to(mid, final(self).state(), outcome->Finished_0)
                        }
                    &&& final(self).stands() == Phase::Terminated
                }
            },
    {
        if self.phase != Phase::Idle {
            return Outcome::Over;
        }
        self.phase = self.phase.advance(Occurrence::Arrival { interrupt: event.interrupts() });
        if self.phase == Phase::Terminated {
            return Outcome::Interrupted;
        }
        let signal = self.renderer.evaluate(event);
        self.phase = self.phase.advance(Occurrence::Signal(signal));
        match signal {
            PromptSignal::Continue => {
                let panes = self.renderer.create_panes(width, height);
                self.phase = self.phase.advance(Occurrence::Drawn);
                Outcome::Draw(panes)
            },
            PromptSignal::Quit => {
                let ghost mid = self.renderer@;
                let ret = self.renderer.finalize();
                self.phase = self.phase.advance(Occurrence::Finalized);
                assert(R::evaluates_to(old(self).state(), *event, mid, PromptSignal::Quit)
                    && R::finalizes_to(mid, self.state(), ret));
                Outcome::Finished(ret)
            },
        }
    }
}

} // verus!
