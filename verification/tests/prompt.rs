use promkit::prompt::{Occurrence, Phase};
use promkit::PromptSignal;

#[test]
fn phases_follow_each_other() {
    let arrival = Occurrence::Arrival { interrupt: false };
    let interrupt = Occurrence::Arrival { interrupt: true };
    assert_eq!(Phase::Idle.advance(arrival), Phase::Evaluating);
    assert_eq!(Phase::Idle.advance(interrupt), Phase::Terminated);
    assert_eq!(Phase::Evaluating.advance(Occurrence::Signal(PromptSignal::Continue)), Phase::Render);
    assert_eq!(Phase::Evaluating.advance(Occurrence::Signal(PromptSignal::Quit)), Phase::Finalizing);
    assert_eq!(Phase::Render.advance(Occurrence::Drawn), Phase::Idle);
    assert_eq!(Phase::Finalizing.advance(Occurrence::Finalized), Phase::Terminated);
}

#[test]
fn nothing_leads_out_of_terminated() {
    let all = [
        Occurrence::Arrival { interrupt: false },
        Occurrence::Arrival { interrupt: true },
        Occurrence::Signal(PromptSignal::Continue),
        Occurrence::Signal(PromptSignal::Quit),
        Occurrence::Drawn,
        Occurrence::Finalized,
    ];
    for o in all {
        assert_eq!(Phase::Terminated.advance(o), Phase::Terminated);
    }
}

#[test]
fn what_does_not_belong_to_a_phase_leaves_it() {
    assert_eq!(Phase::Idle.advance(Occurrence::Drawn), Phase::Idle);
    assert_eq!(Phase::Idle.advance(Occurrence::Signal(PromptSignal::Quit)), Phase::Idle);
    assert_eq!(Phase::Evaluating.advance(Occurrence::Finalized), Phase::Evaluating);
    assert_eq!(Phase::Render.advance(Occurrence::Arrival { interrupt: true }), Phase::Render);
    assert_eq!(Phase::Finalizing.advance(Occurrence::Drawn), Phase::Finalizing);
}
