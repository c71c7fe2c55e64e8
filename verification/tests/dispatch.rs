use obs_hotkeys::action::{Action, Modifiers, Request};
use obs_hotkeys::dispatch::{advance, Event, Phase, Step};

fn run(events: &[Event]) -> (Phase, Vec<Step>) {
    let mut phase = Phase::Ready;
    let mut steps = Vec::new();
    for e in events {
        let (next, step) = advance(phase, *e);
        phase = next;
        steps.push(step);
    }
    (phase, steps)
}

#[test]
fn sequence_with_shift_and_alt() {
    let action = Action::Sequence {
        key_id: String::from("OBS_KEY_A"),
        shift: true,
        control: false,
        alt: true,
        command: false,
    };
    assert_eq!(
        action.into_request(),
        Request::TriggerBySequence {
            key_id: String::from("OBS_KEY_A"),
            modifiers: Modifiers { shift: true, control: false, alt: true, command: false },
        }
    );
}

#[test]
fn control_comes_from_its_own_switch() {
    let action = Action::Sequence {
        key_id: String::from("OBS_KEY_F1"),
        shift: false,
        control: true,
        alt: false,
        command: true,
    };
    match action.into_request() {
        Request::TriggerBySequence { key_id, modifiers } => {
            assert_eq!(key_id, "OBS_KEY_F1");
            assert!(modifiers.control);
            assert!(!modifiers.shift);
            assert!(!modifiers.alt);
            assert!(modifiers.command);
        }
        _ => panic!("expected a key sequence"),
    }
}

#[test]
fn modifiers_from_switches() {
    assert_eq!(
        Modifiers::from_switches(true, false, true, false),
        Modifiers { shift: true, control: false, alt: true, command: false }
    );
    assert_eq!(
        Modifiers::from_switches(false, true, false, true),
        Modifiers { shift: false, control: true, alt: false, command: true }
    );
}

#[test]
fn trigger_by_name_is_one_request_with_the_name() {
    let action = Action::Trigger { hotkey_name: String::from("my-hotkey") };
    assert_eq!(action.into_request(), Request::TriggerByName { name: String::from("my-hotkey") });
    let (phase, steps) = run(&[Event::Start, Event::Connected, Event::Answered]);
    assert_eq!(phase, Phase::Done);
    assert_eq!(steps, vec![Step::Connect, Step::Send, Step::Finish]);
    assert_eq!(steps.iter().filter(|s| **s == Step::Send).count(), 1);
}

#[test]
fn list_becomes_list_request() {
    assert_eq!(Action::List.into_request(), Request::ListHotkeys);
}

#[test]
fn connection_failure_sends_nothing() {
    let (phase, steps) = run(&[Event::Start, Event::ConnectionFailed, Event::Connected]);
    assert_eq!(phase, Phase::Failed);
    assert_eq!(steps, vec![Step::Connect, Step::FailConnection, Step::Stay]);
}

#[test]
fn rejected_request_fails() {
    let (phase, steps) = run(&[Event::Start, Event::Connected, Event::Rejected]);
    assert_eq!(phase, Phase::Failed);
    assert_eq!(steps, vec![Step::Connect, Step::Send, Step::FailRequest]);
}

#[test]
fn stray_events_change_nothing() {
    assert_eq!(advance(Phase::Ready, Event::Connected), (Phase::Ready, Step::Stay));
    assert_eq!(advance(Phase::Ready, Event::Answered), (Phase::Ready, Step::Stay));
    assert_eq!(advance(Phase::Connecting, Event::Start), (Phase::Connecting, Step::Stay));
    assert_eq!(advance(Phase::Requesting, Event::Connected), (Phase::Requesting, Step::Stay));
    assert_eq!(advance(Phase::Done, Event::Start), (Phase::Done, Step::Stay));
    assert_eq!(advance(Phase::Failed, Event::Start), (Phase::Failed, Step::Stay));
}

#[test]
fn repeated_events_send_once() {
    let (_, steps) = run(&[
        Event::Start,
        Event::Start,
        Event::Connected,
        Event::Connected,
        Event::Answered,
        Event::Start,
        Event::Connected,
    ]);
    assert_eq!(steps.iter().filter(|s| **s == Step::Send).count(), 1);
    assert_eq!(steps.iter().filter(|s| **s == Step::Connect).count(), 1);
}
