use nri::flow::{Flow, FlowCmd, FlowState, Stamp};
use nri::flow::EventContour;
use nri::flow_run::{
    next_episode, reprompt, step_contour, validate_int, validate_str, CleanupAction, CmdAction, FlowStep,
};
use nri::park::ParkState;

fn two_state_flow() -> Flow {
    Flow::new(
        "Two".to_string(),
        "two".to_string(),
        vec![],
        vec![
            FlowState::new(
                "first".to_string(),
                None,
                vec![
                    (FlowCmd::Start("bluefox".to_string(), None), None),
                    (FlowCmd::Send("disk start now".to_string()), None),
                    (FlowCmd::Message("hello".to_string()), None),
                ],
            ),
            FlowState::new(
                "second".to_string(),
                Some(ParkState::OptoForce),
                vec![(FlowCmd::Stop("bluefox".to_string()), None)],
            ),
        ],
    )
}

#[test]
fn cleanup_of_commands() {
    assert_eq!(
        FlowCmd::Start("svc".to_string(), Some("x".to_string())).cleanup(),
        Some(CleanupAction::StopService("svc".to_string()))
    );
    assert_eq!(
        FlowCmd::Send("disk start a; disk start b".to_string()).cleanup(),
        Some(CleanupAction::SendData("to disk stop a; disk stop b".to_string()))
    );
    assert_eq!(FlowCmd::Send("other".to_string()).cleanup(), None);
    assert_eq!(FlowCmd::Message("m".to_string()).cleanup(), None);
    assert_eq!(FlowCmd::StopSensors.cleanup(), None);
}

#[test]
fn cleanup_of_a_state_goes_last_first() {
    let flow = two_state_flow();
    assert_eq!(
        flow.states[0].cleanup(),
        vec![
            None,
            Some(CleanupAction::SendData("to disk stop now".to_string())),
            Some(CleanupAction::StopService("bluefox".to_string())),
        ]
    );
}

#[test]
fn actions_of_commands() {
    assert_eq!(FlowCmd::Message("hi".to_string()).run(), CmdAction::Show("msg hi".to_string()));
    assert_eq!(
        FlowCmd::str("Name".to_string()).run(),
        CmdAction::AskStr("prompt Please enter Name".to_string())
    );
    assert_eq!(
        FlowCmd::integer("Force".to_string(), (1, 10)).run(),
        CmdAction::AskInt("prompt Please select Force (1-10 scale)".to_string(), 1, 10)
    );
    assert_eq!(
        FlowCmd::integer("T".to_string(), (-5, 0)).prompt(),
        Some("prompt Please select T (-5-0 scale)".to_string())
    );
    assert_eq!(FlowCmd::Send("web x".to_string()).run(), CmdAction::SendData("to web x".to_string()));
    assert_eq!(
        FlowCmd::Start("a".to_string(), Some("d".to_string())).run(),
        CmdAction::Start("a".to_string(), Some("d".to_string()))
    );
    assert_eq!(FlowCmd::Stop("a".to_string()).run(), CmdAction::Stop("a".to_string()));
    assert_eq!(
        FlowCmd::StopSensors.run(),
        CmdAction::StopAll(
            ["bluefox", "structure", "biotac", "optoforce", "teensy"].iter().map(|s| s.to_string()).collect()
        )
    );
    assert_eq!(FlowCmd::Message("m".to_string()).prompt(), None);
}

#[test]
fn validating_answers() {
    assert_eq!(validate_str("".to_string()), Err("prompt That's an empty string!".to_string()));
    assert_eq!(validate_str("Bob".to_string()), Ok("Bob".to_string()));
    assert_eq!(validate_int(" 5 ", 1, 10), Ok(5));
    assert_eq!(validate_int("11", 1, 10), Err("prompt Out of range!".to_string()));
    assert_eq!(validate_int("five", 1, 10), Err("prompt Not an integer!".to_string()));
    assert_eq!(validate_int("-3", -5, 5), Ok(-3));
    assert_eq!(validate_int("+10", 1, 10), Ok(10));
    assert_eq!(reprompt("prompt Out of range!", "prompt Please select"), "prompt Out of range! prompt Please select");
}

#[test]
fn answers_and_finalize() {
    let mut c = FlowCmd::str("Name".to_string());
    c.answer_str("Ann".to_string());
    assert_eq!(c, FlowCmd::Str { prompt: "Name".to_string(), data: Some("Ann".to_string()) });
    c.finalize();
    assert_eq!(c, FlowCmd::str("Name".to_string()));
    let mut i = FlowCmd::integer("F".to_string(), (0, 3));
    i.answer_int(2);
    assert_eq!(i, FlowCmd::Int { prompt: "F".to_string(), limits: (0, 3), data: Some(2) });
    i.finalize();
    assert_eq!(i, FlowCmd::integer("F".to_string(), (0, 3)));
}

#[test]
fn next_step_follows_the_parking_lot() {
    let mut flow = two_state_flow();
    assert_eq!(flow.next_step(ParkState::Stick), FlowStep::Execute(0));
    flow.states[0].complete();
    assert_eq!(flow.next_step(ParkState::Stick), FlowStep::WaitFor(ParkState::OptoForce));
    assert_eq!(flow.next_step(ParkState::OptoForce), FlowStep::Execute(1));
    flow.states[1].complete();
    assert_eq!(flow.next_step(ParkState::OptoForce), FlowStep::NoApplicable);
}

#[test]
fn a_flow_ends_one_step_after_its_last_state() {
    let mut flow = two_state_flow();
    let t = Stamp { secs: 1, nanos: 2 };
    assert!(flow.begin(t, 7));
    assert!(!flow.begin(t, 8));
    assert_eq!(flow.id, Some(7));
    assert!(!flow.settle());
    assert!(!flow.almostdone);
    flow.states[0].complete();
    flow.states[1].complete();
    assert!(!flow.settle());
    assert!(flow.almostdone);
    assert!(flow.settle());
    assert!(!flow.active);
    assert!(flow.states.iter().all(|s| !s.done && s.stamp.is_none()));
}

#[test]
fn abort_undoes_done_states_last_first() {
    let mut flow = two_state_flow();
    flow.active = true;
    flow.states[0].complete();
    flow.states[1].complete();
    assert_eq!(flow.done_states_rev(), vec![1, 0]);
    flow.states[0].begin(Stamp { secs: 3, nanos: 0 });
    flow.states[0].script[0].1 = Some(Stamp { secs: 4, nanos: 5 });
    flow.states[1].script.push((FlowCmd::Str { prompt: "Name".to_string(), data: Some("Ann".to_string()) }, None));
    flow.reset_after_abort();
    assert!(!flow.active);
    assert!(flow.states.iter().all(|s| !s.done && s.stamp.is_none()));
    assert!(flow.states.iter().all(|s| s.script.iter().all(|(_, stamp)| stamp.is_none())));
    assert_eq!(flow.states[1].script.last().unwrap().0, FlowCmd::str("Name".to_string()));
    assert_eq!(flow.states[0].script.len(), 3);
    assert_eq!(flow.next_step(ParkState::Stick), FlowStep::Execute(0));
}

#[test]
fn episode_numbers() {
    let names = |v: &[&str]| v.iter().map(|s| s.to_string()).collect::<Vec<_>>();
    assert_eq!(next_episode(&names(&[])), Ok(1));
    assert_eq!(next_episode(&names(&["1", "3", "2"])), Ok(4));
    assert_eq!(next_episode(&names(&["0"])), Ok(1));
    assert_eq!(next_episode(&names(&["+5"])), Ok(6));
    assert_eq!(next_episode(&names(&["1", "x", "y"])), Err("x".to_string()));
}

#[test]
fn step_outcomes() {
    assert_eq!(step_contour(true, true, false), EventContour::Continuing);
    assert_eq!(step_contour(true, false, false), EventContour::Starting);
    assert_eq!(step_contour(false, false, false), EventContour::In);
    assert_eq!(step_contour(false, true, true), EventContour::Finishing);
    assert_eq!(step_contour(true, false, true), EventContour::Finishing);
}
