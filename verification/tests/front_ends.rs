use std::sync::mpsc::channel;

use nri::cli::request_cmd;
use nri::comms::{handle, handle_err, handle_ok, react, waited, Break, CmdFrom, CmdTo, Handled, TryRecv};
use nri::flow::{FlowCmd, FlowState};
use nri::flow_run::CmdAction;
use nri::packet::{Board, PacketError};
use nri::park::ParkState;
use nri::web::{
    control_status, flow_status, parse_plain, stale_reply, unknown_action_status, validate_int_plain,
    validate_str_plain, FlowOutcome,
};
use nri::flow::EventContour;

fn lines(text: &str) -> Vec<String> {
    text.split('\n').map(|l| l.to_string()).collect()
}

#[test]
fn plain_parse_keeps_start_words_whole() {
    let text = "Demo  \n- => A\n  start bluefox/cfg\n  : disk start\n  stop";
    let flow = parse_plain(&lines(text)).unwrap();
    assert_eq!(flow.name, "Demo");
    assert_eq!(flow.shortname, "");
    assert_eq!(flow.states.len(), 1);
    let expected = FlowState::new(
        "A".to_string(),
        Some(ParkState::AllParked),
        vec![
            (FlowCmd::Start("bluefox/cfg".to_string(), None), None),
            (FlowCmd::Send("disk start".to_string()), None),
            (FlowCmd::StopSensors, None),
        ],
    );
    assert_eq!(flow.states[0], expected);
}

#[test]
fn plain_parse_errors() {
    assert_eq!(parse_plain(&lines("N\n- s\n > \"a")).unwrap_err().0, 2);
    assert!(parse_plain(&lines("")).is_err());
}

#[test]
fn plain_run_sends_data_as_it_is() {
    assert_eq!(FlowCmd::Send("x".to_string()).run_plain(), CmdAction::SendData("x".to_string()));
    assert_eq!(FlowCmd::Message("hi".to_string()).run_plain(), CmdAction::Show("msg hi".to_string()));
    assert_eq!(
        FlowCmd::str("Name".to_string()).run_plain(),
        CmdAction::AskStr("Please enter Name: <form><input type=\"text\" name=\"Name\"/></form>".to_string())
    );
    assert_eq!(
        FlowCmd::integer("F".to_string(), (-2, 7)).run_plain(),
        CmdAction::AskInt(
            "Please select F (-2-7 scale): <form><input type=\"text\" name=\"F\"/></form>".to_string(),
            -2,
            7
        )
    );
    assert_eq!(
        FlowCmd::Start("bluefox/cfg".to_string(), None).run_plain(),
        CmdAction::Start("bluefox/cfg".to_string(), None)
    );
}

#[test]
fn plain_answers() {
    assert_eq!(validate_str_plain("".to_string()), Err("That's an empty string!".to_string()));
    assert_eq!(validate_str_plain(" a ".to_string()), Ok(" a ".to_string()));
    assert_eq!(validate_int_plain("5", 1, 10), Ok(5));
    assert_eq!(validate_int_plain("11", 1, 10), Err("Out of range!".to_string()));
    assert_eq!(validate_int_plain(" 5", 1, 10), Err("Not an integer!".to_string()));
    assert_eq!(validate_int_plain("five", 1, 10), Err("Not an integer!".to_string()));
}

#[test]
fn react_to_what_was_found() {
    let carry_on = Handled { leave: None, teardown: false };
    let shut_down = Handled { leave: Some(Break::Alive), teardown: true };
    let mut data = Some("old".to_string());
    assert_eq!(react(TryRecv::Empty, &mut data), carry_on);
    assert_eq!(data, Some("old".to_string()));
    assert_eq!(react(TryRecv::Got(CmdTo::Start(None)), &mut data), carry_on);
    assert_eq!(react(TryRecv::Got(CmdTo::Data("new".to_string())), &mut data), carry_on);
    assert_eq!(data, Some("new".to_string()));
    assert_eq!(
        react(TryRecv::Got(CmdTo::Stop), &mut data),
        Handled { leave: Some(Break::Running), teardown: false }
    );
    assert_eq!(react(TryRecv::Disconnected, &mut data), shut_down);
    assert_eq!(react(TryRecv::Got(CmdTo::Quit), &mut data), shut_down);
    assert_eq!(data, Some("new".to_string()));
    assert_eq!(handle_err(), shut_down);
    assert_eq!(handle_ok(CmdTo::Quit, &mut data), shut_down);
}

#[test]
fn waiting_finds_a_command_or_a_gone_supervisor() {
    assert!(matches!(waited(None), TryRecv::Disconnected));
    assert!(matches!(waited(Some(CmdTo::Stop)), TryRecv::Got(CmdTo::Stop)));
}

#[test]
fn handle_on_a_channel() {
    let (tx, rx) = channel::<CmdTo>();
    let mut data = None;
    assert_eq!(handle(false, &rx, &mut data), Handled { leave: None, teardown: false });
    tx.send(CmdTo::Data("d".to_string())).unwrap();
    assert_eq!(handle(true, &rx, &mut data), Handled { leave: None, teardown: false });
    assert_eq!(data, Some("d".to_string()));
    drop(tx);
    let shut_down = Handled { leave: Some(Break::Alive), teardown: true };
    assert_eq!(handle(false, &rx, &mut data), shut_down);
    assert_eq!(handle(true, &rx, &mut data), shut_down);
    assert_eq!(data, Some("d".to_string()));
}

#[test]
fn requests_to_the_supervisor() {
    let (tx, rx) = channel::<bool>();
    match request_cmd(true, "bluefox".to_string(), tx.clone()) {
        CmdFrom::Start(s, None, t) => {
            assert_eq!(s, "bluefox");
            t.send(true).unwrap();
        }
        _ => panic!("expected a start request"),
    }
    assert_eq!(rx.recv(), Ok(true));
    match request_cmd(false, "teensy".to_string(), tx) {
        CmdFrom::Stop(s, t) => {
            assert_eq!(s, "teensy");
            t.send(false).unwrap();
        }
        _ => panic!("expected a stop request"),
    }
    assert_eq!(rx.recv(), Ok(false));
}

#[test]
fn packet_error_messages() {
    assert_eq!(PacketError::TooSmall(12).message(Board::Stb), "Implausibly small packet (12) from STB!");
    assert_eq!(
        PacketError::Checksum(3, 200).message(Board::Teensy),
        "Received Teensy packet with wrong checksum (it says 3, I calculate 200)!"
    );
    assert_eq!(PacketError::ImpossibleSize(40, 1, 2).message(Board::Stb), "Impossible packet size (40) from STB!");
    assert_eq!(
        PacketError::ImpossibleSize(40, 1, 2).message(Board::Teensy),
        "Impossible packet size (40 with a=1, g=2) from Teensy!"
    );
    assert_eq!(
        PacketError::TooManyReadings(9, 0).message(Board::Stb),
        "Too many IMU readings (a=9, g=0) from STB!"
    );
}

#[test]
fn reply_statuses() {
    assert_eq!(flow_status(FlowOutcome::Aborting), 200);
    assert_eq!(flow_status(FlowOutcome::Ran(EventContour::In)), 200);
    assert_eq!(flow_status(FlowOutcome::Missing), 400);
    assert_eq!(flow_status(FlowOutcome::Failed), 500);
    assert_eq!(control_status(true), 200);
    assert_eq!(control_status(false), 500);
    assert_eq!(unknown_action_status(), 400);
    assert_eq!(stale_reply(), (418, "Reload first!".to_string()));
}
