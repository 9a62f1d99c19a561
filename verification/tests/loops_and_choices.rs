use nri::comms::{next, Act, CmdTo, Phase, TryRecv};
use nri::render::keepers;
use nri::utils::{give_up_text, retry_step, retry_text, step, Retry};
use nri::web::{connection, rpc_dispatch, Connect, RpcAction, WsText};

const SERVER: u128 = 0x550e8400e29b41d4a716446655440000;

fn run(events: Vec<TryRecv>) -> (Phase, Vec<Act>) {
    let mut phase = Phase::Hatching;
    let mut acts = Vec::new();
    for e in events {
        let (p, a) = next(phase, e);
        phase = p;
        acts.push(a);
    }
    (phase, acts)
}

#[test]
fn a_service_waits_for_its_start() {
    let (phase, acts) = run(vec![TryRecv::Got(CmdTo::Data("early".to_string())), TryRecv::Got(CmdTo::Stop)]);
    assert_eq!(phase, Phase::Done);
    assert_eq!(acts, vec![Act::Nothing, Act::Nothing]);
    let (phase, acts) = run(vec![TryRecv::Disconnected, TryRecv::Got(CmdTo::Start(None))]);
    assert_eq!(phase, Phase::Done);
    assert_eq!(acts, vec![Act::Nothing, Act::Nothing]);
}

#[test]
fn each_setup_is_torn_down_once() {
    let (phase, acts) = run(vec![
        TryRecv::Got(CmdTo::Start(Some("cfg".to_string()))),
        TryRecv::Empty,
        TryRecv::Got(CmdTo::Data("d".to_string())),
        TryRecv::Got(CmdTo::Start(None)),
        TryRecv::Got(CmdTo::Stop),
        TryRecv::Got(CmdTo::Data("ignored".to_string())),
        TryRecv::Got(CmdTo::Start(None)),
        TryRecv::Got(CmdTo::Quit),
        TryRecv::Got(CmdTo::Start(None)),
    ]);
    assert_eq!(phase, Phase::Done);
    assert_eq!(
        acts,
        vec![
            Act::Setup(Some("cfg".to_string())),
            Act::Step(None),
            Act::Step(Some("d".to_string())),
            Act::Step(None),
            Act::Teardown,
            Act::Nothing,
            Act::Setup(None),
            Act::Teardown,
            Act::Nothing,
        ]
    );
    let (phase, acts) = run(vec![TryRecv::Got(CmdTo::Start(None)), TryRecv::Disconnected]);
    assert_eq!(phase, Phase::Done);
    assert_eq!(acts, vec![Act::Setup(None), Act::Teardown]);
}

#[test]
fn keepers_are_a_second_apart() {
    let sorted = vec![100, 110, 50, 120, 200, 130, 300, 5, 400];
    assert_eq!(keepers(&sorted), vec![100, 50, 120, 200, 300]);
    assert_eq!(keepers(&vec![7, 8, 9, 22, 23]), vec![7, 23]);
    assert_eq!(keepers(&vec![]), Vec::<u32>::new());
    assert_eq!(keepers(&vec![30, 15, 45]), vec![30]);
    assert_eq!(keepers(&vec![30, 14, 46]), vec![30, 14, 46]);
}

#[test]
fn new_connections() {
    assert_eq!(connection(None, 0, SERVER), Connect::NoProtocols);
    assert_eq!(
        connection(Some(vec!["rust-websocket".to_string(), "ouroboros".to_string()]), 2, SERVER),
        Connect::Shutdown
    );
    assert_eq!(connection(Some(vec!["chat".to_string()]), 2, SERVER), Connect::Unsuitable);
    assert_eq!(
        connection(Some(vec!["chat".to_string(), "rust-websocket".to_string()]), 3, SERVER),
        Connect::Accept {
            wsid: 3,
            protocol: "rust-websocket".to_string(),
            hello: "hello 550e8400-e29b-41d4-a716-446655440000_3".to_string(),
        }
    );
    match connection(Some(vec!["rust-websocket".to_string()]), 0, 0xab) {
        Connect::Accept { hello, .. } => assert_eq!(hello, "hello 00000000-0000-0000-0000-0000000000ab_0"),
        other => panic!("expected an accepted page, got {:?}", other),
    }
}

#[test]
fn answers_go_to_waiting_questions() {
    assert_eq!(
        rpc_dispatch(WsText::Answer(1, Some("yes".to_string())), true),
        RpcAction::Deliver(1, Some("yes".to_string()))
    );
    assert_eq!(rpc_dispatch(WsText::Answer(1, None), true), RpcAction::Deliver(1, None));
    assert_eq!(
        rpc_dispatch(WsText::Answer(4, Some("yes".to_string())), false),
        RpcAction::Refuse(4, "RPC ERROR: nobody listening".to_string())
    );
    assert_eq!(rpc_dispatch(WsText::Elsewhere, true), RpcAction::Ignore);
    assert_eq!(rpc_dispatch(WsText::Data("x".to_string()), false), RpcAction::Forward("x".to_string()));
}

#[test]
fn stepping_over_successive_calls() {
    let mut s = step(3..20, 5);
    let got: Vec<Option<usize>> = (0..6).map(|_| s.next()).collect();
    assert_eq!(got, vec![Some(3), Some(8), Some(13), Some(18), None, None]);
    let mut z = step(2..3, 0);
    assert_eq!((z.next(), z.next(), z.next()), (Some(2), Some(2), Some(2)));
    let mut e = step(5..5, 1);
    assert_eq!(e.next(), None);
}

#[test]
fn retry_decisions_and_notes() {
    assert_eq!(retry_step(0, 3, false), Retry::Again);
    assert_eq!(retry_step(1, 3, false), Retry::Again);
    assert_eq!(retry_step(2, 3, false), Retry::GiveUp);
    assert_eq!(retry_step(0, 1, false), Retry::GiveUp);
    assert_eq!(retry_step(1, 3, true), Retry::Succeed);
    assert_eq!(retry_step(2, 3, true), Retry::Succeed);
    assert_eq!(
        retry_text("[teensy] reading ParkState", 0, 3, "TimedOut"),
        "\tRetrying (#1/3) [teensy] reading ParkState (TimedOut)"
    );
    assert_eq!(give_up_text("[web] send", 10), "ERROR: [web] send failed 10 times :(");
}

/// Runs the retrying loop's decisions over the outcomes of successive attempts, giving the steps.
fn retry_steps(oks: &[bool], times: usize) -> Vec<Retry> {
    let mut steps = Vec::new();
    for i in 0..times {
        let s = retry_step(i, times, oks[i]);
        steps.push(s);
        if s != Retry::Again {
            break;
        }
    }
    steps
}

#[test]
fn retrying_stops_at_the_first_success_or_the_last_try() {
    assert_eq!(retry_steps(&[false, false, true, true], 4), vec![Retry::Again, Retry::Again, Retry::Succeed]);
    assert_eq!(retry_steps(&[false, false, false], 3), vec![Retry::Again, Retry::Again, Retry::GiveUp]);
    assert_eq!(retry_steps(&[true], 1), vec![Retry::Succeed]);
    assert_eq!(retry_steps(&[false], 1), vec![Retry::GiveUp]);
}
