use nri::flow::{Flow, FlowCmd, FlowError, FlowState, Stamp};
use nri::flow_parse::{read_flow, Dialect, ParseFlowKind, Reading};
use nri::park::ParkState;

fn lines(text: &str) -> Vec<String> {
    text.split('\n').map(|l| l.to_string()).collect()
}

fn sample() -> Vec<String> {
    lines(
        "Test Flow: OptoForce, Stick\n\
         - Setup\n \
         : disk start\n \
         \"Welcome!\"\n\
         \n\
         - OptoForce => Press\n \
         > \"Name\"\n \
         > \"Force\" (1..10)\n \
         start optoforce teensy/fast\n \
         stop\n\
         - Done   \n \
         stop optoforce",
    )
}

fn expected_sample() -> Flow {
    Flow::new(
        "Test Flow".to_string(),
        "test".to_string(),
        vec![ParkState::OptoForce, ParkState::Stick],
        vec![
            FlowState::new(
                "Setup".to_string(),
                None,
                vec![
                    (FlowCmd::Send("disk start".to_string()), None),
                    (FlowCmd::Message("Welcome!".to_string()), None),
                ],
            ),
            FlowState::new(
                "Press".to_string(),
                Some(ParkState::OptoForce),
                vec![
                    (FlowCmd::str("Name".to_string()), None),
                    (FlowCmd::integer("Force".to_string(), (1, 10)), None),
                    (FlowCmd::Start("optoforce".to_string(), None), None),
                    (FlowCmd::Start("teensy".to_string(), Some("fast".to_string())), None),
                    (FlowCmd::StopSensors, None),
                ],
            ),
            FlowState::new(
                "Done".to_string(),
                None,
                vec![(FlowCmd::Stop("optoforce".to_string()), None)],
            ),
        ],
    )
}

fn parse_err(text: &str) -> (usize, ParseFlowKind) {
    match Flow::parse("f".to_string(), &lines(text)) {
        Err(FlowError::ParseFlow(n, k)) => (n, k),
        other => panic!("expected a parse error, got {:?}", other),
    }
}

#[test]
fn parses_a_backend_flow() {
    let flow = Flow::parse("test".to_string(), &sample()).unwrap();
    assert_eq!(flow, expected_sample());
    assert!(!flow.active);
    assert!(!flow.almostdone);
}

#[test]
fn empty_file_is_refused() {
    assert_eq!(parse_err(""), (0, ParseFlowKind::EmptyFile));
    assert_eq!(parse_err("   \n\t\n"), (0, ParseFlowKind::EmptyFile));
}

#[test]
fn header_errors() {
    assert_eq!(parse_err("A: Bogus"), (0, ParseFlowKind::InvalidEndEffector));
    assert_eq!(parse_err("A: Stick: BioTac"), (0, ParseFlowKind::BadHeader));
}

#[test]
fn header_without_end_effectors() {
    let flow = Flow::parse("s".to_string(), &lines("  Plain  \n- One\n stop")).unwrap();
    assert_eq!(flow.name, "Plain");
    assert!(flow.endeffs.is_empty());
    assert_eq!(flow.states.len(), 1);
}

#[test]
fn state_header_errors() {
    assert_eq!(parse_err("Name\n cmd"), (1, ParseFlowKind::CommandOutsideOfState));
    assert_eq!(parse_err("Name\nfoo"), (1, ParseFlowKind::UnindentedLine));
    assert_eq!(parse_err("Name\n- a => b => c"), (1, ParseFlowKind::TooManyArrows));
    assert_eq!(parse_err("Name\n- Bad => x"), (1, ParseFlowKind::BadTrigger));
}

#[test]
fn line_numbers_count_from_the_header() {
    assert_eq!(parse_err("\n\nName\n- s\n bogus"), (2, ParseFlowKind::InvalidCommand));
    assert_eq!(parse_err("Name\n\n- s\n > no quotes"), (3, ParseFlowKind::ExpectedQuotedString));
}

#[test]
fn range_errors() {
    assert_eq!(parse_err("N\n- s\n > \"p\" 1..2"), (2, ParseFlowKind::RangeNotInParentheses));
    assert_eq!(parse_err("N\n- s\n > \"p\" (1.2)"), (2, ParseFlowKind::NotEnoughDots));
    assert_eq!(parse_err("N\n- s\n > \"p\" (x..2)"), (2, ParseFlowKind::BadStartOfRange));
    assert_eq!(parse_err("N\n- s\n > \"p\" (1..y)"), (2, ParseFlowKind::BadEndOfRange));
}

#[test]
fn trigger_none_is_all_parked() {
    let flow = Flow::parse("s".to_string(), &lines("N\n-  => Rest\n : x")).unwrap();
    assert_eq!(flow.states[0].park, Some(ParkState::AllParked));
    assert_eq!(flow.states[0].name, "Rest");
}

#[test]
fn unreadable_lines_are_told_apart() {
    for text in ["N\n- s\n \"", "N\n- s\n > \"half"] {
        match read_flow("f".to_string(), &lines(text), Dialect::Backend) {
            Reading::Unreadable => {}
            other => panic!("expected an unreadable file, got {:?}", other),
        }
    }
}

#[test]
fn backend_prompt_takes_first_and_last_quote() {
    let flow = Flow::parse("s".to_string(), &lines("N\n- s\n > \"a\" \"b\"")).unwrap();
    assert_eq!(flow.states[0].script[0].0, FlowCmd::str("a\" \"b".to_string()));
}

#[test]
fn web_dialect_takes_the_whole_header_and_counts_quotes() {
    let text = "Web Flow: not parsed\n- Intro\n > \"Who \\\"are\\\" you\"";
    let flow = nri::web::parse("w".to_string(), &lines(text)).unwrap();
    assert_eq!(flow.name, "Web Flow: not parsed");
    assert!(flow.endeffs.is_empty());
    assert_eq!(flow.states[0].script[0].0, FlowCmd::str("Who \\\"are\\\" you".to_string()));
}

#[test]
fn web_dialect_quote_errors() {
    let two = nri::web::parse("w".to_string(), &lines("N\n- s\n > \"a\" \"b\""));
    assert_eq!(two.unwrap_err(), (2, ParseFlowKind::TooManyStrings));
    let one = nri::web::parse("w".to_string(), &lines("N\n- s\n > \"a"));
    assert_eq!(one.unwrap_err(), (2, ParseFlowKind::UnterminatedString));
    match read_flow("w".to_string(), &lines("N\n- s\n > none"), Dialect::Web) {
        Reading::Unreadable => {}
        other => panic!("expected an unreadable file, got {:?}", other),
    }
}

#[test]
fn error_messages() {
    assert_eq!(ParseFlowKind::EmptyFile.message(), "Empty file");
    assert_eq!(ParseFlowKind::NotEnoughDots.message(), "not enough dots in range");
    assert_eq!(ParseFlowKind::TooManyStrings.message(), "too many strings");
}

#[test]
fn a_run_leaves_a_parsed_flow_as_it_was_read() {
    let original = Flow::parse("test".to_string(), &sample()).unwrap();
    let mut flow = original.clone();
    assert_eq!(flow, original);
    let t = Stamp { secs: 100, nanos: 5 };
    assert!(flow.begin(t, 42));
    for s in 0..flow.states.len() {
        flow.states[s].begin(t);
        for c in 0..flow.states[s].script.len() {
            flow.states[s].stamp_command(c, t);
            match flow.states[s].script[c].0 {
                FlowCmd::Str { .. } => flow.states[s].script[c].0.answer_str("me".to_string()),
                FlowCmd::Int { .. } => flow.states[s].script[c].0.answer_int(7),
                _ => {}
            }
        }
        flow.states[s].complete();
    }
    assert!(!flow.settle());
    assert!(flow.almostdone);
    assert!(flow.settle());
    assert_eq!(flow.states, original.states);
    assert!(!flow.active);
    assert!(!flow.almostdone);
}
