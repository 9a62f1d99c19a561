use nri::comms::Power;
use nri::flow::EventContour;
use nri::web::{
    client, client_with, control_reply, control_request, df_available, flow_action, flow_reply, kick_data,
    nuc_request, rpc_text, ws_text, Client, Comms, Control, FlowAction, FlowOutcome, WsText,
};

const UUID: &str = "550e8400-e29b-41d4-a716-446655440000";
const SERVER: u128 = 0x550e8400e29b41d4a716446655440000;

#[test]
fn connections() {
    let c = Comms::new(5);
    assert_eq!(c.wsid(), 5);
    assert_eq!(c.clone().wsid(), 5);
}

#[test]
fn plain_text_is_data() {
    assert_eq!(ws_text("hello", SERVER), Some(WsText::Data("hello".to_string())));
    assert_eq!(ws_text("RP no", SERVER), Some(WsText::Data("RP no".to_string())));
}

#[test]
fn answers_for_this_server() {
    let line = format!("RPC{}_3 yes please", UUID);
    assert_eq!(ws_text(&line, SERVER), Some(WsText::Answer(3, Some("yes please".to_string()))));
    let abort = format!("RPC{}_3 ABORT", UUID);
    assert_eq!(ws_text(&abort, SERVER), Some(WsText::Answer(3, None)));
    let simple = format!("RPC{}_0 x", UUID.replace('-', ""));
    assert_eq!(ws_text(&simple, SERVER), Some(WsText::Answer(0, Some("x".to_string()))));
}

#[test]
fn answers_for_another_server() {
    let line = format!("RPC{}_3 yes", UUID);
    assert_eq!(ws_text(&line, SERVER + 1), Some(WsText::Elsewhere));
}

#[test]
fn malformed_answers() {
    assert_eq!(ws_text("RPCnotauuid_3 x", SERVER), None);
    assert_eq!(ws_text(&format!("RPC{} x", UUID), SERVER), None);
    assert_eq!(ws_text(&format!("RPC{}_3", UUID), SERVER), None);
    assert_eq!(ws_text(&format!("RPC{}_q x", UUID), SERVER), None);
}

#[test]
fn answers_given_the_server_reading() {
    assert_eq!(rpc_text("RPCanything_2 ok", Some(9), 9), Some(WsText::Answer(2, Some("ok".to_string()))));
    assert_eq!(rpc_text("RPCanything_2 ok", Some(8), 9), Some(WsText::Elsewhere));
    assert_eq!(rpc_text("RPCanything_2 ok", None, 9), None);
}

#[test]
fn clients() {
    assert_eq!(client(&format!("{}_7", UUID), SERVER), Some(Client::Mine(7)));
    assert_eq!(client(&format!("{}_7", UUID), 1), Some(Client::Stale));
    assert_eq!(client("bad_7", SERVER), None);
    assert_eq!(client(UUID, SERVER), None);
    assert_eq!(client_with("x_4", Some(1), 1), Some(Client::Mine(4)));
    assert_eq!(client_with("x_4", Some(2), 1), Some(Client::Stale));
}

#[test]
fn machine_requests() {
    assert_eq!(nuc_request("poweroff"), Ok((Power::PowerOff, "Powering off...".to_string())));
    assert_eq!(nuc_request("reboot"), Ok((Power::Reboot, "Rebooting...".to_string())));
    assert_eq!(nuc_request("wifi"), Ok((Power::RebootWifi, "Rebooting...".to_string())));
    assert_eq!(nuc_request("dance"), Err("What does dance mean?".to_string()));
}

#[test]
fn service_requests() {
    assert_eq!(control_request("start"), Ok(Control::Start));
    assert_eq!(control_request("stop"), Ok(Control::Stop));
    assert_eq!(control_request("kick"), Ok(Control::Kick));
    assert_eq!(control_request("x"), Err("What does x mean?".to_string()));
    assert_eq!(control_reply(Control::Start, "bluefox", true), "Started bluefox");
    assert_eq!(control_reply(Control::Start, "bluefox", false), "Failed to start bluefox");
    assert_eq!(control_reply(Control::Stop, "a", true), "Stopped a");
    assert_eq!(control_reply(Control::Stop, "a", false), "Failed to stop a");
    assert_eq!(control_reply(Control::Kick, "a", true), "Kicked a");
    assert_eq!(control_reply(Control::Kick, "a", false), "Failed to kick a");
    assert_eq!(kick_data("teensy"), "kick teensy");
}

#[test]
fn flow_requests() {
    assert_eq!(flow_action("start"), Ok(FlowAction::Start));
    assert_eq!(flow_action("continue"), Ok(FlowAction::Continue));
    assert_eq!(flow_action("abort"), Ok(FlowAction::Abort));
    assert_eq!(flow_action("go"), Err("What does go mean?".to_string()));
    assert_eq!(flow_reply(FlowOutcome::Aborting, "f"), "Aborting \"f\" flow");
    assert_eq!(flow_reply(FlowOutcome::Ran(EventContour::Starting), "f"), "Starting \"f\" flow");
    assert_eq!(flow_reply(FlowOutcome::Ran(EventContour::In), "f"), "In \"f\" flow");
    assert_eq!(flow_reply(FlowOutcome::Missing, "f"), "Could not find \"f\" flow");
}

#[test]
fn free_disk_space() {
    let out = "Filesystem      Size  Used Avail Use% Mounted on\n/dev/sda1       100G   20G   80G  20% /\n";
    assert_eq!(df_available(out), Some("80G".to_string()));
    assert_eq!(df_available("only one line"), None);
    assert_eq!(df_available("head\na b c"), None);
    assert_eq!(df_available("head\n a b c"), Some("c".to_string()));
}
