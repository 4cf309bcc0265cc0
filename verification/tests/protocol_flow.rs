use bot_harness::errors::ProtocolError;
use bot_harness::protocol::{Command, Event, Phase, Protocol};

/// Drives a fresh machine through the whole bootstrap, checking every
/// command on the way, and returns it standing in the steady state.
fn bootstrapped(port: u16) -> Protocol {
    let (mut machine, cmd) = Protocol::start(port);
    match cmd {
        Command::ConnectGame(url) => {
            assert_eq!(url, format!("ws://localhost:{}/game", port))
        }
        _ => panic!("a run must begin by connecting the game channel"),
    }
    match machine.step(Event::GameConnected) {
        Command::Delay => {}
        _ => panic!("the startup delay must follow the game connection"),
    }
    match machine.step(Event::DelayDone) {
        Command::ConnectLog(url) => {
            assert_eq!(url, format!("ws://localhost:{}/log", port))
        }
        _ => panic!("the log channel must follow the delay"),
    }
    match machine.step(Event::LogConnected) {
        Command::InitBot => {}
        _ => panic!("the bot hook must follow the log connection"),
    }
    match machine.step(Event::BotInitialized) {
        Command::ReadFrame => {}
        _ => panic!("the first read must follow initialization"),
    }
    machine
}

#[test]
fn startup_derives_both_endpoints_from_the_port() {
    let (mut machine, cmd) = Protocol::start(9000);
    match cmd {
        Command::ConnectGame(url) => assert_eq!(url, "ws://localhost:9000/game"),
        _ => panic!("a run must begin by connecting the game channel"),
    }
    machine.step(Event::GameConnected);
    match machine.step(Event::DelayDone) {
        Command::ConnectLog(url) => assert_eq!(url, "ws://localhost:9000/log"),
        _ => panic!("the log channel must follow the delay"),
    }
}

#[test]
fn endpoint_port_edge_values() {
    let (_, cmd) = Protocol::start(0);
    match cmd {
        Command::ConnectGame(url) => assert_eq!(url, "ws://localhost:0/game"),
        _ => panic!("a run must begin by connecting the game channel"),
    }
    let (_, cmd) = Protocol::start(65535);
    match cmd {
        Command::ConnectGame(url) => assert_eq!(url, "ws://localhost:65535/game"),
        _ => panic!("a run must begin by connecting the game channel"),
    }
}

#[test]
fn game_connection_failure_ends_the_run_before_any_bot_hook() {
    let (mut machine, _) = Protocol::start(9000);
    match machine.step(Event::GameConnectFailed) {
        Command::Exit(e) => assert_eq!(e, ProtocolError::Connection),
        _ => panic!("a failed game connection must end the run"),
    }
    assert_eq!(machine.phase, Phase::Fatal(ProtocolError::Connection));
    assert!(!machine.accepts(&Event::GameConnected));
    assert!(!machine.accepts(&Event::BotInitialized));
}

#[test]
fn log_connection_failure_ends_the_run_before_any_bot_hook() {
    let (mut machine, _) = Protocol::start(9000);
    machine.step(Event::GameConnected);
    machine.step(Event::DelayDone);
    match machine.step(Event::LogConnectFailed) {
        Command::Exit(e) => assert_eq!(e, ProtocolError::Connection),
        _ => panic!("a failed log connection must end the run"),
    }
    assert_eq!(machine.phase, Phase::Fatal(ProtocolError::Connection));
    assert!(!machine.accepts(&Event::BotInitialized));
}

#[test]
fn one_turn_decodes_decides_and_sends_exactly_once() {
    let mut machine = bootstrapped(9000);
    let inbound = "{\"board\":[0,1],\"you\":0}";
    match machine.step(Event::FrameRead(String::from(inbound))) {
        Command::Decide(info) => assert_eq!(info.text(), inbound),
        _ => panic!("a well-formed frame must reach the decision hook"),
    }
    match machine.step(Event::ActionDecided(String::from("{\"move\":2}"))) {
        Command::SendFrame(frame) => assert_eq!(frame, "{\"Action\":{\"move\":2}}"),
        _ => panic!("a decision must go out as one action frame"),
    }
    match machine.step(Event::FrameSent) {
        Command::ReadFrame => {}
        _ => panic!("after the send the loop must read again"),
    }
    assert_eq!(machine.phase, Phase::AwaitingFrame);
}

#[test]
fn two_turns_send_two_frames_in_order() {
    let mut machine = bootstrapped(9000);
    let mut sent = Vec::new();
    for payload in ["{\"move\":1}", "{\"move\":2}"] {
        machine.step(Event::FrameRead(String::from("{\"turn\":0}")));
        match machine.step(Event::ActionDecided(String::from(payload))) {
            Command::SendFrame(frame) => sent.push(frame),
            _ => panic!("a decision must go out as one action frame"),
        }
        machine.step(Event::FrameSent);
    }
    assert_eq!(
        sent,
        vec![
            String::from("{\"Action\":{\"move\":1}}"),
            String::from("{\"Action\":{\"move\":2}}")
        ]
    );
}

#[test]
fn malformed_inbound_frame_is_fatal_and_nothing_more_is_sent() {
    let mut machine = bootstrapped(9000);
    match machine.step(Event::FrameRead(String::from("{not json"))) {
        Command::Exit(e) => assert_eq!(e, ProtocolError::Deserialization),
        _ => panic!("a malformed frame must end the run"),
    }
    assert_eq!(machine.phase, Phase::Fatal(ProtocolError::Deserialization));
    assert!(!machine.accepts(&Event::FrameSent));
    assert!(!machine.accepts(&Event::FrameRead(String::from("{}"))));
}

#[test]
fn malformed_action_payload_is_fatal() {
    let mut machine = bootstrapped(9000);
    machine.step(Event::FrameRead(String::from("{}")));
    match machine.step(Event::ActionDecided(String::from("not json"))) {
        Command::Exit(e) => assert_eq!(e, ProtocolError::Serialization),
        _ => panic!("a malformed action payload must end the run"),
    }
    assert_eq!(machine.phase, Phase::Fatal(ProtocolError::Serialization));
}

#[test]
fn read_failure_is_fatal() {
    let mut machine = bootstrapped(9000);
    match machine.step(Event::ReadFailed) {
        Command::Exit(e) => assert_eq!(e, ProtocolError::Reception),
        _ => panic!("a failed read must end the run"),
    }
}

#[test]
fn send_failure_is_fatal() {
    let mut machine = bootstrapped(9000);
    machine.step(Event::FrameRead(String::from("{}")));
    machine.step(Event::ActionDecided(String::from("3")));
    match machine.step(Event::SendFailed) {
        Command::Exit(e) => assert_eq!(e, ProtocolError::Transmission),
        _ => panic!("a failed send must end the run"),
    }
}

#[test]
fn each_phase_accepts_only_its_own_outcomes() {
    let (mut machine, _) = Protocol::start(9000);
    assert!(machine.accepts(&Event::GameConnected));
    assert!(machine.accepts(&Event::GameConnectFailed));
    assert!(!machine.accepts(&Event::DelayDone));
    assert!(!machine.accepts(&Event::FrameRead(String::from("{}"))));
    machine.step(Event::GameConnected);
    assert!(machine.accepts(&Event::DelayDone));
    assert!(!machine.accepts(&Event::GameConnected));
    machine.step(Event::DelayDone);
    assert!(machine.accepts(&Event::LogConnected));
    assert!(machine.accepts(&Event::LogConnectFailed));
    assert!(!machine.accepts(&Event::BotInitialized));
}
