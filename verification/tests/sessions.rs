//! Requester and responder behaviour: sentinel replies, soft failure,
//! transport faults, and the batch and interactive drivers.

use benita_commander::grammar::{SensorKind, TypedCommand};
use benita_commander::loops::{run_batch, serve_step};
use benita_commander::readline::{
    is_quit_token, read_step, CommanderReadline, LoopAction, ReadEvent,
};
use benita_commander::session::{Error, Requester, Responder};

const SENTINEL: &str = "command not recognized";

#[test]
fn responder_answers_status_and_rejects_bogus() {
    let rep = Responder::new(SensorKind::Temperature, "ipc:///tmp/rep.ipc", "/dev/i2c-1", 101);
    let execute = |c: TypedCommand| -> Option<String> { Some(format!("ok:{}", c.head)) };
    let reply = rep.eval("status", &execute).expect("never an error");
    assert_eq!(reply, "ok:status");
    assert_ne!(reply, SENTINEL);
    let reply = rep.eval("bogus_command", &execute).expect("never an error");
    assert_eq!(reply, SENTINEL);
}

#[test]
fn responder_turns_hardware_failure_into_a_reply() {
    let rep = Responder::new(SensorKind::Conductivity, "ipc:///tmp/rep.ipc", "/dev/i2c-1", 100);
    let execute = |_c: TypedCommand| -> Option<String> { None };
    let reply = rep.eval("r", &execute).expect("a failed command must still reply");
    assert_eq!(reply, SENTINEL);
}

#[test]
fn responder_construction_keeps_the_endpoint() {
    let rep = Responder::new(SensorKind::Ph, "tcp://127.0.0.1:5557", "/dev/i2c-0", 99);
    assert_eq!(rep.kind, SensorKind::Ph);
    assert_eq!(rep.url, "tcp://127.0.0.1:5557");
    assert_eq!(rep.device_path, "/dev/i2c-0");
    assert_eq!(rep.device_address, 99);
}

#[test]
fn requester_forwards_matched_commands() {
    let req = Requester::new(SensorKind::Conductivity, "tcp://127.0.0.1:5556");
    let transact = |w: String| -> Result<String, Error> { Ok(format!("reply to {}", w)) };
    let out = req.eval("cal,dry", &transact).expect("transaction succeeded");
    assert_eq!(out, "reply to cal,dry");
}

#[test]
fn requester_returns_sentinel_without_a_transaction() {
    let req = Requester::new(SensorKind::Conductivity, "tcp://127.0.0.1:5556");
    // The transport always fails; unmatched input must not touch it.
    let transact = |_w: String| -> Result<String, Error> { Err(Error::Transport) };
    let out = req.eval("definitely unknown", &transact).expect("sentinel is a success");
    assert_eq!(out, SENTINEL);
}

#[test]
fn requester_surfaces_transport_faults() {
    let req = Requester::new(SensorKind::Ph, "tcp://127.0.0.1:5556");
    let transact = |_w: String| -> Result<String, Error> { Err(Error::Transport) };
    let err = req.eval("r", &transact).expect_err("matched command over a dead transport");
    assert_eq!(err, Error::Transport);
}

#[test]
fn repeated_evaluation_of_unknown_input_is_idempotent() {
    let req = Requester::new(SensorKind::Temperature, "tcp://127.0.0.1:5556");
    let transact = |w: String| -> Result<String, Error> { Ok(w) };
    let first = req.eval("gibberish", &transact).expect("success");
    let second = req.eval("gibberish", &transact).expect("success");
    let third = req.eval("gibberish", &transact).expect("success");
    assert_eq!(first, SENTINEL);
    assert_eq!(first, second);
    assert_eq!(second, third);
}

#[test]
fn batch_produces_one_reply_per_line_in_order() {
    let req = Requester::new(SensorKind::Temperature, "tcp://127.0.0.1:5556");
    let transact = |w: String| -> Result<String, Error> { Ok(format!("<{}>", w)) };
    let lines = vec![
        String::from("status"),
        String::from("bogus"),
        String::from("r"),
        String::from("d,0"),
    ];
    let outs = run_batch(&req, &lines, &transact);
    assert_eq!(outs.len(), 4);
    assert_eq!(outs[0], "<status>");
    assert_eq!(outs[1], SENTINEL);
    assert_eq!(outs[2], "<r>");
    assert_eq!(outs[3], "<d,0>");
}

#[test]
fn batch_continues_past_a_failing_transaction() {
    let req = Requester::new(SensorKind::Conductivity, "tcp://127.0.0.1:5556");
    let transact = |_w: String| -> Result<String, Error> { Err(Error::Transport) };
    let lines = vec![String::from("status"), String::from("bogus"), String::from("r")];
    let outs = run_batch(&req, &lines, &transact);
    assert_eq!(outs.len(), 3);
    assert_eq!(outs[0], "command not in custom api");
    assert_eq!(outs[1], SENTINEL);
    assert_eq!(outs[2], "command not in custom api");
}

#[test]
fn serve_step_always_replies() {
    let rep = Responder::new(SensorKind::Temperature, "ipc:///tmp/rep.ipc", "/dev/i2c-1", 101);
    let execute = |c: TypedCommand| -> Option<String> {
        if c.head == "r" {
            Some(String::from("25.104"))
        } else {
            None
        }
    };
    assert_eq!(serve_step(&rep, "r", &execute), "25.104");
    assert_eq!(serve_step(&rep, "sleep", &execute), SENTINEL);
    assert_eq!(serve_step(&rep, "garbage", &execute), SENTINEL);
}

#[test]
fn error_variants_have_distinct_descriptions() {
    assert_eq!(Error::TransportSetupFailed.describe(), "transport setup failed");
    assert_eq!(Error::DeviceInitFailed.describe(), "device initialization failed");
    assert_eq!(Error::Transport.describe(), "transport failure");
}

#[test]
fn quit_tokens_end_the_interactive_loop() {
    for quit in ["q", "Q", "exit", "quit"] {
        assert!(is_quit_token(quit));
        let a = read_step(&ReadEvent::Line(String::from(quit)));
        assert_eq!(a, LoopAction::Quit);
    }
    assert!(!is_quit_token("Quit"));
    assert!(!is_quit_token("quit "));
    assert!(!is_quit_token(""));
    assert_eq!(read_step(&ReadEvent::Line(String::from("status"))), LoopAction::Evaluate);
}

#[test]
fn interrupt_and_end_of_input_end_the_loop() {
    assert_eq!(read_step(&ReadEvent::Interrupted), LoopAction::Quit);
    assert_eq!(read_step(&ReadEvent::Eof), LoopAction::Quit);
    assert_eq!(read_step(&ReadEvent::Failed), LoopAction::Quit);
}

#[test]
fn readline_eval_applies_the_callback() {
    let reader = CommanderReadline::Main;
    let callback = |s: &str| -> String { s.to_uppercase() };
    let out = reader.eval("status", &callback).expect("eval always succeeds");
    assert_eq!(out, "STATUS");
    let reader = CommanderReadline::MainSensor(SensorKind::Ph);
    let out = reader.eval("r", &callback).expect("eval always succeeds");
    assert_eq!(out, "R");
}
