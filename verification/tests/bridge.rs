//! End-to-end scenarios driving the worker and the interface state over
//! real channels and a real interface context.

use ear_bridge::msg::{AncMode, DeviceInfo, EarCmd, EarResponse};
use ear_bridge::ui::{UiAnc, UiAncMode, UiEvent, UiInEarDetection, UiLowLatency, UiState};
use ear_bridge::worker::{Worker, WorkerPhase};

fn info(address: &str, firmware: &str, serial: &str) -> DeviceInfo {
    DeviceInfo {
        address: address.to_string(),
        firmware_version: firmware.to_string(),
        serial_number: serial.to_string(),
    }
}

#[test]
fn commands_forwarded_in_send_order() {
    let (cmd_tx, mut cmd_rx) = tokio::sync::mpsc::unbounded_channel();
    let (resp_tx, mut _resp_rx) = tokio::sync::mpsc::unbounded_channel();
    let ctx = egui::Context::default();

    // Every command is sent before the worker reads any of them.
    let sent = vec![
        EarCmd::AncMode(AncMode::High),
        EarCmd::LowLatency(true),
        EarCmd::InEarDetection(false),
        EarCmd::AncMode(AncMode::Off),
    ];
    for c in &sent {
        cmd_tx.send(*c).expect("sending EarCmd");
    }

    let mut w = Worker::new();
    assert!(w.on_connect(Ok(info("AA", "1", "S")), &resp_tx, &ctx));

    let mut forwarded = Vec::new();
    while let Ok(c) = cmd_rx.try_recv() {
        let f = w.on_command(Some(c));
        forwarded.push(f.expect("a received command is forwarded"));
        // The device applies it; success emits nothing.
        assert!(w.on_apply_result(Ok(()), &resp_tx, &ctx));
    }
    assert_eq!(forwarded, sent);
}

#[test]
fn device_info_is_first_and_only() {
    let (resp_tx, mut resp_rx) = tokio::sync::mpsc::unbounded_channel();
    let ctx = egui::Context::default();

    let mut w = Worker::new();
    assert!(w.on_connect(Ok(info("AA:BB:CC", "1.2.3", "SN42")), &resp_tx, &ctx));
    // Two command failures afterwards emit errors, never another identity.
    w.on_command(Some(EarCmd::LowLatency(true)));
    assert!(w.on_apply_result(Err("boom".to_string()), &resp_tx, &ctx));
    w.on_command(Some(EarCmd::LowLatency(false)));
    assert!(w.on_apply_result(Err("again".to_string()), &resp_tx, &ctx));

    let mut responses = Vec::new();
    while let Ok(r) = resp_rx.try_recv() {
        responses.push(r);
    }
    assert_eq!(responses.len(), 3);
    assert!(matches!(&responses[0], EarResponse::DeviceInfo(d)
        if d.address == "AA:BB:CC" && d.firmware_version == "1.2.3" && d.serial_number == "SN42"));
    assert!(matches!(&responses[1], EarResponse::Error(t) if t == "boom"));
    assert!(matches!(&responses[2], EarResponse::Error(t) if t == "again"));
}

#[test]
fn connect_failure_emits_one_error_and_terminates() {
    let (resp_tx, mut resp_rx) = tokio::sync::mpsc::unbounded_channel();
    let ctx = egui::Context::default();

    let mut w = Worker::new();
    assert!(w.on_connect(Err("no device".to_string()), &resp_tx, &ctx));
    assert_eq!(w.phase(), WorkerPhase::Terminated);

    assert!(matches!(resp_rx.try_recv(), Ok(EarResponse::Error(t)) if t == "no device"));
    assert!(resp_rx.try_recv().is_err());
    // The worker is terminated: the shell stops reading the command
    // channel, so commands sent now are accepted but never forwarded.
    let (cmd_tx, mut cmd_rx) = tokio::sync::mpsc::unbounded_channel();
    cmd_tx.send(EarCmd::LowLatency(true)).expect("sending EarCmd");
    assert_eq!(w.phase(), WorkerPhase::Terminated);
    assert!(cmd_rx.try_recv().is_ok());
}

#[test]
fn command_failure_is_not_fatal() {
    let (resp_tx, mut resp_rx) = tokio::sync::mpsc::unbounded_channel();
    let ctx = egui::Context::default();

    let mut w = Worker::new();
    assert!(w.on_connect(Ok(info("AA", "1", "S")), &resp_tx, &ctx));
    let _ = resp_rx.try_recv().expect("the identity response");

    // First command fails: exactly one error response.
    let f1 = w.on_command(Some(EarCmd::AncMode(AncMode::Adaptive)));
    assert_eq!(f1, Some(EarCmd::AncMode(AncMode::Adaptive)));
    assert!(w.on_apply_result(Err("timeout".to_string()), &resp_tx, &ctx));
    assert!(matches!(resp_rx.try_recv(), Ok(EarResponse::Error(t)) if t == "timeout"));
    assert!(resp_rx.try_recv().is_err());

    // The worker is still connected and forwards the next command, whose
    // success emits nothing.
    assert_eq!(w.phase(), WorkerPhase::Connected);
    let f2 = w.on_command(Some(EarCmd::InEarDetection(true)));
    assert_eq!(f2, Some(EarCmd::InEarDetection(true)));
    assert!(w.on_apply_result(Ok(()), &resp_tx, &ctx));
    assert!(resp_rx.try_recv().is_err());
}

#[test]
fn each_emission_requests_a_redraw() {
    let (resp_tx, mut resp_rx) = tokio::sync::mpsc::unbounded_channel();
    let ctx = egui::Context::default();

    let mut w = Worker::new();
    assert!(w.on_connect(Ok(info("AA", "1", "S")), &resp_tx, &ctx));
    // The identity emission came with a redraw request.
    assert!(ctx.has_requested_repaint());
    assert!(matches!(resp_rx.try_recv(), Ok(EarResponse::DeviceInfo(_))));

    // Success emits nothing: no response appears for the interface.
    w.on_command(Some(EarCmd::LowLatency(true)));
    assert!(w.on_apply_result(Ok(()), &resp_tx, &ctx));
    assert!(resp_rx.try_recv().is_err());
    // A failure emits one error, again with a redraw request.
    w.on_command(Some(EarCmd::LowLatency(false)));
    assert!(w.on_apply_result(Err("bad".to_string()), &resp_tx, &ctx));
    assert!(ctx.has_requested_repaint());
    assert!(matches!(resp_rx.try_recv(), Ok(EarResponse::Error(_))));
}

#[test]
fn clean_shutdown_emits_nothing() {
    let (resp_tx, mut resp_rx) = tokio::sync::mpsc::unbounded_channel();
    let ctx = egui::Context::default();

    let mut w = Worker::new();
    assert!(w.on_connect(Ok(info("AA", "1", "S")), &resp_tx, &ctx));
    let _ = resp_rx.try_recv().expect("the identity response");

    // The command channel closed: every sender is gone.
    let f = w.on_command(None);
    assert!(f.is_none());
    assert_eq!(w.phase(), WorkerPhase::Terminated);
    assert!(resp_rx.try_recv().is_err());
}

#[test]
fn response_send_failure_terminates_without_panicking() {
    let (resp_tx, resp_rx) = tokio::sync::mpsc::unbounded_channel::<EarResponse>();
    drop(resp_rx);
    let ctx = egui::Context::default();

    let mut w = Worker::new();
    let delivered = w.on_connect(Ok(info("AA", "1", "S")), &resp_tx, &ctx);
    assert!(!delivered);
    assert_eq!(w.phase(), WorkerPhase::Terminated);
}

#[test]
fn full_session_scenario() {
    let (cmd_tx, mut cmd_rx) = tokio::sync::mpsc::unbounded_channel();
    let (resp_tx, mut resp_rx) = tokio::sync::mpsc::unbounded_channel();
    let ctx = egui::Context::default();

    let mut w = Worker::new();
    let mut u = UiState::new();

    // Connect succeeds; the frame loop drains and the mirror shows the
    // identity and no error.
    assert!(w.on_connect(Ok(info("AA:BB:CC", "1.2.3", "SN42")), &resp_tx, &ctx));
    assert_eq!(u.drain(&mut resp_rx), 1);
    let shown = u.device_info().as_ref().expect("identity shown");
    assert_eq!(shown.address, "AA:BB:CC");
    assert_eq!(shown.firmware_version, "1.2.3");
    assert_eq!(shown.serial_number, "SN42");
    assert!(u.error().is_none());

    // The user turns low latency on; the device applies it; nothing is
    // emitted.
    assert!(u.process_event(UiEvent::SelectLowLatency(true), &cmd_tx));
    assert_eq!(u.low_latency_mode(), UiLowLatency::On);
    let c = cmd_rx.try_recv().expect("the command reached the channel");
    assert_eq!(c, EarCmd::LowLatency(true));
    let f = w.on_command(Some(c));
    assert_eq!(f, Some(EarCmd::LowLatency(true)));
    assert!(w.on_apply_result(Ok(()), &resp_tx, &ctx));
    assert_eq!(u.drain(&mut resp_rx), 0);
    assert!(u.error().is_none());

    // The user selects the adaptive strength; the device refuses with
    // "timeout"; the drain shows the error and leaves the identity.
    assert!(u.process_event(UiEvent::SelectAncMode(UiAncMode::Adaptive), &cmd_tx));
    let c = cmd_rx.try_recv().expect("the command reached the channel");
    assert_eq!(c, EarCmd::AncMode(AncMode::Adaptive));
    let _ = w.on_command(Some(c));
    assert!(w.on_apply_result(Err("timeout".to_string()), &resp_tx, &ctx));
    assert_eq!(u.drain(&mut resp_rx), 1);
    assert!(matches!(u.error(), Some(t) if t.as_str() == "timeout"));
    let shown = u.device_info().as_ref().expect("identity still shown");
    assert_eq!(shown.address, "AA:BB:CC");
    assert_eq!(shown.firmware_version, "1.2.3");
    assert_eq!(shown.serial_number, "SN42");
    assert_eq!(u.anc_mode(), UiAncMode::Adaptive);
}

#[test]
fn drain_on_empty_channel_moves_nothing() {
    let (_resp_tx, mut resp_rx) = tokio::sync::mpsc::unbounded_channel::<EarResponse>();
    let mut u = UiState::new();
    assert_eq!(u.drain(&mut resp_rx), 0);
    assert!(u.device_info().is_none());
    assert!(u.error().is_none());
    assert_eq!(u.anc(), UiAnc::Unknown);
    assert_eq!(u.anc_mode(), UiAncMode::Adaptive);
    assert_eq!(u.low_latency_mode(), UiLowLatency::Unknown);
    assert_eq!(u.in_ear_detection_mode(), UiInEarDetection::Unknown);

    // Draining again after a real drain is just as idle.
    let (resp_tx, mut resp_rx) = tokio::sync::mpsc::unbounded_channel();
    resp_tx
        .send(EarResponse::Error("e".to_string()))
        .expect("sending EarResponse");
    assert_eq!(u.drain(&mut resp_rx), 1);
    assert_eq!(u.drain(&mut resp_rx), 0);
    assert!(matches!(u.error(), Some(t) if t.as_str() == "e"));
}
