//! The widget-event reducer, the response fold, and the small
//! conversions, on concrete values.

use ear_bridge::msg::{AncMode, DeviceInfo, EarCmd, EarResponse};
use ear_bridge::ui::{UiAnc, UiAncMode, UiEvent, UiInEarDetection, UiLowLatency, UiState};

#[test]
fn initial_state_shows_nothing() {
    let u = UiState::new();
    assert!(u.device_info().is_none());
    assert!(u.error().is_none());
    assert_eq!(u.anc(), UiAnc::Unknown);
    assert_eq!(u.anc_mode(), UiAncMode::Adaptive);
    assert_eq!(u.low_latency_mode(), UiLowLatency::Unknown);
    assert_eq!(u.in_ear_detection_mode(), UiInEarDetection::Unknown);
}

#[test]
fn labels() {
    assert_eq!(UiAncMode::High.label(), "High");
    assert_eq!(UiAncMode::Mid.label(), "Mid");
    assert_eq!(UiAncMode::Low.label(), "Low");
    assert_eq!(UiAncMode::Adaptive.label(), "Adaptive");
}

#[test]
fn strength_choice_converts() {
    assert_eq!(AncMode::from(&UiAncMode::High), AncMode::High);
    assert_eq!(AncMode::from(&UiAncMode::Mid), AncMode::Mid);
    assert_eq!(AncMode::from(&UiAncMode::Low), AncMode::Low);
    assert_eq!(AncMode::from(&UiAncMode::Adaptive), AncMode::Adaptive);
}

#[test]
fn coarse_choices_yield_their_commands() {
    let mut u = UiState::new();
    assert_eq!(
        u.handle_event(UiEvent::SelectAnc(UiAnc::Off)),
        Some(EarCmd::AncMode(AncMode::Off))
    );
    assert_eq!(u.anc(), UiAnc::Off);
    assert_eq!(
        u.handle_event(UiEvent::SelectAnc(UiAnc::Transparency)),
        Some(EarCmd::AncMode(AncMode::Transparency))
    );
    assert_eq!(u.anc(), UiAnc::Transparency);
}

#[test]
fn turning_on_sends_the_selected_strength() {
    let mut u = UiState::new();
    // The initial strength selection is adaptive.
    assert_eq!(
        u.handle_event(UiEvent::SelectAnc(UiAnc::On)),
        Some(EarCmd::AncMode(AncMode::Adaptive))
    );
    // Choosing a strength sends it and remembers it.
    assert_eq!(
        u.handle_event(UiEvent::SelectAncMode(UiAncMode::High)),
        Some(EarCmd::AncMode(AncMode::High))
    );
    assert_eq!(u.anc_mode(), UiAncMode::High);
    // Turning the coarse choice on again now sends the remembered one.
    assert_eq!(
        u.handle_event(UiEvent::SelectAnc(UiAnc::On)),
        Some(EarCmd::AncMode(AncMode::High))
    );
}

#[test]
fn toggles_yield_their_commands() {
    let mut u = UiState::new();
    assert_eq!(
        u.handle_event(UiEvent::SelectLowLatency(false)),
        Some(EarCmd::LowLatency(false))
    );
    assert_eq!(u.low_latency_mode(), UiLowLatency::Off);
    assert_eq!(
        u.handle_event(UiEvent::SelectInEarDetection(true)),
        Some(EarCmd::InEarDetection(true))
    );
    assert_eq!(u.in_ear_detection_mode(), UiInEarDetection::On);
}

#[test]
fn unknown_is_not_a_choice() {
    let mut u = UiState::new();
    assert_eq!(u.handle_event(UiEvent::SelectAnc(UiAnc::Unknown)), None);
    assert_eq!(u.anc(), UiAnc::Unknown);
}

#[test]
fn later_responses_replace_earlier_ones() {
    let mut u = UiState::new();
    u.apply_response(EarResponse::Error("first".to_string()));
    assert!(matches!(u.error(), Some(t) if t.as_str() == "first"));
    u.apply_response(EarResponse::Error("second".to_string()));
    // The newest error replaces, not accumulates.
    assert!(matches!(u.error(), Some(t) if t.as_str() == "second"));
    // An identity response leaves the error display untouched, and the
    // other way round.
    u.apply_response(EarResponse::DeviceInfo(DeviceInfo {
        address: "AA".to_string(),
        firmware_version: "1".to_string(),
        serial_number: "S".to_string(),
    }));
    assert!(matches!(u.error(), Some(t) if t.as_str() == "second"));
    assert!(matches!(u.device_info(), Some(d) if d.address == "AA"));
    u.apply_response(EarResponse::Error("third".to_string()));
    assert!(matches!(u.device_info(), Some(d) if d.address == "AA"));
    assert!(matches!(u.error(), Some(t) if t.as_str() == "third"));
}

#[test]
fn process_event_fails_only_when_the_worker_is_gone() {
    let (cmd_tx, cmd_rx) = tokio::sync::mpsc::unbounded_channel::<EarCmd>();
    let mut u = UiState::new();
    assert!(u.process_event(UiEvent::SelectInEarDetection(false), &cmd_tx));
    drop(cmd_rx);
    assert!(!u.process_event(UiEvent::SelectInEarDetection(true), &cmd_tx));
    // The selection still moved: the fault is a lifecycle error, not a
    // display error.
    assert_eq!(u.in_ear_detection_mode(), UiInEarDetection::On);
}
