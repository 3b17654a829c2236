//! Trusted boundary with the outside crates: the two unbounded channels
//! and the redraw trigger. Each item here is believed, not proved; its
//! doc comment names the outside function it relies on.
//!
//! Nothing deterministic holds of a channel operation's outcome — the
//! other half lives on another thread and may have been dropped — so the
//! wrappers state only their shapes, and the verified callers say what
//! holds whatever came back.

use crate::msg::{EarCmd, EarResponse};
use vstd::prelude::*;

verus! {

/// Declares tokio's unbounded sender half so that it may stand in
/// signatures. Opaque: the verified code never looks inside it.
#[verifier::external_type_specification]
#[verifier::external_body]
#[verifier::reject_recursive_types(T)]
pub struct ExUnboundedSender<T>(tokio::sync::mpsc::UnboundedSender<T>);

/// Declares tokio's unbounded receiver half. Opaque as well.
#[verifier::external_type_specification]
#[verifier::external_body]
#[verifier::reject_recursive_types(T)]
pub struct ExUnboundedReceiver<T>(tokio::sync::mpsc::UnboundedReceiver<T>);

/// Declares egui's context handle, through which a redraw is requested.
#[verifier::external_type_specification]
#[verifier::external_body]
pub struct ExContext(egui::Context);

/// Relies on tokio's `UnboundedSender::send`: never blocks, and returns
/// `Err` exactly when the receiver half is gone. Whether that is so
/// depends on another thread, so nothing more can be stated.
#[verifier::external_body]
pub(crate) fn send_response(tx: &tokio::sync::mpsc::UnboundedSender<EarResponse>, r: EarResponse) -> (ok: bool) {
    tx.send(r).is_ok()
}

/// Relies on tokio's `UnboundedSender::send`, as `send_response` does,
/// for the command channel.
#[verifier::external_body]
pub(crate) fn send_command(tx: &tokio::sync::mpsc::UnboundedSender<EarCmd>, c: EarCmd) -> (ok: bool) {
    tx.send(c).is_ok()
}

/// Relies on tokio's `UnboundedReceiver::try_recv`: never blocks, and
/// returns a message only when one is queued. What is queued depends on
/// the sending thread, so nothing more can be stated.
#[verifier::external_body]
pub(crate) fn try_recv_response(rx: &mut tokio::sync::mpsc::UnboundedReceiver<EarResponse>) -> (r: Option<EarResponse>) {
    rx.try_recv().ok()
}

/// Relies on egui's `Context::request_repaint`: a fire-and-forget
/// request that the presentation layer render a new frame soon. It never
/// blocks and reports nothing.
#[verifier::external_body]
pub(crate) fn request_redraw(ctx: &egui::Context) {
    ctx.request_repaint();
}

} // verus!
