//! The interface-side state: the widget selections and the mirror of
//! the worker's responses, rebuilt by draining the response channel once
//! per rendered frame.
//!
//! The mirror is purely derived: each drained response is folded in
//! exactly once, in arrival order — an identity response replaces the
//! identity display, an error response replaces the last-error display,
//! each leaving the other untouched. Widget interactions are handled by
//! a reducer: each updates the selection it names and yields the command
//! it implies, which is then sent on the command channel.

use crate::channel::{send_command, try_recv_response};
use crate::msg::{AncMode, DeviceInfo, DeviceInfoView, EarCmd, EarResponse, EarResponseView};
use vstd::prelude::*;

verus! {

/// The coarse noise-control choice offered by the interface. `Unknown`
/// is the initial display state, never a user's choice.
#[derive(Clone, Copy, PartialEq, Eq, Structural, Debug)]
pub enum UiAnc {
    On,
    Transparency,
    Off,
    Unknown,
}

/// The noise-control strength offered once `UiAnc::On` is chosen.
#[derive(Clone, Copy, PartialEq, Eq, Structural, Debug)]
pub enum UiAncMode {
    High,
    Mid,
    Low,
    Adaptive,
}

/// The low-latency choice shown by the interface. `Unknown` is the
/// initial display state, never a user's choice.
#[derive(Clone, Copy, PartialEq, Eq, Structural, Debug)]
pub enum UiLowLatency {
    On,
    Off,
    Unknown,
}

/// The in-ear-detection choice shown by the interface. `Unknown` is the
/// initial display state, never a user's choice.
#[derive(Clone, Copy, PartialEq, Eq, Structural, Debug)]
pub enum UiInEarDetection {
    On,
    Off,
    Unknown,
}

/// The device setting that a strength choice stands for.
pub open spec fn anc_mode_of(m: UiAncMode) -> AncMode {
    match m {
        UiAncMode::High => AncMode::High,
        UiAncMode::Mid => AncMode::Mid,
        UiAncMode::Low => AncMode::Low,
        UiAncMode::Adaptive => AncMode::Adaptive,
    }
}

impl UiAncMode {
    /// The text the interface shows beside this choice.
    pub fn label(&self) -> (r: &'static str)
        ensures
            self is High ==> r@ == "High"@,
            self is Mid ==> r@ == "Mid"@,
            self is Low ==> r@ == "Low"@,
            self is Adaptive ==> r@ == "Adaptive"@,
    {
        match self {
            UiAncMode::High => "High",
            UiAncMode::Mid => "Mid",
            UiAncMode::Low => "Low",
            UiAncMode::Adaptive => "Adaptive",
        }
    }
}

impl From<&UiAncMode> for AncMode {
    /// The device setting that a strength choice stands for.
    fn from(value: &UiAncMode) -> (r: AncMode) {
        match value {
            UiAncMode::High => AncMode::High,
            UiAncMode::Mid => AncMode::Mid,
            UiAncMode::Low => AncMode::Low,
            UiAncMode::Adaptive => AncMode::Adaptive,
        }
    }
}

impl vstd::std_specs::convert::FromSpecImpl<&UiAncMode> for AncMode {
    open spec fn obeys_from_spec() -> bool {
        true
    }

    open spec fn from_spec(t: &UiAncMode) -> Self {
        anc_mode_of(*t)
    }
}

/// The response-derived part of the interface state.
pub ghost struct MirrorView {
    pub device_info: Option<DeviceInfoView>,
    pub error: Option<Seq<char>>,
}

/// The mirror before any response was drained.
pub open spec fn init_mirror() -> MirrorView {
    MirrorView { device_info: None, error: None }
}

/// Folding one response into the mirror: an identity replaces the
/// identity display, an error replaces the last-error display, each
/// leaving the other untouched.
pub open spec fn fold_one(u: MirrorView, r: EarResponseView) -> MirrorView {
    match r {
        EarResponseView::DeviceInfo(d) => (MirrorView { device_info: Some(d), ..u }),
        EarResponseView::Error(t) => (MirrorView { error: Some(t), ..u }),
    }
}

/// Folding a whole sequence of responses, oldest first.
pub open spec fn fold_all(u: MirrorView, rs: Seq<EarResponseView>) -> MirrorView
    decreases rs.len(),
{
    if rs.len() == 0 {
        u
    } else {
        fold_one(fold_all(u, rs.drop_last()), rs.last())
    }
}

/// Folding one more response folds as one step.
proof fn lemma_fold_push(u: MirrorView, rs: Seq<EarResponseView>, r: EarResponseView)
    ensures
        fold_all(u, rs.push(r)) == fold_one(fold_all(u, rs), r),
{
    assert(rs.push(r).drop_last() =~= rs);
    assert(rs.push(r).last() == r);
}

/// Folding responses drained in two batches is folding them in one:
/// the mirror after a frame depends only on the whole arrival order.
pub proof fn lemma_fold_append(u: MirrorView, a: Seq<EarResponseView>, b: Seq<EarResponseView>)
    ensures
        fold_all(u, a.add(b)) == fold_all(fold_all(u, a), b),
    decreases b.len(),
{
    if b.len() == 0 {
        assert(a.add(b) =~= a);
    } else {
        lemma_fold_append(u, a, b.drop_last());
        assert(a.add(b) =~= a.add(b.drop_last()).push(b.last()));
        lemma_fold_push(u, a.add(b.drop_last()), b.last());
        assert(b.drop_last().push(b.last()) =~= b);
        lemma_fold_push(fold_all(u, a), b.drop_last(), b.last());
    }
}

/// The image of an optional identity.
pub open spec fn opt_info_view(o: Option<DeviceInfo>) -> Option<DeviceInfoView> {
    match o {
        Some(d) => Some(d@),
        None => None,
    }
}

/// The image of an optional error text.
pub open spec fn opt_text_view(o: Option<String>) -> Option<Seq<char>> {
    match o {
        Some(t) => Some(t@),
        None => None,
    }
}

/// Mathematical image of the whole interface state.
pub ghost struct UiView {
    pub device_info: Option<DeviceInfoView>,
    pub error: Option<Seq<char>>,
    pub anc: UiAnc,
    pub anc_mode: UiAncMode,
    pub low_latency: UiLowLatency,
    pub in_ear_detection: UiInEarDetection,
}

/// The response-derived part of an interface state.
pub open spec fn mirror_of(u: UiView) -> MirrorView {
    MirrorView { device_info: u.device_info, error: u.error }
}

/// The interface state as first shown, before any response or
/// interaction.
pub open spec fn init_ui() -> UiView {
    UiView {
        device_info: None,
        error: None,
        anc: UiAnc::Unknown,
        anc_mode: UiAncMode::Adaptive,
        low_latency: UiLowLatency::Unknown,
        in_ear_detection: UiInEarDetection::Unknown,
    }
}

/// A widget interaction on the settings panel.
#[derive(Clone, Copy, PartialEq, Eq, Structural, Debug)]
pub enum UiEvent {
    SelectAnc(UiAnc),
    SelectAncMode(UiAncMode),
    SelectLowLatency(bool),
    SelectInEarDetection(bool),
}

/// How an interaction moves the selections. Choosing `Unknown` is not an
/// interaction the panel offers, so it moves nothing.
pub open spec fn event_selection(u: UiView, e: UiEvent) -> UiView {
    match e {
        UiEvent::SelectAnc(UiAnc::Unknown) => u,
        UiEvent::SelectAnc(a) => (UiView { anc: a, ..u }),
        UiEvent::SelectAncMode(m) => (UiView { anc_mode: m, ..u }),
        UiEvent::SelectLowLatency(b) => (UiView {
            low_latency: if b {
                UiLowLatency::On
            } else {
                UiLowLatency::Off
            },
            ..u
        }),
        UiEvent::SelectInEarDetection(b) => (UiView {
            in_ear_detection: if b {
                UiInEarDetection::On
            } else {
                UiInEarDetection::Off
            },
            ..u
        }),
    }
}

/// The command an interaction implies. Choosing the coarse `On` sends
/// the strength currently selected on the panel.
pub open spec fn event_command(u: UiView, e: UiEvent) -> Option<EarCmd> {
    match e {
        UiEvent::SelectAnc(UiAnc::Off) => Some(EarCmd::AncMode(AncMode::Off)),
        UiEvent::SelectAnc(UiAnc::Transparency) => Some(EarCmd::AncMode(AncMode::Transparency)),
        UiEvent::SelectAnc(UiAnc::On) => Some(EarCmd::AncMode(anc_mode_of(u.anc_mode))),
        UiEvent::SelectAnc(UiAnc::Unknown) => None,
        UiEvent::SelectAncMode(m) => Some(EarCmd::AncMode(anc_mode_of(m))),
        UiEvent::SelectLowLatency(b) => Some(EarCmd::LowLatency(b)),
        UiEvent::SelectInEarDetection(b) => Some(EarCmd::InEarDetection(b)),
    }
}

/// The interface state: the last-known identity and error shown, the
/// four widget selections, and the ghost record of every response
/// drained so far.
pub struct UiState {
    device_info: Option<DeviceInfo>,
    error: Option<String>,
    anc: UiAnc,
    anc_mode: UiAncMode,
    low_latency_mode: UiLowLatency,
    in_ear_detection_mode: UiInEarDetection,
    seen: Ghost<Seq<EarResponseView>>,
}

impl View for UiState {
    type V = UiView;

    closed spec fn view(&self) -> UiView {
        UiView {
            device_info: opt_info_view(self.device_info),
            error: opt_text_view(self.error),
            anc: self.anc,
            anc_mode: self.anc_mode,
            low_latency: self.low_latency_mode,
            in_ear_detection: self.in_ear_detection_mode,
        }
    }
}

impl UiState {
    /// Every response drained so far, in arrival order.
    pub closed spec fn seen(self) -> Seq<EarResponseView> {
        self.seen@
    }

    /// The mirror shown is exactly the fold of every response drained so
    /// far: none dropped, none folded twice, none reordered.
    pub closed spec fn inv(self) -> bool {
        mirror_of(self@) == fold_all(init_mirror(), self.seen@)
    }

    /// The interface state as first shown.
    pub fn new() -> (u: UiState)
        ensures
            u.inv(),
            u@ == init_ui(),
            u.seen() == Seq::<EarResponseView>::empty(),
    {
        UiState {
            device_info: None,
            error: None,
            anc: UiAnc::Unknown,
            anc_mode: UiAncMode::Adaptive,
            low_latency_mode: UiLowLatency::Unknown,
            in_ear_detection_mode: UiInEarDetection::Unknown,
            seen: Ghost(Seq::empty()),
        }
    }

    /// Folds one drained response into the mirror; the selections are
    /// untouched.
    pub fn apply_response(&mut self, r: EarResponse)
        requires
            old(self).inv(),
        ensures
            final(self).inv(),
            final(self).seen() == old(self).seen().push(r@),
            mirror_of(final(self)@) == fold_one(mirror_of(old(self)@), r@),
            final(self)@.anc == old(self)@.anc,
            final(self)@.anc_mode == old(self)@.anc_mode,
            final(self)@.low_latency == old(self)@.low_latency,
            final(self)@.in_ear_detection == old(self)@.in_ear_detection,
    {
        proof {
            lemma_fold_push(init_mirror(), self.seen@, r@);
        }
        self.seen = Ghost(self.seen@.push(r@));
        match r {
            EarResponse::DeviceInfo(d) => {
                self.device_info = Some(d);
            },
            EarResponse::Error(t) => {
                self.error = Some(t);
            },
        }
    }

    /// Drains every response currently queued, folding each into the
    /// mirror exactly once, in arrival order — and never waits: the
    /// frame loop calls this once per frame. Returns how many responses
    /// were drained; a drain that finds the channel empty returns zero
    /// and moves nothing.
    pub fn drain(&mut self, rx: &mut tokio::sync::mpsc::UnboundedReceiver<EarResponse>) -> (n:
        usize)
        requires
            old(self).inv(),
        ensures
            final(self).inv(),
            final(self).seen().len() == old(self).seen().len() + n,
            final(self).seen().take(old(self).seen().len() as int) == old(self).seen(),
            mirror_of(final(self)@) == fold_all(
                mirror_of(old(self)@),
                final(self).seen().skip(old(self).seen().len() as int),
            ),
            n == 0 ==> final(self)@ == old(self)@ && final(self).seen() == old(self).seen(),
            final(self)@.anc == old(self)@.anc,
            final(self)@.anc_mode == old(self)@.anc_mode,
            final(self)@.low_latency == old(self)@.low_latency,
            final(self)@.in_ear_detection == old(self)@.in_ear_detection,
    {
        let ghost pre = *self;
        let mut n: usize = 0;
        loop
            invariant
                self.inv(),
                pre.inv(),
                n <= usize::MAX,
                self.seen().len() == pre.seen().len() + n,
                self.seen().take(pre.seen().len() as int) == pre.seen(),
                mirror_of(self@) == fold_all(
                    mirror_of(pre@),
                    self.seen().skip(pre.seen().len() as int),
                ),
                n == 0 ==> self@ == pre@ && self.seen() == pre.seen(),
                self@.anc == pre@.anc,
                self@.anc_mode == pre@.anc_mode,
                self@.low_latency == pre@.low_latency,
                self@.in_ear_detection == pre@.in_ear_detection,
            decreases usize::MAX - n,
        {
            if n == usize::MAX {
                break;
            }
            match try_recv_response(rx) {
                Some(r) => {
                    proof {
                        lemma_fold_push(
                            mirror_of(pre@),
                            self.seen@.skip(pre.seen@.len() as int),
                            r@,
                        );
                        assert(self.seen@.push(r@).skip(pre.seen@.len() as int) =~= self.seen@.skip(
                            pre.seen@.len() as int,
                        ).push(r@));
                        assert(self.seen@.push(r@).take(pre.seen@.len() as int) =~= self.seen@.take(
                            pre.seen@.len() as int,
                        ));
                    }
                    self.apply_response(r);
                    n = n + 1;
                },
                None => {
                    break;
                },
            }
        }
        n
    }

    /// The reducer for one widget interaction: moves the selection it
    /// names and yields the command it implies, without touching the
    /// mirror. The caller sends the command; [`UiState::process_event`]
    /// does both at once.
    pub fn handle_event(&mut self, e: UiEvent) -> (cmd: Option<EarCmd>)
        requires
            old(self).inv(),
        ensures
            final(self).inv(),
            final(self)@ == event_selection(old(self)@, e),
            cmd == event_command(old(self)@, e),
            final(self).seen() == old(self).seen(),
    {
        match e {
            UiEvent::SelectAnc(a) => {
                match a {
                    UiAnc::Off => {
                        self.anc = UiAnc::Off;
                        Some(EarCmd::AncMode(AncMode::Off))
                    },
                    UiAnc::Transparency => {
                        self.anc = UiAnc::Transparency;
                        Some(EarCmd::AncMode(AncMode::Transparency))
                    },
                    UiAnc::On => {
                        self.anc = UiAnc::On;
                        Some(EarCmd::AncMode(AncMode::from(&self.anc_mode)))
                    },
                    UiAnc::Unknown => None,
                }
            },
            UiEvent::SelectAncMode(m) => {
                self.anc_mode = m;
                Some(EarCmd::AncMode(AncMode::from(&m)))
            },
            UiEvent::SelectLowLatency(b) => {
                self.low_latency_mode = if b {
                    UiLowLatency::On
                } else {
                    UiLowLatency::Off
                };
                Some(EarCmd::LowLatency(b))
            },
            UiEvent::SelectInEarDetection(b) => {
                self.in_ear_detection_mode = if b {
                    UiInEarDetection::On
                } else {
                    UiInEarDetection::Off
                };
                Some(EarCmd::InEarDetection(b))
            },
        }
    }

    /// Handles one widget interaction end to end: moves the selection
    /// and sends the implied command on the command channel. Returns
    /// false only when a command was due and the worker's receiving half
    /// is gone — the unrecoverable lifecycle fault, on which the caller
    /// fails.
    pub fn process_event(
        &mut self,
        e: UiEvent,
        tx: &tokio::sync::mpsc::UnboundedSender<EarCmd>,
    ) -> (ok: bool)
        requires
            old(self).inv(),
        ensures
            final(self).inv(),
            final(self)@ == event_selection(old(self)@, e),
            final(self).seen() == old(self).seen(),
            event_command(old(self)@, e) is None ==> ok,
    {
        let cmd = self.handle_event(e);
        match cmd {
            Some(c) => send_command(tx, c),
            None => true,
        }
    }

    /// The identity display: the device identity most recently drained,
    /// if any.
    pub fn device_info(&self) -> (d: &Option<DeviceInfo>)
        ensures
            opt_info_view(*d) == self@.device_info,
    {
        &self.device_info
    }

    /// The error display: the error most recently drained, if any.
    pub fn error(&self) -> (t: &Option<String>)
        ensures
            opt_text_view(*t) == self@.error,
    {
        &self.error
    }

    /// The coarse noise-control selection.
    pub fn anc(&self) -> (a: UiAnc)
        ensures
            a == self@.anc,
    {
        self.anc
    }

    /// The noise-control strength selection.
    pub fn anc_mode(&self) -> (m: UiAncMode)
        ensures
            m == self@.anc_mode,
    {
        self.anc_mode
    }

    /// The low-latency selection.
    pub fn low_latency_mode(&self) -> (m: UiLowLatency)
        ensures
            m == self@.low_latency,
    {
        self.low_latency_mode
    }

    /// The in-ear-detection selection.
    pub fn in_ear_detection_mode(&self) -> (m: UiInEarDetection)
        ensures
            m == self@.in_ear_detection,
    {
        self.in_ear_detection_mode
    }
}

} // verus!
