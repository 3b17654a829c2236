//! The session worker's state machine.
//!
//! The worker owns the device session for its whole life: it connects
//! once, reports the device's identity or the failure, then forwards
//! commands one at a time and reports each failure, until the command
//! channel closes. Every report is sent on the response channel and
//! paired with exactly one redraw request.
//!
//! The asynchronous shell — awaiting the next command, awaiting the
//! device library — cannot stand here; what stands here is every
//! decision the worker makes. A run of the worker is modelled as the
//! sequence of [`WorkerEvent`]s it has observed, and [`run`] folds that
//! sequence into the [`WorkerModel`]: the phase, the responses emitted,
//! the commands forwarded, and the redraws requested. The exec methods
//! pin each step to that model, and the lemmas at the end state what
//! holds of every run.

use crate::channel::{request_redraw, send_response};
use crate::msg::{DeviceInfo, DeviceInfoView, EarCmd, EarResponse, EarResponseView};
use vstd::prelude::*;

verus! {

/// The worker's lifecycle phase. There is no disconnected or
/// reconnecting phase: a failed session terminates the worker.
#[derive(Clone, Copy, PartialEq, Eq, Structural, Debug)]
pub enum WorkerPhase {
    Connecting,
    Connected,
    Terminated,
}

/// One observable step of a worker run.
pub ghost enum WorkerEvent {
    /// The single connection attempt succeeded and the identity reached
    /// the interface.
    ConnectOk(DeviceInfoView),
    /// The single connection attempt failed and the error text reached
    /// the interface.
    ConnectErr(Seq<char>),
    /// A command arrived and was forwarded to the device session.
    Recv(EarCmd),
    /// The command channel closed: clean shutdown, nothing emitted.
    Closed,
    /// The device session applied the forwarded command; silence is
    /// success, so nothing is emitted.
    ApplyOk,
    /// The device session refused the forwarded command and the error
    /// text reached the interface.
    ApplyErr(Seq<char>),
    /// A response could not be delivered: the receiving half is gone, a
    /// lifecycle fault that ends the worker without an emission.
    SendFailed,
}

/// Everything observable about a worker run: its phase, the responses
/// emitted in order, the commands forwarded to the device in order, and
/// how many redraws were requested.
pub ghost struct WorkerModel {
    pub phase: WorkerPhase,
    pub emitted: Seq<EarResponseView>,
    pub applied: Seq<EarCmd>,
    pub redraws: nat,
}

/// The model of a worker that has observed nothing yet.
pub open spec fn init_model() -> WorkerModel {
    WorkerModel {
        phase: WorkerPhase::Connecting,
        emitted: Seq::empty(),
        applied: Seq::empty(),
        redraws: 0,
    }
}

/// Whether an event can occur in a given model: connection outcomes only
/// while connecting, channel traffic only while connected, and nothing
/// at all once terminated.
pub open spec fn enabled(m: WorkerModel, e: WorkerEvent) -> bool {
    match e {
        WorkerEvent::ConnectOk(_) => m.phase is Connecting,
        WorkerEvent::ConnectErr(_) => m.phase is Connecting,
        WorkerEvent::Recv(_) => m.phase is Connected,
        WorkerEvent::Closed => m.phase is Connected,
        WorkerEvent::ApplyOk => m.phase is Connected,
        WorkerEvent::ApplyErr(_) => m.phase is Connected,
        WorkerEvent::SendFailed => !(m.phase is Terminated),
    }
}

/// How one event advances the model. An event that is not enabled
/// changes nothing; in particular a terminated worker never moves again.
pub open spec fn step(m: WorkerModel, e: WorkerEvent) -> WorkerModel {
    if !enabled(m, e) {
        m
    } else {
        match e {
            WorkerEvent::ConnectOk(d) => (WorkerModel {
                phase: WorkerPhase::Connected,
                emitted: m.emitted.push(EarResponseView::DeviceInfo(d)),
                redraws: m.redraws + 1,
                ..m
            }),
            WorkerEvent::ConnectErr(t) => (WorkerModel {
                phase: WorkerPhase::Terminated,
                emitted: m.emitted.push(EarResponseView::Error(t)),
                redraws: m.redraws + 1,
                ..m
            }),
            WorkerEvent::Recv(c) => (WorkerModel { applied: m.applied.push(c), ..m }),
            WorkerEvent::Closed => (WorkerModel { phase: WorkerPhase::Terminated, ..m }),
            WorkerEvent::ApplyOk => m,
            WorkerEvent::ApplyErr(t) => (WorkerModel {
                emitted: m.emitted.push(EarResponseView::Error(t)),
                redraws: m.redraws + 1,
                ..m
            }),
            WorkerEvent::SendFailed => (WorkerModel { phase: WorkerPhase::Terminated, ..m }),
        }
    }
}

/// The model after a whole sequence of events, folded from the initial
/// model.
pub open spec fn run(es: Seq<WorkerEvent>) -> WorkerModel
    decreases es.len(),
{
    if es.len() == 0 {
        init_model()
    } else {
        step(run(es.drop_last()), es.last())
    }
}

/// Whether every event of the sequence was enabled when it occurred.
/// The histories of the exec worker are always valid.
pub open spec fn valid(es: Seq<WorkerEvent>) -> bool
    decreases es.len(),
{
    es.len() == 0 || (valid(es.drop_last()) && enabled(run(es.drop_last()), es.last()))
}

/// The commands received over a sequence of events, in arrival order.
pub open spec fn recvs(es: Seq<WorkerEvent>) -> Seq<EarCmd>
    decreases es.len(),
{
    if es.len() == 0 {
        Seq::empty()
    } else {
        match es.last() {
            WorkerEvent::Recv(c) => recvs(es.drop_last()).push(c),
            _ => recvs(es.drop_last()),
        }
    }
}

/// The connect outcome handed to [`Worker::on_connect`], as the event it
/// records when the response is delivered.
pub open spec fn connect_event(r: Result<DeviceInfo, String>) -> WorkerEvent {
    match r {
        Ok(d) => WorkerEvent::ConnectOk(d@),
        Err(e) => WorkerEvent::ConnectErr(e@),
    }
}

/// Appending one event folds as one step, and keeps validity exactly
/// when the event was enabled.
proof fn lemma_push(es: Seq<WorkerEvent>, e: WorkerEvent)
    ensures
        run(es.push(e)) == step(run(es), e),
        valid(es.push(e)) == (valid(es) && enabled(run(es), e)),
        recvs(es.push(e)) == (match e {
            WorkerEvent::Recv(c) => recvs(es).push(c),
            _ => recvs(es),
        }),
{
    assert(es.push(e).drop_last() =~= es);
    assert(es.push(e).last() == e);
}

/// What holds of every reachable model, however the run went: the
/// redraw count equals the number of responses emitted; every response
/// after the first is an error, so a device identity is emitted at most
/// once and only first; a connected worker has emitted its identity; and
/// a worker that has forwarded any command has emitted its identity
/// first, so a failed connection forwards nothing, ever.
pub open spec fn model_inv(m: WorkerModel) -> bool {
    &&& m.redraws == m.emitted.len()
    &&& forall|i: int| 1 <= i < m.emitted.len() ==> m.emitted[i] is Error
    &&& (m.phase is Connecting ==> m.emitted.len() == 0 && m.applied.len() == 0)
    &&& (m.phase is Connected ==> m.emitted.len() >= 1 && m.emitted[0] is DeviceInfo)
    &&& (m.applied.len() > 0 ==> m.emitted.len() >= 1 && m.emitted[0] is DeviceInfo)
}

/// One step preserves the reachable-model invariant.
proof fn lemma_step_inv(m: WorkerModel, e: WorkerEvent)
    requires
        model_inv(m),
    ensures
        model_inv(step(m, e)),
{
}

/// Every run satisfies the reachable-model invariant.
pub proof fn lemma_run_inv(es: Seq<WorkerEvent>)
    ensures
        model_inv(run(es)),
    decreases es.len(),
{
    if es.len() > 0 {
        lemma_run_inv(es.drop_last());
        lemma_step_inv(run(es.drop_last()), es.last());
    }
}

/// Every response emission is paired with exactly one redraw request:
/// over any run, the redraw count equals the count of emitted responses.
pub proof fn lemma_redraw_pairing(es: Seq<WorkerEvent>)
    ensures
        run(es).redraws == run(es).emitted.len(),
{
    lemma_run_inv(es);
}

/// Commands are forwarded to the device in exactly arrival order: over
/// any valid run, the sequence of forwarded commands equals the sequence
/// of received commands.
pub proof fn lemma_commands_in_order(es: Seq<WorkerEvent>)
    requires
        valid(es),
    ensures
        run(es).applied == recvs(es),
    decreases es.len(),
{
    if es.len() == 0 {
        assert(run(es).applied =~= recvs(es));
    } else {
        lemma_commands_in_order(es.drop_last());
    }
}

/// A terminated worker never moves again: whatever events follow, the
/// model is unchanged.
pub proof fn lemma_terminated_stays(es: Seq<WorkerEvent>, rest: Seq<WorkerEvent>)
    requires
        run(es).phase is Terminated,
    ensures
        run(es.add(rest)) == run(es),
    decreases rest.len(),
{
    if rest.len() == 0 {
        assert(es.add(rest) =~= es);
    } else {
        lemma_terminated_stays(es, rest.drop_last());
        assert(es.add(rest) =~= es.add(rest.drop_last()).push(rest.last()));
        lemma_push(es.add(rest.drop_last()), rest.last());
    }
}

/// If the single connection attempt fails, exactly one error response is
/// ever emitted, with exactly one redraw request, and no command is ever
/// forwarded — whatever events follow.
pub proof fn lemma_connect_failure(t: Seq<char>, rest: Seq<WorkerEvent>)
    ensures
        run(seq![WorkerEvent::ConnectErr(t)].add(rest)) == run(seq![WorkerEvent::ConnectErr(t)]),
        run(seq![WorkerEvent::ConnectErr(t)].add(rest)).phase is Terminated,
        run(seq![WorkerEvent::ConnectErr(t)].add(rest)).emitted =~= seq![
            EarResponseView::Error(t),
        ],
        run(seq![WorkerEvent::ConnectErr(t)].add(rest)).applied.len() == 0,
        run(seq![WorkerEvent::ConnectErr(t)].add(rest)).redraws == 1,
{
    let one = seq![WorkerEvent::ConnectErr(t)];
    assert(one.len() == 1);
    assert(one.drop_last() =~= Seq::<WorkerEvent>::empty());
    assert(run(one.drop_last()) == init_model());
    assert(one.last() == WorkerEvent::ConnectErr(t));
    assert(run(one) == step(init_model(), WorkerEvent::ConnectErr(t)));
    lemma_terminated_stays(one, rest);
}

/// A run whose first event is a successful connection emits the device
/// identity as its very first response.
proof fn lemma_connect_ok_first(es: Seq<WorkerEvent>)
    requires
        valid(es),
        es.len() >= 1,
        es[0] is ConnectOk,
    ensures
        run(es).emitted.len() >= 1,
        run(es).emitted[0] == EarResponseView::DeviceInfo(es[0]->ConnectOk_0),
    decreases es.len(),
{
    if es.len() == 1 {
        assert(es.drop_last() =~= Seq::<WorkerEvent>::empty());
        assert(es.last() == es[0]);
    } else {
        assert(es.drop_last()[0] == es[0]);
        lemma_connect_ok_first(es.drop_last());
    }
}

/// Exactly one device identity response per worker lifetime: over any
/// valid run, a response at any position past the first is never the
/// identity, and when the run began with a successful connection the
/// identity is the first response.
pub proof fn lemma_identity_once(es: Seq<WorkerEvent>)
    requires
        valid(es),
    ensures
        forall|i: int|
            0 <= i < run(es).emitted.len() && run(es).emitted[i] is DeviceInfo ==> i == 0,
        es.len() >= 1 && es[0] is ConnectOk ==> run(es).emitted.len() >= 1 && run(es).emitted[0]
            == EarResponseView::DeviceInfo(es[0]->ConnectOk_0),
{
    lemma_run_inv(es);
    if es.len() >= 1 && es[0] is ConnectOk {
        lemma_connect_ok_first(es);
    }
}

/// The session worker's decisions, with the ghost record of the run so
/// far. The caller — the asynchronous shell around the library — owns
/// the awaiting and hands every outcome in; the worker decides what is
/// emitted, what is forwarded, and when it ends.
pub struct Worker {
    phase: WorkerPhase,
    history: Ghost<Seq<WorkerEvent>>,
}

impl Worker {
    /// The events this worker has observed, in order.
    pub closed spec fn history(self) -> Seq<WorkerEvent> {
        self.history@
    }

    /// The model of this worker's run so far.
    pub open spec fn model(self) -> WorkerModel {
        run(self.history())
    }

    /// The worker's phase field agrees with the model, and the history
    /// is valid.
    pub closed spec fn inv(self) -> bool {
        self.phase == self.model().phase && valid(self.history())
    }

    /// A well-formed worker's history is a valid event sequence, so the
    /// run lemmas below apply to it.
    pub proof fn inv_implies_valid(self)
        requires
            self.inv(),
        ensures
            valid(self.history()),
    {
    }

    /// A fresh worker: connecting, with nothing observed.
    pub fn new() -> (w: Worker)
        ensures
            w.inv(),
            w.history() == Seq::<WorkerEvent>::empty(),
            w.model() == init_model(),
    {
        Worker { phase: WorkerPhase::Connecting, history: Ghost(Seq::empty()) }
    }

    /// The worker's current phase.
    pub fn phase(&self) -> (p: WorkerPhase)
        ensures
            self.inv() ==> p == self.model().phase,
    {
        self.phase
    }

    /// Drives the `Connecting` phase with the outcome of the single
    /// connection attempt. On success the device's identity is emitted
    /// and the worker becomes connected; on failure the error text is
    /// emitted and the worker terminates with no command ever forwarded.
    /// Either emission is paired with exactly one redraw request.
    /// Returns whether the response reached the interface; when it did
    /// not, nothing was emitted and the worker terminated.
    pub fn on_connect(
        &mut self,
        r: Result<DeviceInfo, String>,
        tx: &tokio::sync::mpsc::UnboundedSender<EarResponse>,
        ctx: &egui::Context,
    ) -> (delivered: bool)
        requires
            old(self).inv(),
            old(self).model().phase is Connecting,
        ensures
            final(self).inv(),
            delivered ==> final(self).history() == old(self).history().push(connect_event(r)),
            !delivered ==> final(self).history() == old(self).history().push(
                WorkerEvent::SendFailed,
            ),
            delivered ==> final(self).model() == step(old(self).model(), connect_event(r)),
            !delivered ==> final(self).model() == step(
                old(self).model(),
                WorkerEvent::SendFailed,
            ),
            delivered && r is Ok ==> final(self).model().phase is Connected
                && final(self).model().emitted == old(self).model().emitted.push(
                EarResponseView::DeviceInfo(r->Ok_0@),
            ),
            delivered && r is Err ==> final(self).model().phase is Terminated
                && final(self).model().emitted == old(self).model().emitted.push(
                EarResponseView::Error(r->Err_0@),
            ),
            !delivered ==> final(self).model().phase is Terminated && final(self).model().emitted == old(self).model().emitted,
            final(self).model().applied == old(self).model().applied,
    {
        let ghost pre = self.history@;
        let ghost ev = connect_event(r);
        match r {
            Ok(d) => {
                let delivered = send_response(tx, EarResponse::DeviceInfo(d));
                if delivered {
                    request_redraw(ctx);
                    self.phase = WorkerPhase::Connected;
                    self.history = Ghost(pre.push(ev));
                    proof {
                        lemma_push(pre, ev);
                    }
                } else {
                    self.phase = WorkerPhase::Terminated;
                    self.history = Ghost(pre.push(WorkerEvent::SendFailed));
                    proof {
                        lemma_push(pre, WorkerEvent::SendFailed);
                    }
                }
                delivered
            },
            Err(e) => {
                let delivered = send_response(tx, EarResponse::Error(e));
                self.phase = WorkerPhase::Terminated;
                if delivered {
                    request_redraw(ctx);
                    self.history = Ghost(pre.push(ev));
                    proof {
                        lemma_push(pre, ev);
                    }
                } else {
                    self.history = Ghost(pre.push(WorkerEvent::SendFailed));
                    proof {
                        lemma_push(pre, WorkerEvent::SendFailed);
                    }
                }
                delivered
            },
        }
    }

    /// Drives the `Connected` phase when the command channel yields:
    /// `cmd` is the next command, or `None` when every sender is gone —
    /// the clean shutdown signal. The returned command is the one the
    /// caller must now forward to the device session; it is recorded as
    /// applied, in exactly arrival order. Nothing is emitted here.
    pub fn on_command(&mut self, cmd: Option<EarCmd>) -> (fwd: Option<EarCmd>)
        requires
            old(self).inv(),
            old(self).model().phase is Connected,
        ensures
            final(self).inv(),
            fwd == cmd,
            cmd is Some ==> final(self).history() == old(self).history().push(
                WorkerEvent::Recv(cmd->0),
            ) && final(self).model().phase is Connected && final(self).model().applied == old(self).model().applied.push(cmd->0),
            cmd is None ==> final(self).history() == old(self).history().push(WorkerEvent::Closed)
                && final(self).model().phase is Terminated && final(self).model().applied == old(self).model().applied,
            final(self).model().emitted == old(self).model().emitted,
            final(self).model().redraws == old(self).model().redraws,
    {
        let ghost pre = self.history@;
        match cmd {
            Some(c) => {
                self.history = Ghost(pre.push(WorkerEvent::Recv(c)));
                proof {
                    lemma_push(pre, WorkerEvent::Recv(c));
                }
                Some(c)
            },
            None => {
                self.phase = WorkerPhase::Terminated;
                self.history = Ghost(pre.push(WorkerEvent::Closed));
                proof {
                    lemma_push(pre, WorkerEvent::Closed);
                }
                None
            },
        }
    }

    /// Drives the `Connected` phase with the device session's verdict on
    /// the command just forwarded. Success emits nothing — silence is
    /// success. Failure emits the error text, paired with one redraw
    /// request, and the worker stays connected, able to process the next
    /// command: a single command failure is deliberately non-fatal,
    /// unlike a connection failure. Returns whether every needed
    /// delivery succeeded; when it did not, the worker terminated.
    pub fn on_apply_result(
        &mut self,
        r: Result<(), String>,
        tx: &tokio::sync::mpsc::UnboundedSender<EarResponse>,
        ctx: &egui::Context,
    ) -> (delivered: bool)
        requires
            old(self).inv(),
            old(self).model().phase is Connected,
        ensures
            final(self).inv(),
            r is Ok ==> delivered && final(self).history() == old(self).history().push(
                WorkerEvent::ApplyOk,
            ) && final(self).model() == old(self).model(),
            r is Err && delivered ==> final(self).history() == old(self).history().push(
                WorkerEvent::ApplyErr(r->Err_0@),
            ) && final(self).model().phase is Connected && final(self).model().emitted == old(self).model().emitted.push(EarResponseView::Error(r->Err_0@)),
            !delivered ==> final(self).history() == old(self).history().push(
                WorkerEvent::SendFailed,
            ) && final(self).model().phase is Terminated && final(self).model().emitted == old(self).model().emitted,
            final(self).model().applied == old(self).model().applied,
    {
        let ghost pre = self.history@;
        match r {
            Ok(_) => {
                self.history = Ghost(pre.push(WorkerEvent::ApplyOk));
                proof {
                    lemma_push(pre, WorkerEvent::ApplyOk);
                }
                true
            },
            Err(e) => {
                let ghost ev = WorkerEvent::ApplyErr(e@);
                let delivered = send_response(tx, EarResponse::Error(e));
                if delivered {
                    request_redraw(ctx);
                    self.history = Ghost(pre.push(ev));
                    proof {
                        lemma_push(pre, ev);
                    }
                } else {
                    self.phase = WorkerPhase::Terminated;
                    self.history = Ghost(pre.push(WorkerEvent::SendFailed));
                    proof {
                        lemma_push(pre, WorkerEvent::SendFailed);
                    }
                }
                delivered
            },
        }
    }
}

} // verus!
