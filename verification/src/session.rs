//! The per-session task state machine.
//!
//! A session task waits for an open request, acquires the hardware handle,
//! runs a read sub-task and a write loop, and tears down on close or error.
//! The machine here makes every decision; the driving runtime performs the
//! returned [`TaskEffect`]s (open the port, emit a message, write bytes,
//! abort the read sub-task, exit) and reports outcomes back.

use vstd::prelude::*;
use vstd::utf8::encode_utf8;
use crate::port::PorRWData;
use crate::port::PortChannelData;
use crate::port::PortState;

verus! {

/// Lifecycle phase of a session task.
#[derive(Clone, Copy, Debug, PartialEq, Eq, Structural)]
pub enum TaskPhase {
    /// Waiting for an open request on the outbound channel.
    AwaitingOpen,
    /// An open request was taken; the hardware open is in flight.
    Opening,
    /// The handle is open: the write loop consumes the outbound channel and
    /// the read sub-task is running.
    Ready,
    /// The task is finished; nothing further happens.
    Terminated,
}

/// An effect the driving runtime must perform for the machine.
#[derive(Debug)]
pub enum TaskEffect {
    /// Acquire the hardware handle with the settings captured at spawn time.
    OpenPort,
    /// Start the cancellable read sub-task.
    SpawnRead,
    /// Send a message on the inbound channel.
    Emit(PortChannelData),
    /// Write the bytes to the hardware handle.
    WriteBytes(Vec<u8>),
    /// Hard-cancel the read sub-task, discarding in-flight reads.
    AbortRead,
    /// End the task.
    Exit,
}

/// The specification-level image of an effect, with payloads as sequences.
pub enum EffectModel {
    /// Acquire the hardware handle.
    OpenPort,
    /// Start the read sub-task.
    SpawnRead,
    /// Emit a state change on the inbound channel.
    EmitState(PortState),
    /// Emit an error payload on the inbound channel.
    EmitError(Seq<u8>),
    /// Emit received data on the inbound channel.
    EmitData(Seq<u8>),
    /// Write the bytes to the hardware handle.
    WriteBytes(Seq<u8>),
    /// Hard-cancel the read sub-task.
    AbortRead,
    /// End the task.
    Exit,
}

/// The specification-level image of one executable effect.
pub open spec fn effect_model(e: TaskEffect) -> EffectModel {
    match e {
        TaskEffect::OpenPort => EffectModel::OpenPort,
        TaskEffect::SpawnRead => EffectModel::SpawnRead,
        TaskEffect::Emit(m) => match m {
            PortChannelData::PortState(s) => EffectModel::EmitState(s),
            PortChannelData::PortError(d) => EffectModel::EmitError(d.data@),
            PortChannelData::PortRead(d) => EffectModel::EmitData(d.data@),
            _ => EffectModel::Exit,
        },
        TaskEffect::WriteBytes(b) => EffectModel::WriteBytes(b@),
        TaskEffect::AbortRead => EffectModel::AbortRead,
        TaskEffect::Exit => EffectModel::Exit,
    }
}

/// The specification-level image of a list of effects.
pub open spec fn effects_model(s: Seq<TaskEffect>) -> Seq<EffectModel> {
    s.map(|i: int, e: TaskEffect| effect_model(e))
}

/// The error payload emitted when the hardware open fails.
pub open spec fn open_failure_text() -> Seq<u8> {
    encode_utf8("open port failed"@)
}

/// What one outbound-channel message does to the machine: the next phase and
/// the effects to perform, in order.
pub open spec fn outbound_step_model(phase: TaskPhase, msg: PortChannelData) -> (
    TaskPhase,
    Seq<EffectModel>,
) {
    match phase {
        TaskPhase::AwaitingOpen => if msg is PortOpen {
            (TaskPhase::Opening, seq![EffectModel::OpenPort])
        } else {
            (TaskPhase::AwaitingOpen, Seq::empty())
        },
        TaskPhase::Opening => (TaskPhase::Opening, Seq::empty()),
        TaskPhase::Ready => match msg {
            PortChannelData::PortWrite(d) => (
                TaskPhase::Ready,
                seq![EffectModel::WriteBytes(d.data@)],
            ),
            PortChannelData::PortClose(_) => (
                TaskPhase::Terminated,
                seq![
                    EffectModel::EmitState(PortState::Close),
                    EffectModel::AbortRead,
                    EffectModel::Exit,
                ],
            ),
            _ => (TaskPhase::Ready, Seq::empty()),
        },
        TaskPhase::Terminated => (TaskPhase::Terminated, Seq::empty()),
    }
}

/// What the outcome of the hardware open does to the machine.
pub open spec fn open_result_step_model(ok: bool) -> (TaskPhase, Seq<EffectModel>) {
    if ok {
        (TaskPhase::Ready, seq![EffectModel::EmitState(PortState::Ready), EffectModel::SpawnRead])
    } else {
        (
            TaskPhase::Terminated,
            seq![EffectModel::EmitError(open_failure_text()), EffectModel::Exit],
        )
    }
}

/// What a write failure does to the machine: the task tears down without
/// reporting a close.
pub open spec fn write_failed_step_model() -> (TaskPhase, Seq<EffectModel>) {
    (TaskPhase::Terminated, seq![EffectModel::AbortRead, EffectModel::Exit])
}

/// The session task state machine.
pub struct SessionTask {
    phase: TaskPhase,
}

impl SessionTask {
    /// The current lifecycle phase.
    pub closed spec fn phase_spec(&self) -> TaskPhase {
        self.phase
    }

    /// A fresh task waits for an open request.
    pub fn new() -> (r: Self)
        ensures
            r.phase_spec() == TaskPhase::AwaitingOpen,
    {
        SessionTask { phase: TaskPhase::AwaitingOpen }
    }

    /// The current lifecycle phase.
    pub fn phase(&self) -> (r: TaskPhase)
        ensures
            r == self.phase_spec(),
    {
        self.phase
    }

    /// Feeds one outbound-channel message to the machine and returns the
    /// effects to perform, in order.
    pub fn on_outbound(&mut self, msg: &PortChannelData) -> (r: Vec<TaskEffect>)
        ensures
            final(self).phase_spec() == outbound_step_model(old(self).phase_spec(), *msg).0,
            effects_model(r@) == outbound_step_model(old(self).phase_spec(), *msg).1,
    {
        let mut effects: Vec<TaskEffect> = Vec::new();
        match self.phase {
            TaskPhase::AwaitingOpen => {
                if matches!(msg, PortChannelData::PortOpen) {
                    self.phase = TaskPhase::Opening;
                    effects.push(TaskEffect::OpenPort);
                    proof {
                        assert(effects_model(effects@) =~= seq![EffectModel::OpenPort]);
                    }
                } else {
                    proof {
                        assert(effects_model(effects@) =~= Seq::<EffectModel>::empty());
                    }
                }
            },
            TaskPhase::Opening => {
                proof {
                    assert(effects_model(effects@) =~= Seq::<EffectModel>::empty());
                }
            },
            TaskPhase::Ready => {
                match msg {
                    PortChannelData::PortWrite(d) => {
                        let bytes: Vec<u8> = vstd::slice::slice_to_vec(d.data.as_slice());
                        effects.push(TaskEffect::WriteBytes(bytes));
                        proof {
                            assert(effects_model(effects@) =~= seq![EffectModel::WriteBytes(
                                msg->PortWrite_0.data@,
                            )]);
                        }
                    },
                    PortChannelData::PortClose(_) => {
                        self.phase = TaskPhase::Terminated;
                        effects.push(TaskEffect::Emit(PortChannelData::PortState(
                            PortState::Close,
                        )));
                        effects.push(TaskEffect::AbortRead);
                        effects.push(TaskEffect::Exit);
                        proof {
                            assert(effects_model(effects@) =~= seq![
                                EffectModel::EmitState(PortState::Close),
                                EffectModel::AbortRead,
                                EffectModel::Exit,
                            ]);
                        }
                    },
                    _ => {
                        proof {
                            assert(effects_model(effects@) =~= Seq::<EffectModel>::empty());
                        }
                    },
                }
            },
            TaskPhase::Terminated => {
                proof {
                    assert(effects_model(effects@) =~= Seq::<EffectModel>::empty());
                }
            },
        }
        effects
    }

    /// Reports the outcome of the hardware open.  On success the machine
    /// announces `Ready` and asks for the read sub-task; on failure it emits
    /// the error and terminates, so that only a fresh task can open again.
    pub fn on_open_result(&mut self, ok: bool) -> (r: Vec<TaskEffect>)
        requires
            old(self).phase_spec() == TaskPhase::Opening,
        ensures
            final(self).phase_spec() == open_result_step_model(ok).0,
            effects_model(r@) == open_result_step_model(ok).1,
    {
        let mut effects: Vec<TaskEffect> = Vec::new();
        if ok {
            self.phase = TaskPhase::Ready;
            effects.push(TaskEffect::Emit(PortChannelData::PortState(PortState::Ready)));
            effects.push(TaskEffect::SpawnRead);
        } else {
            self.phase = TaskPhase::Terminated;
            let payload: Vec<u8> = "open port failed".as_bytes_vec();
            effects.push(TaskEffect::Emit(PortChannelData::PortError(PorRWData {
                data: payload,
            })));
            effects.push(TaskEffect::Exit);
        }
        proof {
            assert(effects_model(effects@) =~= open_result_step_model(ok).1);
        }
        effects
    }

    /// Reports a failed hardware write: the task tears down, aborting the
    /// read sub-task, without announcing a close.
    pub fn on_write_failed(&mut self) -> (r: Vec<TaskEffect>)
        requires
            old(self).phase_spec() == TaskPhase::Ready,
        ensures
            final(self).phase_spec() == write_failed_step_model().0,
            effects_model(r@) == write_failed_step_model().1,
    {
        self.phase = TaskPhase::Terminated;
        let mut effects: Vec<TaskEffect> = Vec::new();
        effects.push(TaskEffect::AbortRead);
        effects.push(TaskEffect::Exit);
        proof {
            assert(effects_model(effects@) =~= write_failed_step_model().1);
        }
        effects
    }
}

/// What the read sub-task does with one hardware read of `n` bytes: a
/// non-empty read is reported as received data; a zero-byte read means the
/// connection is gone and the sub-task stops silently.
pub fn read_step(n: usize, buf: &[u8]) -> (r: Option<PortChannelData>)
    requires
        n <= buf@.len(),
    ensures
        n > 0 ==> (r matches Some(m) && m matches PortChannelData::PortRead(d) && d.data@ == buf@
            .subrange(0, n as int)),
        n == 0 ==> r is None,
{
    if n > 0 {
        let mut data: Vec<u8> = Vec::new();
        let mut i: usize = 0;
        while i < n
            invariant
                i <= n,
                n <= buf@.len(),
                data@ == buf@.subrange(0, i as int),
            decreases n - i,
        {
            data.push(buf[i]);
            proof {
                assert(data@ =~= buf@.subrange(0, i + 1));
            }
            i = i + 1;
        }
        Some(PortChannelData::PortRead(PorRWData { data }))
    } else {
        None
    }
}

/// Whether a message observed by the read sub-task on the outbound channel
/// is the shutdown signal.
pub fn shutdown_requested(msg: &PortChannelData) -> (r: bool)
    ensures
        r == (msg is PortClose),
{
    matches!(msg, PortChannelData::PortClose(_))
}

// ---------------------------------------------------------------------------
// Laws of the machine
// ---------------------------------------------------------------------------
/// The phase and effects of feeding a whole message sequence to the machine,
/// in order.
pub open spec fn run_from(phase: TaskPhase, msgs: Seq<PortChannelData>) -> (
    TaskPhase,
    Seq<EffectModel>,
)
    decreases msgs.len(),
{
    if msgs.len() == 0 {
        (phase, Seq::empty())
    } else {
        let (p2, eff) = outbound_step_model(phase, msgs[0]);
        let (p3, eff2) = run_from(p2, msgs.drop_first());
        (p3, eff + eff2)
    }
}

/// A terminated task stays terminated and performs no further effects,
/// whatever else arrives.
pub proof fn lemma_terminated_absorbing(msgs: Seq<PortChannelData>)
    ensures
        run_from(TaskPhase::Terminated, msgs).0 == TaskPhase::Terminated,
        run_from(TaskPhase::Terminated, msgs).1 == Seq::<EffectModel>::empty(),
    decreases msgs.len(),
{
    if msgs.len() == 0 {
    } else {
        lemma_terminated_absorbing(msgs.drop_first());
        assert(run_from(TaskPhase::Terminated, msgs).1 =~= Seq::<EffectModel>::empty());
    }
}

/// A session whose hardware open fails terminates at once: it never reaches
/// `Ready`, never announces `Ready`, and no later message revives it.
pub proof fn lemma_open_failure_never_ready(msgs: Seq<PortChannelData>)
    ensures
        open_result_step_model(false).0 == TaskPhase::Terminated,
        forall|k: int|
            0 <= k < open_result_step_model(false).1.len() ==> open_result_step_model(false).1[k]
                != EffectModel::EmitState(PortState::Ready),
        run_from(open_result_step_model(false).0, msgs).0 == TaskPhase::Terminated,
        run_from(open_result_step_model(false).0, msgs).1 == Seq::<EffectModel>::empty(),
{
    lemma_terminated_absorbing(msgs);
}

/// In the `Ready` phase, the announced close is emitted while handling the
/// first close request itself.
proof fn lemma_close_emitted(msgs: Seq<PortChannelData>, j: int)
    requires
        0 <= j < msgs.len(),
        msgs[j] is PortClose,
        forall|k: int| 0 <= k < j ==> !(msgs[k] is PortClose),
    ensures
        exists|b: int|
            0 <= b < run_from(TaskPhase::Ready, msgs).1.len() && run_from(TaskPhase::Ready,
            msgs).1[b] == EffectModel::EmitState(PortState::Close),
    decreases j,
{
    let (p2, eff) = outbound_step_model(TaskPhase::Ready, msgs[0]);
    let rest = msgs.drop_first();
    let run = run_from(TaskPhase::Ready, msgs).1;
    if j == 0 {
        assert(eff[0] == EffectModel::EmitState(PortState::Close));
        assert(run[0] == EffectModel::EmitState(PortState::Close));
    } else {
        assert(!(msgs[0] is PortClose));
        assert(p2 == TaskPhase::Ready);
        assert(forall|k: int| 0 <= k < j - 1 ==> !(rest[k] is PortClose));
        lemma_close_emitted(rest, j - 1);
        let b0 = choose|b: int|
            0 <= b < run_from(TaskPhase::Ready, rest).1.len() && run_from(TaskPhase::Ready,
            rest).1[b] == EffectModel::EmitState(PortState::Close);
        assert(run[eff.len() + b0] == EffectModel::EmitState(PortState::Close));
    }
}

/// A write requested before a close is carried out before the close is
/// honored: in the effect stream of the `Ready` write loop, the write's
/// bytes appear strictly before the announced close.
pub proof fn lemma_write_before_close(
    msgs: Seq<PortChannelData>,
    i: int,
    j: int,
    d: PorRWData,
)
    requires
        0 <= i < j < msgs.len(),
        msgs[i] == PortChannelData::PortWrite(d),
        msgs[j] is PortClose,
        forall|k: int| 0 <= k < j ==> !(msgs[k] is PortClose),
    ensures
        exists|a: int, b: int|
            {
                &&& 0 <= a < b < run_from(TaskPhase::Ready, msgs).1.len()
                &&& #[trigger] run_from(TaskPhase::Ready, msgs).1[a] == EffectModel::WriteBytes(
                    d.data@,
                )
                &&& #[trigger] run_from(TaskPhase::Ready, msgs).1[b] == EffectModel::EmitState(
                    PortState::Close,
                )
            },
    decreases i,
{
    let (p2, eff) = outbound_step_model(TaskPhase::Ready, msgs[0]);
    let rest = msgs.drop_first();
    let run = run_from(TaskPhase::Ready, msgs).1;
    assert(!(msgs[0] is PortClose));
    assert(p2 == TaskPhase::Ready);
    if i == 0 {
        assert(eff == seq![EffectModel::WriteBytes(d.data@)]);
        assert(run[0] == EffectModel::WriteBytes(d.data@));
        assert(rest[j - 1] is PortClose);
        assert(forall|k: int| 0 <= k < j - 1 ==> !(rest[k] is PortClose));
        lemma_close_emitted(rest, j - 1);
        let b0 = choose|b: int|
            0 <= b < run_from(TaskPhase::Ready, rest).1.len() && run_from(TaskPhase::Ready,
            rest).1[b] == EffectModel::EmitState(PortState::Close);
        assert(run[1 + b0] == EffectModel::EmitState(PortState::Close));
        assert(0 < 1 + b0 < run.len());
    } else {
        assert(rest[i - 1] == PortChannelData::PortWrite(d));
        assert(rest[j - 1] is PortClose);
        assert(forall|k: int| 0 <= k < j - 1 ==> !(rest[k] is PortClose));
        lemma_write_before_close(rest, i - 1, j - 1, d);
        let (a0, b0) = choose|a: int, b: int|
            {
                &&& 0 <= a < b < run_from(TaskPhase::Ready, rest).1.len()
                &&& #[trigger] run_from(TaskPhase::Ready, rest).1[a] == EffectModel::WriteBytes(
                    d.data@,
                )
                &&& #[trigger] run_from(TaskPhase::Ready, rest).1[b] == EffectModel::EmitState(
                    PortState::Close,
                )
            };
        assert(run[eff.len() + a0] == EffectModel::WriteBytes(d.data@));
        assert(run[eff.len() + b0] == EffectModel::EmitState(PortState::Close));
    }
}

} // verus!
