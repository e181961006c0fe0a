//! The simulation engine's plan.
//!
//! The engine keeps four arrays on the device, one entry per body and in the
//! same order: the masses, the positions, the velocities, and a snapshot of
//! the positions as they stood when the last step finished. A step runs the
//! gravity kernel once over all bodies, copies the positions into the
//! snapshot, submits both together and waits for that submission. The
//! renderer reads the snapshot only, so it never sees positions that a
//! kernel is still writing.

use vstd::prelude::*;
use crate::resource::{Access, BufferPlan, BufferUsage};

verus! {

/// Bodies that one workgroup of the gravity kernel advances.
pub const WORKGROUP_SIZE: u32 = 256;

/// Bytes of one mass: a 32-bit float.
pub const MASS_BYTES: u64 = 4;

/// Bytes of one position or velocity: two 32-bit floats.
pub const VECTOR_BYTES: u64 = 8;

/// The device arrays of the engine.
#[derive(Clone, Copy, Debug, PartialEq, Eq, Structural)]
pub enum SimBuffer {
    /// One mass per body; never written after the upload.
    Masses,
    /// One position per body; the kernel updates it in place.
    Positions,
    /// One velocity per body; the kernel updates it in place.
    Velocities,
    /// The positions at the end of the last finished step.
    Snapshot,
}

/// Where the kernel finds a storage buffer and how it touches it.
#[derive(Clone, Copy, Debug, PartialEq, Eq, Structural)]
pub struct Binding {
    /// Slot in the kernel's bind group.
    pub slot: u32,
    /// Whether the kernel writes the buffer.
    pub access: Access,
}

/// One command of a step, in the order of recording.
#[derive(Clone, Copy, Debug, PartialEq, Eq, Structural)]
pub enum SimCommand {
    /// Run the gravity kernel in `workgroups` one-dimensional workgroups.
    Dispatch { workgroups: u32 },
    /// Copy the first `bytes` bytes of the positions into the snapshot.
    CopyPositionsToSnapshot { bytes: u64 },
    /// Hand everything recorded so far to the queue.
    Submit,
    /// Block until the device has finished that submission.
    WaitForSubmission,
}

/// Workgroups that cover `bodies` bodies: the count divided by the workgroup
/// size, rounded up.
pub open spec fn workgroups_for(bodies: int) -> int {
    (bodies + 255) / 256
}

/// Element size of a device array.
pub open spec fn element_bytes(buffer: SimBuffer) -> int {
    match buffer {
        SimBuffer::Masses => 4,
        SimBuffer::Positions => 8,
        SimBuffer::Velocities => 8,
        SimBuffer::Snapshot => 8,
    }
}

/// Size of a device array for `bodies` bodies.
pub open spec fn buffer_bytes(buffer: SimBuffer, bodies: int) -> int {
    element_bytes(buffer) * bodies
}

/// What a device array is used for.
///
/// The masses and the velocities are storage and nothing else: they never
/// leave the device. The positions are storage and the source of the
/// snapshot copy. The snapshot is written by that copy only and read as a
/// vertex source only.
pub open spec fn buffer_usage(buffer: SimBuffer) -> BufferUsage {
    match buffer {
        SimBuffer::Masses => BufferUsage {
            storage: true,
            uniform: false,
            vertex: false,
            copy_src: false,
            copy_dst: false,
            map_read: false,
        },
        SimBuffer::Positions => BufferUsage {
            storage: true,
            uniform: false,
            vertex: false,
            copy_src: true,
            copy_dst: false,
            map_read: false,
        },
        SimBuffer::Velocities => BufferUsage {
            storage: true,
            uniform: false,
            vertex: false,
            copy_src: false,
            copy_dst: false,
            map_read: false,
        },
        SimBuffer::Snapshot => BufferUsage {
            storage: false,
            uniform: false,
            vertex: true,
            copy_src: false,
            copy_dst: true,
            map_read: false,
        },
    }
}

/// The binding of a device array in the kernel's bind group, or `None` for
/// the snapshot, which the kernel does not see.
pub open spec fn kernel_binding(buffer: SimBuffer) -> Option<Binding> {
    match buffer {
        SimBuffer::Positions => Some(Binding { slot: 0, access: Access::ReadWrite }),
        SimBuffer::Masses => Some(Binding { slot: 1, access: Access::ReadOnly }),
        SimBuffer::Velocities => Some(Binding { slot: 2, access: Access::ReadWrite }),
        SimBuffer::Snapshot => None,
    }
}

/// The commands of one step for `bodies` bodies.
pub open spec fn step_commands(bodies: int) -> Seq<SimCommand> {
    seq![
        SimCommand::Dispatch { workgroups: workgroups_for(bodies) as u32 },
        SimCommand::CopyPositionsToSnapshot {
            bytes: buffer_bytes(SimBuffer::Positions, bodies) as u64,
        },
        SimCommand::Submit,
        SimCommand::WaitForSubmission,
    ]
}

/// The workgroups of a step cover every body, and one workgroup fewer would
/// not: only the last workgroup can reach beyond the bodies, by fewer than a
/// workgroup's size.
pub proof fn lemma_workgroups_cover(bodies: int)
    requires
        0 <= bodies,
    ensures
        workgroups_for(bodies) * 256 >= bodies,
        workgroups_for(bodies) * 256 - bodies < 256,
        bodies % 256 == 0 ==> workgroups_for(bodies) * 256 == bodies,
        workgroups_for(bodies) == 0 <==> bodies == 0,
{
}

/// A step leaves a whole snapshot behind: the snapshot is exactly as large as
/// the positions, the copy of a step fills all of it in whole 32-bit words,
/// and the copy stands behind the kernel and before the submission, which
/// the wait follows.
pub proof fn lemma_snapshot_is_complete(bodies: int)
    requires
        0 <= bodies <= u32::MAX,
    ensures
        buffer_bytes(SimBuffer::Snapshot, bodies) == buffer_bytes(SimBuffer::Positions, bodies),
        buffer_bytes(SimBuffer::Snapshot, bodies) % 4 == 0,
        step_commands(bodies).len() == 4,
        step_commands(bodies)[0] == (SimCommand::Dispatch {
            workgroups: workgroups_for(bodies) as u32,
        }),
        workgroups_for(bodies) as u32 == workgroups_for(bodies),
        step_commands(bodies)[1] == (SimCommand::CopyPositionsToSnapshot {
            bytes: buffer_bytes(SimBuffer::Snapshot, bodies) as u64,
        }),
        buffer_bytes(SimBuffer::Snapshot, bodies) as u64 == buffer_bytes(
            SimBuffer::Snapshot,
            bodies,
        ),
        step_commands(bodies)[2] == SimCommand::Submit,
        step_commands(bodies)[3] == SimCommand::WaitForSubmission,
{
}

/// The renderer cannot write what the engine owns and the kernel cannot
/// touch what the renderer reads: the only array that can be a vertex source
/// is the snapshot, the snapshot is bound to no kernel slot, and the kernel
/// slots of the other arrays differ.
pub proof fn lemma_ownership()
    ensures
        forall|b: SimBuffer| #[trigger] buffer_usage(b).vertex <==> b == SimBuffer::Snapshot,
        forall|b: SimBuffer| #[trigger] buffer_usage(b).storage <==> kernel_binding(b) is Some,
        forall|b: SimBuffer| !(#[trigger] buffer_usage(b)).map_read,
        forall|a: SimBuffer, b: SimBuffer|
            kernel_binding(a) is Some && kernel_binding(b) is Some && a != b ==> (
            #[trigger] kernel_binding(a)).unwrap().slot != (#[trigger] kernel_binding(
                b,
            )).unwrap().slot,
{
}

/// The simulation engine's view of a run: how many bodies it advances.
pub struct SimState {
    bodies: u32,
}

impl View for SimState {
    type V = nat;

    closed spec fn view(&self) -> nat {
        self.bodies as nat
    }
}

impl SimState {
    /// The engine for `body_count` bodies, or `None` when there are more
    /// than a 32-bit instance count can say.
    pub fn new(body_count: usize) -> (state: Option<SimState>)
        ensures
            state is Some <==> body_count <= u32::MAX,
            state matches Some(s) ==> s@ == body_count,
    {
        if body_count <= u32::MAX as usize {
            Some(SimState { bodies: body_count as u32 })
        } else {
            None
        }
    }

    /// Bodies of the run.
    pub fn body_count(&self) -> (n: u32)
        ensures
            n == self@,
    {
        self.bodies
    }

    /// Workgroups of one step.
    pub fn workgroups(&self) -> (groups: u32)
        ensures
            groups == workgroups_for(self@ as int),
    {
        ((self.bodies as u64 + (WORKGROUP_SIZE as u64 - 1)) / WORKGROUP_SIZE as u64) as u32
    }

    /// Size and usage of one of the engine's device arrays.
    pub fn buffer(&self, which: SimBuffer) -> (plan: BufferPlan)
        ensures
            plan.size == buffer_bytes(which, self@ as int),
            plan.usage == buffer_usage(which),
    {
        let mut usage: BufferUsage = BufferUsage::none();
        let size: u64 = match which {
            SimBuffer::Masses => {
                usage.storage = true;
                MASS_BYTES * self.bodies as u64
            },
            SimBuffer::Positions => {
                usage.storage = true;
                usage.copy_src = true;
                VECTOR_BYTES * self.bodies as u64
            },
            SimBuffer::Velocities => {
                usage.storage = true;
                VECTOR_BYTES * self.bodies as u64
            },
            SimBuffer::Snapshot => {
                usage.vertex = true;
                usage.copy_dst = true;
                VECTOR_BYTES * self.bodies as u64
            },
        };
        BufferPlan { size, usage }
    }

    /// Slot and access of one of the engine's device arrays in the kernel's
    /// bind group.
    pub fn binding(&self, which: SimBuffer) -> (binding: Option<Binding>)
        ensures
            binding == kernel_binding(which),
    {
        match which {
            SimBuffer::Positions => Some(Binding { slot: 0, access: Access::ReadWrite }),
            SimBuffer::Masses => Some(Binding { slot: 1, access: Access::ReadOnly }),
            SimBuffer::Velocities => Some(Binding { slot: 2, access: Access::ReadWrite }),
            SimBuffer::Snapshot => None,
        }
    }

    /// The commands of one integration step, in the order of recording.
    ///
    /// The kernel runs first, the copy into the snapshot follows it, and the
    /// wait follows the submission of both: once the commands have been
    /// carried out in this order, the snapshot holds the positions of the
    /// finished step and nothing writes to it until the next one.
    pub fn tick(&self) -> (commands: Vec<SimCommand>)
        ensures
            commands@ == step_commands(self@ as int),
    {
        let mut commands: Vec<SimCommand> = Vec::new();
        commands.push(SimCommand::Dispatch { workgroups: self.workgroups() });
        commands.push(
            SimCommand::CopyPositionsToSnapshot { bytes: VECTOR_BYTES * self.bodies as u64 },
        );
        commands.push(SimCommand::Submit);
        commands.push(SimCommand::WaitForSubmission);
        assert(commands@ =~= step_commands(self@ as int));
        commands
    }
}

} // verus!
