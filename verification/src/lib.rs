//! A keyed-record state-transition module for a deterministic ledger
//! runtime.  It manages one record type, the task, stored in
//! runtime-managed storage units that are addressed deterministically
//! from the record's identity and its owning authority.
//!
//! The module is a pure function from an instruction and a list of
//! storage-unit snapshots to new snapshots or a typed failure.  The
//! ledger runtime around it performs signature checks, allocates the
//! units, and rolls an invocation back wholesale on any failure.
use vstd::prelude::*;

pub mod addr;
pub mod codec;
pub mod handlers;

verus! {

/// Number of bytes in a stored task record: 64 for the title, 64 for
/// the description, 32 for the authority, 8 for the id, 1 for the
/// discriminant.
pub const TASK_LEN: usize = 169;

/// The failure modes of the module.  Every failure aborts the whole
/// invocation; the runtime discards all state changes of a failed one,
/// so no handler performs partial writes.
#[derive(Clone, Copy, PartialEq, Eq, Structural, Debug)]
pub enum TodoError {
    /// Malformed instruction payload, or a record buffer of the wrong size.
    DecodeError,
    /// Signer or writable flag violation, authority mismatch, or id mismatch.
    AuthorizationError,
    /// The supplied unit's address differs from the re-derived canonical one.
    AddressMismatchError,
    /// Balance addition overflow on deletion.
    ArithmeticError,
    /// Update invoked with neither field present.
    CallerInputError,
    /// A stored discriminant that yields no address for its seeds.
    InvalidSeedsError,
}

/// A task record as it lives inside one storage unit.  The byte buffers
/// are fixed-size and zero-padded; their content is not interpreted.
#[derive(Clone, Copy, Debug)]
pub struct Task {
    pub title: [u8; 64],
    pub description: [u8; 64],
    pub authority: [u8; 32],
    pub id: u64,
    pub bump: u8,
}

/// Mathematical image of a task record.
pub struct TaskView {
    pub title: Seq<u8>,
    pub description: Seq<u8>,
    pub authority: Seq<u8>,
    pub id: u64,
    pub bump: u8,
}

impl View for Task {
    type V = TaskView;

    open spec fn view(&self) -> TaskView {
        TaskView {
            title: self.title@,
            description: self.description@,
            authority: self.authority@,
            id: self.id,
            bump: self.bump,
        }
    }
}

impl Task {
    pub fn new(id: u64, title: [u8; 64], description: [u8; 64], authority: [u8; 32], bump: u8) -> (t: Task)
        ensures
            t@ == (TaskView {
                title: title@,
                description: description@,
                authority: authority@,
                id: id,
                bump: bump,
            }),
    {
        Task { title, description, authority, id, bump }
    }
}

/// A command for the dispatcher: create, update or delete one record.
#[derive(Clone, Copy, Debug)]
pub enum TodoInstruction {
    CreateTask { id: u64, title: [u8; 64], description: [u8; 64], bump: u8 },
    UpdateTask { id: u64, title: Option<[u8; 64]>, description: Option<[u8; 64]> },
    DeleteTask { id: u64 },
}

/// Mathematical image of a command.
pub enum InstructionView {
    CreateTask { id: u64, title: Seq<u8>, description: Seq<u8>, bump: u8 },
    UpdateTask { id: u64, title: Option<Seq<u8>>, description: Option<Seq<u8>> },
    DeleteTask { id: u64 },
}

/// The image of an optional fixed-size buffer.
pub open spec fn opt_bytes_view(o: Option<[u8; 64]>) -> Option<Seq<u8>> {
    match o {
        Some(a) => Some(a@),
        None => None,
    }
}

impl View for TodoInstruction {
    type V = InstructionView;

    open spec fn view(&self) -> InstructionView {
        match *self {
            TodoInstruction::CreateTask { id, title, description, bump } => InstructionView::CreateTask {
                id,
                title: title@,
                description: description@,
                bump,
            },
            TodoInstruction::UpdateTask { id, title, description } => InstructionView::UpdateTask {
                id,
                title: opt_bytes_view(title),
                description: opt_bytes_view(description),
            },
            TodoInstruction::DeleteTask { id } => InstructionView::DeleteTask { id },
        }
    }
}

} // verus!
