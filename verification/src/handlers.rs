//! The record handlers and the instruction dispatcher.
//!
//! Each handler is a pure function from storage-unit snapshots and
//! instruction fields to new snapshots or a typed failure.  No
//! mutation precedes the last validation step, so a failure never
//! leaves partially written state; the runtime around the module rolls
//! a failed invocation back wholesale.
//!
//! Authorization is re-verified from data already on ledger: an
//! existing record's canonical address is recomputed from the record's
//! own stored id, authority and discriminant, and the supplied unit
//! must sit exactly there.  A caller-supplied handle or discriminant
//! is never trusted.
use vstd::prelude::*;
use crate::Task;
use crate::TaskView;
use crate::TodoError;
use crate::TodoInstruction;
use crate::InstructionView;
use crate::opt_bytes_view;
use crate::addr::address_eq;
use crate::addr::derive_task_address;
use crate::addr::is_canonical_bump;
use crate::addr::lemma_canonical_bump_unique;
use crate::addr::task_candidate;
use crate::codec::decode_instruction;
use crate::codec::decode_task;
use crate::codec::encode_task;
use crate::codec::lemma_task_codec_roundtrip;
use crate::codec::push_bytes;
use crate::codec::spec_decode_instruction;
use crate::codec::spec_decode_task;
use crate::codec::spec_task_bytes;

verus! {

/// Snapshot of one runtime-managed storage unit as the runtime hands
/// it to an invocation.
#[derive(Debug)]
pub struct UnitState {
    pub address: [u8; 32],
    pub balance: u64,
    pub data: Vec<u8>,
    pub is_signer: bool,
    pub is_writable: bool,
}

/// Mathematical image of a storage-unit snapshot.
pub struct UnitView {
    pub address: Seq<u8>,
    pub balance: u64,
    pub data: Seq<u8>,
    pub is_signer: bool,
    pub is_writable: bool,
}

impl View for UnitState {
    type V = UnitView;

    open spec fn view(&self) -> UnitView {
        UnitView {
            address: self.address@,
            balance: self.balance,
            data: self.data@,
            is_signer: self.is_signer,
            is_writable: self.is_writable,
        }
    }
}

/// The fixed address of the runtime's system program: 32 zero bytes.
pub open spec fn system_program_address() -> Seq<u8> {
    Seq::new(32, |i: int| 0u8)
}

/// The flag checks shared by every handler: the authority must have
/// signed and be writable; the target unit must be writable and must
/// not itself be a signer.
pub open spec fn unit_flags_ok(authority: UnitView, task: UnitView) -> bool {
    &&& authority.is_signer
    &&& authority.is_writable
    &&& !task.is_signer
    &&& task.is_writable
}

/// The create handler's checks: the shared flags, and the third handle
/// must be the system program.
pub open spec fn create_flags_ok(authority: UnitView, task: UnitView, system_program: UnitView) -> bool {
    &&& unit_flags_ok(authority, task)
    &&& system_program.address == system_program_address()
}

/// The record after an update: each present field replaces its buffer
/// whole; an absent field leaves its buffer untouched.
pub open spec fn updated_record(t: TaskView, title: Option<Seq<u8>>, description: Option<Seq<u8>>) -> TaskView {
    TaskView {
        title: (match title {
            Some(s) => s,
            None => t.title,
        }),
        description: (match description {
            Some(s) => s,
            None => t.description,
        }),
        authority: t.authority,
        id: t.id,
        bump: t.bump,
    }
}

/// What update does: reject a call with neither field, then check
/// flags, decode the stored record, check the signer against the
/// stored authority and the id against the stored id, recompute the
/// canonical address from the stored seeds, and only then rewrite the
/// record in place.  Balance and flags never change.
pub open spec fn spec_update(program: Seq<u8>, authority: UnitView, task: UnitView, id: u64, title: Option<Seq<u8>>, description: Option<Seq<u8>>) -> Result<UnitView, TodoError> {
    if title is None && description is None {
        Err(TodoError::CallerInputError)
    } else if !unit_flags_ok(authority, task) {
        Err(TodoError::AuthorizationError)
    } else {
        match spec_decode_task(task.data) {
            None => Err(TodoError::DecodeError),
            Some(t) => if authority.address != t.authority || id != t.id {
                Err(TodoError::AuthorizationError)
            } else {
                match task_candidate(program, t.id, t.authority, t.bump) {
                    None => Err(TodoError::InvalidSeedsError),
                    Some(a) => if a != task.address {
                        Err(TodoError::AddressMismatchError)
                    } else {
                        Ok(UnitView {
                            address: task.address,
                            balance: task.balance,
                            data: spec_task_bytes(updated_record(t, title, description)),
                            is_signer: task.is_signer,
                            is_writable: task.is_writable,
                        })
                    },
                }
            },
        }
    }
}

/// What delete does: the same checks as update except the caller-input
/// one, then zero the record bytes, move the unit's whole balance to
/// the authority — overflow is fatal — and leave the unit's balance at
/// exactly zero.
pub open spec fn spec_delete(program: Seq<u8>, authority: UnitView, task: UnitView, id: u64) -> Result<(UnitView, UnitView), TodoError> {
    if !unit_flags_ok(authority, task) {
        Err(TodoError::AuthorizationError)
    } else {
        match spec_decode_task(task.data) {
            None => Err(TodoError::DecodeError),
            Some(t) => if authority.address != t.authority || id != t.id {
                Err(TodoError::AuthorizationError)
            } else {
                match task_candidate(program, t.id, t.authority, t.bump) {
                    None => Err(TodoError::InvalidSeedsError),
                    Some(a) => if a != task.address {
                        Err(TodoError::AddressMismatchError)
                    } else if authority.balance + task.balance > u64::MAX {
                        Err(TodoError::ArithmeticError)
                    } else {
                        Ok(
                            (
                                UnitView {
                                    address: authority.address,
                                    balance: (authority.balance + task.balance) as u64,
                                    data: authority.data,
                                    is_signer: authority.is_signer,
                                    is_writable: authority.is_writable,
                                },
                                UnitView {
                                    address: task.address,
                                    balance: 0,
                                    data: Seq::new(169, |i: int| 0u8),
                                    is_signer: task.is_signer,
                                    is_writable: task.is_writable,
                                },
                            ),
                        )
                    },
                }
            },
        }
    }
}

/// The unit a successful create leaves behind: allocated with the
/// record's exact size, funded at the rent minimum, holding the new
/// record with the canonical discriminant.
pub open spec fn created_unit(task: UnitView, rent_minimum: u64, id: u64, title: Seq<u8>, description: Seq<u8>, authority_addr: Seq<u8>, bump: u8) -> UnitView {
    UnitView {
        address: task.address,
        balance: rent_minimum,
        data: spec_task_bytes(
            TaskView { title, description, authority: authority_addr, id, bump },
        ),
        is_signer: task.is_signer,
        is_writable: task.is_writable,
    }
}

/// What create does once the derivation outcome is fixed: check the
/// flags, require a derivation outcome, require the derived address to
/// equal the supplied handle's address, and only then build the new
/// unit.
pub open spec fn spec_create_with(derived: Option<(Seq<u8>, u8)>, authority: UnitView, task: UnitView, system_program: UnitView, rent_minimum: u64, id: u64, title: Seq<u8>, description: Seq<u8>) -> Result<UnitView, TodoError> {
    if !create_flags_ok(authority, task, system_program) {
        Err(TodoError::AuthorizationError)
    } else {
        match derived {
            None => Err(TodoError::InvalidSeedsError),
            Some(p) => if p.0 != task.address {
                Err(TodoError::AddressMismatchError)
            } else {
                Ok(created_unit(task, rent_minimum, id, title, description, authority.address, p.1))
            },
        }
    }
}

/// The image of a handler result.
pub open spec fn unit_result_view(r: Result<UnitState, TodoError>) -> Result<UnitView, TodoError> {
    match r {
        Ok(u) => Ok(u@),
        Err(e) => Err(e),
    }
}

/// The image of a delete result.
pub open spec fn pair_result_view(r: Result<(UnitState, UnitState), TodoError>) -> Result<(UnitView, UnitView), TodoError> {
    match r {
        Ok(p) => Ok((p.0@, p.1@)),
        Err(e) => Err(e),
    }
}

/// The image of a derivation result.
pub open spec fn derived_view(d: Option<([u8; 32], u8)>) -> Option<(Seq<u8>, u8)> {
    match d {
        Some(p) => Some((p.0@, p.1)),
        None => None,
    }
}

/// Copy a byte buffer.
fn copy_vec(v: &Vec<u8>) -> (r: Vec<u8>)
    ensures
        r@ == v@,
{
    let mut r: Vec<u8> = Vec::new();
    push_bytes(&mut r, v.as_slice());
    proof {
        assert(r@ =~= v@);
    }
    r
}

/// A buffer of `n` zero bytes.
fn zero_vec(n: usize) -> (r: Vec<u8>)
    ensures
        r@ == Seq::new(n as nat, |i: int| 0u8),
{
    let mut r: Vec<u8> = Vec::new();
    let mut i: usize = 0;
    while i < n
        invariant
            i <= n,
            r@ == Seq::new(i as nat, |j: int| 0u8),
        decreases n - i,
    {
        r.push(0u8);
        proof {
            assert(r@ =~= Seq::new((i + 1) as nat, |j: int| 0u8));
        }
        i = i + 1;
    }
    r
}

/// Copy a storage-unit snapshot.
fn clone_unit(u: &UnitState) -> (r: UnitState)
    ensures
        r@ == u@,
{
    UnitState {
        address: u.address,
        balance: u.balance,
        data: copy_vec(&u.data),
        is_signer: u.is_signer,
        is_writable: u.is_writable,
    }
}

/// Does this unit sit at the system program's address?
fn is_system_program(u: &UnitState) -> (r: bool)
    ensures
        r == (u@.address == system_program_address()),
{
    let mut i: usize = 0;
    while i < 32
        invariant
            i <= 32,
            forall|j: int| 0 <= j < i ==> u.address@[j] == 0u8,
        decreases 32 - i,
    {
        if u.address[i] != 0 {
            assert(u@.address != system_program_address());
            return false;
        }
        i = i + 1;
    }
    proof {
        assert(u@.address =~= system_program_address());
    }
    true
}

/// The shared flag checks as runtime code.
fn check_unit_flags(authority: &UnitState, task: &UnitState) -> (r: bool)
    ensures
        r == unit_flags_ok(authority@, task@),
{
    authority.is_signer && authority.is_writable && !task.is_signer && task.is_writable
}

/// The create handler for a fixed derivation outcome.  Taking the
/// outcome as an argument makes the handler total: it is exact for
/// every value the derivation could return.
pub fn handle_create_with(derived: Option<([u8; 32], u8)>, authority: &UnitState, task: &UnitState, system_program: &UnitState, rent_minimum: u64, id: u64, title: &[u8; 64], description: &[u8; 64]) -> (r: Result<UnitState, TodoError>)
    ensures
        unit_result_view(r) == spec_create_with(
            derived_view(derived),
            authority@,
            task@,
            system_program@,
            rent_minimum,
            id,
            title@,
            description@,
        ),
{
    if !(check_unit_flags(authority, task) && is_system_program(system_program)) {
        return Err(TodoError::AuthorizationError);
    }
    match derived {
        None => Err(TodoError::InvalidSeedsError),
        Some((addr, bump)) => {
            if !address_eq(&addr, &task.address) {
                Err(TodoError::AddressMismatchError)
            } else {
                let record = Task::new(id, *title, *description, authority.address, bump);
                let data = encode_task(&record);
                Ok(UnitState {
                    address: task.address,
                    balance: rent_minimum,
                    data,
                    is_signer: task.is_signer,
                    is_writable: task.is_writable,
                })
            }
        }
    }
}

/// The create handler: derive the canonical (address, discriminant)
/// for the new record's seeds independently of anything the caller
/// supplied, require the supplied handle to sit at that address, and
/// initialize the unit with the new record, funded at the rent
/// minimum.  The record's stored discriminant is the canonical one
/// found here, so re-deriving from the stored record always reproduces
/// the unit's address.
pub fn handle_create(program_id: &[u8; 32], authority: &UnitState, task: &UnitState, system_program: &UnitState, rent_minimum: u64, id: u64, title: &[u8; 64], description: &[u8; 64]) -> (r: Result<UnitState, TodoError>)
    ensures
        (r == Err::<UnitState, TodoError>(TodoError::AuthorizationError)) <==> !create_flags_ok(
            authority@,
            task@,
            system_program@,
        ),
        create_flags_ok(authority@, task@, system_program@) ==> ((r == Err::<UnitState, TodoError>(
            TodoError::InvalidSeedsError,
        )) <==> (forall|b: u8|
            1 <= b ==> task_candidate(program_id@, id, authority@.address, b) is None)),
        r matches Err(e) ==> (e == TodoError::AuthorizationError || e
            == TodoError::InvalidSeedsError || e == TodoError::AddressMismatchError),
        r == Err::<UnitState, TodoError>(TodoError::AddressMismatchError) ==> (exists|b: u8|
            is_canonical_bump(program_id@, id, authority@.address, b) && task_candidate(
                program_id@,
                id,
                authority@.address,
                b,
            ) != Some(task@.address)),
        forall|b: u8|
            (create_flags_ok(authority@, task@, system_program@) && 1 <= b && is_canonical_bump(
                program_id@,
                id,
                authority@.address,
                b,
            ) && task_candidate(program_id@, id, authority@.address, b) == Some(task@.address))
                ==> (r matches Ok(nt) && nt@ == created_unit(
                task@,
                rent_minimum,
                id,
                title@,
                description@,
                authority@.address,
                b,
            )),
        r matches Ok(nt) ==> (create_flags_ok(authority@, task@, system_program@) && exists|b: u8|
            is_canonical_bump(program_id@, id, authority@.address, b) && task_candidate(
                program_id@,
                id,
                authority@.address,
                b,
            ) == Some(task@.address) && nt@ == created_unit(
                task@,
                rent_minimum,
                id,
                title@,
                description@,
                authority@.address,
                b,
            )),
        r matches Ok(nt) ==> (spec_decode_task(nt@.data) matches Some(t) && t.id == id && t.title
            == title@ && t.description == description@ && t.authority == authority@.address
            && task_candidate(program_id@, t.id, t.authority, t.bump) == Some(task@.address)
            && nt@.balance == rent_minimum && nt@.address == task@.address),
{
    let derived = derive_task_address(program_id, id, &authority.address);
    let r = handle_create_with(
        derived,
        authority,
        task,
        system_program,
        rent_minimum,
        id,
        title,
        description,
    );
    proof {
        if create_flags_ok(authority@, task@, system_program@) {
            match derived {
                Some(p) => {
                    assert forall|b: u8|
                        is_canonical_bump(program_id@, id, authority@.address, b) implies b
                        == p.1 by {
                        lemma_canonical_bump_unique(program_id@, id, authority@.address, b, p.1);
                    }
                    if p.0@ == task@.address {
                        let record = TaskView {
                            title: title@,
                            description: description@,
                            authority: authority@.address,
                            id,
                            bump: p.1,
                        };
                        lemma_task_codec_roundtrip(record);
                    }
                }
                None => {
                }
            }
        }
    }
    r
}

/// The update handler.
pub fn handle_update(program_id: &[u8; 32], authority: &UnitState, task: &UnitState, id: u64, title: &Option<[u8; 64]>, description: &Option<[u8; 64]>) -> (r: Result<UnitState, TodoError>)
    ensures
        unit_result_view(r) == spec_update(
            program_id@,
            authority@,
            task@,
            id,
            opt_bytes_view(*title),
            opt_bytes_view(*description),
        ),
{
    if title.is_none() && description.is_none() {
        return Err(TodoError::CallerInputError);
    }
    if !check_unit_flags(authority, task) {
        return Err(TodoError::AuthorizationError);
    }
    let stored = match decode_task(task.data.as_slice()) {
        Ok(t) => t,
        Err(e) => {
            return Err(e);
        }
    };
    if !address_eq(&authority.address, &stored.authority) {
        return Err(TodoError::AuthorizationError);
    }
    if id != stored.id {
        return Err(TodoError::AuthorizationError);
    }
    let addr = match Task::try_create_pda(program_id, stored.id, &stored.authority, stored.bump) {
        Some(a) => a,
        None => {
            return Err(TodoError::InvalidSeedsError);
        }
    };
    if !address_eq(&addr, &task.address) {
        return Err(TodoError::AddressMismatchError);
    }
    let new_title = match title {
        Some(t) => *t,
        None => stored.title,
    };
    let new_description = match description {
        Some(d) => *d,
        None => stored.description,
    };
    let record = Task {
        title: new_title,
        description: new_description,
        authority: stored.authority,
        id: stored.id,
        bump: stored.bump,
    };
    let data = encode_task(&record);
    Ok(UnitState {
        address: task.address,
        balance: task.balance,
        data,
        is_signer: task.is_signer,
        is_writable: task.is_writable,
    })
}

/// The delete handler.
pub fn handle_delete(program_id: &[u8; 32], authority: &UnitState, task: &UnitState, id: u64) -> (r: Result<(UnitState, UnitState), TodoError>)
    ensures
        pair_result_view(r) == spec_delete(program_id@, authority@, task@, id),
{
    if !check_unit_flags(authority, task) {
        return Err(TodoError::AuthorizationError);
    }
    let stored = match decode_task(task.data.as_slice()) {
        Ok(t) => t,
        Err(e) => {
            return Err(e);
        }
    };
    if !address_eq(&authority.address, &stored.authority) {
        return Err(TodoError::AuthorizationError);
    }
    if id != stored.id {
        return Err(TodoError::AuthorizationError);
    }
    let addr = match Task::try_create_pda(program_id, stored.id, &stored.authority, stored.bump) {
        Some(a) => a,
        None => {
            return Err(TodoError::InvalidSeedsError);
        }
    };
    if !address_eq(&addr, &task.address) {
        return Err(TodoError::AddressMismatchError);
    }
    let new_balance = match authority.balance.checked_add(task.balance) {
        Some(b) => b,
        None => {
            return Err(TodoError::ArithmeticError);
        }
    };
    let zeroed = zero_vec(task.data.len());
    proof {
        assert(zeroed@ =~= Seq::new(169, |i: int| 0u8));
    }
    let new_authority = UnitState {
        address: authority.address,
        balance: new_balance,
        data: copy_vec(&authority.data),
        is_signer: authority.is_signer,
        is_writable: authority.is_writable,
    };
    let new_task = UnitState {
        address: task.address,
        balance: 0,
        data: zeroed,
        is_signer: task.is_signer,
        is_writable: task.is_writable,
    };
    Ok((new_authority, new_task))
}

/// Rebuild the account list with its first two units replaced.
fn rebuild_units(accounts: &Vec<UnitState>, first: UnitState, second: UnitState) -> (v: Vec<UnitState>)
    requires
        accounts@.len() >= 2,
    ensures
        v@.len() == accounts@.len(),
        v@[0]@ == first@,
        v@[1]@ == second@,
        forall|i: int| 2 <= i < accounts@.len() ==> v@[i]@ == accounts@[i]@,
{
    let ghost first_view = first@;
    let ghost second_view = second@;
    let mut v: Vec<UnitState> = Vec::new();
    v.push(first);
    v.push(second);
    let mut i: usize = 2;
    while i < accounts.len()
        invariant
            2 <= i <= accounts@.len(),
            v@.len() == i,
            v@[0]@ == first_view,
            v@[1]@ == second_view,
            forall|j: int| 2 <= j < i ==> v@[j]@ == accounts@[j]@,
        decreases accounts@.len() - i,
    {
        let u = clone_unit(&accounts[i]);
        v.push(u);
        i = i + 1;
    }
    v
}

/// The instruction dispatcher: decode the command envelope and route
/// to the create, update or delete handler.  The runtime hands the
/// dispatcher the ordered unit list the command's documentation asks
/// for: authority, target, and for create the system program.  The
/// result is the full new list of snapshots; a unit a handler does not
/// touch comes back unchanged.  A create command's discriminant field
/// is advisory only: the canonical discriminant is re-derived
/// independently, validated against the target handle's address, and
/// stored.
pub fn process_instruction(program_id: &[u8; 32], accounts: &Vec<UnitState>, instruction_data: &[u8], rent_minimum: u64) -> (r: Result<Vec<UnitState>, TodoError>)
    requires
        (match spec_decode_instruction(instruction_data@) {
            Some(InstructionView::CreateTask { .. }) => accounts@.len() >= 3,
            Some(_) => accounts@.len() >= 2,
            None => true,
        }),
    ensures
        spec_decode_instruction(instruction_data@) is None ==> r == Err::<
            Vec<UnitState>,
            TodoError,
        >(TodoError::DecodeError),
        (match spec_decode_instruction(instruction_data@) {
            Some(InstructionView::UpdateTask { id, title, description }) => (match spec_update(
                program_id@,
                accounts@[0]@,
                accounts@[1]@,
                id,
                title,
                description,
            ) {
                Ok(nt) => r matches Ok(v) && v@.len() == accounts@.len() && v@[1]@ == nt && (
                forall|i: int| 0 <= i < accounts@.len() && i != 1 ==> v@[i]@ == accounts@[i]@),
                Err(e) => r == Err::<Vec<UnitState>, TodoError>(e),
            }),
            _ => true,
        }),
        (match spec_decode_instruction(instruction_data@) {
            Some(InstructionView::DeleteTask { id }) => (match spec_delete(
                program_id@,
                accounts@[0]@,
                accounts@[1]@,
                id,
            ) {
                Ok(pair) => r matches Ok(v) && v@.len() == accounts@.len() && v@[0]@ == pair.0
                    && v@[1]@ == pair.1 && (forall|i: int|
                    2 <= i < accounts@.len() ==> v@[i]@ == accounts@[i]@),
                Err(e) => r == Err::<Vec<UnitState>, TodoError>(e),
            }),
            _ => true,
        }),
        (match spec_decode_instruction(instruction_data@) {
            Some(InstructionView::CreateTask { id, title, description, bump }) => {
                &&& ((r == Err::<Vec<UnitState>, TodoError>(TodoError::AuthorizationError))
                    <==> !create_flags_ok(accounts@[0]@, accounts@[1]@, accounts@[2]@))
                &&& (create_flags_ok(accounts@[0]@, accounts@[1]@, accounts@[2]@) ==> ((r == Err::<
                    Vec<UnitState>,
                    TodoError,
                >(TodoError::InvalidSeedsError)) <==> (forall|b: u8|
                    1 <= b ==> task_candidate(program_id@, id, accounts@[0]@.address, b) is None)))
                &&& (forall|b: u8|
                    (create_flags_ok(accounts@[0]@, accounts@[1]@, accounts@[2]@) && 1 <= b
                        && is_canonical_bump(program_id@, id, accounts@[0]@.address, b)
                        && task_candidate(program_id@, id, accounts@[0]@.address, b) == Some(
                        accounts@[1]@.address,
                    )) ==> (r matches Ok(v) && v@.len() == accounts@.len() && v@[1]@
                        == created_unit(
                        accounts@[1]@,
                        rent_minimum,
                        id,
                        title,
                        description,
                        accounts@[0]@.address,
                        b,
                    ) && (forall|i: int|
                        0 <= i < accounts@.len() && i != 1 ==> v@[i]@ == accounts@[i]@)))
                &&& (r matches Ok(v) ==> (v@.len() == accounts@.len() && (spec_decode_task(
                    v@[1]@.data,
                ) matches Some(t) && t.id == id && t.title == title && t.description == description
                    && t.authority == accounts@[0]@.address && task_candidate(
                    program_id@,
                    t.id,
                    t.authority,
                    t.bump,
                ) == Some(accounts@[1]@.address)) && (forall|i: int|
                    0 <= i < accounts@.len() && i != 1 ==> v@[i]@ == accounts@[i]@)))
            },
            _ => true,
        }),
{
    let instruction = match decode_instruction(instruction_data) {
        Ok(i) => i,
        Err(e) => {
            return Err(e);
        }
    };
    match instruction {
        TodoInstruction::CreateTask { id, title, description, bump: _ } => {
            let authority = &accounts[0];
            let task = &accounts[1];
            let system_program = &accounts[2];
            match handle_create(
                program_id,
                authority,
                task,
                system_program,
                rent_minimum,
                id,
                &title,
                &description,
            ) {
                Ok(nt) => {
                    let first = clone_unit(authority);
                    Ok(rebuild_units(accounts, first, nt))
                }
                Err(e) => Err(e),
            }
        }
        TodoInstruction::UpdateTask { id, title, description } => {
            let authority = &accounts[0];
            let task = &accounts[1];
            match handle_update(program_id, authority, task, id, &title, &description) {
                Ok(nt) => {
                    let first = clone_unit(authority);
                    Ok(rebuild_units(accounts, first, nt))
                }
                Err(e) => Err(e),
            }
        }
        TodoInstruction::DeleteTask { id } => {
            let authority = &accounts[0];
            let task = &accounts[1];
            match handle_delete(program_id, authority, task, id) {
                Ok((new_authority, new_task)) => Ok(
                    rebuild_units(accounts, new_authority, new_task),
                ),
                Err(e) => Err(e),
            }
        }
    }
}

/// Update with both fields absent always fails as a caller error,
/// whatever the units hold.
pub proof fn lemma_update_without_fields_fails(program: Seq<u8>, authority: UnitView, task: UnitView, id: u64)
    ensures
        spec_update(program, authority, task, id, None, None) == Err::<UnitView, TodoError>(
            TodoError::CallerInputError,
        ),
{
}

/// Update with only a title present replaces the title whole and
/// leaves the stored description byte for byte unchanged, along with
/// the record's authority, id and discriminant.
pub proof fn lemma_update_title_only_keeps_description(program: Seq<u8>, authority: UnitView, task: UnitView, id: u64, title: Seq<u8>, nt: UnitView)
    requires
        title.len() == 64,
        spec_update(program, authority, task, id, Some(title), None) == Ok::<UnitView, TodoError>(
            nt,
        ),
    ensures
        spec_decode_task(task.data) is Some,
        spec_decode_task(nt.data) matches Some(t2) && spec_decode_task(task.data) matches Some(t)
            && t2.title == title && t2.description == t.description && t2.authority == t.authority
            && t2.id == t.id && t2.bump == t.bump,
{
    match spec_decode_task(task.data) {
        Some(t) => {
            lemma_task_codec_roundtrip(updated_record(t, Some(title), None));
        }
        None => {
            assert(false);
        }
    }
}

/// An update attempt by a signer whose identity differs from the
/// record's stored authority always fails as an authorization error,
/// whatever else is correct.
pub proof fn lemma_foreign_signer_cannot_update(program: Seq<u8>, authority: UnitView, task: UnitView, id: u64, title: Option<Seq<u8>>, description: Option<Seq<u8>>)
    requires
        spec_decode_task(task.data) matches Some(t) && authority.address != t.authority,
        !(title is None && description is None),
    ensures
        spec_update(program, authority, task, id, title, description) == Err::<
            UnitView,
            TodoError,
        >(TodoError::AuthorizationError),
{
}

/// A delete attempt by a signer whose identity differs from the
/// record's stored authority always fails as an authorization error,
/// whatever else is correct.
pub proof fn lemma_foreign_signer_cannot_delete(program: Seq<u8>, authority: UnitView, task: UnitView, id: u64)
    requires
        spec_decode_task(task.data) matches Some(t) && authority.address != t.authority,
    ensures
        spec_delete(program, authority, task, id) == Err::<(UnitView, UnitView), TodoError>(
            TodoError::AuthorizationError,
        ),
{
}

/// A successful delete zeroes all 169 record bytes, leaves the unit's
/// balance at exactly zero, and increases the authority's balance by
/// exactly the unit's prior balance: no funds are created or
/// destroyed.
pub proof fn lemma_delete_conserves_funds(program: Seq<u8>, authority: UnitView, task: UnitView, id: u64, new_authority: UnitView, new_task: UnitView)
    requires
        spec_delete(program, authority, task, id) == Ok::<(UnitView, UnitView), TodoError>(
            (new_authority, new_task),
        ),
    ensures
        new_task.balance == 0,
        new_task.data.len() == 169,
        forall|i: int| 0 <= i < 169 ==> new_task.data[i] == 0,
        new_authority.balance == authority.balance + task.balance,
        new_authority.balance + new_task.balance == authority.balance + task.balance,
{
}

} // verus!
