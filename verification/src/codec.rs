//! Fixed-layout binary codec for task records and for the command
//! envelope.
//!
//! A record is a fixed-offset concatenation, in order: title (64
//! bytes), description (64 bytes), authority (32 bytes), id (8 bytes,
//! little-endian), discriminant (1 byte) — 169 bytes in all.  Any
//! buffer of exactly that size decodes to some record; there are no
//! invalid bit patterns.  A command is a tag byte followed by the
//! variant's fields, an optional field being a presence byte followed
//! by the value when present.
use vstd::prelude::*;
use vstd::bytes::lemma_auto_spec_u64_to_from_le_bytes;
use vstd::bytes::spec_u64_from_le_bytes;
use vstd::bytes::spec_u64_to_le_bytes;
use vstd::bytes::u64_from_le_bytes;
use vstd::bytes::u64_to_le_bytes;
use vstd::slice::slice_subrange;
use crate::InstructionView;
use crate::Task;
use crate::TaskView;
use crate::TodoError;
use crate::TodoInstruction;
use crate::TASK_LEN;
use crate::opt_bytes_view;

verus! {

/// A record image is well formed when its buffers have their fixed sizes.
pub open spec fn task_wf(t: TaskView) -> bool {
    &&& t.title.len() == 64
    &&& t.description.len() == 64
    &&& t.authority.len() == 32
}

/// The 169 bytes that encode a record.
pub open spec fn spec_task_bytes(t: TaskView) -> Seq<u8> {
    t.title + t.description + t.authority + spec_u64_to_le_bytes(t.id) + seq![t.bump]
}

/// The record held by a buffer: every buffer of exactly 169 bytes
/// decodes to some record, a buffer of any other size to none.
pub open spec fn spec_decode_task(s: Seq<u8>) -> Option<TaskView> {
    if s.len() == 169 {
        Some(TaskView {
            title: s.subrange(0, 64),
            description: s.subrange(64, 128),
            authority: s.subrange(128, 160),
            id: spec_u64_from_le_bytes(s.subrange(160, 168)),
            bump: s[168],
        })
    } else {
        None
    }
}

/// Decoding inverts encoding: a record written to its 169 bytes is
/// read back unchanged, whatever the byte content of its buffers.
pub proof fn lemma_task_codec_roundtrip(t: TaskView)
    requires
        task_wf(t),
    ensures
        spec_decode_task(spec_task_bytes(t)) == Some(t),
{
    lemma_auto_spec_u64_to_from_le_bytes();
    let s = spec_task_bytes(t);
    assert(s.len() == 169);
    assert(s.subrange(0, 64) =~= t.title);
    assert(s.subrange(64, 128) =~= t.description);
    assert(s.subrange(128, 160) =~= t.authority);
    assert(s.subrange(160, 168) =~= spec_u64_to_le_bytes(t.id));
    assert(s[168] == t.bump);
}

/// Append the bytes of a slice to a vector.
pub fn push_bytes(out: &mut Vec<u8>, src: &[u8])
    ensures
        final(out)@ == old(out)@ + src@,
{
    let mut i: usize = 0;
    while i < src.len()
        invariant
            i <= src@.len(),
            out@ == old(out)@ + src@.subrange(0, i as int),
        decreases src@.len() - i,
    {
        let b = src[i];
        out.push(b);
        assert(old(out)@ + src@.subrange(0, i as int) + seq![src@[i as int]] =~= old(out)@
            + src@.subrange(0, i + 1));
        i = i + 1;
    }
    assert(src@.subrange(0, src@.len() as int) =~= src@);
}

/// Copy a fixed-size run of bytes out of a slice.
fn copy_bytes<const N: usize>(src: &[u8], start: usize) -> (out: [u8; N])
    requires
        start + N <= src@.len(),
    ensures
        out@ == src@.subrange(start as int, start + N),
{
    let mut out: [u8; N] = vstd::array::array_fill_for_copy_types::<u8, N>(0u8);
    let len = src.len();
    let mut i: usize = 0;
    while i < N
        invariant
            i <= N,
            len == src@.len(),
            start + N <= src@.len(),
            forall|j: int| 0 <= j < i ==> out@[j] == src@[start + j],
        decreases N - i,
    {
        let b = src[start + i];
        out[i] = b;
        i = i + 1;
    }
    assert(out@ =~= src@.subrange(start as int, start + N));
    out
}

/// Encode a record into a fresh 169-byte buffer.
pub fn encode_task(t: &Task) -> (out: Vec<u8>)
    ensures
        out@ == spec_task_bytes(t@),
        out@.len() == 169,
{
    let mut out: Vec<u8> = Vec::new();
    push_bytes(&mut out, t.title.as_slice());
    push_bytes(&mut out, t.description.as_slice());
    push_bytes(&mut out, t.authority.as_slice());
    let idb = u64_to_le_bytes(t.id);
    push_bytes(&mut out, idb.as_slice());
    out.push(t.bump);
    proof {
        lemma_auto_spec_u64_to_from_le_bytes();
        assert(out@ =~= spec_task_bytes(t@));
    }
    out
}

/// Decode the record held by a buffer; fails exactly when the buffer
/// does not have the fixed record size.
pub fn decode_task(data: &[u8]) -> (r: Result<Task, TodoError>)
    ensures
        (match r {
            Ok(t) => spec_decode_task(data@) == Some(t@),
            Err(e) => e == TodoError::DecodeError && spec_decode_task(data@) is None,
        }),
{
    if data.len() != TASK_LEN {
        return Err(TodoError::DecodeError);
    }
    let title: [u8; 64] = copy_bytes::<64>(data, 0);
    let description: [u8; 64] = copy_bytes::<64>(data, 64);
    let authority: [u8; 32] = copy_bytes::<32>(data, 128);
    let id = u64_from_le_bytes(slice_subrange(data, 160, 168));
    let bump = data[168];
    Ok(Task { title, description, authority, id, bump })
}

/// The bytes of an optional 64-byte field: a presence byte, then the
/// value when present.
pub open spec fn spec_opt64_bytes(o: Option<Seq<u8>>) -> Seq<u8> {
    match o {
        Some(s) => seq![1u8] + s,
        None => seq![0u8],
    }
}

/// The bytes that encode a command: a tag byte, then the variant's
/// fields in order.
pub open spec fn spec_instruction_bytes(i: InstructionView) -> Seq<u8> {
    match i {
        InstructionView::CreateTask { id, title, description, bump } => seq![0u8]
            + spec_u64_to_le_bytes(id) + title + description + seq![bump],
        InstructionView::UpdateTask { id, title, description } => seq![1u8]
            + spec_u64_to_le_bytes(id) + spec_opt64_bytes(title) + spec_opt64_bytes(description),
        InstructionView::DeleteTask { id } => seq![2u8] + spec_u64_to_le_bytes(id),
    }
}

/// Read an optional 64-byte field at position `p`: the field and the
/// position after it, or nothing when the presence byte is missing,
/// invalid, or not followed by a whole value.
pub open spec fn spec_decode_opt64(s: Seq<u8>, p: int) -> Option<(Option<Seq<u8>>, int)> {
    if 0 <= p < s.len() && s[p] == 1 && p + 65 <= s.len() {
        Some((Some(s.subrange(p + 1, p + 65)), p + 65))
    } else if 0 <= p < s.len() && s[p] == 0 {
        Some((None, p + 1))
    } else {
        None
    }
}

/// The command held by a payload, or nothing when the payload is
/// malformed: unknown tag, truncated fields, an invalid presence
/// byte, or bytes left over after the last field.
pub open spec fn spec_decode_instruction(s: Seq<u8>) -> Option<InstructionView> {
    if s.len() < 9 {
        None
    } else {
        let id = spec_u64_from_le_bytes(s.subrange(1, 9));
        if s[0] == 0 {
            if s.len() == 138 {
                Some(InstructionView::CreateTask {
                    id,
                    title: s.subrange(9, 73),
                    description: s.subrange(73, 137),
                    bump: s[137],
                })
            } else {
                None
            }
        } else if s[0] == 1 {
            match spec_decode_opt64(s, 9) {
                Some((title, p)) => match spec_decode_opt64(s, p) {
                    Some((description, q)) => if q == s.len() {
                        Some(InstructionView::UpdateTask { id, title, description })
                    } else {
                        None
                    },
                    None => None,
                },
                None => None,
            }
        } else if s[0] == 2 {
            if s.len() == 9 {
                Some(InstructionView::DeleteTask { id })
            } else {
                None
            }
        } else {
            None
        }
    }
}

/// A command image is well formed when its buffers, where present,
/// have their fixed size.
pub open spec fn instruction_wf(i: InstructionView) -> bool {
    match i {
        InstructionView::CreateTask { title, description, .. } => title.len() == 64
            && description.len() == 64,
        InstructionView::UpdateTask { title, description, .. } => {
            &&& (title matches Some(t) ==> t.len() == 64)
            &&& (description matches Some(d) ==> d.len() == 64)
        },
        InstructionView::DeleteTask { .. } => true,
    }
}

/// Decoding inverts encoding for commands as well: an encoded command
/// is read back unchanged.
pub proof fn lemma_instruction_codec_roundtrip(i: InstructionView)
    requires
        instruction_wf(i),
    ensures
        spec_decode_instruction(spec_instruction_bytes(i)) == Some(i),
{
    lemma_auto_spec_u64_to_from_le_bytes();
    let s = spec_instruction_bytes(i);
    match i {
        InstructionView::CreateTask { id, title, description, bump } => {
            assert(s.len() == 138);
            assert(s[0] == 0);
            assert(s.subrange(1, 9) =~= spec_u64_to_le_bytes(id));
            assert(s.subrange(9, 73) =~= title);
            assert(s.subrange(73, 137) =~= description);
            assert(s[137] == bump);
        }
        InstructionView::UpdateTask { id, title, description } => {
            assert(s[0] == 1);
            assert(s.subrange(1, 9) =~= spec_u64_to_le_bytes(id));
            let p: int = match title {
                Some(t) => {
                    assert(s[9] == 1);
                    assert(s.subrange(10, 74) =~= t);
                    74
                }
                None => {
                    assert(s[9] == 0);
                    10
                }
            };
            assert(spec_decode_opt64(s, 9) == Some((title, p)));
            match description {
                Some(d) => {
                    assert(s[p] == 1);
                    assert(s.subrange(p + 1, p + 65) =~= d);
                    assert(s.len() == p + 65);
                }
                None => {
                    assert(s[p] == 0);
                    assert(s.len() == p + 1);
                }
            }
        }
        InstructionView::DeleteTask { id } => {
            assert(s.len() == 9);
            assert(s[0] == 2);
            assert(s.subrange(1, 9) =~= spec_u64_to_le_bytes(id));
        }
    }
}

/// Append an optional 64-byte field to a buffer.
fn push_opt64(out: &mut Vec<u8>, o: &Option<[u8; 64]>)
    ensures
        final(out)@ == old(out)@ + spec_opt64_bytes(opt_bytes_view(*o)),
{
    match o {
        Some(a) => {
            out.push(1u8);
            push_bytes(out, a.as_slice());
            assert(old(out)@ + seq![1u8] + a@ =~= old(out)@ + spec_opt64_bytes(
                opt_bytes_view(Some(*a))));
        }
        None => {
            out.push(0u8);
            assert(old(out)@ + seq![0u8] =~= old(out)@ + spec_opt64_bytes(
                opt_bytes_view(None::<[u8; 64]>)));
        }
    }
}

/// Encode a command into a fresh payload.
pub fn encode_instruction(i: &TodoInstruction) -> (out: Vec<u8>)
    ensures
        out@ == spec_instruction_bytes(i@),
{
    let mut out: Vec<u8> = Vec::new();
    match i {
        TodoInstruction::CreateTask { id, title, description, bump } => {
            out.push(0u8);
            let idb = u64_to_le_bytes(*id);
            push_bytes(&mut out, idb.as_slice());
            push_bytes(&mut out, title.as_slice());
            push_bytes(&mut out, description.as_slice());
            out.push(*bump);
            proof {
                assert(out@ =~= spec_instruction_bytes(i@));
            }
        }
        TodoInstruction::UpdateTask { id, title, description } => {
            out.push(1u8);
            let idb = u64_to_le_bytes(*id);
            push_bytes(&mut out, idb.as_slice());
            push_opt64(&mut out, title);
            push_opt64(&mut out, description);
            proof {
                assert(out@ =~= spec_instruction_bytes(i@));
            }
        }
        TodoInstruction::DeleteTask { id } => {
            out.push(2u8);
            let idb = u64_to_le_bytes(*id);
            push_bytes(&mut out, idb.as_slice());
            proof {
                assert(out@ =~= spec_instruction_bytes(i@));
            }
        }
    }
    out
}

/// Read an optional 64-byte field at position `p` of a payload.
fn decode_opt64(data: &[u8], p: usize) -> (r: Result<(Option<[u8; 64]>, usize), TodoError>)
    ensures
        (match r {
            Ok(pair) => spec_decode_opt64(data@, p as int) == Some(
                (opt_bytes_view(pair.0), pair.1 as int),
            ),
            Err(e) => e == TodoError::DecodeError && spec_decode_opt64(data@, p as int) is None,
        }),
{
    let len = data.len();
    if p >= len {
        return Err(TodoError::DecodeError);
    }
    let tag = data[p];
    if tag == 1 {
        if len - p >= 65 {
            let value: [u8; 64] = copy_bytes::<64>(data, p + 1);
            Ok((Some(value), p + 65))
        } else {
            Err(TodoError::DecodeError)
        }
    } else if tag == 0 {
        Ok((None, p + 1))
    } else {
        Err(TodoError::DecodeError)
    }
}

/// Decode the command held by a payload; fails exactly on the
/// malformed payloads that `spec_decode_instruction` rejects.
pub fn decode_instruction(data: &[u8]) -> (r: Result<TodoInstruction, TodoError>)
    ensures
        (match r {
            Ok(i) => spec_decode_instruction(data@) == Some(i@),
            Err(e) => e == TodoError::DecodeError && spec_decode_instruction(data@) is None,
        }),
{
    let len = data.len();
    if len < 9 {
        return Err(TodoError::DecodeError);
    }
    let id = u64_from_le_bytes(slice_subrange(data, 1, 9));
    let tag = data[0];
    if tag == 0 {
        if len == 138 {
            let title: [u8; 64] = copy_bytes::<64>(data, 9);
            let description: [u8; 64] = copy_bytes::<64>(data, 73);
            let bump = data[137];
            Ok(TodoInstruction::CreateTask { id, title, description, bump })
        } else {
            Err(TodoError::DecodeError)
        }
    } else if tag == 1 {
        let (title, p) = match decode_opt64(data, 9) {
            Ok(pair) => pair,
            Err(e) => {
                return Err(e);
            }
        };
        let (description, q) = match decode_opt64(data, p) {
            Ok(pair) => pair,
            Err(e) => {
                return Err(e);
            }
        };
        if q == len {
            Ok(TodoInstruction::UpdateTask { id, title, description })
        } else {
            Err(TodoError::DecodeError)
        }
    } else if tag == 2 {
        if len == 9 {
            Ok(TodoInstruction::DeleteTask { id })
        } else {
            Err(TodoError::DecodeError)
        }
    } else {
        Err(TodoError::DecodeError)
    }
}

} // verus!
