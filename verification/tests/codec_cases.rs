use todo::codec::decode_instruction;
use todo::codec::decode_task;
use todo::codec::encode_instruction;
use todo::codec::encode_task;
use todo::Task;
use todo::TodoError;
use todo::TodoInstruction;
use todo::TASK_LEN;

fn arbitrary_bytes64(seed: u8) -> [u8; 64] {
    let mut out = [0u8; 64];
    for (i, b) in out.iter_mut().enumerate() {
        *b = seed.wrapping_mul(37).wrapping_add(i as u8).wrapping_mul(251);
    }
    out
}

#[test]
fn task_roundtrip_arbitrary_content() {
    // Titles and descriptions are raw buffers: content need not be text.
    let t = Task::new(
        0xfeed_beef_dead_cafe,
        arbitrary_bytes64(3),
        arbitrary_bytes64(201),
        [0xff; 32],
        255,
    );
    let bytes = encode_task(&t);
    assert_eq!(TASK_LEN, bytes.len());
    let back = decode_task(&bytes).unwrap();
    assert_eq!(t.id, back.id);
    assert_eq!(t.title, back.title);
    assert_eq!(t.description, back.description);
    assert_eq!(t.authority, back.authority);
    assert_eq!(t.bump, back.bump);
}

#[test]
fn task_layout_fixed_offsets() {
    let mut title = [0u8; 64];
    title[0] = 0x11;
    title[63] = 0x22;
    let mut description = [0u8; 64];
    description[0] = 0x33;
    description[63] = 0x44;
    let t = Task::new(0x0807060504030201, title, description, [0x55; 32], 0x66);
    let bytes = encode_task(&t);

    assert_eq!(0x11, bytes[0]);
    assert_eq!(0x22, bytes[63]);
    assert_eq!(0x33, bytes[64]);
    assert_eq!(0x44, bytes[127]);
    assert_eq!(vec![0x55u8; 32], bytes[128..160].to_vec());
    // The id is little-endian at offsets 160..168.
    assert_eq!(vec![1u8, 2, 3, 4, 5, 6, 7, 8], bytes[160..168].to_vec());
    assert_eq!(0x66, bytes[168]);
}

#[test]
fn task_decode_rejects_wrong_sizes() {
    assert_eq!(TodoError::DecodeError, decode_task(&[]).unwrap_err());
    assert_eq!(TodoError::DecodeError, decode_task(&[0u8; 168]).unwrap_err());
    assert_eq!(TodoError::DecodeError, decode_task(&[0u8; 170]).unwrap_err());
    // Any 169-byte buffer decodes to some record.
    let zeroed = decode_task(&[0u8; 169]).unwrap();
    assert_eq!(0, zeroed.id);
    assert_eq!([0u8; 64], zeroed.title);
}

#[test]
fn instruction_delete_exact_bytes() {
    let bytes = encode_instruction(&TodoInstruction::DeleteTask { id: 0x0102030405060708 });
    assert_eq!(vec![2u8, 8, 7, 6, 5, 4, 3, 2, 1], bytes);
}

#[test]
fn instruction_update_presence_bytes() {
    let none_none = encode_instruction(&TodoInstruction::UpdateTask { id: 1, title: None, description: None });
    assert_eq!(11, none_none.len());
    assert_eq!(1, none_none[0]);
    assert_eq!(0, none_none[9]);
    assert_eq!(0, none_none[10]);

    let with_title = encode_instruction(&TodoInstruction::UpdateTask {
        id: 1,
        title: Some([7u8; 64]),
        description: None,
    });
    assert_eq!(75, with_title.len());
    assert_eq!(1, with_title[9]);
    assert_eq!(7, with_title[10]);
    assert_eq!(0, with_title[74]);
}

#[test]
fn instruction_roundtrips() {
    let cases = vec![
        TodoInstruction::CreateTask {
            id: 42,
            title: arbitrary_bytes64(1),
            description: arbitrary_bytes64(2),
            bump: 254,
        },
        TodoInstruction::UpdateTask { id: 7, title: Some(arbitrary_bytes64(9)), description: None },
        TodoInstruction::UpdateTask { id: 7, title: None, description: Some(arbitrary_bytes64(4)) },
        TodoInstruction::DeleteTask { id: u64::MAX },
    ];
    for case in cases {
        let bytes = encode_instruction(&case);
        let back = decode_instruction(&bytes).unwrap();
        match (case, back) {
            (
                TodoInstruction::CreateTask { id, title, description, bump },
                TodoInstruction::CreateTask { id: id2, title: t2, description: d2, bump: b2 },
            ) => {
                assert!(id == id2 && title == t2 && description == d2 && bump == b2);
            }
            (
                TodoInstruction::UpdateTask { id, title, description },
                TodoInstruction::UpdateTask { id: id2, title: t2, description: d2 },
            ) => {
                assert!(id == id2 && title == t2 && description == d2);
            }
            (TodoInstruction::DeleteTask { id }, TodoInstruction::DeleteTask { id: id2 }) => {
                assert_eq!(id, id2);
            }
            _ => panic!("variant changed by the codec"),
        }
    }
}

#[test]
fn instruction_decode_rejects_malformed() {
    // Too short for any command.
    assert_eq!(TodoError::DecodeError, decode_instruction(&[]).unwrap_err());
    assert_eq!(TodoError::DecodeError, decode_instruction(&[0u8; 8]).unwrap_err());
    // Unknown tag.
    assert_eq!(TodoError::DecodeError, decode_instruction(&[9u8; 9]).unwrap_err());
    // A create payload truncated by one byte, and padded by one.
    assert_eq!(TodoError::DecodeError, decode_instruction(&[0u8; 137]).unwrap_err());
    assert_eq!(TodoError::DecodeError, decode_instruction(&[0u8; 139]).unwrap_err());
    // A delete payload with a trailing byte.
    assert_eq!(TodoError::DecodeError, decode_instruction(&[2u8, 0, 0, 0, 0, 0, 0, 0, 0, 0]).unwrap_err());
    // An update payload with an invalid presence byte.
    assert_eq!(TodoError::DecodeError, decode_instruction(&[1u8, 0, 0, 0, 0, 0, 0, 0, 0, 2, 0]).unwrap_err());
    // An update payload whose present title is truncated.
    let mut short = vec![1u8, 0, 0, 0, 0, 0, 0, 0, 0, 1];
    short.extend_from_slice(&[5u8; 40]);
    assert_eq!(TodoError::DecodeError, decode_instruction(&short).unwrap_err());
}
