use todo::codec::decode_task;
use todo::codec::encode_instruction;
use todo::codec::encode_task;
use todo::handlers::process_instruction;
use todo::handlers::UnitState;
use todo::Task;
use todo::TodoError;
use todo::TodoInstruction;

fn fixed64(text: &str) -> [u8; 64] {
    let mut out = [0u8; 64];
    out[..text.len()].copy_from_slice(text.as_bytes());
    out
}

fn get_env() -> ([u8; 64], [u8; 64], [u8; 64], [u8; 64]) {
    (
        fixed64("My task"),
        fixed64("My task description"),
        fixed64("My new task"),
        fixed64("My new task description"),
    )
}

const RENT_MINIMUM: u64 = 2_066_640;

fn authority_unit(address: [u8; 32], balance: u64) -> UnitState {
    UnitState { address, balance, data: Vec::new(), is_signer: true, is_writable: true }
}

fn task_unit(address: [u8; 32], balance: u64, data: Vec<u8>) -> UnitState {
    UnitState { address, balance, data, is_signer: false, is_writable: true }
}

fn system_unit() -> UnitState {
    UnitState { address: [0u8; 32], balance: 0, data: Vec::new(), is_signer: false, is_writable: false }
}

#[test]
fn test_create_task() {
    let program_id = [7u8; 32];
    let authority = [1u8; 32];
    let id: u64 = 1;
    let (title, description, _, _) = get_env();

    let (task_pda, task_bump) = todo::addr::derive_task_address(&program_id, id, &authority)
        .expect("derivation should find a discriminant");

    let accounts = vec![
        authority_unit(authority, 10 * RENT_MINIMUM),
        task_unit(task_pda, 0, Vec::new()),
        system_unit(),
    ];
    let data = encode_instruction(&TodoInstruction::CreateTask { id, title, description, bump: task_bump });

    let out = process_instruction(&program_id, &accounts, &data, RENT_MINIMUM).unwrap();
    let task = decode_task(&out[1].data).unwrap();

    assert_eq!(id, task.id);
    assert_eq!(title, task.title);
    assert_eq!(description, task.description);
    assert_eq!(authority, task.authority);
    assert_eq!(task_bump, task.bump);
    assert_eq!(RENT_MINIMUM, out[1].balance);

    // The stored discriminant re-derives to the unit's own address.
    let rederived = Task::try_create_pda(&program_id, task.id, &task.authority, task.bump)
        .expect("the stored discriminant yields an address");
    assert_eq!(out[1].address, rederived);
}

#[test]
fn test_update_task() {
    let program_id = [7u8; 32];
    let authority = [1u8; 32];
    let id: u64 = 1;
    let (title, description, new_title, new_description) = get_env();

    let (task_pda, task_bump) = todo::addr::derive_task_address(&program_id, id, &authority)
        .expect("derivation should find a discriminant");
    let old_task = Task::new(id, title, description, authority, task_bump);

    let accounts = vec![
        authority_unit(authority, u32::MAX as u64),
        task_unit(task_pda, u32::MAX as u64, encode_task(&old_task)),
    ];
    let data = encode_instruction(&TodoInstruction::UpdateTask {
        id,
        title: Some(new_title),
        description: Some(new_description),
    });

    let out = process_instruction(&program_id, &accounts, &data, RENT_MINIMUM).unwrap();
    let task = decode_task(&out[1].data).unwrap();

    assert_eq!(id, task.id);
    assert_eq!(new_title, task.title);
    assert_eq!(new_description, task.description);
    assert_eq!(authority, task.authority);
    assert_eq!(task_bump, task.bump);
    assert_eq!(u32::MAX as u64, out[1].balance);
}

#[test]
fn test_delete_task() {
    let program_id = [7u8; 32];
    let authority = [1u8; 32];
    let id: u64 = 1;
    let (title, description, _, _) = get_env();

    let (task_pda, task_bump) = todo::addr::derive_task_address(&program_id, id, &authority)
        .expect("derivation should find a discriminant");
    let old_task = Task::new(id, title, description, authority, task_bump);

    let accounts = vec![
        authority_unit(authority, 5_000),
        task_unit(task_pda, u32::MAX as u64, encode_task(&old_task)),
    ];
    let data = encode_instruction(&TodoInstruction::DeleteTask { id });

    let out = process_instruction(&program_id, &accounts, &data, RENT_MINIMUM).unwrap();

    assert!(out[1].balance == 0 && out[1].data.iter().all(|b| *b == 0));
}

#[test]
fn test_update_task_with_none() {
    let program_id = [7u8; 32];
    let authority = [1u8; 32];
    let id: u64 = 1;
    let (title, description, _, _) = get_env();

    let (task_pda, task_bump) = todo::addr::derive_task_address(&program_id, id, &authority)
        .expect("derivation should find a discriminant");
    let old_task = Task::new(id, title, description, authority, task_bump);

    let accounts = vec![
        authority_unit(authority, 5_000),
        task_unit(task_pda, u32::MAX as u64, encode_task(&old_task)),
    ];
    let data = encode_instruction(&TodoInstruction::UpdateTask { id, title: None, description: None });

    let result = process_instruction(&program_id, &accounts, &data, RENT_MINIMUM);
    assert_eq!(result.unwrap_err(), TodoError::CallerInputError);
}

#[test]
fn scenario_create_update_delete() {
    let program_id = [9u8; 32];
    let authority_a = [1u8; 32];
    let signer_b = [2u8; 32];
    let id: u64 = 1;
    let (title, description, new_title, _) = get_env();

    // Create by A.
    let (task_pda, task_bump) = todo::addr::derive_task_address(&program_id, id, &authority_a)
        .expect("derivation should find a discriminant");
    let accounts = vec![
        authority_unit(authority_a, 10 * RENT_MINIMUM),
        task_unit(task_pda, 0, Vec::new()),
        system_unit(),
    ];
    let create = encode_instruction(&TodoInstruction::CreateTask { id, title, description, bump: task_bump });
    let after_create = process_instruction(&program_id, &accounts, &create, RENT_MINIMUM).unwrap();

    // Update the title by A: succeeds and leaves the description unchanged.
    let accounts = vec![
        authority_unit(authority_a, 10 * RENT_MINIMUM),
        after_create.into_iter().nth(1).unwrap(),
    ];
    let update = encode_instruction(&TodoInstruction::UpdateTask { id, title: Some(new_title), description: None });
    let after_update = process_instruction(&program_id, &accounts, &update, RENT_MINIMUM).unwrap();
    let task = decode_task(&after_update[1].data).unwrap();
    assert_eq!(new_title, task.title);
    assert_eq!(description, task.description);

    // Delete by a different signer B: fails.
    let delete = encode_instruction(&TodoInstruction::DeleteTask { id });
    let accounts_b = vec![
        authority_unit(signer_b, 5_000),
        task_unit(task_pda, after_update[1].balance, after_update[1].data.clone()),
    ];
    let denied = process_instruction(&program_id, &accounts_b, &delete, RENT_MINIMUM);
    assert_eq!(denied.unwrap_err(), TodoError::AuthorizationError);

    // Delete by A: succeeds; the unit is drained and zeroed, and the
    // balance moved to A in full.
    let accounts_a = vec![
        authority_unit(authority_a, 5_000),
        after_update.into_iter().nth(1).unwrap(),
    ];
    let after_delete = process_instruction(&program_id, &accounts_a, &delete, RENT_MINIMUM).unwrap();
    assert_eq!(0, after_delete[1].balance);
    assert!(after_delete[1].data.iter().all(|b| *b == 0));
    assert_eq!(169, after_delete[1].data.len());
    assert_eq!(5_000 + RENT_MINIMUM, after_delete[0].balance);
}
