use cartesi_machine_wasm::{failure_message, report, report_root_hash, root_hash_hex, Failure};

#[test]
fn root_hash_of_zeros_is_sixty_four_zero_digits() {
    assert_eq!(root_hash_hex(&[0u8; 32]), "0".repeat(64));
}

#[test]
fn root_hash_is_lower_case_high_nibble_first() {
    let mut hash = [0u8; 32];
    let pattern = [0x01u8, 0x23, 0x45, 0x67, 0x89, 0xab, 0xcd, 0xef];
    for i in 0..32 {
        hash[i] = pattern[i % 8];
    }
    let text = root_hash_hex(&hash);
    assert_eq!(text, "0123456789abcdef".repeat(4));
    assert_eq!(text.len(), 64);
}

#[test]
fn root_hash_text_has_sixty_four_lower_hex_digits() {
    let mut hash = [0u8; 32];
    for i in 0..32 {
        hash[i] = (i as u8).wrapping_mul(37).wrapping_add(200);
    }
    let text = root_hash_hex(&hash);
    assert_eq!(text.chars().count(), 64);
    assert!(text.chars().all(|c| "0123456789abcdef".contains(c)));
    assert_eq!(&text[0..2], "c8");
    assert_eq!(&text[2..4], "ed");
}

#[test]
fn distinct_root_hashes_have_distinct_texts() {
    let a = [0x10u8; 32];
    let mut b = a;
    b[31] = 0x01;
    assert_ne!(root_hash_hex(&a), root_hash_hex(&b));
    assert_eq!(root_hash_hex(&a), "10".repeat(32));
}

#[test]
fn failure_messages_open_with_the_step() {
    let cases = [
        (Failure::InvalidConfig, "Invalid config JSON: "),
        (Failure::CreateMachine, "Failed to create machine: "),
        (Failure::Run, "Run failed: "),
        (Failure::ReadMemory, "Read memory failed: "),
        (Failure::WriteMemory, "Write memory failed: "),
        (Failure::ReadRegister, "Read register failed: "),
        (Failure::WriteRegister, "Write register failed: "),
        (Failure::GetMcycle, "Get mcycle failed: "),
        (Failure::GetRootHash, "Get root hash failed: "),
        (Failure::ReplaceMemoryRange, "Replace memory range failed: "),
    ];
    for (step, opening) in cases {
        assert_eq!(failure_message(step, "out of range"), format!("{}out of range", opening));
    }
}

#[test]
fn failure_message_keeps_an_empty_detail() {
    assert_eq!(failure_message(Failure::Run, ""), "Run failed: ");
}

#[test]
fn report_passes_values_through() {
    assert_eq!(report(Failure::ReadRegister, Ok::<u64, String>(0x8000_0000)), Ok(0x8000_0000));
    assert_eq!(report(Failure::ReadMemory, Ok::<Vec<u8>, String>(vec![1, 2, 3])), Ok(vec![1, 2, 3]));
    assert_eq!(report(Failure::WriteMemory, Ok::<(), String>(())), Ok(()));
}

#[test]
fn report_turns_errors_into_step_messages() {
    assert_eq!(
        report(Failure::Run, Err::<u32, String>("machine is halted".to_string())),
        Err("Run failed: machine is halted".to_string())
    );
    assert_eq!(
        report(Failure::GetMcycle, Err::<u64, String>("busy".to_string())),
        Err("Get mcycle failed: busy".to_string())
    );
}

#[test]
fn report_root_hash_encodes_or_explains() {
    assert_eq!(report_root_hash(Ok([0xffu8; 32])), Ok("ff".repeat(32)));
    assert_eq!(
        report_root_hash(Err("no machine".to_string())),
        Err("Get root hash failed: no machine".to_string())
    );
}
