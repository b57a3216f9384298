use cartesi_machine_wasm::{
    break_reason_console_input, break_reason_console_output, break_reason_failed,
    break_reason_halted, break_reason_name, break_reason_reached_target,
    break_reason_yielded_automatically, break_reason_yielded_manually,
    break_reason_yielded_softly, reg_mcycle, reg_pc, reg_x10, reg_x11, reg_x12, reg_x13,
    reg_x14, reg_x15,
};

fn all_reasons() -> Vec<u32> {
    vec![
        break_reason_failed(),
        break_reason_halted(),
        break_reason_yielded_manually(),
        break_reason_yielded_automatically(),
        break_reason_yielded_softly(),
        break_reason_reached_target(),
        break_reason_console_output(),
        break_reason_console_input(),
    ]
}

#[test]
fn break_reason_codes_follow_the_emulator_enumeration() {
    assert_eq!(all_reasons(), vec![0, 1, 2, 3, 4, 5, 6, 7]);
}

#[test]
fn break_reason_codes_are_distinct() {
    let reasons = all_reasons();
    for i in 0..reasons.len() {
        for j in 0..reasons.len() {
            if i != j {
                assert_ne!(reasons[i], reasons[j]);
            }
        }
    }
}

#[test]
fn known_break_reasons_have_their_names() {
    assert_eq!(break_reason_name(break_reason_failed()), "failed");
    assert_eq!(break_reason_name(break_reason_halted()), "halted");
    assert_eq!(break_reason_name(break_reason_yielded_manually()), "yielded_manually");
    assert_eq!(break_reason_name(break_reason_yielded_automatically()), "yielded_automatically");
    assert_eq!(break_reason_name(break_reason_yielded_softly()), "yielded_softly");
    assert_eq!(break_reason_name(break_reason_reached_target()), "reached_target");
    assert_eq!(break_reason_name(break_reason_console_output()), "console_output");
    assert_eq!(break_reason_name(break_reason_console_input()), "console_input");
}

#[test]
fn other_codes_are_named_unknown_with_the_code_in_decimal() {
    assert_eq!(break_reason_name(8), "unknown(8)");
    assert_eq!(break_reason_name(10), "unknown(10)");
    assert_eq!(break_reason_name(42), "unknown(42)");
    assert_eq!(break_reason_name(100), "unknown(100)");
    assert_eq!(break_reason_name(1_000_000), "unknown(1000000)");
    assert_eq!(break_reason_name(u32::MAX), "unknown(4294967295)");
    assert_eq!(break_reason_name(0x8000_0000), "unknown(2147483648)");
}

#[test]
fn unknown_names_match_std_formatting() {
    for code in [9u32, 99, 101, 65535, 123456789, 4000000000] {
        assert_eq!(break_reason_name(code), format!("unknown({})", code));
    }
}

#[test]
fn distinct_codes_get_distinct_names() {
    let names: Vec<String> = (0u32..300).map(break_reason_name).collect();
    for i in 0..names.len() {
        for j in (i + 1)..names.len() {
            assert_ne!(names[i], names[j]);
        }
    }
}

#[test]
fn register_indices_follow_the_emulator_enumeration() {
    assert_eq!(reg_pc(), 64);
    assert_eq!(reg_mcycle(), 69);
    assert_eq!(
        vec![reg_x10(), reg_x11(), reg_x12(), reg_x13(), reg_x14(), reg_x15()],
        vec![10, 11, 12, 13, 14, 15]
    );
}

#[test]
fn register_indices_are_distinct() {
    let regs = vec![
        reg_pc(),
        reg_mcycle(),
        reg_x10(),
        reg_x11(),
        reg_x12(),
        reg_x13(),
        reg_x14(),
        reg_x15(),
    ];
    for i in 0..regs.len() {
        for j in 0..regs.len() {
            if i != j {
                assert_ne!(regs[i], regs[j]);
            }
        }
    }
}
