use minijvm::bytecode::checker::verify_method_code;

#[test]
fn test_empty_code() {
    let result = verify_method_code(&[], 0, 0, "Test", "empty");
    assert!(result.is_valid);
}

#[test]
fn test_simple_return() {
    // return (0xB1)
    let code = vec![0xB1];
    let result = verify_method_code(&code, 0, 0, "Test", "ret");
    assert!(result.is_valid);
}

#[test]
fn test_iconst_return() {
    // iconst_0 (0x03), ireturn (0xAC)
    let code = vec![0x03, 0xAC];
    let result = verify_method_code(&code, 1, 0, "Test", "foo");
    assert!(result.is_valid);
}

#[test]
fn test_goto() {
    // goto +3, nop, nop, return
    let code = vec![0xA7, 0x00, 0x03, 0x00, 0x00, 0xB1];
    let result = verify_method_code(&code, 0, 0, "Test", "goto_test");
    assert!(result.is_valid);
}

#[test]
fn test_if_branch() {
    // iload_0, ifeq +5, iconst_0, ireturn, iconst_1, ireturn
    let code = vec![0x1A, 0x99, 0x00, 0x05, 0x03, 0xAC, 0x04, 0xAC];
    let result = verify_method_code(&code, 1, 1, "Test", "if_test");
    assert!(result.is_valid);
}

#[test]
fn test_invalid_branch_target() {
    // goto +1000 (out of bounds), then return
    let code = vec![0xA7, 0x03, 0xE8, 0xB1];
    let result = verify_method_code(&code, 0, 0, "Test", "bad_branch");
    assert!(!result.is_valid);
    assert!(result.errors.iter().any(|e| e.contains("out of bounds")));
}

#[test]
fn test_unknown_opcode() {
    // 0xFE is IMPDEP2 (reserved/unknown)
    let code = vec![0xFE, 0xB1];
    let result = verify_method_code(&code, 0, 0, "Test", "bad_opcode");
    assert!(!result.is_valid);
}

#[test]
fn test_wide_instruction() {
    // wide iload 255, return
    let code = vec![0xC4, 0x15, 0x00, 0xFF, 0xB1];
    let result = verify_method_code(&code, 1, 256, "Test", "wide_test");
    assert!(result.is_valid);
}

#[test]
fn test_tableswitch() {
    let mut code = vec![
        0xAA, // tableswitch
        0x00, 0x00, 0x00, // padding
        0x00, 0x00, 0x00, 0x0C, // default offset = 12
        0x00, 0x00, 0x00, 0x00, // low = 0
        0x00, 0x00, 0x00, 0x02, // high = 2
        0x00, 0x00, 0x00, 0x0A, // jump offset for 0 = 10
        0x00, 0x00, 0x00, 0x0B, // jump offset for 1 = 11
        0x00, 0x00, 0x00, 0x0C, // jump offset for 2 = 12
    ];
    code.push(0xB1); // return at end
    let result = verify_method_code(&code, 1, 0, "Test", "tableswitch");
    assert!(result.is_valid);
}

#[test]
fn unknown_opcode_messages_name_the_opcode_and_pc() {
    let code = vec![0xFE, 0xB1];
    let result = verify_method_code(&code, 0, 0, "Test", "bad_opcode");
    assert_eq!(
        result.errors,
        vec![
            "Unknown opcode 0xFE at PC 0".to_string(),
            "Invalid opcode 0xFE at branch target 0".to_string(),
        ]
    );
}

#[test]
fn goto_out_of_bounds_message() {
    let code = vec![0xA7, 0x03, 0xE8, 0xB1];
    let result = verify_method_code(&code, 0, 0, "Test", "bad_branch");
    assert_eq!(result.errors, vec!["Goto target 1000 at PC 0 out of bounds".to_string()]);
}

#[test]
fn conditional_branch_out_of_bounds_message() {
    let code = vec![0x99, 0x00, 0x10, 0xB1];
    let result = verify_method_code(&code, 0, 0, "Test", "bad_if");
    assert_eq!(
        result.errors,
        vec!["Branch target 16 at PC 0 out of bounds (code length 4)".to_string()]
    );
}

#[test]
fn instruction_past_end_is_reported() {
    // sipush needs two operand bytes
    let code = vec![0x11, 0x00];
    let result = verify_method_code(&code, 0, 0, "Test", "short");
    assert!(!result.is_valid);
    assert_eq!(
        result.errors,
        vec!["Instruction at PC 0 (opcode 0x11) extends past end of code".to_string()]
    );
}

#[test]
fn goto_w_out_of_bounds_message() {
    let code = vec![0xC8, 0x00, 0x00, 0x10, 0x00, 0xB1];
    let result = verify_method_code(&code, 0, 0, "Test", "far");
    assert_eq!(result.errors, vec!["Goto_w target 4096 at PC 0 out of bounds".to_string()]);
}

#[test]
fn backward_goto_before_start_is_out_of_bounds() {
    let code = vec![0x00, 0xA7, 0xFF, 0xF0];
    let result = verify_method_code(&code, 0, 0, "Test", "back");
    assert!(!result.is_valid);
    assert!(result.errors[0].starts_with("Goto target "));
}

#[test]
fn pop_on_an_empty_stack_is_an_underflow() {
    let code = vec![0x57, 0xB1];
    let result = verify_method_code(&code, 0, 0, "Test", "underflow");
    assert!(!result.is_valid);
    assert_eq!(result.errors, vec!["Stack underflow at PC 0 (opcode 0x57)".to_string()]);
}

#[test]
fn push_then_pop_keeps_the_depth_non_negative() {
    // iconst_0, pop, return
    let code = vec![0x03, 0x57, 0xB1];
    let result = verify_method_code(&code, 1, 0, "Test", "balanced");
    assert!(result.is_valid);
}

#[test]
fn switch_table_past_the_end_is_reported() {
    // tableswitch for 0..=2 with only one of its three offsets present
    let code = vec![
        0xAA, 0x00, 0x00, 0x00, // tableswitch, padding
        0x00, 0x00, 0x00, 0x0C, // default
        0x00, 0x00, 0x00, 0x00, // low = 0
        0x00, 0x00, 0x00, 0x02, // high = 2
        0x00, 0x00, 0x00, 0x0A, // offset for 0
    ];
    let result = verify_method_code(&code, 1, 0, "Test", "short_switch");
    assert!(!result.is_valid);
    assert!(result.errors.contains(&"Switch table at PC 0 extends past end of code".to_string()));
}
