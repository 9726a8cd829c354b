use rust_boy::gb_asm::{Asm, Instr};
use rust_boy::gb_std::inputs::{check_key, update_keys, PadButton};
use rust_boy::rust_boy::InputManager;

fn lines(code: &Vec<Instr>) -> Vec<String> {
    code.iter().map(|i| i.to_string()).collect()
}

#[test]
fn test_new_input_manager() {
    let inputs = InputManager::new();
    assert!(inputs.is_empty());
}

#[test]
fn test_on_press() {
    let mut inputs = InputManager::new();
    let mut a = Asm::new();
    a.ret();

    inputs.on_press(PadButton::Left, a.get_main_instrs());
    assert!(!inputs.is_empty());
}

#[test]
fn test_generate_code() {
    let mut inputs = InputManager::new();
    let mut a = Asm::new();
    a.ret();

    inputs.on_press(PadButton::A, a.get_main_instrs());
    let code = inputs.generate_code();

    // Should contain check_key generated code
    assert!(!code.is_empty());
}

#[test]
fn a_binding_is_wrapped_in_its_check() {
    let mut inputs = InputManager::new();
    let mut a = Asm::new();
    a.ret();
    let mut b = Asm::new();
    b.daa();
    inputs
        .on_press(PadButton::A, a.get_main_instrs())
        .on_press(PadButton::Left, b.get_main_instrs());
    assert_eq!(
        lines(&inputs.generate_code()),
        vec![
            "CheckA:",
            "ld wCurKeys, a",
            "and a, PADF_A",
            "jp z, CheckAEnd",
            "ret",
            "CheckAEnd:",
            "CheckLeft:",
            "ld wCurKeys, a",
            "and a, PADF_LEFT",
            "jp z, CheckLeftEnd",
            "daa",
            "CheckLeftEnd:",
        ]
    );
}

#[test]
fn buttons_have_their_names() {
    let all = [
        (PadButton::Down, "PADF_DOWN", "CheckDown"),
        (PadButton::Up, "PADF_UP", "CheckUp"),
        (PadButton::Left, "PADF_LEFT", "CheckLeft"),
        (PadButton::Right, "PADF_RIGHT", "CheckRight"),
        (PadButton::Start, "PADF_START", "CheckStart"),
        (PadButton::Select, "PADF_SELECT", "CheckSelect"),
        (PadButton::B, "PADF_B", "CheckB"),
        (PadButton::A, "PADF_A", "CheckA"),
    ];
    for (button, name, label) in all {
        assert_eq!(button.name(), name);
        assert_eq!(button.label(), label);
    }
}

#[test]
fn check_key_of_an_empty_action() {
    assert_eq!(
        lines(&check_key(PadButton::Start, Vec::new())),
        vec![
            "CheckStart:",
            "ld wCurKeys, a",
            "and a, PADF_START",
            "jp z, CheckStartEnd",
            "CheckStartEnd:",
        ]
    );
}

#[test]
fn update_keys_polls_both_halves() {
    let code = lines(&update_keys());
    assert_eq!(code.len(), 43);
    assert_eq!(code[0], "; Poll half the controller (buttons)");
    assert_eq!(code[1], "UpdateKeys:");
    assert_eq!(code[2], "ld a, P1F_GET_BTN");
    assert_eq!(code[3], "call .onenibble");
    assert_eq!(code[39], "or a, 240");
    assert_eq!(code[41], ".knowret:");
    assert_eq!(code[42], "ret");
}
