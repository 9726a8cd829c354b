//! Joypad input: the polling routine and per-button checks.

use crate::gb_asm::{Asm, Condition, Instr, InstrV, JumpTargetV, Operand, OperandV, Register};
use crate::text::join2;
use vstd::prelude::*;
use vstd::string::StringExecFns;

verus! {

/// A button of the joypad.
#[derive(Debug, Clone, Copy, PartialEq, Eq, Structural)]
pub enum PadButton {
    Down,
    Up,
    Left,
    Right,
    Start,
    Select,
    B,
    A,
}

impl PadButton {
    /// The name of the button's flag constant.
    pub open spec fn flag_name(self) -> Seq<char> {
        match self {
            PadButton::Down => "PADF_DOWN"@,
            PadButton::Up => "PADF_UP"@,
            PadButton::Left => "PADF_LEFT"@,
            PadButton::Right => "PADF_RIGHT"@,
            PadButton::Start => "PADF_START"@,
            PadButton::Select => "PADF_SELECT"@,
            PadButton::B => "PADF_B"@,
            PadButton::A => "PADF_A"@,
        }
    }

    /// The label of the button's check.
    pub open spec fn check_label(self) -> Seq<char> {
        match self {
            PadButton::Down => "CheckDown"@,
            PadButton::Up => "CheckUp"@,
            PadButton::Left => "CheckLeft"@,
            PadButton::Right => "CheckRight"@,
            PadButton::Start => "CheckStart"@,
            PadButton::Select => "CheckSelect"@,
            PadButton::B => "CheckB"@,
            PadButton::A => "CheckA"@,
        }
    }

    /// The name of the button's flag constant, such as `PADF_DOWN`.
    pub fn name(self) -> (r: &'static str)
        ensures
            r@ == self.flag_name(),
    {
        match self {
            PadButton::Down => "PADF_DOWN",
            PadButton::Up => "PADF_UP",
            PadButton::Left => "PADF_LEFT",
            PadButton::Right => "PADF_RIGHT",
            PadButton::Start => "PADF_START",
            PadButton::Select => "PADF_SELECT",
            PadButton::B => "PADF_B",
            PadButton::A => "PADF_A",
        }
    }

    /// The label of the button's check, such as `CheckDown`.
    pub fn label(self) -> (r: &'static str)
        ensures
            r@ == self.check_label(),
    {
        match self {
            PadButton::Down => "CheckDown",
            PadButton::Up => "CheckUp",
            PadButton::Left => "CheckLeft",
            PadButton::Right => "CheckRight",
            PadButton::Start => "CheckStart",
            PadButton::Select => "CheckSelect",
            PadButton::B => "CheckB",
            PadButton::A => "CheckA",
        }
    }
}

/// The routine that polls the joypad, with its helper `.onenibble`.
pub open spec fn update_keys_code() -> Seq<InstrV> {
    seq![
        InstrV::Comment { text: "Poll half the controller (buttons)"@ },
        InstrV::Label { name: "UpdateKeys"@ },
        InstrV::Ld { dst: OperandV::Reg(Register::A), src: OperandV::Label("P1F_GET_BTN"@) },
        InstrV::Call { target: JumpTargetV::Label(".onenibble"@) },
        InstrV::Ld { dst: OperandV::Reg(Register::B), src: OperandV::Reg(Register::A) },
        InstrV::Comment { text: "B7-4 = 1; B3-0 = unpressed buttons"@ },
        InstrV::Comment { text: "Poll the other half (D-pad)"@ },
        InstrV::Ld { dst: OperandV::Reg(Register::A), src: OperandV::Label("P1F_GET_DPAD"@) },
        InstrV::Call { target: JumpTargetV::Label(".onenibble"@) },
        InstrV::Swap { operand: OperandV::Reg(Register::A) },
        InstrV::Comment { text: "A7-4 = unpressed directions; A3-0 = 1"@ },
        InstrV::Xor { dst: OperandV::Reg(Register::A), src: OperandV::Reg(Register::B) },
        InstrV::Comment { text: "A = pressed buttons + directions"@ },
        InstrV::Ld { dst: OperandV::Reg(Register::B), src: OperandV::Reg(Register::A) },
        InstrV::Comment { text: "B = pressed buttons + directions"@ },
        InstrV::Comment { text: "Release the controller"@ },
        InstrV::Ld { dst: OperandV::Reg(Register::A), src: OperandV::Label("P1F_GET_NONE"@) },
        InstrV::Ldh { dst: OperandV::Label("rP1"@), src: OperandV::Reg(Register::A) },
        InstrV::Comment { text: "Combine with previous wCurKeys to make wNewKeys"@ },
        InstrV::Ld { dst: OperandV::Reg(Register::A), src: OperandV::Label("wCurKeys"@) },
        InstrV::Xor { dst: OperandV::Reg(Register::A), src: OperandV::Reg(Register::B) },
        InstrV::Comment { text: "A = keys that changed state"@ },
        InstrV::And { operand: OperandV::Reg(Register::B) },
        InstrV::Comment { text: "A = keys that changed to pressed"@ },
        InstrV::Ld { dst: OperandV::Label("wNewKeys"@), src: OperandV::Reg(Register::A) },
        InstrV::Ld { dst: OperandV::Reg(Register::A), src: OperandV::Reg(Register::B) },
        InstrV::Ld { dst: OperandV::Label("wCurKeys"@), src: OperandV::Reg(Register::A) },
        InstrV::Ret,
        InstrV::Comment { text: "Helper function to read one nibble from joypad"@ },
        InstrV::Label { name: ".onenibble"@ },
        InstrV::Ldh { dst: OperandV::Label("rP1"@), src: OperandV::Reg(Register::A) },
        InstrV::Comment { text: "Switch the key matrix"@ },
        InstrV::Call { target: JumpTargetV::Label(".knowret"@) },
        InstrV::Comment { text: "Burn 10 cycles calling a known ret"@ },
        InstrV::Ldh { dst: OperandV::Reg(Register::A), src: OperandV::Label("rP1"@) },
        InstrV::Comment { text: "Ignore value while waiting for key matrix to settle"@ },
        InstrV::Ldh { dst: OperandV::Reg(Register::A), src: OperandV::Label("rP1"@) },
        InstrV::Ldh { dst: OperandV::Reg(Register::A), src: OperandV::Label("rP1"@) },
        InstrV::Comment { text: "This read counts"@ },
        InstrV::Or { dst: OperandV::Reg(Register::A), src: OperandV::Imm(0xF0) },
        InstrV::Comment { text: "A7-4 = 1; A3-0 = unpressed keys"@ },
        InstrV::Label { name: ".knowret"@ },
        InstrV::Ret,
    ]
}

/// The routine `UpdateKeys`: it polls the joypad and keeps the pressed keys in
/// `wCurKeys` and the newly pressed ones in `wNewKeys`.
pub fn update_keys() -> (r: Vec<Instr>)
    ensures
        r.deep_view() == update_keys_code(),
{
    let mut a = Asm::new();
    a.comment("Poll half the controller (buttons)");
    a.label("UpdateKeys");
    a.ld(Operand::Reg(Register::A), Operand::Label(String::from_str("P1F_GET_BTN")));
    a.call(".onenibble");
    a.ld(Operand::Reg(Register::B), Operand::Reg(Register::A));
    a.comment("B7-4 = 1; B3-0 = unpressed buttons");
    a.comment("Poll the other half (D-pad)");
    a.ld(Operand::Reg(Register::A), Operand::Label(String::from_str("P1F_GET_DPAD")));
    a.call(".onenibble");
    a.swap(Operand::Reg(Register::A));
    a.comment("A7-4 = unpressed directions; A3-0 = 1");
    a.xor(Operand::Reg(Register::A), Operand::Reg(Register::B));
    a.comment("A = pressed buttons + directions");
    a.ld(Operand::Reg(Register::B), Operand::Reg(Register::A));
    a.comment("B = pressed buttons + directions");
    a.comment("Release the controller");
    a.ld(Operand::Reg(Register::A), Operand::Label(String::from_str("P1F_GET_NONE")));
    a.ldh(Operand::Label(String::from_str("rP1")), Operand::Reg(Register::A));
    a.comment("Combine with previous wCurKeys to make wNewKeys");
    a.ld(Operand::Reg(Register::A), Operand::Label(String::from_str("wCurKeys")));
    a.xor(Operand::Reg(Register::A), Operand::Reg(Register::B));
    a.comment("A = keys that changed state");
    a.and(Operand::Reg(Register::B));
    a.comment("A = keys that changed to pressed");
    a.ld(Operand::Label(String::from_str("wNewKeys")), Operand::Reg(Register::A));
    a.ld(Operand::Reg(Register::A), Operand::Reg(Register::B));
    a.ld(Operand::Label(String::from_str("wCurKeys")), Operand::Reg(Register::A));
    a.ret();
    a.comment("Helper function to read one nibble from joypad");
    a.label(".onenibble");
    a.ldh(Operand::Label(String::from_str("rP1")), Operand::Reg(Register::A));
    a.comment("Switch the key matrix");
    a.call(".knowret");
    a.comment("Burn 10 cycles calling a known ret");
    a.ldh(Operand::Reg(Register::A), Operand::Label(String::from_str("rP1")));
    a.comment("Ignore value while waiting for key matrix to settle");
    a.ldh(Operand::Reg(Register::A), Operand::Label(String::from_str("rP1")));
    a.ldh(Operand::Reg(Register::A), Operand::Label(String::from_str("rP1")));
    a.comment("This read counts");
    a.or(Operand::Reg(Register::A), Operand::Imm(0xF0));
    a.comment("A7-4 = 1; A3-0 = unpressed keys");
    a.label(".knowret");
    a.ret();
    a.get_main_instrs()
}

/// The check of one button around the instructions `pressed`: the check's
/// label, a test of the button's flag, a jump over `pressed` when the flag
/// is clear, `pressed`, and the check's end label.
pub open spec fn check_key_code(button: PadButton, pressed: Seq<InstrV>) -> Seq<InstrV> {
    let end = button.check_label() + "End"@;
    (seq![
        InstrV::Label { name: button.check_label() },
        InstrV::Ld { dst: OperandV::Label("wCurKeys"@), src: OperandV::Reg(Register::A) },
        InstrV::And { operand: OperandV::Label(button.flag_name()) },
        InstrV::JpCond { condition: Condition::Z, target: JumpTargetV::Label(end) },
    ] + pressed).push(InstrV::Label { name: end })
}

/// Runs `pressed_func` when `button` is held down.
pub fn check_key(button: PadButton, pressed_func: Vec<Instr>) -> (r: Vec<Instr>)
    ensures
        r.deep_view() == check_key_code(button, pressed_func.deep_view()),
{
    let end = join2(button.label(), "End");
    let mut a = Asm::new();
    a.label(button.label());
    a.ld(Operand::Label(String::from_str("wCurKeys")), Operand::Reg(Register::A));
    a.and(Operand::Label(String::from_str(button.name())));
    a.jp_cond(Condition::Z, end.as_str());
    a.emit_all(pressed_func);
    a.label(end.as_str());
    a.get_main_instrs()
}

} // verus!
