//! The instruction model: one value per emitted line.
//!
//! Instructions hold their symbolic operands as `String`. Contracts speak of
//! them through `deep_view`, which replaces each `String` by its characters.

use crate::text::{decimal, decimal_string, hex4_lower, hex4_lower_string};
use vstd::prelude::*;
use vstd::string::StringExecFns;

verus! {

/// A CPU register, 8-bit or 16-bit.
#[derive(Clone, Copy, Debug, PartialEq, Eq, Structural)]
pub enum Register {
    A,
    B,
    C,
    D,
    E,
    H,
    L,
    SP,
    PC,
    AF,
    BC,
    DE,
    HL,
}

/// A flag test of a conditional jump, call or return.
#[derive(Clone, Copy, Debug, PartialEq, Eq, Structural)]
pub enum Condition {
    /// Zero flag set.
    Z,
    /// Zero flag clear.
    NZ,
    /// Carry flag set.
    C,
    /// Carry flag clear.
    NC,
}

/// An operand of an instruction.
#[derive(Debug)]
pub enum Operand {
    Reg(Register),
    Imm(u8),
    Imm16(u16),
    Addr(u16),
    AddrDef(String),
    AddrReg(Register),
    /// The address in a register, which is incremented afterwards.
    AddrRegInc(Register),
    Label(String),
}

/// Where a jump or call goes.
#[derive(Debug)]
pub enum JumpTarget {
    Label(String),
    Addr(u16),
}

/// One emitted line: an instruction, a directive, a label or a comment.
#[derive(Debug)]
pub enum Instr {
    Ld { dst: Operand, src: Operand },
    Ldh { dst: Operand, src: Operand },
    Add { dst: Operand, src: Operand },
    AdcA { operand: Operand },
    Adc { dst: Operand, src: Operand },
    Sub { dst: Operand, src: Operand },
    Inc { operand: Operand },
    Dec { operand: Operand },
    And { operand: Operand },
    Or { dst: Operand, src: Operand },
    Xor { dst: Operand, src: Operand },
    Cp { operand: Operand },
    Srl { operand: Operand },
    Swap { operand: Operand },
    Daa,
    Jp { target: JumpTarget },
    JpCond { condition: Condition, target: JumpTarget },
    Jr { target: JumpTarget },
    JrCond { condition: Condition, target: JumpTarget },
    Call { target: JumpTarget },
    Ret,
    RetCond { condition: Condition },
    Ds { num_bytes: String, starter_point: String },
    Include { file: String },
    Incbin { file: String, offset: Option<u32>, length: Option<u32> },
    Def { label: String, value: String },
    Section { name: String, mem_type: String },
    Label { name: String },
    Comment { text: String },
    Db { values: String },
    Dw { value: String },
    Raw { line: String },
}

/// The mathematical value of an [`Operand`].
pub enum OperandV {
    Reg(Register),
    Imm(u8),
    Imm16(u16),
    Addr(u16),
    AddrDef(Seq<char>),
    AddrReg(Register),
    AddrRegInc(Register),
    Label(Seq<char>),
}

/// The mathematical value of a [`JumpTarget`].
pub enum JumpTargetV {
    Label(Seq<char>),
    Addr(u16),
}

/// The mathematical value of an [`Instr`].
pub enum InstrV {
    Ld { dst: OperandV, src: OperandV },
    Ldh { dst: OperandV, src: OperandV },
    Add { dst: OperandV, src: OperandV },
    AdcA { operand: OperandV },
    Adc { dst: OperandV, src: OperandV },
    Sub { dst: OperandV, src: OperandV },
    Inc { operand: OperandV },
    Dec { operand: OperandV },
    And { operand: OperandV },
    Or { dst: OperandV, src: OperandV },
    Xor { dst: OperandV, src: OperandV },
    Cp { operand: OperandV },
    Srl { operand: OperandV },
    Swap { operand: OperandV },
    Daa,
    Jp { target: JumpTargetV },
    JpCond { condition: Condition, target: JumpTargetV },
    Jr { target: JumpTargetV },
    JrCond { condition: Condition, target: JumpTargetV },
    Call { target: JumpTargetV },
    Ret,
    RetCond { condition: Condition },
    Ds { num_bytes: Seq<char>, starter_point: Seq<char> },
    Include { file: Seq<char> },
    Incbin { file: Seq<char>, offset: Option<u32>, length: Option<u32> },
    Def { label: Seq<char>, value: Seq<char> },
    Section { name: Seq<char>, mem_type: Seq<char> },
    Label { name: Seq<char> },
    Comment { text: Seq<char> },
    Db { values: Seq<char> },
    Dw { value: Seq<char> },
    Raw { line: Seq<char> },
}

impl DeepView for Operand {
    type V = OperandV;

    open spec fn deep_view(&self) -> OperandV {
        match self {
            Operand::Reg(r) => OperandV::Reg(*r),
            Operand::Imm(v) => OperandV::Imm(*v),
            Operand::Imm16(v) => OperandV::Imm16(*v),
            Operand::Addr(a) => OperandV::Addr(*a),
            Operand::AddrDef(s) => OperandV::AddrDef(s@),
            Operand::AddrReg(r) => OperandV::AddrReg(*r),
            Operand::AddrRegInc(r) => OperandV::AddrRegInc(*r),
            Operand::Label(s) => OperandV::Label(s@),
        }
    }
}

impl DeepView for JumpTarget {
    type V = JumpTargetV;

    open spec fn deep_view(&self) -> JumpTargetV {
        match self {
            JumpTarget::Label(s) => JumpTargetV::Label(s@),
            JumpTarget::Addr(a) => JumpTargetV::Addr(*a),
        }
    }
}

impl DeepView for Instr {
    type V = InstrV;

    open spec fn deep_view(&self) -> InstrV {
        match self {
            Instr::Ld { dst, src } => InstrV::Ld { dst: dst.deep_view(), src: src.deep_view() },
            Instr::Ldh { dst, src } => InstrV::Ldh { dst: dst.deep_view(), src: src.deep_view() },
            Instr::Add { dst, src } => InstrV::Add { dst: dst.deep_view(), src: src.deep_view() },
            Instr::AdcA { operand } => InstrV::AdcA { operand: operand.deep_view() },
            Instr::Adc { dst, src } => InstrV::Adc { dst: dst.deep_view(), src: src.deep_view() },
            Instr::Sub { dst, src } => InstrV::Sub { dst: dst.deep_view(), src: src.deep_view() },
            Instr::Inc { operand } => InstrV::Inc { operand: operand.deep_view() },
            Instr::Dec { operand } => InstrV::Dec { operand: operand.deep_view() },
            Instr::And { operand } => InstrV::And { operand: operand.deep_view() },
            Instr::Or { dst, src } => InstrV::Or { dst: dst.deep_view(), src: src.deep_view() },
            Instr::Xor { dst, src } => InstrV::Xor { dst: dst.deep_view(), src: src.deep_view() },
            Instr::Cp { operand } => InstrV::Cp { operand: operand.deep_view() },
            Instr::Srl { operand } => InstrV::Srl { operand: operand.deep_view() },
            Instr::Swap { operand } => InstrV::Swap { operand: operand.deep_view() },
            Instr::Daa => InstrV::Daa,
            Instr::Jp { target } => InstrV::Jp { target: target.deep_view() },
            Instr::JpCond { condition, target } => InstrV::JpCond {
                condition: *condition,
                target: target.deep_view(),
            },
            Instr::Jr { target } => InstrV::Jr { target: target.deep_view() },
            Instr::JrCond { condition, target } => InstrV::JrCond {
                condition: *condition,
                target: target.deep_view(),
            },
            Instr::Call { target } => InstrV::Call { target: target.deep_view() },
            Instr::Ret => InstrV::Ret,
            Instr::RetCond { condition } => InstrV::RetCond { condition: *condition },
            Instr::Ds { num_bytes, starter_point } => InstrV::Ds {
                num_bytes: num_bytes@,
                starter_point: starter_point@,
            },
            Instr::Include { file } => InstrV::Include { file: file@ },
            Instr::Incbin { file, offset, length } => InstrV::Incbin {
                file: file@,
                offset: *offset,
                length: *length,
            },
            Instr::Def { label, value } => InstrV::Def { label: label@, value: value@ },
            Instr::Section { name, mem_type } => InstrV::Section {
                name: name@,
                mem_type: mem_type@,
            },
            Instr::Label { name } => InstrV::Label { name: name@ },
            Instr::Comment { text } => InstrV::Comment { text: text@ },
            Instr::Db { values } => InstrV::Db { values: values@ },
            Instr::Dw { value } => InstrV::Dw { value: value@ },
            Instr::Raw { line } => InstrV::Raw { line: line@ },
        }
    }
}

impl Register {
    /// The register's name in assembly text.
    pub open spec fn text(self) -> Seq<char> {
        match self {
            Register::A => "a"@,
            Register::B => "b"@,
            Register::C => "c"@,
            Register::D => "d"@,
            Register::E => "e"@,
            Register::H => "h"@,
            Register::L => "l"@,
            Register::SP => "sp"@,
            Register::PC => "pc"@,
            Register::AF => "af"@,
            Register::BC => "bc"@,
            Register::DE => "de"@,
            Register::HL => "hl"@,
        }
    }

    /// The register's name in assembly text.
    pub fn name(&self) -> (r: &'static str)
        ensures
            r@ == self.text(),
    {
        match self {
            Register::A => "a",
            Register::B => "b",
            Register::C => "c",
            Register::D => "d",
            Register::E => "e",
            Register::H => "h",
            Register::L => "l",
            Register::SP => "sp",
            Register::PC => "pc",
            Register::AF => "af",
            Register::BC => "bc",
            Register::DE => "de",
            Register::HL => "hl",
        }
    }

    /// The register as it is written in assembly text.
    pub fn to_string(&self) -> (r: String)
        ensures
            r@ == self.text(),
    {
        String::from_str(self.name())
    }
}

impl Condition {
    /// The condition's token in assembly text.
    pub open spec fn text(self) -> Seq<char> {
        match self {
            Condition::Z => "z"@,
            Condition::NZ => "nz"@,
            Condition::C => "c"@,
            Condition::NC => "nc"@,
        }
    }

    /// The condition that holds exactly when this one does not.
    pub open spec fn negation(self) -> Condition {
        match self {
            Condition::Z => Condition::NZ,
            Condition::NZ => Condition::Z,
            Condition::C => Condition::NC,
            Condition::NC => Condition::C,
        }
    }

    /// The condition's token in assembly text.
    pub fn name(&self) -> (r: &'static str)
        ensures
            r@ == self.text(),
    {
        match self {
            Condition::Z => "z",
            Condition::NZ => "nz",
            Condition::C => "c",
            Condition::NC => "nc",
        }
    }

    /// The condition as it is written in assembly text.
    pub fn to_string(&self) -> (r: String)
        ensures
            r@ == self.text(),
    {
        String::from_str(self.name())
    }

    /// The condition that holds exactly when this one does not.
    pub fn negated(&self) -> (r: Condition)
        ensures
            r == self.negation(),
    {
        match self {
            Condition::Z => Condition::NZ,
            Condition::NZ => Condition::Z,
            Condition::C => Condition::NC,
            Condition::NC => Condition::C,
        }
    }
}

impl OperandV {
    /// The operand as it is written in assembly text.
    pub open spec fn text(self) -> Seq<char> {
        match self {
            OperandV::Reg(r) => r.text(),
            OperandV::Imm(v) => decimal(v as nat),
            OperandV::Imm16(v) => decimal(v as nat),
            OperandV::Addr(a) => "[$"@ + hex4_lower(a as nat) + "]"@,
            OperandV::AddrDef(s) => "["@ + s + "]"@,
            OperandV::AddrReg(r) => "["@ + r.text() + "]"@,
            OperandV::AddrRegInc(r) => "["@ + r.text() + "i]"@,
            OperandV::Label(s) => s,
        }
    }
}

impl JumpTargetV {
    /// The target as it is written in assembly text.
    pub open spec fn text(self) -> Seq<char> {
        match self {
            JumpTargetV::Label(s) => s,
            JumpTargetV::Addr(a) => "$"@ + hex4_lower(a as nat),
        }
    }
}

/// The tail of an `INCBIN` line: nothing, an offset, or an offset and a
/// length. A length without an offset starts at offset 0.
pub open spec fn incbin_range_text(offset: Option<u32>, length: Option<u32>) -> Seq<char> {
    match (offset, length) {
        (Some(off), Some(len)) => ","@ + decimal(off as nat) + ","@ + decimal(len as nat),
        (Some(off), None) => ","@ + decimal(off as nat),
        (None, Some(len)) => ",0,"@ + decimal(len as nat),
        (None, None) => Seq::<char>::empty(),
    }
}

impl InstrV {
    /// The line as it is written in assembly text, without indentation.
    pub open spec fn text(self) -> Seq<char> {
        match self {
            InstrV::Ld { dst, src } => "ld "@ + dst.text() + ", "@ + src.text(),
            InstrV::Ldh { dst, src } => "ldh "@ + dst.text() + ", "@ + src.text(),
            InstrV::Add { dst, src } => "add "@ + dst.text() + ", "@ + src.text(),
            InstrV::AdcA { operand } => "adc "@ + operand.text(),
            InstrV::Adc { dst, src } => "adc "@ + dst.text() + ", "@ + src.text(),
            InstrV::Sub { dst, src } => "sub "@ + dst.text() + ", "@ + src.text(),
            InstrV::Inc { operand } => "inc "@ + operand.text(),
            InstrV::Dec { operand } => "dec "@ + operand.text(),
            InstrV::And { operand } => "and a, "@ + operand.text(),
            InstrV::Or { dst, src } => "or "@ + dst.text() + ", "@ + src.text(),
            InstrV::Xor { dst, src } => "xor "@ + dst.text() + ", "@ + src.text(),
            InstrV::Cp { operand } => "cp "@ + operand.text(),
            InstrV::Srl { operand } => "srl "@ + operand.text(),
            InstrV::Swap { operand } => "swap "@ + operand.text(),
            InstrV::Daa => "daa"@,
            InstrV::Jp { target } => "jp "@ + target.text(),
            InstrV::JpCond { condition, target } => "jp "@ + condition.text() + ", "@
                + target.text(),
            InstrV::Jr { target } => "jr "@ + target.text(),
            InstrV::JrCond { condition, target } => "jr "@ + condition.text() + ", "@
                + target.text(),
            InstrV::Call { target } => "call "@ + target.text(),
            InstrV::Ret => "ret"@,
            InstrV::RetCond { condition } => "ret "@ + condition.text(),
            InstrV::Ds { num_bytes, starter_point } => "ds "@ + num_bytes + ", "@ + starter_point,
            InstrV::Include { file } => "INCLUDE \""@ + file + "\""@,
            InstrV::Incbin { file, offset, length } => "INCBIN \""@ + file + "\""@
                + incbin_range_text(offset, length),
            InstrV::Def { label, value } => "DEF "@ + label + " EQU "@ + value,
            InstrV::Section { name, mem_type } => "SECTION \""@ + name + "\", "@ + mem_type,
            InstrV::Label { name } => name + ":"@,
            InstrV::Comment { text } => "; "@ + text,
            InstrV::Db { values } => "db "@ + values,
            InstrV::Dw { value } => "dw "@ + value,
            InstrV::Raw { line } => line,
        }
    }
}

impl Clone for Operand {
    fn clone(&self) -> (r: Self)
        ensures
            r == *self,
    {
        match self {
            Operand::Reg(r) => Operand::Reg(*r),
            Operand::Imm(v) => Operand::Imm(*v),
            Operand::Imm16(v) => Operand::Imm16(*v),
            Operand::Addr(a) => Operand::Addr(*a),
            Operand::AddrDef(s) => Operand::AddrDef(s.clone()),
            Operand::AddrReg(r) => Operand::AddrReg(*r),
            Operand::AddrRegInc(r) => Operand::AddrRegInc(*r),
            Operand::Label(s) => Operand::Label(s.clone()),
        }
    }
}

impl Clone for JumpTarget {
    fn clone(&self) -> (r: Self)
        ensures
            r == *self,
    {
        match self {
            JumpTarget::Label(s) => JumpTarget::Label(s.clone()),
            JumpTarget::Addr(a) => JumpTarget::Addr(*a),
        }
    }
}

impl Clone for Instr {
    fn clone(&self) -> (r: Self)
        ensures
            r == *self,
    {
        match self {
            Instr::Ld { dst, src } => Instr::Ld { dst: dst.clone(), src: src.clone() },
            Instr::Ldh { dst, src } => Instr::Ldh { dst: dst.clone(), src: src.clone() },
            Instr::Add { dst, src } => Instr::Add { dst: dst.clone(), src: src.clone() },
            Instr::AdcA { operand } => Instr::AdcA { operand: operand.clone() },
            Instr::Adc { dst, src } => Instr::Adc { dst: dst.clone(), src: src.clone() },
            Instr::Sub { dst, src } => Instr::Sub { dst: dst.clone(), src: src.clone() },
            Instr::Inc { operand } => Instr::Inc { operand: operand.clone() },
            Instr::Dec { operand } => Instr::Dec { operand: operand.clone() },
            Instr::And { operand } => Instr::And { operand: operand.clone() },
            Instr::Or { dst, src } => Instr::Or { dst: dst.clone(), src: src.clone() },
            Instr::Xor { dst, src } => Instr::Xor { dst: dst.clone(), src: src.clone() },
            Instr::Cp { operand } => Instr::Cp { operand: operand.clone() },
            Instr::Srl { operand } => Instr::Srl { operand: operand.clone() },
            Instr::Swap { operand } => Instr::Swap { operand: operand.clone() },
            Instr::Daa => Instr::Daa,
            Instr::Jp { target } => Instr::Jp { target: target.clone() },
            Instr::JpCond { condition, target } => Instr::JpCond {
                condition: *condition,
                target: target.clone(),
            },
            Instr::Jr { target } => Instr::Jr { target: target.clone() },
            Instr::JrCond { condition, target } => Instr::JrCond {
                condition: *condition,
                target: target.clone(),
            },
            Instr::Call { target } => Instr::Call { target: target.clone() },
            Instr::Ret => Instr::Ret,
            Instr::RetCond { condition } => Instr::RetCond { condition: *condition },
            Instr::Ds { num_bytes, starter_point } => Instr::Ds {
                num_bytes: num_bytes.clone(),
                starter_point: starter_point.clone(),
            },
            Instr::Include { file } => Instr::Include { file: file.clone() },
            Instr::Incbin { file, offset, length } => Instr::Incbin {
                file: file.clone(),
                offset: *offset,
                length: *length,
            },
            Instr::Def { label, value } => Instr::Def {
                label: label.clone(),
                value: value.clone(),
            },
            Instr::Section { name, mem_type } => Instr::Section {
                name: name.clone(),
                mem_type: mem_type.clone(),
            },
            Instr::Label { name } => Instr::Label { name: name.clone() },
            Instr::Comment { text } => Instr::Comment { text: text.clone() },
            Instr::Db { values } => Instr::Db { values: values.clone() },
            Instr::Dw { value } => Instr::Dw { value: value.clone() },
            Instr::Raw { line } => Instr::Raw { line: line.clone() },
        }
    }
}

impl Operand {
    /// The operand as it is written in assembly text.
    pub fn to_string(&self) -> (r: String)
        ensures
            r@ == self.deep_view().text(),
    {
        match self {
            Operand::Reg(reg) => reg.to_string(),
            Operand::Imm(v) => decimal_string(*v as u64),
            Operand::Imm16(v) => decimal_string(*v as u64),
            Operand::Addr(a) => {
                let mut r = String::from_str("[$");
                let digits = hex4_lower_string(*a);
                r.append(digits.as_str());
                r.append("]");
                r
            },
            Operand::AddrDef(s) => {
                let mut r = String::from_str("[");
                r.append(s.as_str());
                r.append("]");
                r
            },
            Operand::AddrReg(reg) => {
                let mut r = String::from_str("[");
                r.append(reg.name());
                r.append("]");
                r
            },
            Operand::AddrRegInc(reg) => {
                let mut r = String::from_str("[");
                r.append(reg.name());
                r.append("i]");
                r
            },
            Operand::Label(s) => s.clone(),
        }
    }
}

impl JumpTarget {
    /// The target as it is written in assembly text.
    pub fn to_string(&self) -> (r: String)
        ensures
            r@ == self.deep_view().text(),
    {
        match self {
            JumpTarget::Label(s) => s.clone(),
            JumpTarget::Addr(a) => {
                let mut r = String::from_str("$");
                let digits = hex4_lower_string(*a);
                r.append(digits.as_str());
                r
            },
        }
    }
}

/// A mnemonic followed by one operand.
fn unary_text(mnemonic: &str, operand: &Operand) -> (r: String)
    ensures
        r@ == mnemonic@ + operand.deep_view().text(),
{
    let mut r = String::from_str(mnemonic);
    let o = operand.to_string();
    r.append(o.as_str());
    r
}

/// A mnemonic followed by two operands with a comma between them.
fn binary_text(mnemonic: &str, dst: &Operand, src: &Operand) -> (r: String)
    ensures
        r@ == mnemonic@ + dst.deep_view().text() + ", "@ + src.deep_view().text(),
{
    let mut r = String::from_str(mnemonic);
    let d = dst.to_string();
    let s = src.to_string();
    r.append(d.as_str());
    r.append(", ");
    r.append(s.as_str());
    r
}

/// A jump mnemonic followed by its target.
fn jump_text(mnemonic: &str, target: &JumpTarget) -> (r: String)
    ensures
        r@ == mnemonic@ + target.deep_view().text(),
{
    let mut r = String::from_str(mnemonic);
    let t = target.to_string();
    r.append(t.as_str());
    r
}

/// A jump mnemonic followed by a condition, a comma and the target.
fn conditional_jump_text(mnemonic: &str, condition: Condition, target: &JumpTarget) -> (r: String)
    ensures
        r@ == mnemonic@ + condition.text() + ", "@ + target.deep_view().text(),
{
    let mut r = String::from_str(mnemonic);
    let t = target.to_string();
    r.append(condition.name());
    r.append(", ");
    r.append(t.as_str());
    r
}

/// A directive's keyword, its first argument, a separator and its second.
fn directive_text(keyword: &str, first: &str, separator: &str, second: &str) -> (r: String)
    ensures
        r@ == keyword@ + first@ + separator@ + second@,
{
    let mut r = String::from_str(keyword);
    r.append(first);
    r.append(separator);
    r.append(second);
    r
}

/// The tail of an `INCBIN` line.
fn incbin_range_string(offset: Option<u32>, length: Option<u32>) -> (r: String)
    ensures
        r@ == incbin_range_text(offset, length),
{
    match (offset, length) {
        (Some(off), Some(len)) => {
            let mut r = String::from_str(",");
            let o = decimal_string(off as u64);
            let l = decimal_string(len as u64);
            r.append(o.as_str());
            r.append(",");
            r.append(l.as_str());
            r
        },
        (Some(off), None) => {
            let mut r = String::from_str(",");
            let o = decimal_string(off as u64);
            r.append(o.as_str());
            r
        },
        (None, Some(len)) => {
            let mut r = String::from_str(",0,");
            let l = decimal_string(len as u64);
            r.append(l.as_str());
            r
        },
        (None, None) => String::new(),
    }
}

impl Instr {
    /// The line as it is written in assembly text, without indentation.
    pub fn to_string(&self) -> (r: String)
        ensures
            r@ == self.deep_view().text(),
    {
        match self {
            Instr::Ld { dst, src } => binary_text("ld ", dst, src),
            Instr::Ldh { dst, src } => binary_text("ldh ", dst, src),
            Instr::Add { dst, src } => binary_text("add ", dst, src),
            Instr::AdcA { operand } => unary_text("adc ", operand),
            Instr::Adc { dst, src } => binary_text("adc ", dst, src),
            Instr::Sub { dst, src } => binary_text("sub ", dst, src),
            Instr::Inc { operand } => unary_text("inc ", operand),
            Instr::Dec { operand } => unary_text("dec ", operand),
            Instr::And { operand } => unary_text("and a, ", operand),
            Instr::Or { dst, src } => binary_text("or ", dst, src),
            Instr::Xor { dst, src } => binary_text("xor ", dst, src),
            Instr::Cp { operand } => unary_text("cp ", operand),
            Instr::Srl { operand } => unary_text("srl ", operand),
            Instr::Swap { operand } => unary_text("swap ", operand),
            Instr::Daa => String::from_str("daa"),
            Instr::Jp { target } => jump_text("jp ", target),
            Instr::JpCond { condition, target } => conditional_jump_text("jp ", *condition, target),
            Instr::Jr { target } => jump_text("jr ", target),
            Instr::JrCond { condition, target } => conditional_jump_text("jr ", *condition, target),
            Instr::Call { target } => jump_text("call ", target),
            Instr::Ret => String::from_str("ret"),
            Instr::RetCond { condition } => {
                let mut r = String::from_str("ret ");
                r.append(condition.name());
                r
            },
            Instr::Ds { num_bytes, starter_point } => directive_text(
                "ds ",
                num_bytes.as_str(),
                ", ",
                starter_point.as_str(),
            ),
            Instr::Include { file } => {
                let mut r = String::from_str("INCLUDE \"");
                r.append(file.as_str());
                r.append("\"");
                r
            },
            Instr::Incbin { file, offset, length } => {
                let mut r = String::from_str("INCBIN \"");
                let range = incbin_range_string(*offset, *length);
                r.append(file.as_str());
                r.append("\"");
                r.append(range.as_str());
                r
            },
            Instr::Def { label, value } => directive_text(
                "DEF ",
                label.as_str(),
                " EQU ",
                value.as_str(),
            ),
            Instr::Section { name, mem_type } => directive_text(
                "SECTION \"",
                name.as_str(),
                "\", ",
                mem_type.as_str(),
            ),
            Instr::Label { name } => {
                let mut r = name.clone();
                r.append(":");
                r
            },
            Instr::Comment { text } => {
                let mut r = String::from_str("; ");
                r.append(text.as_str());
                r
            },
            Instr::Db { values } => {
                let mut r = String::from_str("db ");
                r.append(values.as_str());
                r
            },
            Instr::Dw { value } => {
                let mut r = String::from_str("dw ");
                r.append(value.as_str());
                r
            },
            Instr::Raw { line } => line.clone(),
        }
    }
}

/// A copy of a list of instructions.
pub fn clone_instrs(instrs: &Vec<Instr>) -> (r: Vec<Instr>)
    ensures
        r.deep_view() == instrs.deep_view(),
        r@ == instrs@,
{
    instrs.clone()
}

} // verus!
