//! The instructions of the line-oriented generator.

use crate::text::{decimal, decimal_string};
use crate::GbGen;
use vstd::prelude::*;
use vstd::string::StringExecFns;

verus! {

impl GbGen {
    /// Reserves space: `ds num_bytes, starter_point`.
    pub fn ds(&mut self, num_bytes: &str, starter_point: &str)
        ensures
            final(self)@ == old(self)@.with_line("ds "@ + num_bytes@ + ", "@ + starter_point@),
    {
        let mut line = String::from_str("ds ");
        line.append(num_bytes);
        line.append(", ");
        line.append(starter_point);
        self.push_line(line);
    }

    /// Compares the accumulator with a byte.
    pub fn cp(&mut self, value: u8)
        ensures
            final(self)@ == old(self)@.with_line("cp "@ + decimal(value as nat)),
    {
        let value_text = decimal_string(value as u64);
        let mut line = String::from_str("cp ");
        line.append(value_text.as_str());
        self.push_line(line);
    }

    /// Calls the routine at a label.
    pub fn call(&mut self, label: &str)
        ensures
            final(self)@ == old(self)@.with_line("call "@ + label@),
    {
        let mut line = String::from_str("call ");
        line.append(label);
        self.push_line(line);
    }

    /// Decrements a register.
    pub fn dec(&mut self, register: &str)
        ensures
            final(self)@ == old(self)@.with_line("dec "@ + register@),
    {
        let mut line = String::from_str("dec ");
        line.append(register);
        self.push_line(line);
    }

    /// Increments a register.
    pub fn inc(&mut self, register: &str)
        ensures
            final(self)@ == old(self)@.with_line("inc "@ + register@),
    {
        let mut line = String::from_str("inc ");
        line.append(register);
        self.push_line(line);
    }

    /// Loads a byte into `a`.
    pub fn ld_a(&mut self, value: u8)
        ensures
            final(self)@ == old(self)@.with_line("ld a, "@ + decimal(value as nat)),
    {
        let value_text = decimal_string(value as u64);
        let mut line = String::from_str("ld a, ");
        line.append(value_text.as_str());
        self.push_line(line);
    }

    /// Loads a byte into `b`.
    pub fn ld_b(&mut self, value: u8)
        ensures
            final(self)@ == old(self)@.with_line("ld b, "@ + decimal(value as nat)),
    {
        let value_text = decimal_string(value as u64);
        let mut line = String::from_str("ld b, ");
        line.append(value_text.as_str());
        self.push_line(line);
    }

    /// Loads a byte into `c`.
    pub fn ld_c(&mut self, value: u8)
        ensures
            final(self)@ == old(self)@.with_line("ld c, "@ + decimal(value as nat)),
    {
        let value_text = decimal_string(value as u64);
        let mut line = String::from_str("ld c, ");
        line.append(value_text.as_str());
        self.push_line(line);
    }

    /// Loads a byte into `d`.
    pub fn ld_d(&mut self, value: u8)
        ensures
            final(self)@ == old(self)@.with_line("ld d, "@ + decimal(value as nat)),
    {
        let value_text = decimal_string(value as u64);
        let mut line = String::from_str("ld d, ");
        line.append(value_text.as_str());
        self.push_line(line);
    }

    /// Loads a byte into `e`.
    pub fn ld_e(&mut self, value: u8)
        ensures
            final(self)@ == old(self)@.with_line("ld e, "@ + decimal(value as nat)),
    {
        let value_text = decimal_string(value as u64);
        let mut line = String::from_str("ld e, ");
        line.append(value_text.as_str());
        self.push_line(line);
    }

    /// Loads a byte into `h`.
    pub fn ld_h(&mut self, value: u8)
        ensures
            final(self)@ == old(self)@.with_line("ld h, "@ + decimal(value as nat)),
    {
        let value_text = decimal_string(value as u64);
        let mut line = String::from_str("ld h, ");
        line.append(value_text.as_str());
        self.push_line(line);
    }

    /// Loads a byte into `l`.
    pub fn ld_l(&mut self, value: u8)
        ensures
            final(self)@ == old(self)@.with_line("ld l, "@ + decimal(value as nat)),
    {
        let value_text = decimal_string(value as u64);
        let mut line = String::from_str("ld l, ");
        line.append(value_text.as_str());
        self.push_line(line);
    }

    /// Loads a word into `bc`.
    pub fn ld_bc(&mut self, value: u16)
        ensures
            final(self)@ == old(self)@.with_line("ld bc, "@ + decimal(value as nat)),
    {
        let value_text = decimal_string(value as u64);
        let mut line = String::from_str("ld bc, ");
        line.append(value_text.as_str());
        self.push_line(line);
    }

    /// Loads a word into `de`.
    pub fn ld_de(&mut self, value: u16)
        ensures
            final(self)@ == old(self)@.with_line("ld de, "@ + decimal(value as nat)),
    {
        let value_text = decimal_string(value as u64);
        let mut line = String::from_str("ld de, ");
        line.append(value_text.as_str());
        self.push_line(line);
    }

    /// Loads a word into `hl`.
    pub fn ld_hl(&mut self, value: u16)
        ensures
            final(self)@ == old(self)@.with_line("ld hl, "@ + decimal(value as nat)),
    {
        let value_text = decimal_string(value as u64);
        let mut line = String::from_str("ld hl, ");
        line.append(value_text.as_str());
        self.push_line(line);
    }

    /// Stores `a` at an address.
    pub fn ld_addr_str_a(&mut self, address: &str)
        ensures
            final(self)@ == old(self)@.with_line("ld "@ + address@ + ", a"@),
    {
        let mut line = String::from_str("ld ");
        line.append(address);
        line.append(", a");
        self.push_line(line);
    }

    /// Loads a symbolic value into `a`.
    pub fn ld_a_str(&mut self, value: &str)
        ensures
            final(self)@ == old(self)@.with_line("ld a, "@ + value@),
    {
        let mut line = String::from_str("ld a, ");
        line.append(value);
        self.push_line(line);
    }

    /// Loads a symbolic value into `bc`.
    pub fn ld_bc_str(&mut self, value: &str)
        ensures
            final(self)@ == old(self)@.with_line("ld bc, "@ + value@),
    {
        let mut line = String::from_str("ld bc, ");
        line.append(value);
        self.push_line(line);
    }

    /// Loads a symbolic value into `de`.
    pub fn ld_de_str(&mut self, value: &str)
        ensures
            final(self)@ == old(self)@.with_line("ld de, "@ + value@),
    {
        let mut line = String::from_str("ld de, ");
        line.append(value);
        self.push_line(line);
    }

    /// Loads a symbolic value into `hl`.
    pub fn ld_hl_str(&mut self, value: &str)
        ensures
            final(self)@ == old(self)@.with_line("ld hl, "@ + value@),
    {
        let mut line = String::from_str("ld hl, ");
        line.append(value);
        self.push_line(line);
    }

    /// Stores a value at the address in `hl` and increments `hl`.
    pub fn ld_hl_i_str(&mut self, value: &str)
        ensures
            final(self)@ == old(self)@.with_line("ld [hli], "@ + value@),
    {
        let mut line = String::from_str("ld [hli], ");
        line.append(value);
        self.push_line(line);
    }

    /// Loads a symbolic value into `b`.
    pub fn ld_b_str(&mut self, value: &str)
        ensures
            final(self)@ == old(self)@.with_line("ld b, "@ + value@),
    {
        let mut line = String::from_str("ld b, ");
        line.append(value);
        self.push_line(line);
    }

    /// Loads a symbolic value into `c`.
    pub fn ld_c_str(&mut self, value: &str)
        ensures
            final(self)@ == old(self)@.with_line("ld c, "@ + value@),
    {
        let mut line = String::from_str("ld c, ");
        line.append(value);
        self.push_line(line);
    }

    /// Loads a symbolic value into `d`.
    pub fn ld_d_str(&mut self, value: &str)
        ensures
            final(self)@ == old(self)@.with_line("ld d, "@ + value@),
    {
        let mut line = String::from_str("ld d, ");
        line.append(value);
        self.push_line(line);
    }

    /// Loads a symbolic value into `e`.
    pub fn ld_e_str(&mut self, value: &str)
        ensures
            final(self)@ == old(self)@.with_line("ld e, "@ + value@),
    {
        let mut line = String::from_str("ld e, ");
        line.append(value);
        self.push_line(line);
    }

    /// Loads a symbolic value into `h`.
    pub fn ld_h_str(&mut self, value: &str)
        ensures
            final(self)@ == old(self)@.with_line("ld h, "@ + value@),
    {
        let mut line = String::from_str("ld h, ");
        line.append(value);
        self.push_line(line);
    }

    /// Loads a symbolic value into `l`.
    pub fn ld_l_str(&mut self, value: &str)
        ensures
            final(self)@ == old(self)@.with_line("ld l, "@ + value@),
    {
        let mut line = String::from_str("ld l, ");
        line.append(value);
        self.push_line(line);
    }

    /// Jumps to a label.
    pub fn jp(&mut self, label: &str)
        ensures
            final(self)@ == old(self)@.with_line("jp "@ + label@),
    {
        let mut line = String::from_str("jp ");
        line.append(label);
        self.push_line(line);
    }

    /// Jumps to a label when the condition holds.
    pub fn jp_cond(&mut self, condition: &str, label: &str)
        ensures
            final(self)@ == old(self)@.with_line("jp "@ + condition@ + ", "@ + label@),
    {
        let mut line = String::from_str("jp ");
        line.append(condition);
        line.append(", ");
        line.append(label);
        self.push_line(line);
    }

    /// Jumps to a nearby label when the condition holds.
    pub fn jr(&mut self, condition: &str, label: &str)
        ensures
            final(self)@ == old(self)@.with_line("jr "@ + condition@ + ", "@ + label@),
    {
        let mut line = String::from_str("jr ");
        line.append(condition);
        line.append(", ");
        line.append(label);
        self.push_line(line);
    }

    /// Jumps to a nearby label.
    pub fn jr_uncond(&mut self, label: &str)
        ensures
            final(self)@ == old(self)@.with_line("jr "@ + label@),
    {
        let mut line = String::from_str("jr ");
        line.append(label);
        self.push_line(line);
    }

    /// Returns from a routine.
    pub fn ret(&mut self)
        ensures
            final(self)@ == old(self)@.with_line("ret"@),
    {
        let mut line = String::from_str("ret");
        self.push_line(line);
    }

    /// Returns from a routine when the condition holds.
    pub fn ret_cond(&mut self, condition: &str)
        ensures
            final(self)@ == old(self)@.with_line("ret "@ + condition@),
    {
        let mut line = String::from_str("ret ");
        line.append(condition);
        self.push_line(line);
    }

    /// Adds `reg_b` to `reg_a`.
    pub fn add(&mut self, reg_a: &str, reg_b: &str)
        ensures
            final(self)@ == old(self)@.with_line("add "@ + reg_a@ + ", "@ + reg_b@),
    {
        let mut line = String::from_str("add ");
        line.append(reg_a);
        line.append(", ");
        line.append(reg_b);
        self.push_line(line);
    }

    /// Adds with carry.
    pub fn adc(&mut self, reg: &str)
        ensures
            final(self)@ == old(self)@.with_line("adc "@ + reg@),
    {
        let mut line = String::from_str("adc ");
        line.append(reg);
        self.push_line(line);
    }

    /// Subtracts `reg_b` from `reg_a`.
    pub fn sub(&mut self, reg_a: &str, reg_b: &str)
        ensures
            final(self)@ == old(self)@.with_line("sub "@ + reg_a@ + ", "@ + reg_b@),
    {
        let mut line = String::from_str("sub ");
        line.append(reg_a);
        line.append(", ");
        line.append(reg_b);
        self.push_line(line);
    }

    /// Ands the accumulator with a value.
    pub fn and(&mut self, value: &str)
        ensures
            final(self)@ == old(self)@.with_line("and a, "@ + value@),
    {
        let mut line = String::from_str("and a, ");
        line.append(value);
        self.push_line(line);
    }

    /// Ors `reg_b` into `reg_a`.
    pub fn or(&mut self, reg_a: &str, reg_b: &str)
        ensures
            final(self)@ == old(self)@.with_line("or "@ + reg_a@ + ", "@ + reg_b@),
    {
        let mut line = String::from_str("or ");
        line.append(reg_a);
        line.append(", ");
        line.append(reg_b);
        self.push_line(line);
    }

    /// Xors `reg_b` into `reg_a`.
    pub fn xor(&mut self, reg_a: &str, reg_b: &str)
        ensures
            final(self)@ == old(self)@.with_line("xor "@ + reg_a@ + ", "@ + reg_b@),
    {
        let mut line = String::from_str("xor ");
        line.append(reg_a);
        line.append(", ");
        line.append(reg_b);
        self.push_line(line);
    }

    /// Compares the accumulator with a symbolic value.
    pub fn cp_str(&mut self, value: &str)
        ensures
            final(self)@ == old(self)@.with_line("cp a, "@ + value@),
    {
        let mut line = String::from_str("cp a, ");
        line.append(value);
        self.push_line(line);
    }

    /// Shifts a register right.
    pub fn srl(&mut self, register: &str)
        ensures
            final(self)@ == old(self)@.with_line("srl "@ + register@),
    {
        let mut line = String::from_str("srl ");
        line.append(register);
        self.push_line(line);
    }

    /// Swaps the halves of a register.
    pub fn swap(&mut self, register: &str)
        ensures
            final(self)@ == old(self)@.with_line("swap "@ + register@),
    {
        let mut line = String::from_str("swap ");
        line.append(register);
        self.push_line(line);
    }

    /// Adjusts the accumulator to decimal.
    pub fn daa(&mut self)
        ensures
            final(self)@ == old(self)@.with_line("daa"@),
    {
        let mut line = String::from_str("daa");
        self.push_line(line);
    }

    /// Emits `ldh dest, src`.
    pub fn ldh(&mut self, dest: &str, src: &str)
        ensures
            final(self)@ == old(self)@.with_line("ldh "@ + dest@ + ", "@ + src@),
    {
        let mut line = String::from_str("ldh ");
        line.append(dest);
        line.append(", ");
        line.append(src);
        self.push_line(line);
    }

}

} // verus!
