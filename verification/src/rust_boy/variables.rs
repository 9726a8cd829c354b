//! Variables in work memory.
//!
//! Each variable is given the next free address of work memory, `$C000` to
//! `$DFFF`. A variable that does not fit is refused.

use crate::gb_asm::{Asm, Chunk, Instr, InstrV, OperandV, Register};
use crate::text::{
    index_of_text, join2, join3, lemma_index_of_text, same_text, signed_decimal,
    signed_decimal_string,
};
use vstd::prelude::*;
use vstd::string::StringExecFns;

verus! {

/// The first address of work memory.
pub const WRAM_START: u16 = 0xC000;

/// The first address after work memory.
pub const WRAM_END: u16 = 0xE000;

/// Identifies a variable: variables are numbered from 0 in the order of
/// their creation.
#[derive(Debug, Clone, Copy, PartialEq, Eq, Hash, Structural)]
pub struct VarId(pub usize);

/// The type of a variable.
#[derive(Debug, Clone, Copy, PartialEq, Eq, Structural)]
pub enum VarType {
    /// One byte, unsigned.
    U8,
    /// Two bytes, unsigned.
    U16,
    /// One byte, signed.
    I8,
    /// Two bytes, signed.
    I16,
}

/// A handle to a variable, from which instructions that read and write it
/// are made.
#[derive(Debug)]
pub struct Var {
    name: String,
    var_type: VarType,
    id: VarId,
}

/// What the manager keeps of a variable.
#[derive(Debug)]
pub struct Variable {
    pub name: String,
    pub var_type: VarType,
    pub initial_value: i32,
    pub wram_address: u16,
    /// The section that the variable is declared in.
    pub section: String,
}

/// Creates variables and gives them their addresses.
#[derive(Debug)]
pub struct VariableManager {
    variables: Vec<Variable>,
    next_wram_addr: u16,
    sections: Vec<(String, Vec<VarId>)>,
}

impl VarType {
    /// The size in bytes.
    pub open spec fn bytes(self) -> u16 {
        match self {
            VarType::U8 => 1,
            VarType::I8 => 1,
            VarType::U16 => 2,
            VarType::I16 => 2,
        }
    }

    /// The directive that declares a variable of this type.
    pub open spec fn keyword(self) -> Seq<char> {
        match self {
            VarType::U8 => "db"@,
            VarType::I8 => "db"@,
            VarType::U16 => "dw"@,
            VarType::I16 => "dw"@,
        }
    }

    /// The size in bytes.
    pub fn size(&self) -> (r: u16)
        ensures
            r == self.bytes(),
    {
        match self {
            VarType::U8 => 1,
            VarType::I8 => 1,
            VarType::U16 => 2,
            VarType::I16 => 2,
        }
    }

    /// The directive that declares a variable of this type.
    pub fn directive(&self) -> (r: &'static str)
        ensures
            r@ == self.keyword(),
    {
        match self {
            VarType::U8 => "db",
            VarType::I8 => "db",
            VarType::U16 => "dw",
            VarType::I16 => "dw",
        }
    }
}

/// Loads the accumulator with a byte.
pub open spec fn load_byte(value: u8) -> InstrV {
    InstrV::Ld { dst: OperandV::Reg(Register::A), src: OperandV::Imm(value) }
}

/// Loads the accumulator with a negative number, written with its sign.
pub open spec fn load_negative(value: int) -> InstrV {
    InstrV::Ld { dst: OperandV::Reg(Register::A), src: OperandV::Label(signed_decimal(value)) }
}

/// Loads the accumulator with a byte that is read as signed: from 128 on it
/// is written as the negative number that it stands for.
pub open spec fn load_signed_byte(value: u8) -> InstrV {
    if value >= 128 {
        load_negative(value - 256)
    } else {
        load_byte(value)
    }
}

/// Stores the accumulator at a named address.
pub open spec fn store_at(name: Seq<char>) -> InstrV {
    InstrV::Ld { dst: OperandV::AddrDef(name), src: OperandV::Reg(Register::A) }
}

/// Loads the accumulator from a named address.
pub open spec fn load_from(name: Seq<char>) -> InstrV {
    InstrV::Ld { dst: OperandV::Reg(Register::A), src: OperandV::AddrDef(name) }
}

/// The instructions that set a variable to a value.
pub open spec fn set_code(name: Seq<char>, value: i8) -> Seq<InstrV> {
    seq![
        if value < 0 {
            load_negative(value as int)
        } else {
            load_byte(value as u8)
        },
        store_at(name),
    ]
}

/// The low byte of a number in two's complement.
pub open spec fn low_byte(n: int) -> u8 {
    (n % 256) as u8
}

/// The second byte of a number in two's complement.
pub open spec fn high_byte(n: int) -> u8 {
    ((n % 65536) / 256) as u8
}

/// The instructions that give a variable its initial value.
///
/// An unsigned byte is the low byte of the value. A signed byte is written
/// with its sign when the value is negative. A word is stored low byte
/// first, and the bytes of a signed word are written as signed bytes.
pub open spec fn init_code(name: Seq<char>, var_type: VarType, initial: int) -> Seq<InstrV> {
    match var_type {
        VarType::U8 => seq![load_byte(low_byte(initial)), store_at(name)],
        VarType::I8 => seq![
            if initial < 0 {
                load_negative(initial)
            } else {
                load_byte(low_byte(initial))
            },
            store_at(name),
        ],
        VarType::U16 => seq![
            load_byte(low_byte(initial)),
            store_at(name),
            load_byte(high_byte(initial)),
            store_at(name + "+1"@),
        ],
        VarType::I16 => seq![
            load_signed_byte(low_byte(initial)),
            store_at(name),
            load_signed_byte(high_byte(initial)),
            store_at(name + "+1"@),
        ],
    }
}

/// The initialisation of the first `k` variables, in the order of their
/// creation.
pub open spec fn init_all(vars: Seq<Variable>, k: int) -> Seq<InstrV>
    decreases k,
{
    if k <= 0 || k > vars.len() {
        Seq::<InstrV>::empty()
    } else {
        init_all(vars, k - 1) + init_code(
            vars[k - 1].name@,
            vars[k - 1].var_type,
            vars[k - 1].initial_value as int,
        )
    }
}

/// The line that declares a variable: its name, a colon and its directive.
pub open spec fn declaration(var: Variable) -> InstrV {
    InstrV::Raw { line: var.name@ + ": "@ + var.var_type.keyword() }
}

/// The declarations of the first `k` members of a section. A member that
/// names no variable contributes nothing.
pub open spec fn member_lines(vars: Seq<Variable>, ids: Seq<VarId>, k: int) -> Seq<InstrV>
    decreases k,
{
    if k <= 0 || k > ids.len() {
        Seq::<InstrV>::empty()
    } else if ids[k - 1].0 < vars.len() {
        member_lines(vars, ids, k - 1).push(declaration(vars[ids[k - 1].0 as int]))
    } else {
        member_lines(vars, ids, k - 1)
    }
}

/// The first `k` sections: each is its header in work memory and the
/// declarations of its members.
pub open spec fn sections_code(
    vars: Seq<Variable>,
    sections: Seq<(String, Vec<VarId>)>,
    k: int,
) -> Seq<InstrV>
    decreases k,
{
    if k <= 0 || k > sections.len() {
        Seq::<InstrV>::empty()
    } else {
        sections_code(vars, sections, k - 1).push(
            InstrV::Section { name: sections[k - 1].0@, mem_type: "WRAM0"@ },
        ) + member_lines(vars, sections[k - 1].1@, sections[k - 1].1@.len() as int)
    }
}

/// The sections as names and members.
pub open spec fn sections_view(sections: Seq<(String, Vec<VarId>)>) -> Seq<
    (Seq<char>, Seq<VarId>),
> {
    Seq::new(sections.len(), |i: int| (sections[i].0@, sections[i].1@))
}

/// The names of the sections.
pub open spec fn section_names(sections: Seq<(Seq<char>, Seq<VarId>)>) -> Seq<Seq<char>> {
    Seq::new(sections.len(), |i: int| sections[i].0)
}

/// The sections after a variable joined the section `name`: it is the last
/// member of the first section of that name, or the only member of a new
/// last section.
pub open spec fn with_member(
    sections: Seq<(Seq<char>, Seq<VarId>)>,
    name: Seq<char>,
    id: VarId,
) -> Seq<(Seq<char>, Seq<VarId>)> {
    let i = index_of_text(section_names(sections), name);
    if 0 <= i < sections.len() {
        sections.update(i, (name, sections[i].1.push(id)))
    } else {
        sections.push((name, seq![id]))
    }
}

/// The sections after the variables numbered `first` to `first + k - 1`
/// joined the section `name`, one after the other.
pub open spec fn with_members(
    sections: Seq<(Seq<char>, Seq<VarId>)>,
    name: Seq<char>,
    first: int,
    k: int,
) -> Seq<(Seq<char>, Seq<VarId>)>
    decreases k,
{
    if k <= 0 {
        sections
    } else {
        with_member(
            with_members(sections, name, first, k - 1),
            name,
            VarId((first + k - 1) as usize),
        )
    }
}

impl Clone for Var {
    fn clone(&self) -> (r: Self)
        ensures
            r == *self,
    {
        Var { name: self.name.clone(), var_type: self.var_type, id: self.id }
    }
}

impl Var {
    /// The variable's label.
    pub closed spec fn label(&self) -> Seq<char> {
        self.name@
    }

    /// The variable's type.
    pub closed spec fn kind(&self) -> VarType {
        self.var_type
    }

    /// The variable's identifier.
    pub closed spec fn handle(&self) -> VarId {
        self.id
    }

    /// Sets the variable to a value.
    pub fn set(&self, value: i8) -> (r: Vec<Instr>)
        ensures
            r.deep_view() == set_code(self.label(), value),
    {
        let mut a = Asm::new();
        if value < 0 {
            let text = signed_decimal_string(value as i32);
            a.ld_a_label(text.as_str());
        } else {
            a.ld_a(value as u8);
        }
        a.ld_addr_def_a(self.name.as_str());
        a.get_main_instrs()
    }

    /// Reads the variable into the accumulator.
    pub fn get(&self) -> (r: Vec<Instr>)
        ensures
            r.deep_view() == seq![load_from(self.label())],
    {
        let mut a = Asm::new();
        a.ld_a_addr_def(self.name.as_str());
        a.get_main_instrs()
    }

    /// The variable's label.
    pub fn name(&self) -> (r: &str)
        ensures
            r@ == self.label(),
    {
        self.name.as_str()
    }

    /// The variable's identifier.
    pub fn id(&self) -> (r: VarId)
        ensures
            r == self.handle(),
    {
        self.id
    }
}

/// The low byte of a number in two's complement.
fn low_byte_of(n: i32) -> (r: u8)
    ensures
        r == low_byte(n as int),
{
    if n >= 0 {
        (n % 256) as u8
    } else {
        let k: i64 = -(n as i64);
        let m: i64 = k % 256;
        if m == 0 {
            0
        } else {
            (256 - m) as u8
        }
    }
}

/// The second byte of a number in two's complement.
fn high_byte_of(n: i32) -> (r: u8)
    ensures
        r == high_byte(n as int),
{
    if n >= 0 {
        ((n % 65536) / 256) as u8
    } else {
        let k: i64 = -(n as i64);
        let m: i64 = k % 65536;
        if m == 0 {
            0
        } else {
            ((65536 - m) / 256) as u8
        }
    }
}

/// Loads the accumulator with a byte that is read as signed.
fn emit_signed_byte(a: &mut Asm, value: u8)
    ensures
        final(a)@ == old(a)@.push(load_signed_byte(value)),
{
    if value >= 128 {
        let text = signed_decimal_string(value as i32 - 256);
        a.ld_a_label(text.as_str());
    } else {
        a.ld_a(value);
    }
}

/// Appends the instructions that give a variable its initial value.
fn emit_init(a: &mut Asm, var: &Variable)
    requires
        old(a)@.current == Chunk::Main,
    ensures
        final(a)@.current == Chunk::Main,
        final(a)@.content(Chunk::Main) == old(a)@.content(Chunk::Main) + init_code(
            var.name@,
            var.var_type,
            var.initial_value as int,
        ),
{
    let ghost before = a@.content(Chunk::Main);
    match var.var_type {
        VarType::U8 => {
            a.ld_a(low_byte_of(var.initial_value));
            a.ld_addr_def_a(var.name.as_str());
        },
        VarType::I8 => {
            if var.initial_value < 0 {
                let text = signed_decimal_string(var.initial_value);
                a.ld_a_label(text.as_str());
            } else {
                a.ld_a(low_byte_of(var.initial_value));
            }
            a.ld_addr_def_a(var.name.as_str());
        },
        VarType::U16 => {
            let second = join2(var.name.as_str(), "+1");
            a.ld_a(low_byte_of(var.initial_value));
            a.ld_addr_def_a(var.name.as_str());
            a.ld_a(high_byte_of(var.initial_value));
            a.ld_addr_def_a(second.as_str());
        },
        VarType::I16 => {
            let second = join2(var.name.as_str(), "+1");
            emit_signed_byte(a, low_byte_of(var.initial_value));
            a.ld_addr_def_a(var.name.as_str());
            emit_signed_byte(a, high_byte_of(var.initial_value));
            a.ld_addr_def_a(second.as_str());
        },
    }
}

impl VariableManager {
    /// The variables, in the order of their creation.
    pub closed spec fn vars(&self) -> Seq<Variable> {
        self.variables@
    }

    /// The sections, in the order in which they were first named, each with
    /// its members.
    pub closed spec fn sections(&self) -> Seq<(String, Vec<VarId>)> {
        self.sections@
    }

    /// The address that the next variable is given.
    pub closed spec fn next_addr(&self) -> u16 {
        self.next_wram_addr
    }

    /// What creating a variable does to the manager: when work memory has
    /// room for the type, the variable is added at the next address, with
    /// the next identifier, as the last member of its section; when it has
    /// not, nothing changes.
    pub open spec fn created(
        &self,
        before: &Self,
        r: Option<Var>,
        name: Seq<char>,
        var_type: VarType,
        initial: int,
        section: Seq<char>,
    ) -> bool {
        let count = before.vars().len() as int;
        if before.next_addr() + var_type.bytes() <= WRAM_END {
            &&& r is Some
            &&& r->0.label() == name
            &&& r->0.kind() == var_type
            &&& r->0.handle().0 == count
            &&& self.next_addr() == before.next_addr() + var_type.bytes()
            &&& self.vars().len() == count + 1
            &&& self.vars().take(count) == before.vars()
            &&& self.vars()[count].name@ == name
            &&& self.vars()[count].var_type == var_type
            &&& self.vars()[count].initial_value == initial
            &&& self.vars()[count].wram_address == before.next_addr()
            &&& self.vars()[count].section@ == section
            &&& sections_view(self.sections()) == with_member(
                sections_view(before.sections()),
                section,
                VarId(count as usize),
            )
        } else {
            r is None && *self == *before
        }
    }

    /// That `self` is `before` with one more unsigned byte for each item, a
    /// name and an initial value, created in the order of the items in the
    /// section `Variables`.
    pub open spec fn extended_by(&self, before: &Self, items: Seq<(Seq<char>, u8)>) -> bool {
        let count = before.vars().len() as int;
        &&& self.vars().len() == count + items.len()
        &&& self.vars().take(count) == before.vars()
        &&& self.next_addr() == before.next_addr() + items.len()
        &&& forall|i: int|
            0 <= i < items.len() ==> {
                let var = #[trigger] self.vars()[count + i];
                &&& var.name@ == items[i].0
                &&& var.var_type == VarType::U8
                &&& var.initial_value == items[i].1
                &&& var.wram_address == before.next_addr() + i
                &&& var.section@ == "Variables"@
            }
        &&& sections_view(self.sections()) == with_members(
            sections_view(before.sections()),
            "Variables"@,
            count,
            items.len() as int,
        )
    }

    /// A manager without variables; the first one is given `$C000`.
    pub fn new() -> (r: Self)
        ensures
            r.vars() == Seq::<Variable>::empty(),
            r.sections() == Seq::<(String, Vec<VarId>)>::empty(),
            r.next_addr() == WRAM_START,
    {
        Self { variables: Vec::new(), next_wram_addr: WRAM_START, sections: Vec::new() }
    }

    /// Creates an unsigned byte in the section `Variables`.
    pub fn create_u8(&mut self, name: &str, initial: u8) -> (r: Option<Var>)
        ensures
            final(self).created(old(self), r, name@, VarType::U8, initial as int, "Variables"@),
    {
        self.create_var(name, VarType::U8, initial as i32, "Variables")
    }

    /// Creates an unsigned word in the section `Variables`.
    pub fn create_u16(&mut self, name: &str, initial: u16) -> (r: Option<Var>)
        ensures
            final(self).created(old(self), r, name@, VarType::U16, initial as int, "Variables"@),
    {
        self.create_var(name, VarType::U16, initial as i32, "Variables")
    }

    /// Creates a signed byte in the section `Variables`.
    pub fn create_i8(&mut self, name: &str, initial: i8) -> (r: Option<Var>)
        ensures
            final(self).created(old(self), r, name@, VarType::I8, initial as int, "Variables"@),
    {
        self.create_var(name, VarType::I8, initial as i32, "Variables")
    }

    /// Creates a signed word in the section `Variables`.
    pub fn create_i16(&mut self, name: &str, initial: i16) -> (r: Option<Var>)
        ensures
            final(self).created(old(self), r, name@, VarType::I16, initial as int, "Variables"@),
    {
        self.create_var(name, VarType::I16, initial as i32, "Variables")
    }

    /// Creates a variable in the section `section`.
    pub fn create_in_section(
        &mut self,
        name: &str,
        var_type: VarType,
        initial: i32,
        section: &str,
    ) -> (r: Option<Var>)
        ensures
            final(self).created(old(self), r, name@, var_type, initial as int, section@),
    {
        self.create_var(name, var_type, initial, section)
    }

    /// Creates a variable. Returns `None`, and changes nothing, when work
    /// memory has no room for it.
    fn create_var(&mut self, name: &str, var_type: VarType, initial: i32, section: &str) -> (r:
        Option<Var>)
        ensures
            final(self).created(old(self), r, name@, var_type, initial as int, section@),
    {
        let addr: u16 = self.next_wram_addr;
        let size: u16 = var_type.size();
        if addr > WRAM_END || size > WRAM_END - addr {
            return None;
        }
        self.next_wram_addr = addr + size;
        let id = VarId(self.variables.len());
        let var = Variable {
            name: String::from_str(name),
            var_type,
            initial_value: initial,
            wram_address: addr,
            section: String::from_str(section),
        };
        self.variables.push(var);
        add_member(&mut self.sections, section, id);
        assert(self.vars().take(old(self).vars().len() as int) =~= old(self).vars());
        Some(Var { name: String::from_str(name), var_type, id })
    }

    /// The label of a variable.
    pub fn get_label(&self, id: VarId) -> (r: Option<&str>)
        ensures
            r is Some <==> id.0 < self.vars().len(),
            r is Some ==> r->0@ == self.vars()[id.0 as int].name@,
    {
        if id.0 < self.variables.len() {
            Some(self.variables[id.0].name.as_str())
        } else {
            None
        }
    }

    /// The address of a variable.
    pub fn get_address(&self, id: VarId) -> (r: Option<u16>)
        ensures
            r is Some <==> id.0 < self.vars().len(),
            r is Some ==> r->0 == self.vars()[id.0 as int].wram_address,
    {
        if id.0 < self.variables.len() {
            Some(self.variables[id.0].wram_address)
        } else {
            None
        }
    }

    /// The type of a variable.
    pub fn get_type(&self, id: VarId) -> (r: Option<VarType>)
        ensures
            r is Some <==> id.0 < self.vars().len(),
            r is Some ==> r->0 == self.vars()[id.0 as int].var_type,
    {
        if id.0 < self.variables.len() {
            Some(self.variables[id.0].var_type)
        } else {
            None
        }
    }

    /// The sections with the declarations of their variables.
    pub fn generate_sections(&self) -> (r: Vec<Instr>)
        ensures
            r.deep_view() == sections_code(
                self.vars(),
                self.sections(),
                self.sections().len() as int,
            ),
    {
        let ghost vars = self.vars();
        let ghost sections = self.sections();
        let mut a = Asm::new();
        let n: usize = self.sections.len();
        let mut i: usize = 0;
        while i < n
            invariant
                n == self.sections.len(),
                i <= n,
                vars == self.vars(),
                sections == self.sections(),
                a@.current == Chunk::Main,
                a@.content(Chunk::Main) == sections_code(vars, sections, i as int),
            decreases n - i,
        {
            let ghost done = sections_code(vars, sections, i as int).push(
                InstrV::Section { name: sections[i as int].0@, mem_type: "WRAM0"@ },
            );
            let ghost ids = sections[i as int].1@;
            a.section(self.sections[i].0.as_str(), "WRAM0");
            let m: usize = self.sections[i].1.len();
            let mut j: usize = 0;
            while j < m
                invariant
                    i < n,
                    n == self.sections.len(),
                    m == self.sections[i as int].1.len(),
                    j <= m,
                    vars == self.vars(),
                    sections == self.sections(),
                    ids == sections[i as int].1@,
                    a@.current == Chunk::Main,
                    a@.content(Chunk::Main) == done + member_lines(vars, ids, j as int),
                decreases m - j,
            {
                let id = self.sections[i].1[j];
                if id.0 < self.variables.len() {
                    let var = &self.variables[id.0];
                    let line = join3(var.name.as_str(), ": ", var.var_type.directive());
                    a.raw(line.as_str());
                }
                j = j + 1;
            }
            i = i + 1;
        }
        a.get_main_instrs()
    }

    /// The instructions that give every variable its initial value.
    pub fn generate_init_code(&self) -> (r: Vec<Instr>)
        ensures
            r.deep_view() == init_all(self.vars(), self.vars().len() as int),
    {
        let ghost vars = self.vars();
        let mut a = Asm::new();
        let n: usize = self.variables.len();
        let mut i: usize = 0;
        while i < n
            invariant
                n == self.variables.len(),
                i <= n,
                vars == self.vars(),
                a@.current == Chunk::Main,
                a@.content(Chunk::Main) == init_all(vars, i as int),
            decreases n - i,
        {
            emit_init(&mut a, &self.variables[i]);
            i = i + 1;
        }
        a.get_main_instrs()
    }

    /// Creates an unsigned byte for each item, a name and an initial value,
    /// in the section `Variables`. Returns `false`, and changes nothing,
    /// when work memory has no room for all of them.
    pub fn create_all_u8(&mut self, items: &Vec<(String, u8)>) -> (r: bool)
        ensures
            r == (old(self).next_addr() + items@.len() <= WRAM_END),
            r ==> final(self).extended_by(
                old(self),
                Seq::new(items@.len(), |i: int| (items@[i].0@, items@[i].1)),
            ),
            !r ==> *final(self) == *old(self),
    {
        let ghost all = Seq::new(items@.len(), |i: int| (items@[i].0@, items@[i].1));
        let n: usize = items.len();
        if self.next_wram_addr > WRAM_END || n > self.bytes_remaining() as usize {
            return false;
        }
        let ghost count = self.vars().len() as int;
        let mut i: usize = 0;
        assert(self.vars().take(count) =~= self.vars());
        while i < n
            invariant
                n == items@.len(),
                i <= n,
                all == Seq::new(items@.len(), |k: int| (items@[k].0@, items@[k].1)),
                count == old(self).vars().len(),
                old(self).next_addr() + n <= WRAM_END,
                self.extended_by(old(self), all.take(i as int)),
            decreases n - i,
        {
            let ghost mid = *self;
            self.create_u8(items[i].0.as_str(), items[i].1);
            proof {
                let now = all.take(i + 1);
                assert(now.drop_last() =~= all.take(i as int));
                assert(self.vars().take(count) =~= mid.vars().take(count));
                assert forall|k: int| 0 <= k < now.len() implies {
                    let var = #[trigger] self.vars()[count + k];
                    &&& var.name@ == now[k].0
                    &&& var.var_type == VarType::U8
                    &&& var.initial_value == now[k].1
                    &&& var.wram_address == old(self).next_addr() + k
                    &&& var.section@ == "Variables"@
                } by {
                    if k < i {
                        assert(self.vars()[count + k] == self.vars().take(count + i)[count + k]);
                        assert(mid.vars()[count + k] == self.vars()[count + k]);
                        assert(all.take(i as int)[k] == now[k]);
                    }
                }
            }
            i = i + 1;
        }
        assert(all.take(n as int) =~= all);
        true
    }

    /// The number of bytes of work memory that are left.
    pub fn bytes_remaining(&self) -> (r: u16)
        ensures
            r == if self.next_addr() <= WRAM_END {
                WRAM_END - self.next_addr()
            } else {
                0
            },
    {
        if self.next_wram_addr <= WRAM_END {
            WRAM_END - self.next_wram_addr
        } else {
            0
        }
    }

    /// Whether no variable was created.
    pub fn is_empty(&self) -> (r: bool)
        ensures
            r == (self.vars().len() == 0),
    {
        self.variables.is_empty()
    }
}

/// Adds a variable to the section `name`, which is created after the others
/// when it does not exist.
fn add_member(sections: &mut Vec<(String, Vec<VarId>)>, name: &str, id: VarId)
    ensures
        sections_view(final(sections)@) == with_member(sections_view(old(sections)@), name@, id),
{
    let ghost before = sections_view(sections@);
    let ghost names = section_names(before);
    let n: usize = sections.len();
    let mut i: usize = 0;
    while i < n
        invariant
            n == sections.len(),
            i <= n,
            *sections == *old(sections),
            before == sections_view(sections@),
            names == section_names(before),
            forall|j: int| 0 <= j < i ==> #[trigger] names[j] != name@,
        decreases n - i,
    {
        if same_text(sections[i].0.as_str(), name) {
            proof {
                lemma_index_of_text(names, name@, i as int);
            }
            sections[i].1.push(id);
            return ;
        }
        i = i + 1;
    }
    proof {
        lemma_index_of_text(names, name@, n as int);
    }
    let mut members: Vec<VarId> = Vec::new();
    members.push(id);
    sections.push((String::from_str(name), members));
}

} // verus!
