//! Constants and variables as assembly text.

use crate::gb_asm::{Asm, Chunk, Instr, InstrV};
use crate::text::{
    decimal, decimal_string, index_of_text, join3, lemma_index_of_text, same_text,
};
use vstd::prelude::*;
use vstd::string::StringExecFns;

verus! {

/// A constant definition with a decimal value.
pub fn def_const(name: &str, value: u8) -> (r: Vec<Instr>)
    ensures
        r.deep_view() == seq![(InstrV::Def { label: name@, value: decimal(value as nat) })],
{
    let text = decimal_string(value as u64);
    let mut a = Asm::new();
    a.def(name, text.as_str());
    a.get_main_instrs()
}

/// The line that declares a variable: its name, a colon and its type.
pub open spec fn var_line(name: Seq<char>, vartype: Seq<char>) -> InstrV {
    InstrV::Raw { line: name + ": "@ + vartype }
}

/// A variable declaration.
pub fn def_var(name: &str, vartype: &str) -> (r: Vec<Instr>)
    ensures
        r.deep_view() == seq![var_line(name@, vartype@)],
{
    let line = join3(name, ": ", vartype);
    let mut a = Asm::new();
    a.raw(line.as_str());
    a.get_main_instrs()
}

/// A section of variables. No name is declared twice: declaring a name
/// again replaces its type and keeps its place.
pub struct VariableSection {
    pub name: String,
    pub memory: String,
    pub data: Vec<(String, String)>,
}

/// The declared names and types as text.
pub open spec fn data_view(data: Seq<(String, String)>) -> Seq<(Seq<char>, Seq<char>)> {
    Seq::new(data.len(), |i: int| (data[i].0@, data[i].1@))
}

/// The declared names.
pub open spec fn names_of(data: Seq<(Seq<char>, Seq<char>)>) -> Seq<Seq<char>> {
    Seq::new(data.len(), |i: int| data[i].0)
}

/// The declarations after `name` was declared with `vartype`.
pub open spec fn declared(
    data: Seq<(Seq<char>, Seq<char>)>,
    name: Seq<char>,
    vartype: Seq<char>,
) -> Seq<(Seq<char>, Seq<char>)> {
    let i = index_of_text(names_of(data), name);
    if 0 <= i < data.len() {
        data.update(i, (name, vartype))
    } else {
        data.push((name, vartype))
    }
}

/// The declaration lines of the first `k` variables.
pub open spec fn var_lines(data: Seq<(Seq<char>, Seq<char>)>, k: int) -> Seq<InstrV>
    decreases k,
{
    if k <= 0 || k > data.len() {
        Seq::<InstrV>::empty()
    } else {
        var_lines(data, k - 1).push(var_line(data[k - 1].0, data[k - 1].1))
    }
}

impl VariableSection {
    /// The declared names and types, in order.
    pub open spec fn entries(&self) -> Seq<(Seq<char>, Seq<char>)> {
        data_view(self.data@)
    }

    /// An empty section with the given name and memory type.
    pub fn new(name: &str, memory: &str) -> (r: Self)
        ensures
            r.name@ == name@,
            r.memory@ == memory@,
            r.entries() == Seq::<(Seq<char>, Seq<char>)>::empty(),
    {
        let r = VariableSection {
            name: String::from_str(name),
            memory: String::from_str(memory),
            data: Vec::new(),
        };
        r
    }

    /// Declares a variable. A name that is declared already gets the new
    /// type.
    pub fn add_data(&mut self, name: &str, vartype: &str)
        ensures
            final(self).name == old(self).name,
            final(self).memory == old(self).memory,
            final(self).entries() == declared(old(self).entries(), name@, vartype@),
    {
        let ghost before = self.entries();
        let ghost names = names_of(before);
        let n: usize = self.data.len();
        let mut i: usize = 0;
        while i < n
            invariant
                n == self.data.len(),
                i <= n,
                *self == *old(self),
                before == self.entries(),
                names == names_of(before),
                forall|j: int| 0 <= j < i ==> #[trigger] names[j] != name@,
            decreases n - i,
        {
            if same_text(self.data[i].0.as_str(), name) {
                proof {
                    lemma_index_of_text(names, name@, i as int);
                }
                self.data[i] = (String::from_str(name), String::from_str(vartype));
                return ;
            }
            i = i + 1;
        }
        proof {
            lemma_index_of_text(names, name@, n as int);
        }
        self.data.push((String::from_str(name), String::from_str(vartype)));
    }

    /// The section as instructions: its header, then one line for each
    /// variable in the order of declaration.
    pub fn generate(&self) -> (r: Vec<Instr>)
        ensures
            r.deep_view() == seq![(InstrV::Section { name: self.name@, mem_type: self.memory@ })]
                + var_lines(self.entries(), self.entries().len() as int),
    {
        let ghost head = seq![(InstrV::Section { name: self.name@, mem_type: self.memory@ })];
        let ghost entries = self.entries();
        let mut a = Asm::new();
        a.section(self.name.as_str(), self.memory.as_str());
        let n: usize = self.data.len();
        let mut i: usize = 0;
        while i < n
            invariant
                n == self.data.len(),
                i <= n,
                entries == self.entries(),
                a@.current == Chunk::Main,
                a@.content(Chunk::Main) == head + var_lines(entries, i as int),
            decreases n - i,
        {
            let line = join3(self.data[i].0.as_str(), ": ", self.data[i].1.as_str());
            a.raw(line.as_str());
            i = i + 1;
        }
        a.get_main_instrs()
    }
}

} // verus!
