//! The directives of the line-oriented generator, and its output.

use crate::text::{decimal, decimal_string};
use crate::{GbGen, GbGenV, lemma_constants_map_prefix};
use vstd::prelude::*;
use vstd::string::StringExecFns;

verus! {

/// The first `k` lines with a newline between them.
pub open spec fn joined_lines(lines: Seq<Seq<char>>, k: int) -> Seq<char>
    decreases k,
{
    if k <= 0 || k > lines.len() {
        Seq::<char>::empty()
    } else if k == 1 {
        lines[0]
    } else {
        joined_lines(lines, k - 1) + "\n"@ + lines[k - 1]
    }
}

impl GbGen {
    /// Includes the hardware definitions file.
    pub fn include_hardware(&mut self)
        ensures
            final(self)@ == old(self)@.with_line("INCLUDE\"hardware.inc\""@),
    {
        let mut line = String::from_str("INCLUDE\"hardware.inc\"");
        self.push_line(line);
    }

    /// Opens a section.
    pub fn section(&mut self, name: &str, mem_sec: &str)
        ensures
            final(self)@ == old(self)@.with_line("SECTION \""@ + name@ + "\", "@ + mem_sec@),
    {
        let mut line = String::from_str("SECTION \"");
        line.append(name);
        line.append("\", ");
        line.append(mem_sec);
        self.push_line(line);
    }

    /// Writes a line as it is.
    pub fn raw(&mut self, line: &str)
        ensures
            final(self)@ == old(self)@.with_line(line@),
    {
        let mut line = String::from_str(line);
        self.push_line(line);
    }

    /// Writes a comment line.
    pub fn comment(&mut self, text: &str)
        ensures
            final(self)@ == old(self)@.with_line("; "@ + text@),
    {
        let mut line = String::from_str("; ");
        line.append(text);
        self.push_line(line);
    }

    /// Writes byte data.
    pub fn db(&mut self, values: &str)
        ensures
            final(self)@ == old(self)@.with_line("\tdb "@ + values@),
    {
        let mut line = String::from_str("\tdb ");
        line.append(values);
        self.push_line(line);
    }

    /// Writes word data.
    pub fn dw(&mut self, value: &str)
        ensures
            final(self)@ == old(self)@.with_line("\tdw "@ + value@),
    {
        let mut line = String::from_str("\tdw ");
        line.append(value);
        self.push_line(line);
    }

    /// Defines a constant: the definition is written as a line with the
    /// value in decimal, and the value is kept under the name.
    pub fn def(&mut self, label: &str, value: u16)
        ensures
            final(self)@ == (GbGenV {
                lines: old(self)@.lines.push("DEF "@ + label@ + " EQU "@ + decimal(value as nat)),
                constants: old(self)@.constants.insert(label@, value),
                labels: old(self)@.labels,
            }),
    {
        let value_str = decimal_string(value as u64);
        self.constants.push((String::from_str(label), value));
        proof {
            let n = old(self).constants@.len() as int;
            lemma_constants_map_prefix(old(self).constants@, self.constants@, n);
        }
        let mut line = String::from_str("DEF ");
        line.append(label);
        line.append(" EQU ");
        line.append(value_str.as_str());
        self.push_line(line);
    }

    /// Defines a label: its name is kept, and the definition is written as
    /// a line.
    pub fn label(&mut self, name: &str)
        ensures
            final(self)@ == (GbGenV {
                lines: old(self)@.lines.push(name@ + ":"@),
                constants: old(self)@.constants,
                labels: old(self)@.labels.push(name@),
            }),
    {
        self.labels.push(String::from_str(name));
        assert(self@.labels =~= old(self)@.labels.push(name@));
        let mut line = String::from_str(name);
        line.append(":");
        self.push_line(line);
    }

    /// The lines written so far, with a newline between them.
    pub fn output(&self) -> (r: String)
        ensures
            r@ == joined_lines(self@.lines, self@.lines.len() as int),
    {
        let ghost lines = self@.lines;
        let mut r = String::new();
        let n: usize = self.main_code.len();
        let mut i: usize = 0;
        while i < n
            invariant
                n == self.main_code.len(),
                i <= n,
                lines == self@.lines,
                r@ == joined_lines(lines, i as int),
            decreases n - i,
        {
            if i > 0 {
                r.append("\n");
            }
            r.append(self.main_code[i].as_str());
            i = i + 1;
        }
        r
    }
}

} // verus!
