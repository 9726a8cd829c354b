//! Bindings of joypad buttons to actions.

use crate::gb_asm::{Instr, InstrV, clone_instrs};
use crate::gb_std::inputs::{PadButton, check_key, check_key_code};
use vstd::prelude::*;

verus! {

/// An action that runs while a button is held down.
pub struct InputBinding {
    pub button: PadButton,
    pub action: Vec<Instr>,
}

/// The bindings of a program, in the order in which they were made.
pub struct InputManager {
    bindings: Vec<InputBinding>,
}

/// The checks of the first `k` bindings, one after the other.
pub open spec fn bindings_code(bindings: Seq<InputBinding>, k: int) -> Seq<InstrV>
    decreases k,
{
    if k <= 0 || k > bindings.len() {
        Seq::<InstrV>::empty()
    } else {
        bindings_code(bindings, k - 1) + check_key_code(
            bindings[k - 1].button,
            bindings[k - 1].action.deep_view(),
        )
    }
}

impl View for InputManager {
    type V = Seq<InputBinding>;

    closed spec fn view(&self) -> Seq<InputBinding> {
        self.bindings@
    }
}

impl Default for InputManager {
    fn default() -> (r: Self)
        ensures
            r@ == Seq::<InputBinding>::empty(),
    {
        InputManager { bindings: Vec::new() }
    }
}

impl InputManager {
    /// A manager without bindings.
    pub fn new() -> (r: Self)
        ensures
            r@ == Seq::<InputBinding>::empty(),
    {
        InputManager { bindings: Vec::new() }
    }

    /// Binds `action` to `button`.
    pub fn on_press(&mut self, button: PadButton, action: Vec<Instr>) -> (ret: &mut Self)
        ensures
            ret@ == old(self)@.push((InputBinding { button, action })),
            *final(self) == *final(ret),
    {
        self.bindings.push(InputBinding { button, action });
        self
    }

    /// Whether no binding was made.
    pub fn is_empty(&self) -> (r: bool)
        ensures
            r == (self@.len() == 0),
    {
        self.bindings.is_empty()
    }

    /// The checks of all bindings, in the order in which they were made.
    /// The call of the routine that polls the joypad is not part of them.
    pub fn generate_code(&self) -> (r: Vec<Instr>)
        ensures
            r.deep_view() == bindings_code(self@, self@.len() as int),
    {
        let mut instrs: Vec<Instr> = Vec::new();
        let n: usize = self.bindings.len();
        let mut i: usize = 0;
        while i < n
            invariant
                n == self.bindings.len(),
                i <= n,
                instrs.deep_view() == bindings_code(self@, i as int),
            decreases n - i,
        {
            let binding = &self.bindings[i];
            let mut check = check_key(binding.button, clone_instrs(&binding.action));
            instrs.append(&mut check);
            i = i + 1;
        }
        instrs
    }
}

} // verus!
