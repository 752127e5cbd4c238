//! Boolean variables and literals, with the engine's literal encoding
//! `2 * var + (1 if negated)`.
use vstd::prelude::*;

verus! {

/// Largest variable index whose literals still fit in a non-negative `i32`.
pub const MAX_VAR: u32 = 0x3fff_ffff;

/// A Boolean decision variable, identified by a dense index.
#[derive(Clone, Copy, Debug, PartialEq, Eq, Structural)]
pub struct Var {
    pub index: u32,
}

/// A literal: a variable together with a polarity, held in its integer code.
/// Every `u32` is the code of exactly one literal.
#[derive(Clone, Copy, Debug, PartialEq, Eq, Structural)]
pub struct Lit {
    pub code: u32,
}

/// The integer code of the literal over variable `var` with the given polarity
/// (`true` is the positive literal).
pub open spec fn code_of(var: nat, polarity: bool) -> nat {
    2 * var + if polarity { 0nat } else { 1nat }
}

impl Var {
    pub fn new(index: u32) -> (r: Var)
        ensures
            r.index == index,
    {
        Var { index }
    }

    /// The positive literal of this variable.
    pub fn lit(&self) -> (r: Lit)
        requires
            self.index <= MAX_VAR,
        ensures
            r.var_spec() == self.index,
            r.polarity_spec(),
            r.code == code_of(self.index as nat, true),
    {
        Lit { code: 2 * self.index }
    }
}

impl Lit {
    /// Variable index of the literal.
    pub open spec fn var_spec(self) -> nat {
        self.code as nat / 2
    }

    /// Polarity of the literal: `true` for the positive literal.
    pub open spec fn polarity_spec(self) -> bool {
        self.code % 2 == 0
    }

    pub fn new(var: Var, polarity: bool) -> (r: Lit)
        requires
            var.index <= MAX_VAR,
        ensures
            r.var_spec() == var.index,
            r.polarity_spec() == polarity,
            r.code == code_of(var.index as nat, polarity),
    {
        let bit: u32 = if polarity { 0 } else { 1 };
        Lit { code: 2 * var.index + bit }
    }

    /// The literal whose code is `code`.
    pub fn from_code(code: u32) -> (r: Lit)
        ensures
            r.code == code,
    {
        Lit { code }
    }

    pub fn code(&self) -> (r: u32)
        ensures
            r == self.code,
    {
        self.code
    }

    pub fn var(&self) -> (r: Var)
        ensures
            r.index == self.var_spec(),
    {
        Var { index: self.code / 2 }
    }

    pub fn polarity(&self) -> (r: bool)
        ensures
            r == self.polarity_spec(),
    {
        self.code % 2 == 0
    }

    /// The literal of the same variable with the opposite polarity.
    pub fn negate(&self) -> (r: Lit)
        ensures
            r.var_spec() == self.var_spec(),
            r.polarity_spec() == !self.polarity_spec(),
            r.negate_spec() == *self,
    {
        if self.code % 2 == 0 {
            Lit { code: self.code + 1 }
        } else {
            Lit { code: self.code - 1 }
        }
    }

    /// The opposite literal, as a value.
    pub open spec fn negate_spec(self) -> Lit {
        Lit { code: if self.code % 2 == 0 { (self.code + 1) as u32 } else { (self.code - 1) as u32 } }
    }
}

/// A literal's code agrees with its variable and polarity.
pub proof fn lemma_code_decomposes(l: Lit)
    ensures
        l.code as nat == code_of(l.var_spec(), l.polarity_spec()),
{
}

} // verus!
