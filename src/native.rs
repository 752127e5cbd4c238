//! Translation between the library's values and the native engine's integer
//! interface: literal and variable codes, polarity selectors, model values,
//! conflict probes, verdicts and the layout of exported clause tables.
use crate::lit::{Lit, Var};
use vstd::prelude::*;

verus! {

/// A broken contract on the engine's side: a value it returned lies outside
/// the range the interface allows.
#[derive(Clone, Copy, Debug, PartialEq, Eq, Structural)]
pub enum EngineFault {
    /// A model value other than `0` (true) or `1` (false).
    ModelValue { code: i32 },
    /// A negative variable index or count.
    NegativeIndex { code: i32 },
    /// A clause table whose length is not a whole number of (pointer, length) pairs.
    OddClauseTable { len: usize },
}

/// Selector that the engine's `set_polarity` expects: `0` prefers true,
/// `1` prefers false, `2` restores the default heuristic.
pub open spec fn polarity_selector_spec(pol: Option<bool>) -> i32 {
    match pol {
        Some(true) => 0,
        Some(false) => 1,
        None => 2,
    }
}

pub fn polarity_selector(pol: Option<bool>) -> (r: i32)
    ensures
        r == polarity_selector_spec(pol),
{
    match pol {
        Some(true) => 0,
        Some(false) => 1,
        None => 2,
    }
}

/// The engine's integer for a literal, when it fits in an `i32`.
pub fn encode_lit(l: Lit) -> (r: Option<i32>)
    ensures
        r.is_some() <==> l.code <= i32::MAX,
        r.is_some() ==> r.unwrap() == l.code,
{
    if l.code <= 0x7fff_ffff {
        Some(l.code as i32)
    } else {
        None
    }
}

/// The engine's integer for a variable, when it fits in an `i32`.
pub fn encode_var(v: Var) -> (r: Option<i32>)
    ensures
        r.is_some() <==> v.index <= i32::MAX,
        r.is_some() ==> r.unwrap() == v.index,
{
    if v.index <= 0x7fff_ffff {
        Some(v.index as i32)
    } else {
        None
    }
}

/// Every code of the sequence fits in an `i32`.
pub open spec fn all_encodable(lits: Seq<Lit>) -> bool {
    forall|i: int| 0 <= i < lits.len() ==> (#[trigger] lits[i]).code <= i32::MAX
}

/// The engine's integer array for a clause or an assumption list: the same
/// literals in the same order, or `None` when one of them does not fit.
pub fn encode_lits(lits: &[Lit]) -> (r: Option<Vec<i32>>)
    ensures
        r.is_some() <==> all_encodable(lits@),
        r.is_some() ==> r.unwrap()@.len() == lits@.len(),
        r.is_some() ==> forall|i: int|
            0 <= i < lits@.len() ==> r.unwrap()@[i] == (#[trigger] lits@[i]).code,
{
    let mut out: Vec<i32> = Vec::new();
    let mut i: usize = 0;
    while i < lits.len()
        invariant
            i <= lits@.len(),
            out@.len() == i,
            all_encodable(lits@.subrange(0, i as int)),
            forall|j: int| 0 <= j < i ==> out@[j] == (#[trigger] lits@[j]).code,
        decreases lits@.len() - i,
    {
        let c = lits[i].code;
        if c > 0x7fff_ffff {
            assert(lits@.subrange(0, i as int + 1)[i as int] == lits@[i as int]);
            assert(!all_encodable(lits@));
            return None;
        }
        out.push(c as i32);
        i = i + 1;
        assert(all_encodable(lits@.subrange(0, i as int))) by {
            assert forall|j: int| 0 <= j < i implies (#[trigger] lits@.subrange(
                0,
                i as int,
            )[j]).code <= i32::MAX by {
                if j < i - 1 {
                    assert(lits@.subrange(0, i - 1)[j] == lits@[j]);
                }
            }
        }
    }
    assert(lits@.subrange(0, i as int) =~= lits@);
    Some(out)
}

/// The variable that the engine reports by index `code`.
pub fn decode_var(code: i32) -> (r: Result<Var, EngineFault>)
    ensures
        code >= 0 ==> r == Ok::<Var, EngineFault>(Var { index: code as u32 }),
        code < 0 ==> r == Err::<Var, EngineFault>(EngineFault::NegativeIndex { code }),
{
    if code >= 0 {
        Ok(Var { index: code as u32 })
    } else {
        Err(EngineFault::NegativeIndex { code })
    }
}

/// The variable count that the engine reports as `code`.
pub fn decode_count(code: i32) -> (r: Result<usize, EngineFault>)
    ensures
        code >= 0 ==> r == Ok::<usize, EngineFault>(code as usize),
        code < 0 ==> r == Err::<usize, EngineFault>(EngineFault::NegativeIndex { code }),
{
    if code >= 0 {
        Ok(code as usize)
    } else {
        Err(EngineFault::NegativeIndex { code })
    }
}

/// Truth value of a literal from the engine's model value: `0` is true,
/// `1` is false, anything else is a fault.
pub fn decode_model_value(code: i32) -> (r: Result<bool, EngineFault>)
    ensures
        code == 0 ==> r == Ok::<bool, EngineFault>(true),
        code == 1 ==> r == Ok::<bool, EngineFault>(false),
        code != 0 && code != 1 ==> r == Err::<bool, EngineFault>(
            EngineFault::ModelValue { code },
        ),
{
    if code == 0 {
        Ok(true)
    } else if code == 1 {
        Ok(false)
    } else {
        Err(EngineFault::ModelValue { code })
    }
}

/// The literal to look up in the engine's conflict set to learn whether the
/// assumption `l` took part: the engine records conflicts over negations.
pub fn conflict_probe(l: Lit) -> (r: Lit)
    ensures
        r == l.negate_spec(),
        r.var_spec() == l.var_spec(),
        r.polarity_spec() == !l.polarity_spec(),
{
    l.negate()
}

/// Result of a simplification step from the engine's flag: `Some(false)`
/// when the engine found the problem trivially unsatisfiable, `None` when
/// nothing was decided.
pub fn simplify_verdict(engine_ok: bool) -> (r: Option<bool>)
    ensures
        r == (if engine_ok { None } else { Some(false) }),
{
    if engine_ok {
        None
    } else {
        Some(false)
    }
}

/// Literals from an integer buffer handed out by the engine, in order.
pub fn decode_lits(codes: &[u32]) -> (r: Vec<Lit>)
    ensures
        r@.len() == codes@.len(),
        forall|i: int| 0 <= i < codes@.len() ==> (#[trigger] r@[i]).code == codes@[i],
{
    let mut out: Vec<Lit> = Vec::new();
    let mut i: usize = 0;
    while i < codes.len()
        invariant
            i <= codes@.len(),
            out@.len() == i,
            forall|j: int| 0 <= j < i ==> (#[trigger] out@[j]).code == codes@[j],
        decreases codes@.len() - i,
    {
        out.push(Lit::from_code(codes[i]));
        i = i + 1;
    }
    out
}

/// The (pointer, length) descriptors of an exported clause table, a flat
/// array in which entry `2k` locates clause `k` and entry `2k + 1` is its
/// length. A table of odd length is a fault.
pub fn clause_descriptors(table: &[usize]) -> (r: Result<Vec<(usize, usize)>, EngineFault>)
    ensures
        table@.len() % 2 == 1 ==> r == Err::<Vec<(usize, usize)>, EngineFault>(
            EngineFault::OddClauseTable { len: table@.len() as usize },
        ),
        table@.len() % 2 == 0 ==> r is Ok,
        r is Ok ==> r->Ok_0@.len() * 2 == table@.len(),
        r is Ok ==> forall|k: int|
            0 <= k < r->Ok_0@.len() ==> (#[trigger] r->Ok_0@[k]) == (
                table@[2 * k],
                table@[2 * k + 1],
            ),
{
    if table.len() % 2 == 1 {
        return Err(EngineFault::OddClauseTable { len: table.len() });
    }
    let mut out: Vec<(usize, usize)> = Vec::new();
    let mut i: usize = 0;
    while i < table.len()
        invariant
            table@.len() % 2 == 0,
            i % 2 == 0,
            i <= table@.len(),
            out@.len() * 2 == i,
            forall|k: int|
                0 <= k < out@.len() ==> (#[trigger] out@[k]) == (table@[2 * k], table@[2 * k + 1]),
        decreases table@.len() - i,
    {
        out.push((table[i], table[i + 1]));
        i = i + 2;
    }
    Ok(out)
}

} // verus!
