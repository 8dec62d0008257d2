//! Boolean logic gates built from a single NAND primitive.
//!
//! `LogicValue` is a two-valued logic type. NAND is the sole primitive
//! gate; NOT, AND, OR and XOR are each composed from NAND alone, and each
//! is proved against its truth table, stated directly by a spec function.

use vstd::prelude::*;

verus! {

/// The two-valued logic domain on which every gate operates.
#[derive(Copy, Clone, Debug, PartialEq, Eq, Structural)]
pub enum LogicValue {
    False,
    True,
}

/// Truth table of NAND: `False` exactly when both inputs are `True`.
pub open spec fn spec_nand(a: LogicValue, b: LogicValue) -> LogicValue {
    if a is True && b is True {
        LogicValue::False
    } else {
        LogicValue::True
    }
}

/// Truth table of NOT: swaps the two values.
pub open spec fn spec_not(a: LogicValue) -> LogicValue {
    if a is True {
        LogicValue::False
    } else {
        LogicValue::True
    }
}

/// Truth table of AND: `True` exactly when both inputs are `True`.
pub open spec fn spec_and(a: LogicValue, b: LogicValue) -> LogicValue {
    if a is True && b is True {
        LogicValue::True
    } else {
        LogicValue::False
    }
}

/// Truth table of OR: `True` exactly when at least one input is `True`.
pub open spec fn spec_or(a: LogicValue, b: LogicValue) -> LogicValue {
    if a is True || b is True {
        LogicValue::True
    } else {
        LogicValue::False
    }
}

/// Truth table of XOR: `True` exactly when the inputs differ.
pub open spec fn spec_xor(a: LogicValue, b: LogicValue) -> LogicValue {
    if (a is True) != (b is True) {
        LogicValue::True
    } else {
        LogicValue::False
    }
}

/// NAND gate, the sole primitive: every other gate is composed from it.
pub fn nand(a: LogicValue, b: LogicValue) -> (r: LogicValue)
    ensures
        r == spec_nand(a, b),
        r is False <==> (a is True && b is True),
{
    match (a, b) {
        (LogicValue::True, LogicValue::True) => LogicValue::False,
        (LogicValue::True, LogicValue::False) => LogicValue::True,
        (LogicValue::False, LogicValue::True) => LogicValue::True,
        (LogicValue::False, LogicValue::False) => LogicValue::True,
    }
}

/// NOT gate, as a NAND of the input with itself.
pub fn not(a: LogicValue) -> (r: LogicValue)
    ensures
        r == spec_not(a),
        r is True <==> a is False,
{
    nand(a, a)
}

/// AND gate, as the negation of a NAND.
pub fn and(a: LogicValue, b: LogicValue) -> (r: LogicValue)
    ensures
        r == spec_and(a, b),
        r is True <==> (a is True && b is True),
{
    let nand_result = nand(a, b);
    not(nand_result)
}

/// OR gate, as a NAND of the two negated inputs.
pub fn or(a: LogicValue, b: LogicValue) -> (r: LogicValue)
    ensures
        r == spec_or(a, b),
        r is True <==> (a is True || b is True),
{
    let nand_result_1 = nand(a, a);
    let nand_result_2 = nand(b, b);
    nand(nand_result_1, nand_result_2)
}

/// XOR gate, composed from four NANDs.
pub fn xor(a: LogicValue, b: LogicValue) -> (r: LogicValue)
    ensures
        r == spec_xor(a, b),
        r is True <==> ((a is True) != (b is True)),
{
    let not_a = not(a);
    let not_b = not(b);
    let nand_result_1 = nand(a, not_b);
    let nand_result_2 = nand(not_a, b);
    nand(nand_result_1, nand_result_2)
}

/// Double negation: applying NOT twice gives the input back.
pub proof fn lemma_not_involutive(a: LogicValue)
    ensures
        spec_not(spec_not(a)) == a,
{
}

/// AND is idempotent: a value conjoined with itself is itself.
pub proof fn lemma_and_idempotent(a: LogicValue)
    ensures
        spec_and(a, a) == a,
{
}

/// OR is idempotent: a value disjoined with itself is itself.
pub proof fn lemma_or_idempotent(a: LogicValue)
    ensures
        spec_or(a, a) == a,
{
}

} // verus!
