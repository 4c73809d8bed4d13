//! Selection of the accumulation strategy for a field.
//!
//! The builder's underlying accumulation primitive takes collections for every
//! role, so each setter must adapt its single argument to that shape.  The
//! choice depends only on the field's role and arity, and is kept apart from
//! the emission logic so it can be inspected on its own.

use vstd::prelude::*;
use vstd::string::StringExecFns;
use crate::schema::FieldArity;
use crate::schema::FieldRole;

verus! {

/// How a setter merges its argument into the accumulated state.
#[derive(Clone, Copy, PartialEq, Eq, Structural, Debug)]
pub enum AccumulationStrategy {
    /// The argument is already a collection and is forwarded as it is.
    PassThrough,
    /// The argument is a single value and is wrapped into a one-element
    /// collection.
    ScalarWrap,
    /// The argument is paired with the field's name token before merging.
    KeyValue,
}

/// The accumulation strategy for a field of the given role and arity.
pub open spec fn spec_strategy_for(role: FieldRole, arity: FieldArity) -> AccumulationStrategy {
    if role == FieldRole::Attribute {
        AccumulationStrategy::KeyValue
    } else if arity == FieldArity::Variadic {
        AccumulationStrategy::PassThrough
    } else {
        AccumulationStrategy::ScalarWrap
    }
}

/// Selects the accumulation strategy for a field of the given role and arity.
pub fn strategy_for(role: FieldRole, arity: FieldArity) -> (r: AccumulationStrategy)
    ensures
        r == spec_strategy_for(role, arity),
{
    if matches!(role, FieldRole::Attribute) {
        AccumulationStrategy::KeyValue
    } else if matches!(arity, FieldArity::Variadic) {
        AccumulationStrategy::PassThrough
    } else {
        AccumulationStrategy::ScalarWrap
    }
}

/// The name of the accumulation method a setter of the given role calls.
pub open spec fn spec_add_method_of(role: FieldRole) -> Seq<char> {
    match role {
        FieldRole::Operand => "add_operands"@,
        FieldRole::Result => "add_results"@,
        FieldRole::Attribute => "add_attributes"@,
        FieldRole::Successor => "add_successors"@,
        FieldRole::Region => "add_regions"@,
    }
}

/// The name of the accumulation method a setter of the given role calls.
pub fn add_method_of(role: FieldRole) -> (r: String)
    ensures
        r@ == spec_add_method_of(role),
{
    match role {
        FieldRole::Operand => String::from_str("add_operands"),
        FieldRole::Result => String::from_str("add_results"),
        FieldRole::Attribute => String::from_str("add_attributes"),
        FieldRole::Successor => String::from_str("add_successors"),
        FieldRole::Region => String::from_str("add_regions"),
    }
}

} // verus!
