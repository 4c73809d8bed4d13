//! The field schema of an operation, as the generator consumes it.
//!
//! A schema lists the operation's fields in declaration order.  Each field has
//! a name, a semantic role, an arity, and the rendered type expression of the
//! value a caller supplies for it.  The schema is produced by an external
//! extraction step and is read-only here: the generator trusts role, arity and
//! type expression, and validates only that the names yield usable
//! identifiers.

use vstd::prelude::*;

verus! {

/// The semantic role of a field on an operation.
#[derive(Clone, Copy, PartialEq, Eq, Structural, Debug)]
pub enum FieldRole {
    /// A value consumed by the operation.
    Operand,
    /// A value produced by the operation.
    Result,
    /// A named compile-time constant attached to the operation.
    Attribute,
    /// A block the operation may transfer control to.
    Successor,
    /// A nested region owned by the operation.
    Region,
}

/// How many values a field takes.
#[derive(Clone, Copy, PartialEq, Eq, Structural, Debug)]
pub enum FieldArity {
    /// Exactly one value; the field is required.
    Single,
    /// Zero or one value; the field may be left unset.
    Optional,
    /// Any number of values, supplied as one pre-built collection; the
    /// collection itself is required.
    Variadic,
}

/// One named field of an operation.
pub struct FieldDescriptor {
    /// The field's name as declared in the schema; unique within an operation.
    pub name: String,
    /// The field's semantic role.
    pub role: FieldRole,
    /// How many values the field takes.
    pub arity: FieldArity,
    /// The rendered type expression of the setter's parameter.
    pub parameter_type: String,
}

impl Clone for FieldDescriptor {
    fn clone(&self) -> (r: Self)
        ensures
            r == *self,
    {
        FieldDescriptor {
            name: self.name.clone(),
            role: self.role,
            arity: self.arity,
            parameter_type: self.parameter_type.clone(),
        }
    }
}

/// An operation's schema: its names, its capability flags, and its fields in
/// declaration order.
pub struct OperationSchema {
    /// The target-language type name of the completed operation.
    pub class_name: String,
    /// The operation name without its dialect prefix.
    pub short_name: String,
    /// The dialect-qualified operation name.
    pub full_name: String,
    /// A one-line description, used in generated doc attributes.
    pub summary: String,
    /// Whether the finished operation can infer its result types, which
    /// exempts result fields from the required set.
    pub can_infer_type: bool,
    /// The operation's fields in declaration order.
    pub fields: Vec<FieldDescriptor>,
}

/// Tells whether a field of role `role` is exempt from the required set: a
/// result field of an operation that can infer its result types.  New
/// exemption rules would compose into this predicate.
pub open spec fn spec_is_exempt(role: FieldRole, can_infer_type: bool) -> bool {
    role == FieldRole::Result && can_infer_type
}

/// Tells whether a field of role `role` is exempt from the required set.
pub fn is_exempt(role: FieldRole, can_infer_type: bool) -> (r: bool)
    ensures
        r == spec_is_exempt(role, can_infer_type),
{
    matches!(role, FieldRole::Result) && can_infer_type
}

/// Tells whether `field` must be supplied before the operation can be built:
/// it is not optional and not exempt.
pub open spec fn spec_is_required(field: FieldDescriptor, can_infer_type: bool) -> bool {
    field.arity != FieldArity::Optional && !spec_is_exempt(field.role, can_infer_type)
}

/// Tells whether `field` must be supplied before the operation can be built.
pub fn is_required(field: &FieldDescriptor, can_infer_type: bool) -> (r: bool)
    ensures
        r == spec_is_required(*field, can_infer_type),
{
    !matches!(field.arity, FieldArity::Optional) && !is_exempt(field.role, can_infer_type)
}

/// The sub-sequence of `fields` that must be supplied before the operation
/// can be built, in declaration order.
pub open spec fn required_seq(fields: Seq<FieldDescriptor>, can_infer_type: bool) -> Seq<
    FieldDescriptor,
>
    decreases fields.len(),
{
    if fields.len() == 0 {
        Seq::empty()
    } else {
        let rest = required_seq(fields.drop_last(), can_infer_type);
        if spec_is_required(fields.last(), can_infer_type) {
            rest.push(fields.last())
        } else {
            rest
        }
    }
}

/// The sub-sequence of `schema`'s fields that must be supplied before the
/// operation can be built, in declaration order.
pub open spec fn required_fields_of(schema: OperationSchema) -> Seq<FieldDescriptor> {
    required_seq(schema.fields@, schema.can_infer_type)
}

/// Every entry of the required sub-sequence satisfies the requirement
/// predicate, and every required entry of `fields` appears in it.
pub proof fn lemma_required_seq_members(fields: Seq<FieldDescriptor>, can_infer_type: bool)
    ensures
        forall|i: int|
            0 <= i < required_seq(fields, can_infer_type).len() ==> spec_is_required(
                #[trigger] required_seq(fields, can_infer_type)[i],
                can_infer_type,
            ),
        required_seq(fields, can_infer_type).len() <= fields.len(),
    decreases fields.len(),
{
    if fields.len() > 0 {
        lemma_required_seq_members(fields.drop_last(), can_infer_type);
    }
}

impl OperationSchema {
    /// The fields that must be supplied before the operation can be built, in
    /// declaration order.
    pub fn required_fields(&self) -> (r: Vec<FieldDescriptor>)
        ensures
            r@ == required_fields_of(*self),
    {
        let mut r: Vec<FieldDescriptor> = Vec::new();
        let mut i: usize = 0;
        while i < self.fields.len()
            invariant
                i <= self.fields.len(),
                r@ == required_seq(self.fields@.take(i as int), self.can_infer_type),
            decreases self.fields.len() - i,
        {
            let f = &self.fields[i];
            proof {
                let s = self.fields@.take(i + 1);
                assert(s.drop_last() =~= self.fields@.take(i as int));
                assert(s.last() == self.fields@[i as int]);
            }
            if is_required(f, self.can_infer_type) {
                r.push(f.clone());
            }
            i += 1;
        }
        proof {
            assert(self.fields@.take(self.fields@.len() as int) =~= self.fields@);
        }
        r
    }
}

} // verus!
