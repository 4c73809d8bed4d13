//! Synthesis of the builder API for one operation.
//!
//! From an operation's schema this module derives the type-state slots and
//! emits the builder type, its constructor, one setter per field, the terminal
//! build method, and the convenience constructor that chains every required
//! setter in declaration order.

use vstd::prelude::*;
use vstd::string::StringExecFns;
use crate::error::Error;
use crate::ident::sanitize_snake_case_name;
use crate::ident::sanitized_snake;
use crate::ident::snake_of;
use crate::ident::str_eq;
use crate::render::generic_list;
use crate::render::generic_list_text;
use crate::render::join_strings;
use crate::render::join_with;
use crate::schema::FieldArity;
use crate::schema::FieldDescriptor;
use crate::schema::FieldRole;
use crate::schema::OperationSchema;
use crate::schema::is_exempt;
use crate::schema::required_fields_of;
use crate::schema::spec_is_exempt;
use crate::strategy::AccumulationStrategy;
use crate::strategy::add_method_of;
use crate::strategy::spec_add_method_of;
use crate::strategy::spec_strategy_for;
use crate::strategy::strategy_for;
use crate::typestate::TypeStateItem;
use crate::typestate::TypeStateList;
use crate::typestate::args_all;
use crate::typestate::args_replace;
use crate::typestate::params_of;
use crate::typestate::params_without;
use crate::typestate::set_marker;
use crate::typestate::slot_param_of;
use crate::typestate::strings_view;
use crate::typestate::unset_marker;

verus! {

/// Tells whether `items` are exactly the slots derived from the required
/// fields `req`, in the same order.
pub open spec fn slots_match(items: Seq<TypeStateItem>, req: Seq<FieldDescriptor>) -> bool {
    &&& items.len() == req.len()
    &&& forall|i: int|
        0 <= i < req.len() ==> (#[trigger] items[i]).field_name@ == req[i].name@
            && items[i].sanitized@ == sanitized_snake(req[i].name@) && items[i].generic_param@
            == slot_param_of(req[i].name@)
}

/// Tells whether every field of `req` has a derivable identifier.
pub open spec fn names_ok(req: Seq<FieldDescriptor>) -> bool {
    forall|i: int| 0 <= i < req.len() ==> snake_of((#[trigger] req[i]).name@).len() > 0
}

/// Tells whether no two fields of `req` sanitize to the same identifier.
pub open spec fn names_distinct(req: Seq<FieldDescriptor>) -> bool {
    forall|i: int, j: int|
        0 <= i < j < req.len() ==> sanitized_snake((#[trigger] req[i]).name@) != sanitized_snake(
            (#[trigger] req[j]).name@,
        )
}

/// The name of the builder type generated for `op`.
pub open spec fn builder_ident_of(op: OperationSchema) -> Seq<char> {
    op.class_name@ + "Builder"@
}

/// The generator for one operation's builder API.
pub struct OperationBuilder {
    /// The operation's schema.
    pub operation: OperationSchema,
    /// The slots derived from the operation's required fields.
    pub type_state: TypeStateList,
}

impl OperationBuilder {
    /// Tells whether the generator's slots were derived from its schema: one
    /// slot per required field, in order, with distinct, derivable
    /// identifiers.
    pub open spec fn wf(self) -> bool {
        &&& slots_match(self.type_state.items@, required_fields_of(self.operation))
        &&& names_ok(required_fields_of(self.operation))
        &&& names_distinct(required_fields_of(self.operation))
    }

    /// Derives the type-state slots for `operation`'s required fields.
    ///
    /// Succeeds exactly when every required field's name yields an identifier
    /// and no two of them yield the same one.
    fn create_type_state(operation: &OperationSchema) -> (r: Result<TypeStateList, Error>)
        ensures
            r is Ok <==> names_ok(required_fields_of(*operation)) && names_distinct(
                required_fields_of(*operation),
            ),
            r matches Ok(ts) ==> slots_match(ts.items@, required_fields_of(*operation)),
            r matches Err(e) ==> ({
                let req = required_fields_of(*operation);
                ||| (e matches Error::InvalidName { name } && exists|i: int|
                    0 <= i < req.len() && (#[trigger] req[i]).name@ == name@ && snake_of(name@).len()
                        == 0)
                ||| (e matches Error::NameCollision { name } && exists|i: int, j: int|
                    0 <= i < j < req.len() && (#[trigger] req[j]).name@ == name@ && sanitized_snake(
                        (#[trigger] req[i]).name@,
                    ) == sanitized_snake(req[j].name@))
            }),
    {
        let req = operation.required_fields();
        let mut items: Vec<TypeStateItem> = Vec::new();
        let mut i: usize = 0;
        while i < req.len()
            invariant
                req@ == required_fields_of(*operation),
                i <= req.len(),
                items@.len() == i,
                forall|j: int|
                    0 <= j < i ==> (#[trigger] items@[j]).field_name@ == req@[j].name@
                        && items@[j].sanitized@ == sanitized_snake(req@[j].name@)
                        && items@[j].generic_param@ == slot_param_of(req@[j].name@) && snake_of(
                        req@[j].name@,
                    ).len() > 0,
            decreases req.len() - i,
        {
            let ghost pre_items = items@;
            match TypeStateItem::new(req[i].name.clone()) {
                Ok(item) => {
                    let ghost it = item;
                    items.push(item);
                    proof {
                        assert forall|j: int|
                            0 <= j < i + 1 implies (#[trigger] items@[j]).field_name@
                            == req@[j].name@ && items@[j].sanitized@ == sanitized_snake(
                            req@[j].name@,
                        ) && items@[j].generic_param@ == slot_param_of(req@[j].name@) && snake_of(
                            req@[j].name@,
                        ).len() > 0 by {
                            if j < i as int {
                                assert(items@[j] == pre_items[j]);
                                assert((#[trigger] pre_items[j]).field_name@ == req@[j].name@);
                            } else {
                                assert(items@[j] == it);
                            }
                        }
                    }
                },
                Err(e) => {
                    return Err(e);
                },
            }
            i += 1;
        }
        proof {
            assert forall|x: int|
                0 <= x < req@.len() implies snake_of((#[trigger] req@[x]).name@).len() > 0 by {
                assert((#[trigger] items@[x]).sanitized@ == sanitized_snake(req@[x].name@));
            }
        }
        let n = items.len();
        let mut a: usize = 0;
        while a < n
            invariant
                req@ == required_fields_of(*operation),
                n == items@.len(),
                n == req@.len(),
                a <= n,
                forall|j: int|
                    0 <= j < n ==> (#[trigger] items@[j]).sanitized@ == sanitized_snake(
                        req@[j].name@,
                    ),
                forall|x: int, y: int|
                    0 <= x < y < n && x < a ==> sanitized_snake((#[trigger] req@[x]).name@)
                        != sanitized_snake((#[trigger] req@[y]).name@),
            decreases n - a,
        {
            let mut b: usize = a + 1;
            while b < n
                invariant
                    req@ == required_fields_of(*operation),
                    n == items@.len(),
                    n == req@.len(),
                    a < n,
                    a < b,
                    b <= n,
                    forall|j: int|
                        0 <= j < n ==> (#[trigger] items@[j]).sanitized@ == sanitized_snake(
                            req@[j].name@,
                        ),
                    forall|y: int|
                        a < y < b ==> sanitized_snake((#[trigger] req@[a as int]).name@)
                            != sanitized_snake((#[trigger] req@[y]).name@),
                decreases n - b,
            {
                if str_eq(items[a].sanitized.as_str(), items[b].sanitized.as_str()) {
                    return Err(Error::NameCollision { name: req[b].name.clone() });
                }
                b += 1;
            }
            a += 1;
        }
        Ok(TypeStateList::new(items))
    }

    /// Builds the generator for `operation`, deriving its type-state slots.
    ///
    /// Succeeds exactly when every required field's name yields an identifier
    /// and no two of them yield the same one.
    pub fn new(operation: OperationSchema) -> (r: Result<OperationBuilder, Error>)
        ensures
            r is Ok <==> names_ok(required_fields_of(operation)) && names_distinct(
                required_fields_of(operation),
            ),
            r matches Ok(b) ==> b.operation == operation && b.wf(),
            r matches Err(e) ==> ({
                let req = required_fields_of(operation);
                ||| (e matches Error::InvalidName { name } && exists|i: int|
                    0 <= i < req.len() && (#[trigger] req[i]).name@ == name@ && snake_of(name@).len()
                        == 0)
                ||| (e matches Error::NameCollision { name } && exists|i: int, j: int|
                    0 <= i < j < req.len() && (#[trigger] req[j]).name@ == name@ && sanitized_snake(
                        (#[trigger] req[i]).name@,
                    ) == sanitized_snake(req[j].name@))
            }),
    {
        match Self::create_type_state(&operation) {
            Ok(type_state) => Ok(OperationBuilder { operation, type_state }),
            Err(e) => Err(e),
        }
    }

    /// The name of the generated builder type.
    fn builder_identifier(&self) -> (r: String)
        ensures
            r@ == builder_ident_of(self.operation),
    {
        let mut r = self.operation.class_name.clone();
        r.append("Builder");
        r
    }
}

/// The declaration of one slot's phantom storage field.
pub open spec fn phantom_decl_of(item: TypeStateItem) -> Seq<char> {
    item.sanitized@ + ": ::std::marker::PhantomData<"@ + item.generic_param@ + ">"@
}

/// The declarations of all slots' phantom storage fields.
pub open spec fn phantom_decls(items: Seq<TypeStateItem>) -> Seq<Seq<char>> {
    Seq::new(items.len(), |i: int| phantom_decl_of(items[i]))
}

/// The initializer of one slot's phantom field.
pub open spec fn phantom_init_of(item: TypeStateItem) -> Seq<char> {
    item.sanitized@ + ": ::std::marker::PhantomData"@
}

/// The initializers of all slots' phantom fields.
pub open spec fn phantom_inits(items: Seq<TypeStateItem>) -> Seq<Seq<char>> {
    Seq::new(items.len(), |i: int| phantom_init_of(items[i]))
}

/// The slots' storage field names.
pub open spec fn slot_names(items: Seq<TypeStateItem>) -> Seq<Seq<char>> {
    Seq::new(items.len(), |i: int| items[i].sanitized@)
}

/// The text of the builder struct declaration.
pub open spec fn builder_struct_text(op: OperationSchema, items: Seq<TypeStateItem>) -> Seq<char> {
    "#[doc = \"Builder for "@ + op.summary@ + "\"] pub struct "@ + builder_ident_of(op)
        + generic_list(params_of(items)) + " { "@ + join_with(
        seq![
            "builder: ::melior::ir::operation::OperationBuilder<'c>"@,
            "context: &'c ::melior::Context"@,
        ] + phantom_decls(items),
        ", "@,
    ) + " }\n"@
}

/// The text of the builder's constructor, defined only at the all-unset
/// instantiation.
pub open spec fn new_fn_text(op: OperationSchema, items: Seq<TypeStateItem>) -> Seq<char> {
    "impl<'c> "@ + builder_ident_of(op) + generic_list(args_all(items.len(), unset_marker()))
        + " { pub fn new(location: ::melior::ir::Location<'c>) -> Self { Self { "@ + join_with(
        seq![
            "context: unsafe { location.context().to_ref() }"@,
            "builder: ::melior::ir::operation::OperationBuilder::new(\""@ + op.full_name@
                + "\", location)"@,
        ] + phantom_inits(items),
        ", "@,
    ) + " } } }\n"@
}

/// The text of the terminal build method, defined only at the all-set
/// instantiation.
pub open spec fn build_fn_text(op: OperationSchema, items: Seq<TypeStateItem>) -> Seq<char> {
    "impl<'c> "@ + builder_ident_of(op) + generic_list(args_all(items.len(), set_marker()))
        + " { pub fn build(self) -> "@ + op.class_name@ + "<'c> { self.builder"@ + (
    if op.can_infer_type {
        ".enable_result_type_inference()"@
    } else {
        Seq::<char>::empty()
    }) + ".build().try_into().expect(\"should be a valid "@ + op.class_name@ + "\") } }\n"@
}

/// The argument a setter hands to the accumulation method, shaped by the
/// field's accumulation strategy.
pub open spec fn add_args_of(field: FieldDescriptor) -> Seq<char> {
    match spec_strategy_for(field.role, field.arity) {
        AccumulationStrategy::KeyValue => "&[(::melior::ir::Identifier::new(self.context, \""@
            + field.name@ + "\"), "@ + setter_method_name(field) + ".into())]"@,
        AccumulationStrategy::PassThrough => setter_method_name(field),
        AccumulationStrategy::ScalarWrap => if field.role == FieldRole::Region {
            "vec!["@ + setter_method_name(field) + "]"@
        } else {
            "&["@ + setter_method_name(field) + "]"@
        },
    }
}

/// The statement that merges a setter's argument into the accumulated state.
pub open spec fn merge_stmt_of(field: FieldDescriptor) -> Seq<char> {
    "self.builder = self.builder."@ + spec_add_method_of(field.role) + "("@ + add_args_of(field)
        + ");"@
}

/// The identifier that names `field`'s setter method and the setter's
/// parameter.
pub open spec fn setter_method_name(field: FieldDescriptor) -> Seq<char> {
    sanitized_snake(field.name@)
}

/// The identifier that names `field`'s convenience-constructor parameter.
pub open spec fn ctor_param_name(field: FieldDescriptor) -> Seq<char> {
    sanitized_snake(field.name@)
}

/// A field's name sanitizes deterministically: the identifier that names its
/// setter equals, on every field, the identifier that names its
/// convenience-constructor parameter.
pub proof fn lemma_setter_ctor_names_agree(field: FieldDescriptor)
    ensures
        setter_method_name(field) == ctor_param_name(field),
{
}

/// Under a well-formed generator, the setter of the i-th required field is
/// emitted with its own slot instantiated to the unset marker on entry and to
/// the set marker on exit, and with every other slot kept polymorphic: no
/// instantiation whose i-th slot is already set matches the setter's input.
pub proof fn lemma_required_setter_slots(b: OperationBuilder, i: int)
    requires
        b.wf(),
        0 <= i < required_fields_of(b.operation).len(),
    ensures
        ({
            let items = b.type_state.items@;
            let name = required_fields_of(b.operation)[i].name@;
            &&& args_replace(items, name, unset_marker())[i] == unset_marker()
            &&& args_replace(items, name, set_marker())[i] == set_marker()
            &&& forall|j: int|
                0 <= j < items.len() && j != i ==> (#[trigger] args_replace(
                    items,
                    name,
                    unset_marker(),
                )[j]) == items[j].generic_param@ && args_replace(items, name, set_marker())[j]
                    == items[j].generic_param@
        }),
{
    let items = b.type_state.items@;
    let req = required_fields_of(b.operation);
    let name = req[i].name@;
    assert(items[i].field_name@ == name);
    assert forall|j: int| 0 <= j < items.len() && j != i implies (#[trigger] items[j]).field_name@
        != name by {
        if items[j].field_name@ == name {
            assert(req[j].name@ == name);
            if j < i {
                assert(sanitized_snake(req[j].name@) != sanitized_snake(req[i].name@));
            } else {
                assert(sanitized_snake(req[i].name@) != sanitized_snake(req[j].name@));
            }
        }
    }
}

/// The text of an optional or variadic-optional setter: generic over the full
/// slot list, with identical input and output instantiations.
pub open spec fn optional_setter_text(
    op: OperationSchema,
    items: Seq<TypeStateItem>,
    field: FieldDescriptor,
) -> Seq<char> {
    let name = setter_method_name(field);
    "impl"@ + generic_list(params_of(items)) + " "@ + builder_ident_of(op) + generic_list(
        params_of(items),
    ) + " { pub fn "@ + name + "(mut self, "@ + name + ": "@ + field.parameter_type@ + ") -> "@
        + builder_ident_of(op) + generic_list(params_of(items)) + " { "@ + merge_stmt_of(field)
        + " self } }\n"@
}

/// The text of a required setter: generic over every other slot, defined only
/// where its own slot is unset, and returning the instantiation with that one
/// slot set.
pub open spec fn required_setter_text(
    op: OperationSchema,
    items: Seq<TypeStateItem>,
    field: FieldDescriptor,
) -> Seq<char> {
    let name = setter_method_name(field);
    "impl"@ + generic_list(params_without(items, field.name@)) + " "@ + builder_ident_of(op)
        + generic_list(args_replace(items, field.name@, unset_marker())) + " { pub fn "@ + name
        + "(mut self, "@ + name + ": "@ + field.parameter_type@ + ") -> "@ + builder_ident_of(op)
        + generic_list(args_replace(items, field.name@, set_marker())) + " { "@ + merge_stmt_of(
        field,
    ) + " let Self { context, mut builder, "@ + join_with(slot_names(items), ", "@) + " } = self; "@
        + builder_ident_of(op) + " { context, builder, "@ + join_with(phantom_inits(items), ", "@)
        + " } } }\n"@
}

/// The text of the setter emitted for `field`: the optional shape for an
/// optional field, nothing for an exempt result field, and the required shape
/// otherwise.
pub open spec fn setter_text(
    op: OperationSchema,
    items: Seq<TypeStateItem>,
    field: FieldDescriptor,
) -> Seq<char> {
    if field.arity == FieldArity::Optional {
        optional_setter_text(op, items, field)
    } else if spec_is_exempt(field.role, op.can_infer_type) {
        Seq::empty()
    } else {
        required_setter_text(op, items, field)
    }
}

/// The concatenated setter texts of the given fields, in order.
pub open spec fn setters_text(
    op: OperationSchema,
    items: Seq<TypeStateItem>,
    fields: Seq<FieldDescriptor>,
) -> Seq<char>
    decreases fields.len(),
{
    if fields.len() == 0 {
        Seq::empty()
    } else {
        setters_text(op, items, fields.drop_last()) + setter_text(op, items, fields.last())
    }
}

/// The full text of the builder type: struct, constructor, setters, and the
/// terminal build method.
pub open spec fn builder_text(op: OperationSchema, items: Seq<TypeStateItem>) -> Seq<char> {
    builder_struct_text(op, items) + new_fn_text(op, items) + setters_text(op, items, op.fields@)
        + build_fn_text(op, items)
}

/// The text of the method that opens a builder from the completed operation's
/// type, at the all-unset instantiation.
pub open spec fn op_builder_fn_text(op: OperationSchema, items: Seq<TypeStateItem>) -> Seq<char> {
    "pub fn builder(location: ::melior::ir::Location<'c>) -> "@ + builder_ident_of(op)
        + generic_list(args_all(items.len(), unset_marker())) + " { "@ + builder_ident_of(op)
        + "::new(location) }\n"@
}

/// One parameter of the convenience constructor.
pub open spec fn ctor_param_of(field: FieldDescriptor) -> Seq<char> {
    ctor_param_name(field) + ": "@ + field.parameter_type@
}

/// The parameters of the convenience constructor, one per required field.
pub open spec fn ctor_params(req: Seq<FieldDescriptor>) -> Seq<Seq<char>> {
    Seq::new(req.len(), |i: int| ctor_param_of(req[i]))
}

/// The chain of required setter calls of the convenience constructor, in
/// declaration order.
pub open spec fn ctor_chain(req: Seq<FieldDescriptor>) -> Seq<char>
    decreases req.len(),
{
    if req.len() == 0 {
        Seq::empty()
    } else {
        ctor_chain(req.drop_last()) + ("."@ + ctor_param_name(req.last()) + "("@
            + ctor_param_name(req.last()) + ")"@)
    }
}

/// The text of the convenience constructor: one parameter per required field
/// in declaration order, then the location, with a body that constructs,
/// chains every required setter in the same order, and builds.
pub open spec fn default_constructor_text(op: OperationSchema, req: Seq<FieldDescriptor>) -> Seq<
    char,
> {
    "#[allow(clippy::too_many_arguments)] #[doc = \"Creates a new "@ + op.summary@
        + "\"] pub fn "@ + sanitized_snake(op.short_name@) + "<'c>("@ + join_with(
        ctor_params(req) + seq!["location: ::melior::ir::Location<'c>"@],
        ", "@,
    ) + ") -> "@ + op.class_name@ + "<'c> { "@ + op.class_name@ + "::builder(location)"@
        + ctor_chain(req) + ".build() }\n"@
}

/// Renders the slots' phantom field declarations.
fn phantom_decl_texts(items: &Vec<TypeStateItem>) -> (r: Vec<String>)
    ensures
        strings_view(r@) == phantom_decls(items@),
{
    let mut r: Vec<String> = Vec::new();
    let mut i: usize = 0;
    while i < items.len()
        invariant
            i <= items.len(),
            r@.len() == i,
            forall|j: int| 0 <= j < i ==> r@[j]@ == phantom_decl_of(items@[j]),
        decreases items.len() - i,
    {
        let mut s = items[i].sanitized.clone();
        s.append(": ::std::marker::PhantomData<");
        s.append(items[i].generic_param.as_str());
        s.append(">");
        r.push(s);
        i += 1;
    }
    proof {
        assert(strings_view(r@) =~= phantom_decls(items@));
    }
    r
}

/// Renders the slots' phantom field initializers.
fn phantom_init_texts(items: &Vec<TypeStateItem>) -> (r: Vec<String>)
    ensures
        strings_view(r@) == phantom_inits(items@),
{
    let mut r: Vec<String> = Vec::new();
    let mut i: usize = 0;
    while i < items.len()
        invariant
            i <= items.len(),
            r@.len() == i,
            forall|j: int| 0 <= j < i ==> r@[j]@ == phantom_init_of(items@[j]),
        decreases items.len() - i,
    {
        let mut s = items[i].sanitized.clone();
        s.append(": ::std::marker::PhantomData");
        r.push(s);
        i += 1;
    }
    proof {
        assert(strings_view(r@) =~= phantom_inits(items@));
    }
    r
}

/// Renders the slots' storage field names.
fn slot_name_texts(items: &Vec<TypeStateItem>) -> (r: Vec<String>)
    ensures
        strings_view(r@) == slot_names(items@),
{
    let mut r: Vec<String> = Vec::new();
    let mut i: usize = 0;
    while i < items.len()
        invariant
            i <= items.len(),
            r@.len() == i,
            forall|j: int| 0 <= j < i ==> r@[j]@ == items@[j].sanitized@,
        decreases items.len() - i,
    {
        r.push(items[i].sanitized.clone());
        i += 1;
    }
    proof {
        assert(strings_view(r@) =~= slot_names(items@));
    }
    r
}

impl OperationBuilder {
    /// Emits the builder struct declaration.
    fn create_struct(&self) -> (r: String)
        ensures
            r@ == builder_struct_text(self.operation, self.type_state.items@),
    {
        let mut fields: Vec<String> = Vec::new();
        fields.push(String::from_str("builder: ::melior::ir::operation::OperationBuilder<'c>"));
        fields.push(String::from_str("context: &'c ::melior::Context"));
        let decls = phantom_decl_texts(&self.type_state.items);
        let mut i: usize = 0;
        while i < decls.len()
            invariant
                strings_view(decls@) == phantom_decls(self.type_state.items@),
                i <= decls.len(),
                fields@.len() == i + 2,
                fields@[0]@ == "builder: ::melior::ir::operation::OperationBuilder<'c>"@,
                fields@[1]@ == "context: &'c ::melior::Context"@,
                forall|j: int| 0 <= j < i ==> fields@[j + 2]@ == phantom_decls(
                    self.type_state.items@,
                )[j],
            decreases decls.len() - i,
        {
            fields.push(decls[i].clone());
            proof {
                assert(strings_view(decls@)[i as int] == decls@[i as int]@);
            }
            i += 1;
        }
        let mut r = String::from_str("#[doc = \"Builder for ");
        r.append(self.operation.summary.as_str());
        r.append("\"] pub struct ");
        let ident = self.builder_identifier();
        r.append(ident.as_str());
        let params = self.type_state.parameters();
        let glist = generic_list_text(&params);
        r.append(glist.as_str());
        r.append(" { ");
        let joined = join_strings(&fields, ", ");
        r.append(joined.as_str());
        r.append(" }\n");
        proof {
            assert(strings_view(fields@) =~= seq![
                "builder: ::melior::ir::operation::OperationBuilder<'c>"@,
                "context: &'c ::melior::Context"@,
            ] + phantom_decls(self.type_state.items@));
            assert(r@ == builder_struct_text(self.operation, self.type_state.items@));
        }
        r
    }

    /// Emits the builder's constructor.
    fn create_new_fn(&self) -> (r: String)
        ensures
            r@ == new_fn_text(self.operation, self.type_state.items@),
    {
        let mut fields: Vec<String> = Vec::new();
        fields.push(String::from_str("context: unsafe { location.context().to_ref() }"));
        let mut binit = String::from_str(
            "builder: ::melior::ir::operation::OperationBuilder::new(\"",
        );
        binit.append(self.operation.full_name.as_str());
        binit.append("\", location)");
        fields.push(binit);
        let inits = phantom_init_texts(&self.type_state.items);
        let mut i: usize = 0;
        while i < inits.len()
            invariant
                strings_view(inits@) == phantom_inits(self.type_state.items@),
                i <= inits.len(),
                fields@.len() == i + 2,
                fields@[0]@ == "context: unsafe { location.context().to_ref() }"@,
                fields@[1]@ == "builder: ::melior::ir::operation::OperationBuilder::new(\""@
                    + self.operation.full_name@ + "\", location)"@,
                forall|j: int| 0 <= j < i ==> fields@[j + 2]@ == phantom_inits(
                    self.type_state.items@,
                )[j],
            decreases inits.len() - i,
        {
            fields.push(inits[i].clone());
            proof {
                assert(strings_view(inits@)[i as int] == inits@[i as int]@);
            }
            i += 1;
        }
        let mut r = String::from_str("impl<'c> ");
        let ident = self.builder_identifier();
        r.append(ident.as_str());
        let unset_args = self.type_state.arguments_all_unset();
        let glist = generic_list_text(&unset_args);
        r.append(glist.as_str());
        r.append(" { pub fn new(location: ::melior::ir::Location<'c>) -> Self { Self { ");
        let joined = join_strings(&fields, ", ");
        r.append(joined.as_str());
        r.append(" } } }\n");
        proof {
            assert(strings_view(fields@) =~= seq![
                "context: unsafe { location.context().to_ref() }"@,
                "builder: ::melior::ir::operation::OperationBuilder::new(\""@
                    + self.operation.full_name@ + "\", location)"@,
            ] + phantom_inits(self.type_state.items@));
            assert(r@ == new_fn_text(self.operation, self.type_state.items@));
        }
        r
    }

    /// Emits the terminal build method.
    fn create_build_fn(&self) -> (r: String)
        ensures
            r@ == build_fn_text(self.operation, self.type_state.items@),
    {
        let mut r = String::from_str("impl<'c> ");
        let ident = self.builder_identifier();
        r.append(ident.as_str());
        let set_args = self.type_state.arguments_all_set();
        let glist = generic_list_text(&set_args);
        r.append(glist.as_str());
        r.append(" { pub fn build(self) -> ");
        r.append(self.operation.class_name.as_str());
        r.append("<'c> { self.builder");
        let ghost pre = r@;
        if self.operation.can_infer_type {
            r.append(".enable_result_type_inference()");
        } else {
            proof {
                assert(r@ =~= pre + Seq::<char>::empty());
            }
        }
        r.append(".build().try_into().expect(\"should be a valid ");
        r.append(self.operation.class_name.as_str());
        r.append("\") } }\n");
        proof {
            assert(r@ == build_fn_text(self.operation, self.type_state.items@));
        }
        r
    }

    /// Emits the setter for one field.
    ///
    /// Succeeds exactly when the field's name yields an identifier.
    fn create_setter(&self, field: &FieldDescriptor) -> (r: Result<String, Error>)
        ensures
            r is Ok <==> snake_of(field.name@).len() > 0,
            r matches Ok(s) ==> s@ == setter_text(self.operation, self.type_state.items@, *field),
            r matches Err(e) ==> e matches Error::InvalidName { name } && name@ == field.name@
                && snake_of(field.name@).len() == 0,
    {
        let name = match sanitize_snake_case_name(field.name.as_str()) {
            Ok(n) => n,
            Err(e) => {
                return Err(e);
            },
        };
        let mut merge = String::from_str("self.builder = self.builder.");
        let method = add_method_of(field.role);
        merge.append(method.as_str());
        merge.append("(");
        match strategy_for(field.role, field.arity) {
            AccumulationStrategy::KeyValue => {
                merge.append("&[(::melior::ir::Identifier::new(self.context, \"");
                merge.append(field.name.as_str());
                merge.append("\"), ");
                merge.append(name.as_str());
                merge.append(".into())]");
            },
            AccumulationStrategy::PassThrough => {
                merge.append(name.as_str());
            },
            AccumulationStrategy::ScalarWrap => {
                if matches!(field.role, FieldRole::Region) {
                    merge.append("vec![");
                    merge.append(name.as_str());
                    merge.append("]");
                } else {
                    merge.append("&[");
                    merge.append(name.as_str());
                    merge.append("]");
                }
            },
        }
        merge.append(");");
        proof {
            assert(merge@ =~= merge_stmt_of(*field));
        }
        let ident = self.builder_identifier();
        if matches!(field.arity, FieldArity::Optional) {
            let params = self.type_state.parameters();
            let glist = generic_list_text(&params);
            let mut r = String::from_str("impl");
            r.append(glist.as_str());
            r.append(" ");
            r.append(ident.as_str());
            r.append(glist.as_str());
            r.append(" { pub fn ");
            r.append(name.as_str());
            r.append("(mut self, ");
            r.append(name.as_str());
            r.append(": ");
            r.append(field.parameter_type.as_str());
            r.append(") -> ");
            r.append(ident.as_str());
            r.append(glist.as_str());
            r.append(" { ");
            r.append(merge.as_str());
            r.append(" self } }\n");
            proof {
                assert(r@ =~= optional_setter_text(
                    self.operation,
                    self.type_state.items@,
                    *field,
                ));
            }
            Ok(r)
        } else if is_exempt(field.role, self.operation.can_infer_type) {
            let r = String::new();
            proof {
                assert(r@ =~= setter_text(self.operation, self.type_state.items@, *field));
            }
            Ok(r)
        } else {
            let pw = self.type_state.parameters_without(field.name.as_str());
            let pw_list = generic_list_text(&pw);
            let unset_args = self.type_state.arguments_unset(field.name.as_str());
            let unset_list = generic_list_text(&unset_args);
            let set_args = self.type_state.arguments_set(field.name.as_str());
            let set_list = generic_list_text(&set_args);
            let names = slot_name_texts(&self.type_state.items);
            let names_joined = join_strings(&names, ", ");
            let inits = phantom_init_texts(&self.type_state.items);
            let inits_joined = join_strings(&inits, ", ");
            let mut r = String::from_str("impl");
            r.append(pw_list.as_str());
            r.append(" ");
            r.append(ident.as_str());
            r.append(unset_list.as_str());
            r.append(" { pub fn ");
            r.append(name.as_str());
            r.append("(mut self, ");
            r.append(name.as_str());
            r.append(": ");
            r.append(field.parameter_type.as_str());
            r.append(") -> ");
            r.append(ident.as_str());
            r.append(set_list.as_str());
            r.append(" { ");
            r.append(merge.as_str());
            r.append(" let Self { context, mut builder, ");
            r.append(names_joined.as_str());
            r.append(" } = self; ");
            r.append(ident.as_str());
            r.append(" { context, builder, ");
            r.append(inits_joined.as_str());
            r.append(" } } }\n");
            proof {
                assert(r@ =~= required_setter_text(
                    self.operation,
                    self.type_state.items@,
                    *field,
                ));
            }
            Ok(r)
        }
    }

    /// Emits the setters of every field, in declaration order; an exempt
    /// result field contributes empty text.
    ///
    /// Succeeds exactly when every field's name yields an identifier.
    pub fn create_builder_fns(&self) -> (r: Result<Vec<String>, Error>)
        ensures
            r is Ok <==> (forall|i: int|
                0 <= i < self.operation.fields@.len() ==> snake_of(
                    (#[trigger] self.operation.fields@[i]).name@,
                ).len() > 0),
            r matches Ok(v) ==> v@.len() == self.operation.fields@.len() && (forall|i: int|
                0 <= i < v@.len() ==> (#[trigger] v@[i])@ == setter_text(
                    self.operation,
                    self.type_state.items@,
                    self.operation.fields@[i],
                )),
            r matches Err(e) ==> e matches Error::InvalidName { name } && exists|i: int|
                0 <= i < self.operation.fields@.len() && (#[trigger] self.operation.fields@[i]).name@
                    == name@ && snake_of(name@).len() == 0,
    {
        let mut v: Vec<String> = Vec::new();
        let mut i: usize = 0;
        while i < self.operation.fields.len()
            invariant
                i <= self.operation.fields@.len(),
                v@.len() == i,
                forall|j: int|
                    0 <= j < i ==> (#[trigger] v@[j])@ == setter_text(
                        self.operation,
                        self.type_state.items@,
                        self.operation.fields@[j],
                    ),
                forall|j: int|
                    0 <= j < i ==> snake_of((#[trigger] self.operation.fields@[j]).name@).len() > 0,
            decreases self.operation.fields@.len() - i,
        {
            match self.create_setter(&self.operation.fields[i]) {
                Ok(s) => {
                    v.push(s);
                },
                Err(e) => {
                    return Err(e);
                },
            }
            i += 1;
        }
        Ok(v)
    }

    /// Emits the complete builder type: the struct, its constructor, one
    /// setter per field, and the terminal build method.
    ///
    /// Succeeds exactly when every field's name yields an identifier.
    pub fn builder(&self) -> (r: Result<String, Error>)
        ensures
            r is Ok <==> (forall|i: int|
                0 <= i < self.operation.fields@.len() ==> snake_of(
                    (#[trigger] self.operation.fields@[i]).name@,
                ).len() > 0),
            r matches Ok(t) ==> t@ == builder_text(self.operation, self.type_state.items@),
            r matches Err(e) ==> e matches Error::InvalidName { name } && exists|i: int|
                0 <= i < self.operation.fields@.len() && (#[trigger] self.operation.fields@[i]).name@
                    == name@ && snake_of(name@).len() == 0,
    {
        let setters = match self.create_builder_fns() {
            Ok(v) => v,
            Err(e) => {
                return Err(e);
            },
        };
        let mut r = self.create_struct();
        let new_fn = self.create_new_fn();
        r.append(new_fn.as_str());
        let ghost base = builder_struct_text(self.operation, self.type_state.items@) + new_fn_text(
            self.operation,
            self.type_state.items@,
        );
        let mut i: usize = 0;
        while i < setters.len()
            invariant
                setters@.len() == self.operation.fields@.len(),
                forall|j: int|
                    0 <= j < setters@.len() ==> (#[trigger] setters@[j])@ == setter_text(
                        self.operation,
                        self.type_state.items@,
                        self.operation.fields@[j],
                    ),
                i <= setters@.len(),
                r@ == base + setters_text(
                    self.operation,
                    self.type_state.items@,
                    self.operation.fields@.take(i as int),
                ),
            decreases setters@.len() - i,
        {
            r.append(setters[i].as_str());
            proof {
                let fields = self.operation.fields@;
                let s = fields.take(i + 1);
                assert(s.drop_last() =~= fields.take(i as int));
                assert(s.last() == fields[i as int]);
                assert(r@ =~= base + setters_text(self.operation, self.type_state.items@, s));
            }
            i += 1;
        }
        proof {
            assert(self.operation.fields@.take(self.operation.fields@.len() as int)
                =~= self.operation.fields@);
        }
        let build_fn = self.create_build_fn();
        r.append(build_fn.as_str());
        proof {
            assert(r@ =~= builder_text(self.operation, self.type_state.items@));
        }
        Ok(r)
    }

    /// Emits the method that opens a builder from the completed operation's
    /// type.
    pub fn create_op_builder_fn(&self) -> (r: String)
        ensures
            r@ == op_builder_fn_text(self.operation, self.type_state.items@),
    {
        let mut r = String::from_str("pub fn builder(location: ::melior::ir::Location<'c>) -> ");
        let ident = self.builder_identifier();
        r.append(ident.as_str());
        let unset_args = self.type_state.arguments_all_unset();
        let glist = generic_list_text(&unset_args);
        r.append(glist.as_str());
        r.append(" { ");
        r.append(ident.as_str());
        r.append("::new(location) }\n");
        proof {
            assert(r@ == op_builder_fn_text(self.operation, self.type_state.items@));
        }
        r
    }

    /// Emits the convenience constructor: one parameter per required field in
    /// declaration order, then the location; its body constructs, chains
    /// every required setter in the same order, and builds.
    ///
    /// Succeeds exactly when the operation's short name and every required
    /// field's name yield identifiers.
    pub fn create_default_constructor(&self) -> (r: Result<String, Error>)
        ensures
            r is Ok <==> snake_of(self.operation.short_name@).len() > 0 && names_ok(
                required_fields_of(self.operation),
            ),
            r matches Ok(t) ==> t@ == default_constructor_text(
                self.operation,
                required_fields_of(self.operation),
            ),
            r matches Err(e) ==> e matches Error::InvalidName { name } && snake_of(name@).len()
                == 0 && (name@ == self.operation.short_name@ || exists|i: int|
                0 <= i < required_fields_of(self.operation).len() && (#[trigger] required_fields_of(
                    self.operation,
                )[i]).name@ == name@),
    {
        let fn_name = match sanitize_snake_case_name(self.operation.short_name.as_str()) {
            Ok(n) => n,
            Err(e) => {
                return Err(e);
            },
        };
        let req = self.operation.required_fields();
        let mut pnames: Vec<String> = Vec::new();
        let mut params: Vec<String> = Vec::new();
        let mut i: usize = 0;
        while i < req.len()
            invariant
                req@ == required_fields_of(self.operation),
                i <= req@.len(),
                pnames@.len() == i,
                params@.len() == i,
                forall|j: int|
                    0 <= j < i ==> (#[trigger] pnames@[j])@ == sanitized_snake(req@[j].name@),
                forall|j: int| 0 <= j < i ==> (#[trigger] params@[j])@ == ctor_param_of(req@[j]),
                forall|j: int| 0 <= j < i ==> snake_of((#[trigger] req@[j]).name@).len() > 0,
            decreases req@.len() - i,
        {
            let pname = match sanitize_snake_case_name(req[i].name.as_str()) {
                Ok(n) => n,
                Err(e) => {
                    return Err(e);
                },
            };
            let mut p = pname.clone();
            p.append(": ");
            p.append(req[i].parameter_type.as_str());
            pnames.push(pname);
            params.push(p);
            i += 1;
        }
        params.push(String::from_str("location: ::melior::ir::Location<'c>"));
        let mut chain = String::new();
        let mut k: usize = 0;
        while k < pnames.len()
            invariant
                req@ == required_fields_of(self.operation),
                pnames@.len() == req@.len(),
                forall|j: int|
                    0 <= j < pnames@.len() ==> (#[trigger] pnames@[j])@ == sanitized_snake(
                        req@[j].name@,
                    ),
                k <= pnames@.len(),
                chain@ == ctor_chain(req@.take(k as int)),
            decreases pnames@.len() - k,
        {
            chain.append(".");
            chain.append(pnames[k].as_str());
            chain.append("(");
            chain.append(pnames[k].as_str());
            chain.append(")");
            proof {
                let s = req@.take(k + 1);
                assert(s.drop_last() =~= req@.take(k as int));
                assert(s.last() == req@[k as int]);
                assert(chain@ =~= ctor_chain(s));
            }
            k += 1;
        }
        proof {
            assert(req@.take(req@.len() as int) =~= req@);
        }
        let mut r = String::from_str("#[allow(clippy::too_many_arguments)] #[doc = \"Creates a new ");
        r.append(self.operation.summary.as_str());
        r.append("\"] pub fn ");
        r.append(fn_name.as_str());
        r.append("<'c>(");
        let joined = join_strings(&params, ", ");
        r.append(joined.as_str());
        r.append(") -> ");
        r.append(self.operation.class_name.as_str());
        r.append("<'c> { ");
        r.append(self.operation.class_name.as_str());
        r.append("::builder(location)");
        r.append(chain.as_str());
        r.append(".build() }\n");
        proof {
            assert(strings_view(params@) =~= ctor_params(req@) + seq![
                "location: ::melior::ir::Location<'c>"@,
            ]);
            assert(r@ == default_constructor_text(
                self.operation,
                required_fields_of(self.operation),
            ));
        }
        Ok(r)
    }
}

/// The complete generated text for one operation: the builder type, the
/// opener method, and the convenience constructor.
pub open spec fn generated_text(op: OperationSchema, items: Seq<TypeStateItem>) -> Seq<char> {
    builder_text(op, items) + op_builder_fn_text(op, items) + default_constructor_text(
        op,
        required_fields_of(op),
    )
}

/// Generates the complete builder API text for `operation`.
///
/// Succeeds exactly when every required field's name yields an identifier, no
/// two of them yield the same one, every remaining field's name yields an
/// identifier, and the operation's short name does too.
pub fn generate(operation: OperationSchema) -> (r: Result<String, Error>)
    ensures
        r is Ok <==> names_ok(required_fields_of(operation)) && names_distinct(
            required_fields_of(operation),
        ) && (forall|i: int|
            0 <= i < operation.fields@.len() ==> snake_of(
                (#[trigger] operation.fields@[i]).name@,
            ).len() > 0) && snake_of(operation.short_name@).len() > 0,
        r matches Ok(t) ==> exists|items: Seq<TypeStateItem>|
            slots_match(items, required_fields_of(operation)) && t@ == generated_text(
                operation,
                items,
            ),
        r matches Err(e) ==> e matches Error::InvalidName { .. } || e matches Error::NameCollision {
            ..
        },
{
    let b = match OperationBuilder::new(operation) {
        Ok(b) => b,
        Err(e) => {
            return Err(e);
        },
    };
    let mut r = match b.builder() {
        Ok(t) => t,
        Err(e) => {
            return Err(e);
        },
    };
    let opener = b.create_op_builder_fn();
    r.append(opener.as_str());
    let ctor = match b.create_default_constructor() {
        Ok(t) => t,
        Err(e) => {
            return Err(e);
        },
    };
    r.append(ctor.as_str());
    proof {
        assert(r@ == generated_text(b.operation, b.type_state.items@));
        assert(slots_match(b.type_state.items@, required_fields_of(b.operation)));
    }
    Ok(r)
}

} // verus!
