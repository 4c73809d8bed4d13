use ods_builder_gen::builder::OperationBuilder;
use ods_builder_gen::builder::generate;
use ods_builder_gen::error::Error;
use ods_builder_gen::schema::FieldArity;
use ods_builder_gen::schema::FieldDescriptor;
use ods_builder_gen::schema::FieldRole;
use ods_builder_gen::schema::OperationSchema;

fn field(name: &str, role: FieldRole, arity: FieldArity, ty: &str) -> FieldDescriptor {
    FieldDescriptor {
        name: name.to_string(),
        role,
        arity,
        parameter_type: ty.to_string(),
    }
}

const VALUE: &str = "::melior::ir::Value<'c, '_>";

/// Two required operands, no optional field.
fn example_a() -> OperationSchema {
    OperationSchema {
        class_name: "AddOperation".to_string(),
        short_name: "add".to_string(),
        full_name: "test.add".to_string(),
        summary: "test.add operation".to_string(),
        can_infer_type: false,
        fields: vec![
            field("lhs", FieldRole::Operand, FieldArity::Single, VALUE),
            field("rhs", FieldRole::Operand, FieldArity::Single, VALUE),
        ],
    }
}

/// Example A with an optional attribute added.
fn example_b() -> OperationSchema {
    let mut schema = example_a();
    schema.fields.push(field("flag", FieldRole::Attribute, FieldArity::Optional, "bool"));
    schema
}

/// Zero fields at all.
fn example_c() -> OperationSchema {
    OperationSchema {
        class_name: "FooOperation".to_string(),
        short_name: "foo".to_string(),
        full_name: "test.foo".to_string(),
        summary: "foo op".to_string(),
        can_infer_type: false,
        fields: vec![],
    }
}

const STRUCT_A: &str = "#[doc = \"Builder for test.add operation\"] pub struct AddOperationBuilder<'c, __lhs, __rhs> { builder: ::melior::ir::operation::OperationBuilder<'c>, context: &'c ::melior::Context, lhs: ::std::marker::PhantomData<__lhs>, rhs: ::std::marker::PhantomData<__rhs> }\n";

const NEW_A: &str = "impl<'c> AddOperationBuilder<'c, ::melior::dialect::ods_support::Unset, ::melior::dialect::ods_support::Unset> { pub fn new(location: ::melior::ir::Location<'c>) -> Self { Self { context: unsafe { location.context().to_ref() }, builder: ::melior::ir::operation::OperationBuilder::new(\"test.add\", location), lhs: ::std::marker::PhantomData, rhs: ::std::marker::PhantomData } } }\n";

const SETTER_LHS: &str = "impl<'c, __rhs> AddOperationBuilder<'c, ::melior::dialect::ods_support::Unset, __rhs> { pub fn lhs(mut self, lhs: ::melior::ir::Value<'c, '_>) -> AddOperationBuilder<'c, ::melior::dialect::ods_support::Set, __rhs> { self.builder = self.builder.add_operands(&[lhs]); let Self { context, mut builder, lhs, rhs } = self; AddOperationBuilder { context, builder, lhs: ::std::marker::PhantomData, rhs: ::std::marker::PhantomData } } }\n";

const SETTER_RHS: &str = "impl<'c, __lhs> AddOperationBuilder<'c, __lhs, ::melior::dialect::ods_support::Unset> { pub fn rhs(mut self, rhs: ::melior::ir::Value<'c, '_>) -> AddOperationBuilder<'c, __lhs, ::melior::dialect::ods_support::Set> { self.builder = self.builder.add_operands(&[rhs]); let Self { context, mut builder, lhs, rhs } = self; AddOperationBuilder { context, builder, lhs: ::std::marker::PhantomData, rhs: ::std::marker::PhantomData } } }\n";

const BUILD_A: &str = "impl<'c> AddOperationBuilder<'c, ::melior::dialect::ods_support::Set, ::melior::dialect::ods_support::Set> { pub fn build(self) -> AddOperation<'c> { self.builder.build().try_into().expect(\"should be a valid AddOperation\") } }\n";

const SETTER_FLAG: &str = "impl<'c, __lhs, __rhs> AddOperationBuilder<'c, __lhs, __rhs> { pub fn flag(mut self, flag: bool) -> AddOperationBuilder<'c, __lhs, __rhs> { self.builder = self.builder.add_attributes(&[(::melior::ir::Identifier::new(self.context, \"flag\"), flag.into())]); self } }\n";

#[test]
fn builder_emits_struct_setters_and_build() {
    let b = OperationBuilder::new(example_a()).unwrap();
    let text = b.builder().unwrap();
    let expected = format!("{STRUCT_A}{NEW_A}{SETTER_LHS}{SETTER_RHS}{BUILD_A}");
    assert_eq!(text, expected);
}

#[test]
fn required_setters_flip_exactly_their_own_slot() {
    let b = OperationBuilder::new(example_a()).unwrap();
    let setters = b.create_builder_fns().unwrap();
    assert_eq!(setters.len(), 2);
    assert_eq!(setters[0], SETTER_LHS);
    assert_eq!(setters[1], SETTER_RHS);
}

#[test]
fn optional_setter_keeps_every_type_argument() {
    let b = OperationBuilder::new(example_b()).unwrap();
    let setters = b.create_builder_fns().unwrap();
    assert_eq!(setters.len(), 3);
    assert_eq!(setters[2], SETTER_FLAG);
    // The optional field adds no slot.
    assert_eq!(b.type_state.items().len(), 2);
}

#[test]
fn zero_required_fields_build_available_immediately() {
    let b = OperationBuilder::new(example_c()).unwrap();
    assert_eq!(b.type_state.items().len(), 0);
    let text = b.builder().unwrap();
    let struct_text = "#[doc = \"Builder for foo op\"] pub struct FooOperationBuilder<'c> { builder: ::melior::ir::operation::OperationBuilder<'c>, context: &'c ::melior::Context }\n";
    let new_text = "impl<'c> FooOperationBuilder<'c> { pub fn new(location: ::melior::ir::Location<'c>) -> Self { Self { context: unsafe { location.context().to_ref() }, builder: ::melior::ir::operation::OperationBuilder::new(\"test.foo\", location) } } }\n";
    let build_text = "impl<'c> FooOperationBuilder<'c> { pub fn build(self) -> FooOperation<'c> { self.builder.build().try_into().expect(\"should be a valid FooOperation\") } }\n";
    assert_eq!(text, format!("{struct_text}{new_text}{build_text}"));
}

#[test]
fn op_builder_fn_opens_at_all_unset() {
    let b = OperationBuilder::new(example_a()).unwrap();
    assert_eq!(
        b.create_op_builder_fn(),
        "pub fn builder(location: ::melior::ir::Location<'c>) -> AddOperationBuilder<'c, ::melior::dialect::ods_support::Unset, ::melior::dialect::ods_support::Unset> { AddOperationBuilder::new(location) }\n"
    );
}

#[test]
fn default_constructor_chains_in_declaration_order() {
    let b = OperationBuilder::new(example_a()).unwrap();
    assert_eq!(
        b.create_default_constructor().unwrap(),
        "#[allow(clippy::too_many_arguments)] #[doc = \"Creates a new test.add operation\"] pub fn add<'c>(lhs: ::melior::ir::Value<'c, '_>, rhs: ::melior::ir::Value<'c, '_>, location: ::melior::ir::Location<'c>) -> AddOperation<'c> { AddOperation::builder(location).lhs(lhs).rhs(rhs).build() }\n"
    );
}

#[test]
fn reserved_field_name_uses_one_identifier_everywhere() {
    // A field named like a keyword gets the same escaped identifier as the
    // setter name and as the convenience-constructor parameter.
    let schema = OperationSchema {
        class_name: "IfOperation".to_string(),
        short_name: "if".to_string(),
        full_name: "test.if".to_string(),
        summary: "test.if operation".to_string(),
        can_infer_type: false,
        fields: vec![field("else", FieldRole::Operand, FieldArity::Single, VALUE)],
    };
    let b = OperationBuilder::new(schema).unwrap();
    let setters = b.create_builder_fns().unwrap();
    assert!(setters[0].contains("pub fn else_(mut self, else_: "));
    let ctor = b.create_default_constructor().unwrap();
    assert!(ctor.contains("pub fn if_<'c>(else_: "));
    assert!(ctor.contains(".else_(else_)"));
}

#[test]
fn inferred_result_field_is_exempt() {
    let schema = OperationSchema {
        class_name: "CastOperation".to_string(),
        short_name: "cast".to_string(),
        full_name: "test.cast".to_string(),
        summary: "test.cast operation".to_string(),
        can_infer_type: true,
        fields: vec![
            field("result", FieldRole::Result, FieldArity::Single, "::melior::ir::Type<'c>"),
            field("value", FieldRole::Operand, FieldArity::Single, VALUE),
        ],
    };
    let b = OperationBuilder::new(schema).unwrap();
    // The exempt result field gets no slot and no setter text.
    assert_eq!(b.type_state.items().len(), 1);
    let setters = b.create_builder_fns().unwrap();
    assert_eq!(setters[0], "");
    let text = b.builder().unwrap();
    assert!(text.contains("self.builder.enable_result_type_inference().build()"));
}

#[test]
fn variadic_field_passes_its_collection_through() {
    let schema = OperationSchema {
        class_name: "CallOperation".to_string(),
        short_name: "call".to_string(),
        full_name: "test.call".to_string(),
        summary: "test.call operation".to_string(),
        can_infer_type: false,
        fields: vec![
            field("arguments", FieldRole::Operand, FieldArity::Variadic, "&[::melior::ir::Value<'c, '_>]"),
        ],
    };
    let b = OperationBuilder::new(schema).unwrap();
    let setters = b.create_builder_fns().unwrap();
    assert!(setters[0].contains("self.builder = self.builder.add_operands(arguments);"));
}

#[test]
fn single_region_field_wraps_into_a_vec() {
    let schema = OperationSchema {
        class_name: "LoopOperation".to_string(),
        short_name: "looping".to_string(),
        full_name: "test.looping".to_string(),
        summary: "test.looping operation".to_string(),
        can_infer_type: false,
        fields: vec![
            field("body", FieldRole::Region, FieldArity::Single, "::melior::ir::Region<'c>"),
        ],
    };
    let b = OperationBuilder::new(schema).unwrap();
    let setters = b.create_builder_fns().unwrap();
    assert!(setters[0].contains("self.builder = self.builder.add_regions(vec![body]);"));
}

#[test]
fn colliding_field_names_are_rejected() {
    let schema = OperationSchema {
        class_name: "BadOperation".to_string(),
        short_name: "bad".to_string(),
        full_name: "test.bad".to_string(),
        summary: "test.bad operation".to_string(),
        can_infer_type: false,
        fields: vec![
            field("a_b", FieldRole::Operand, FieldArity::Single, VALUE),
            field("aB", FieldRole::Operand, FieldArity::Single, VALUE),
        ],
    };
    match OperationBuilder::new(schema) {
        Err(Error::NameCollision { name }) => assert_eq!(name, "aB"),
        _ => panic!("expected a name-collision error"),
    }
}

#[test]
fn underivable_required_name_is_rejected() {
    let schema = OperationSchema {
        class_name: "BadOperation".to_string(),
        short_name: "bad".to_string(),
        full_name: "test.bad".to_string(),
        summary: "test.bad operation".to_string(),
        can_infer_type: false,
        fields: vec![field("", FieldRole::Operand, FieldArity::Single, VALUE)],
    };
    match OperationBuilder::new(schema) {
        Err(Error::InvalidName { name }) => assert_eq!(name, ""),
        _ => panic!("expected an invalid-name error"),
    }
}

#[test]
fn underivable_short_name_is_rejected() {
    let mut schema = example_a();
    schema.short_name = "".to_string();
    let b = OperationBuilder::new(schema).unwrap();
    match b.create_default_constructor() {
        Err(Error::InvalidName { name }) => assert_eq!(name, ""),
        _ => panic!("expected an invalid-name error"),
    }
}

#[test]
fn generate_concatenates_all_parts() {
    let b = OperationBuilder::new(example_a()).unwrap();
    let expected = format!(
        "{}{}{}",
        b.builder().unwrap(),
        b.create_op_builder_fn(),
        b.create_default_constructor().unwrap()
    );
    assert_eq!(generate(example_a()).unwrap(), expected);
}
