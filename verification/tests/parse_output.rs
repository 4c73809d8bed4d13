//! The emitted text must parse as items of the target language.

use ods_builder_gen::builder::OperationBuilder;
use ods_builder_gen::schema::FieldArity;
use ods_builder_gen::schema::FieldDescriptor;
use ods_builder_gen::schema::FieldRole;
use ods_builder_gen::schema::OperationSchema;

fn sample_schema() -> OperationSchema {
    OperationSchema {
        class_name: "SampleOperation".to_string(),
        short_name: "sample".to_string(),
        full_name: "test.sample".to_string(),
        summary: "test.sample operation".to_string(),
        can_infer_type: false,
        fields: vec![
            FieldDescriptor {
                name: "lhs".to_string(),
                role: FieldRole::Operand,
                arity: FieldArity::Single,
                parameter_type: "::melior::ir::Value<'c, '_>".to_string(),
            },
            FieldDescriptor {
                name: "else".to_string(),
                role: FieldRole::Successor,
                arity: FieldArity::Single,
                parameter_type: "&::melior::ir::Block<'c>".to_string(),
            },
            FieldDescriptor {
                name: "flag".to_string(),
                role: FieldRole::Attribute,
                arity: FieldArity::Optional,
                parameter_type: "bool".to_string(),
            },
            FieldDescriptor {
                name: "body".to_string(),
                role: FieldRole::Region,
                arity: FieldArity::Variadic,
                parameter_type: "Vec<::melior::ir::Region<'c>>".to_string(),
            },
        ],
    }
}

#[test]
fn builder_text_parses_as_items() {
    let b = OperationBuilder::new(sample_schema()).unwrap();
    let text = b.builder().unwrap();
    syn::parse_str::<syn::File>(&text).expect("builder text should parse");
}

#[test]
fn default_constructor_parses_as_items() {
    let b = OperationBuilder::new(sample_schema()).unwrap();
    let text = b.create_default_constructor().unwrap();
    syn::parse_str::<syn::File>(&text).expect("constructor text should parse");
}

#[test]
fn op_builder_fn_parses_inside_an_impl() {
    let b = OperationBuilder::new(sample_schema()).unwrap();
    let text = b.create_op_builder_fn();
    let spliced = format!("impl<'c> SampleOperation<'c> {{ {} }}", text);
    syn::parse_str::<syn::File>(&spliced).expect("opener text should parse");
}
