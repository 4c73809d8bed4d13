use ods_builder_gen::error::Error;
use ods_builder_gen::typestate::TypeStateItem;
use ods_builder_gen::typestate::TypeStateList;

const UNSET: &str = "::melior::dialect::ods_support::Unset";
const SET: &str = "::melior::dialect::ods_support::Set";

fn two_slots() -> TypeStateList {
    TypeStateList::new(vec![
        TypeStateItem::new("lhs".to_string()).unwrap(),
        TypeStateItem::new("rhs".to_string()).unwrap(),
    ])
}

#[test]
fn item_derives_prefixed_generic_param() {
    let item = TypeStateItem::new("someValue".to_string()).unwrap();
    assert_eq!(item.field_name, "someValue");
    assert_eq!(item.sanitized, "some_value");
    assert_eq!(item.generic_param, "__some_value");
}

#[test]
fn item_rejects_underivable_name() {
    match TypeStateItem::new("".to_string()) {
        Err(Error::InvalidName { name }) => assert_eq!(name, ""),
        _ => panic!("expected an invalid-name error"),
    }
}

#[test]
fn one_parameter_per_required_field() {
    // Two required fields give exactly two independent slots.
    let ts = two_slots();
    assert_eq!(ts.items().len(), 2);
    assert_eq!(ts.parameters(), vec!["__lhs".to_string(), "__rhs".to_string()]);
}

#[test]
fn parameters_without_removes_exactly_one_slot() {
    let ts = two_slots();
    assert_eq!(ts.parameters_without("lhs"), vec!["__rhs".to_string()]);
    assert_eq!(ts.parameters_without("rhs"), vec!["__lhs".to_string()]);
    assert_eq!(
        ts.parameters_without("absent"),
        vec!["__lhs".to_string(), "__rhs".to_string()]
    );
}

#[test]
fn arguments_replace_touches_only_the_named_slot() {
    let ts = two_slots();
    assert_eq!(
        ts.arguments_set("lhs"),
        vec![SET.to_string(), "__rhs".to_string()]
    );
    assert_eq!(
        ts.arguments_unset("lhs"),
        vec![UNSET.to_string(), "__rhs".to_string()]
    );
    assert_eq!(
        ts.arguments_set("rhs"),
        vec!["__lhs".to_string(), SET.to_string()]
    );
    assert_eq!(
        ts.arguments_unset("rhs"),
        vec!["__lhs".to_string(), UNSET.to_string()]
    );
}

#[test]
fn arguments_all_cover_every_slot() {
    let ts = two_slots();
    assert_eq!(ts.arguments_all_set(), vec![SET.to_string(), SET.to_string()]);
    assert_eq!(
        ts.arguments_all_unset(),
        vec![UNSET.to_string(), UNSET.to_string()]
    );
}
