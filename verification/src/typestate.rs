//! The type-state slots of a builder and the algebra of their generic
//! argument lists.
//!
//! Every required field of an operation gets one slot: a generic parameter of
//! the builder type whose only legal instantiations are the two marker types.
//! The methods here produce the parameter and argument lists that the emitted
//! text needs: the full list, the list with one slot removed, the list with
//! one slot replaced by a marker, and the list with every slot set to one
//! marker.

use vstd::prelude::*;
use vstd::string::StrSliceExecFns;
use vstd::string::StringExecFns;
use crate::error::Error;
use crate::ident::is_valid_identifier;
use crate::ident::sanitize_snake_case_name;
use crate::ident::sanitized_snake;
use crate::ident::snake_of;
use crate::ident::str_eq;

verus! {

/// The marker type written for a slot whose field is still unset.
pub open spec fn unset_marker() -> Seq<char> {
    "::melior::dialect::ods_support::Unset"@
}

/// The marker type written for a slot whose field has been supplied.
pub open spec fn set_marker() -> Seq<char> {
    "::melior::dialect::ods_support::Set"@
}

/// The marker type written for a slot whose field is still unset.
pub fn unset_marker_text() -> (r: String)
    ensures
        r@ == unset_marker(),
{
    String::from_str("::melior::dialect::ods_support::Unset")
}

/// The marker type written for a slot whose field has been supplied.
pub fn set_marker_text() -> (r: String)
    ensures
        r@ == set_marker(),
{
    String::from_str("::melior::dialect::ods_support::Set")
}

/// The generic slot identifier derived from field name `name`: two leading
/// underscores before the sanitized name, so that it collides with no other
/// identifier in the generated text.
pub open spec fn slot_param_of(name: Seq<char>) -> Seq<char> {
    "__"@ + sanitized_snake(name)
}

/// One type-state slot: a required field's name, the identifier derived from
/// it, and the generic parameter that tracks whether the field has been
/// supplied.
pub struct TypeStateItem {
    /// The field's name as declared in the schema.
    pub field_name: String,
    /// The generation-safe identifier derived from the field's name; used for
    /// the setter method, the storage field, and the convenience-constructor
    /// parameter alike.
    pub sanitized: String,
    /// The derived generic parameter identifier.
    pub generic_param: String,
}

impl TypeStateItem {
    /// Derives the slot for the field named `field_name`.
    ///
    /// Succeeds exactly when an identifier can be derived from the name.
    pub fn new(field_name: String) -> (r: Result<TypeStateItem, Error>)
        ensures
            r is Ok <==> snake_of(field_name@).len() > 0,
            r matches Ok(item) ==> item.field_name@ == field_name@ && item.sanitized@
                == sanitized_snake(field_name@) && item.generic_param@ == slot_param_of(
                field_name@,
            ) && is_valid_identifier(sanitized_snake(field_name@)),
            r matches Err(e) ==> e matches Error::InvalidName { name } && name@ == field_name@,
    {
        match sanitize_snake_case_name(field_name.as_str()) {
            Ok(id) => {
                let mut param = String::from_str("__");
                param.append(id.as_str());
                Ok(TypeStateItem { field_name, sanitized: id, generic_param: param })
            },
            Err(e) => Err(e),
        }
    }
}

impl Clone for TypeStateItem {
    fn clone(&self) -> (r: Self)
        ensures
            r == *self,
    {
        TypeStateItem {
            field_name: self.field_name.clone(),
            sanitized: self.sanitized.clone(),
            generic_param: self.generic_param.clone(),
        }
    }
}

/// The views of a sequence of owned strings.
pub open spec fn strings_view(v: Seq<String>) -> Seq<Seq<char>> {
    Seq::new(v.len(), |i: int| v[i]@)
}

/// The generic parameter list of `items`, in slot order.
pub open spec fn params_of(items: Seq<TypeStateItem>) -> Seq<Seq<char>> {
    Seq::new(items.len(), |i: int| items[i].generic_param@)
}

/// The generic parameter list of `items` with the slot of the field named
/// `name` removed, order preserved.
pub open spec fn params_without(items: Seq<TypeStateItem>, name: Seq<char>) -> Seq<Seq<char>>
    decreases items.len(),
{
    if items.len() == 0 {
        Seq::empty()
    } else {
        let rest = params_without(items.drop_last(), name);
        if items.last().field_name@ != name {
            rest.push(items.last().generic_param@)
        } else {
            rest
        }
    }
}

/// The generic argument list of `items` with the slot of the field named
/// `name` replaced by `arg`, every other slot kept polymorphic.
pub open spec fn args_replace(items: Seq<TypeStateItem>, name: Seq<char>, arg: Seq<char>) -> Seq<
    Seq<char>,
> {
    Seq::new(
        items.len(),
        |i: int|
            if items[i].field_name@ == name {
                arg
            } else {
                items[i].generic_param@
            },
    )
}

/// The generic argument list that instantiates every one of `n` slots with
/// `arg`.
pub open spec fn args_all(n: nat, arg: Seq<char>) -> Seq<Seq<char>> {
    Seq::new(n, |i: int| arg)
}

/// The ordered type-state slots of one operation's builder.
pub struct TypeStateList {
    /// The slots, one per required field, in declaration order.
    pub items: Vec<TypeStateItem>,
}

impl TypeStateList {
    /// Wraps the derived slots of one operation.
    pub fn new(items: Vec<TypeStateItem>) -> (r: TypeStateList)
        ensures
            r.items == items,
    {
        TypeStateList { items }
    }

    /// The slots in order.
    pub fn items(&self) -> (r: &Vec<TypeStateItem>)
        ensures
            r == &self.items,
    {
        &self.items
    }

    /// The full generic parameter list, one parameter per slot.
    pub fn parameters(&self) -> (r: Vec<String>)
        ensures
            strings_view(r@) == params_of(self.items@),
    {
        let mut r: Vec<String> = Vec::new();
        let mut i: usize = 0;
        while i < self.items.len()
            invariant
                i <= self.items.len(),
                r@.len() == i,
                forall|j: int| 0 <= j < i ==> r@[j]@ == self.items@[j].generic_param@,
            decreases self.items.len() - i,
        {
            r.push(self.items[i].generic_param.clone());
            i += 1;
        }
        proof {
            assert(strings_view(r@) =~= params_of(self.items@));
        }
        r
    }

    /// The generic parameter list with the slot of the field named
    /// `field_name` removed: the parameters a required setter stays generic
    /// over.
    pub fn parameters_without(&self, field_name: &str) -> (r: Vec<String>)
        ensures
            strings_view(r@) == params_without(self.items@, field_name@),
    {
        let mut r: Vec<String> = Vec::new();
        let mut i: usize = 0;
        while i < self.items.len()
            invariant
                i <= self.items.len(),
                strings_view(r@) == params_without(self.items@.take(i as int), field_name@),
            decreases self.items.len() - i,
        {
            proof {
                let s = self.items@.take(i + 1);
                assert(s.drop_last() =~= self.items@.take(i as int));
                assert(s.last() == self.items@[i as int]);
            }
            if !str_eq(self.items[i].field_name.as_str(), field_name) {
                r.push(self.items[i].generic_param.clone());
                proof {
                    assert(strings_view(r@) =~= params_without(
                        self.items@.take(i + 1),
                        field_name@,
                    ));
                }
            } else {
                proof {
                    assert(strings_view(r@) =~= params_without(
                        self.items@.take(i + 1),
                        field_name@,
                    ));
                }
            }
            i += 1;
        }
        proof {
            assert(self.items@.take(self.items@.len() as int) =~= self.items@);
        }
        r
    }

    /// The generic argument list with the slot of the field named
    /// `field_name` instantiated to `argument`, every other slot kept
    /// polymorphic.
    pub fn arguments_replace(&self, field_name: &str, argument: &str) -> (r: Vec<String>)
        ensures
            strings_view(r@) == args_replace(self.items@, field_name@, argument@),
    {
        let mut r: Vec<String> = Vec::new();
        let mut i: usize = 0;
        while i < self.items.len()
            invariant
                i <= self.items.len(),
                r@.len() == i,
                forall|j: int| 0 <= j < i ==> r@[j]@ == args_replace(
                    self.items@,
                    field_name@,
                    argument@,
                )[j],
            decreases self.items.len() - i,
        {
            if str_eq(self.items[i].field_name.as_str(), field_name) {
                r.push(argument.to_owned());
            } else {
                r.push(self.items[i].generic_param.clone());
            }
            i += 1;
        }
        proof {
            assert(strings_view(r@) =~= args_replace(self.items@, field_name@, argument@));
        }
        r
    }

    /// The argument list of a required setter's input instantiation: the
    /// field's own slot still unset, the rest polymorphic.
    pub fn arguments_unset(&self, field_name: &str) -> (r: Vec<String>)
        ensures
            strings_view(r@) == args_replace(self.items@, field_name@, unset_marker()),
    {
        let marker = unset_marker_text();
        self.arguments_replace(field_name, marker.as_str())
    }

    /// The argument list of a required setter's output instantiation: the
    /// field's own slot set, the rest polymorphic.
    pub fn arguments_set(&self, field_name: &str) -> (r: Vec<String>)
        ensures
            strings_view(r@) == args_replace(self.items@, field_name@, set_marker()),
    {
        let marker = set_marker_text();
        self.arguments_replace(field_name, marker.as_str())
    }

    /// The argument list of the one instantiation that exposes the terminal
    /// build method: every slot set.
    pub fn arguments_all_set(&self) -> (r: Vec<String>)
        ensures
            strings_view(r@) == args_all(self.items@.len(), set_marker()),
    {
        let mut r: Vec<String> = Vec::new();
        let mut i: usize = 0;
        while i < self.items.len()
            invariant
                i <= self.items.len(),
                r@.len() == i,
                forall|j: int| 0 <= j < i ==> r@[j]@ == set_marker(),
            decreases self.items.len() - i,
        {
            r.push(set_marker_text());
            i += 1;
        }
        proof {
            assert(strings_view(r@) =~= args_all(self.items@.len(), set_marker()));
        }
        r
    }

    /// The argument list of the constructor's instantiation: every slot
    /// unset.
    pub fn arguments_all_unset(&self) -> (r: Vec<String>)
        ensures
            strings_view(r@) == args_all(self.items@.len(), unset_marker()),
    {
        let mut r: Vec<String> = Vec::new();
        let mut i: usize = 0;
        while i < self.items.len()
            invariant
                i <= self.items.len(),
                r@.len() == i,
                forall|j: int| 0 <= j < i ==> r@[j]@ == unset_marker(),
            decreases self.items.len() - i,
        {
            r.push(unset_marker_text());
            i += 1;
        }
        proof {
            assert(strings_view(r@) =~= args_all(self.items@.len(), unset_marker()));
        }
        r
    }
}

} // verus!
