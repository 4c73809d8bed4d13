//! Low-level assembly of generated text: joining lists and forming generic
//! parameter lists.

use vstd::prelude::*;
use vstd::string::StringExecFns;
use crate::typestate::strings_view;

verus! {

/// The elements of `parts` joined by `sep`.
pub open spec fn join_with(parts: Seq<Seq<char>>, sep: Seq<char>) -> Seq<char>
    decreases parts.len(),
{
    if parts.len() == 0 {
        Seq::empty()
    } else if parts.len() == 1 {
        parts[0]
    } else {
        parts[0] + sep + join_with(parts.drop_first(), sep)
    }
}

/// Joining one more element appends a separator and the element, except to an
/// empty list.
pub proof fn lemma_join_push(parts: Seq<Seq<char>>, sep: Seq<char>, x: Seq<char>)
    ensures
        join_with(parts.push(x), sep) == if parts.len() == 0 {
            x
        } else {
            join_with(parts, sep) + sep + x
        },
    decreases parts.len(),
{
    if parts.len() == 0 {
        assert(parts.push(x).len() == 1);
        assert(parts.push(x)[0] == x);
    } else {
        lemma_join_push(parts.drop_first(), sep, x);
        assert(parts.push(x).drop_first() =~= parts.drop_first().push(x));
        assert(parts.push(x)[0] == parts[0]);
        if parts.len() == 1 {
            assert(join_with(parts.push(x), sep) == parts[0] + sep + x);
            assert(join_with(parts, sep) == parts[0]);
        } else {
            let rest = join_with(parts.drop_first(), sep);
            assert(join_with(parts.push(x), sep) == parts[0] + sep + (rest + sep + x));
            assert(parts[0] + sep + (rest + sep + x) =~= (parts[0] + sep + rest) + sep + x);
        }
    }
}

/// Joins the given parts with `sep`.
pub fn join_strings(parts: &Vec<String>, sep: &str) -> (r: String)
    ensures
        r@ == join_with(strings_view(parts@), sep@),
{
    let mut r = String::new();
    let mut i: usize = 0;
    while i < parts.len()
        invariant
            i <= parts.len(),
            r@ == join_with(strings_view(parts@).take(i as int), sep@),
        decreases parts.len() - i,
    {
        if i > 0 {
            r.append(sep);
        }
        r.append(parts[i].as_str());
        proof {
            let sv = strings_view(parts@);
            assert(sv.take(i + 1) =~= sv.take(i as int).push(sv[i as int]));
            lemma_join_push(sv.take(i as int), sep@, sv[i as int]);
            assert(sv[i as int] == parts@[i as int]@);
            if i == 0 {
                assert(r@ =~= join_with(sv.take(1), sep@));
            }
        }
        i += 1;
    }
    proof {
        assert(strings_view(parts@).take(parts@.len() as int) =~= strings_view(parts@));
    }
    r
}

/// A generic parameter or argument list: the context lifetime first, then the
/// given entries, comma-separated and angle-bracketed.
pub open spec fn generic_list(args: Seq<Seq<char>>) -> Seq<char> {
    "<"@ + join_with(seq!["'c"@] + args, ", "@) + ">"@
}

/// Renders a generic parameter or argument list.
pub fn generic_list_text(args: &Vec<String>) -> (r: String)
    ensures
        r@ == generic_list(strings_view(args@)),
{
    let mut r = String::from_str("<");
    r.append("'c");
    let mut i: usize = 0;
    while i < args.len()
        invariant
            i <= args.len(),
            r@ == "<"@ + join_with(seq!["'c"@] + strings_view(args@).take(i as int), ", "@),
        decreases args.len() - i,
    {
        r.append(", ");
        r.append(args[i].as_str());
        proof {
            let sv = strings_view(args@);
            let base = seq!["'c"@] + sv.take(i as int);
            assert(seq!["'c"@] + sv.take(i + 1) =~= base.push(sv[i as int]));
            lemma_join_push(base, ", "@, sv[i as int]);
            assert(sv[i as int] == args@[i as int]@);
            assert(r@ =~= "<"@ + join_with(base.push(sv[i as int]), ", "@));
        }
        i += 1;
    }
    proof {
        let sv = strings_view(args@);
        assert(sv.take(args@.len() as int) =~= sv);
    }
    r.append(">");
    r
}

} // verus!
