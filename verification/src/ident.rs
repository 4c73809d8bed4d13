//! Derivation of generation-safe identifiers from schema field names.
//!
//! A field name goes through three steps: case normalization to snake case
//! (done by the `convert_case` crate), replacement of every character that can
//! not stand in an identifier, and escaping of names that would clash with a
//! keyword of the target language.  The result is deterministic, so the same
//! field name yields the same identifier at every site that mentions it.

use vstd::prelude::*;
use vstd::string::StrSliceExecFns;
use vstd::string::StringExecFns;
use convert_case::Case;
use convert_case::Casing;
use crate::error::Error;

verus! {

/// What `convert_case` turns a string into under its snake-case rules:
/// words split at case and separator boundaries, lowercased, joined by `'_'`.
pub uninterp spec fn snake_of(s: Seq<char>) -> Seq<char>;

/// Relies on `convert_case::Casing::to_case` with `Case::Snake`: a pure
/// transformation of the input characters, so its result gets the name
/// `snake_of` and nothing more is assumed of it.
#[verifier::external_body]
fn to_snake_case(s: &str) -> (r: String)
    ensures
        r@ == snake_of(s@),
{
    s.to_case(Case::Snake)
}

/// Relies on `String::push`: appends one character at the end.
#[verifier::external_body]
fn push_char(s: &mut String, c: char)
    ensures
        final(s)@ == old(s)@.push(c),
{
    s.push(c);
}

/// Tells whether `c` may stand in an identifier: an ASCII letter, an ASCII
/// digit, or an underscore.
pub open spec fn spec_is_ident_char(c: char) -> bool {
    ||| 'a' as u32 <= c as u32 && c as u32 <= 'z' as u32
    ||| 'A' as u32 <= c as u32 && c as u32 <= 'Z' as u32
    ||| '0' as u32 <= c as u32 && c as u32 <= '9' as u32
    ||| c == '_'
}

/// Tells whether `c` is an ASCII digit.
pub open spec fn spec_is_digit(c: char) -> bool {
    '0' as u32 <= c as u32 && c as u32 <= '9' as u32
}

fn is_ident_char(c: char) -> (r: bool)
    ensures
        r == spec_is_ident_char(c),
{
    ('a' as u32 <= c as u32 && c as u32 <= 'z' as u32) || ('A' as u32 <= c as u32 && c as u32
        <= 'Z' as u32) || ('0' as u32 <= c as u32 && c as u32 <= '9' as u32) || c == '_'
}

fn is_digit(c: char) -> (r: bool)
    ensures
        r == spec_is_digit(c),
{
    '0' as u32 <= c as u32 && c as u32 <= '9' as u32
}

/// `s` with every character that can not stand in an identifier replaced by
/// an underscore.
pub open spec fn cleaned(s: Seq<char>) -> Seq<char> {
    s.map_values(|c: char| if spec_is_ident_char(c) { c } else { '_' })
}

/// Tells whether `s` is spelled like a keyword of the target language, so
/// that an identifier of that spelling would not parse.
pub open spec fn spec_is_reserved(s: Seq<char>) -> bool {
    ||| s == "as"@
    ||| s == "async"@
    ||| s == "await"@
    ||| s == "break"@
    ||| s == "const"@
    ||| s == "continue"@
    ||| s == "crate"@
    ||| s == "do"@
    ||| s == "dyn"@
    ||| s == "else"@
    ||| s == "enum"@
    ||| s == "ex"@ + "tern"@
    ||| s == "false"@
    ||| s == "fn"@
    ||| s == "for"@
    ||| s == "if"@
    ||| s == "impl"@
    ||| s == "in"@
    ||| s == "let"@
    ||| s == "loop"@
    ||| s == "match"@
    ||| s == "mod"@
    ||| s == "move"@
    ||| s == "mut"@
    ||| s == "pub"@
    ||| s == "ref"@
    ||| s == "return"@
    ||| s == "self"@
    ||| s == "static"@
    ||| s == "struct"@
    ||| s == "super"@
    ||| s == "trait"@
    ||| s == "true"@
    ||| s == "try"@
    ||| s == "type"@
    ||| s == "unsafe"@
    ||| s == "use"@
    ||| s == "where"@
    ||| s == "while"@
    ||| s == "abstract"@
    ||| s == "become"@
    ||| s == "box"@
    ||| s == "final"@
    ||| s == "macro"@
    ||| s == "override"@
    ||| s == "priv"@
    ||| s == "typeof"@
    ||| s == "unsized"@
    ||| s == "virtual"@
    ||| s == "yield"@
}

/// Tells whether `s` is spelled like a keyword of the target language.
pub fn is_reserved(s: &str) -> (r: bool)
    ensures
        r == spec_is_reserved(s@),
{
    let joined: String = String::from_str("ex").concat("tern");
    let part1 = str_eq(s, "as") || str_eq(s, "async") || str_eq(s, "await") || str_eq(s, "break")
        || str_eq(s, "const") || str_eq(s, "continue") || str_eq(s, "crate") || str_eq(s, "do")
        || str_eq(s, "dyn") || str_eq(s, "else") || str_eq(s, "enum") || str_eq(s, joined.as_str());
    let part2 = str_eq(s, "false") || str_eq(s, "fn") || str_eq(s, "for") || str_eq(s, "if")
        || str_eq(s, "impl") || str_eq(s, "in") || str_eq(s, "let") || str_eq(s, "loop") || str_eq(
        s,
        "match",
    ) || str_eq(s, "mod") || str_eq(s, "move") || str_eq(s, "mut") || str_eq(s, "pub");
    let part3 = str_eq(s, "ref") || str_eq(s, "return") || str_eq(s, "self") || str_eq(s, "static")
        || str_eq(s, "struct") || str_eq(s, "super") || str_eq(s, "trait") || str_eq(s, "true")
        || str_eq(s, "try") || str_eq(s, "type") || str_eq(s, "unsafe") || str_eq(s, "use")
        || str_eq(s, "where") || str_eq(s, "while");
    let part4 = str_eq(s, "abstract") || str_eq(s, "become") || str_eq(s, "box") || str_eq(
        s,
        "final",
    ) || str_eq(s, "macro") || str_eq(s, "override") || str_eq(s, "priv") || str_eq(s, "typeof")
        || str_eq(s, "unsized") || str_eq(s, "virtual") || str_eq(s, "yield");
    part1 || part2 || part3 || part4
}

/// No keyword of the target language ends in an underscore, so a name with
/// that suffix is never reserved.
pub proof fn lemma_underscore_suffix_not_reserved(s: Seq<char>)
    requires
        s.len() > 0,
        s.last() == '_',
    ensures
        !spec_is_reserved(s),
{
    reveal_strlit("as");
    reveal_strlit("async");
    reveal_strlit("await");
    reveal_strlit("break");
    reveal_strlit("const");
    reveal_strlit("continue");
    reveal_strlit("crate");
    reveal_strlit("do");
    reveal_strlit("dyn");
    reveal_strlit("else");
    reveal_strlit("enum");
    reveal_strlit("ex");
    reveal_strlit("tern");
    reveal_strlit("false");
    reveal_strlit("fn");
    reveal_strlit("for");
    reveal_strlit("if");
    reveal_strlit("impl");
    reveal_strlit("in");
    reveal_strlit("let");
    reveal_strlit("loop");
    reveal_strlit("match");
    reveal_strlit("mod");
    reveal_strlit("move");
    reveal_strlit("mut");
    reveal_strlit("pub");
    reveal_strlit("ref");
    reveal_strlit("return");
    reveal_strlit("self");
    reveal_strlit("static");
    reveal_strlit("struct");
    reveal_strlit("super");
    reveal_strlit("trait");
    reveal_strlit("true");
    reveal_strlit("try");
    reveal_strlit("type");
    reveal_strlit("unsafe");
    reveal_strlit("use");
    reveal_strlit("where");
    reveal_strlit("while");
    reveal_strlit("abstract");
    reveal_strlit("become");
    reveal_strlit("box");
    reveal_strlit("final");
    reveal_strlit("macro");
    reveal_strlit("override");
    reveal_strlit("priv");
    reveal_strlit("typeof");
    reveal_strlit("unsized");
    reveal_strlit("virtual");
    reveal_strlit("yield");
}

/// Compares two string slices character by character.
pub fn str_eq(a: &str, b: &str) -> (r: bool)
    ensures
        r == (a@ == b@),
{
    let n = a.unicode_len();
    if n != b.unicode_len() {
        assert(a@.len() != b@.len());
        return false;
    }
    let mut i: usize = 0;
    while i < n
        invariant
            n == a@.len(),
            n == b@.len(),
            i <= n,
            forall|j: int| 0 <= j < i ==> a@[j] == b@[j],
        decreases n - i,
    {
        if a.get_char(i) != b.get_char(i) {
            return false;
        }
        i += 1;
    }
    proof {
        assert(a@ =~= b@);
    }
    true
}

/// The identifier derived from field name `s`: its snake-case form, with
/// every unusable character replaced by an underscore, an underscore prepended
/// when the first character is a digit, and an underscore appended when the
/// spelling would clash with a keyword.
pub open spec fn sanitized_snake(s: Seq<char>) -> Seq<char> {
    let base = cleaned(snake_of(s));
    let pref = if base.len() > 0 && spec_is_digit(base[0]) {
        seq!['_'] + base
    } else {
        base
    };
    if spec_is_reserved(pref) {
        pref.push('_')
    } else {
        pref
    }
}

/// Tells whether `s` can stand as an identifier in generated text: non-empty,
/// made of identifier characters, not digit-led, and not a keyword.
pub open spec fn is_valid_identifier(s: Seq<char>) -> bool {
    &&& s.len() > 0
    &&& forall|i: int| 0 <= i < s.len() ==> spec_is_ident_char(s[i])
    &&& !spec_is_digit(s[0])
    &&& !spec_is_reserved(s)
}

/// Derives the generation-safe identifier for field name `name`.
///
/// Succeeds exactly when the snake-case form of `name` is non-empty; the
/// result is then a valid identifier, and the same one at every call.
pub fn sanitize_snake_case_name(name: &str) -> (r: Result<String, Error>)
    ensures
        r is Ok <==> snake_of(name@).len() > 0,
        r matches Ok(id) ==> id@ == sanitized_snake(name@) && is_valid_identifier(id@),
        r matches Err(e) ==> e matches Error::InvalidName { name: n } && n@ == name@,
{
    let snake = to_snake_case(name);
    let n = snake.as_str().unicode_len();
    if n == 0 {
        return Err(Error::InvalidName { name: name.to_owned() });
    }
    let ghost base: Seq<char> = cleaned(snake@);
    proof {
        assert(base.len() == snake@.len());
    }
    let mut out = String::new();
    let first = snake.as_str().get_char(0);
    // The first cleaned character is a digit exactly when the first raw
    // character is: digits pass through the cleaning unchanged, and every
    // replacement yields an underscore.
    let digit_led = is_digit(first);
    proof {
        assert(base[0] == (if spec_is_ident_char(snake@[0]) {
            snake@[0]
        } else {
            '_'
        }));
        assert(spec_is_digit(base[0]) == spec_is_digit(snake@[0]));
    }
    if digit_led {
        push_char(&mut out, '_');
    }
    let ghost pre: Seq<char> = out@;
    let mut i: usize = 0;
    while i < n
        invariant
            n == snake@.len(),
            base == cleaned(snake@),
            i <= n,
            out@ == pre + base.take(i as int),
        decreases n - i,
    {
        let c = snake.as_str().get_char(i);
        let kept = if is_ident_char(c) {
            c
        } else {
            '_'
        };
        push_char(&mut out, kept);
        proof {
            assert(base[i as int] == kept);
            assert(base.take(i + 1) =~= base.take(i as int).push(kept));
        }
        i += 1;
    }
    proof {
        assert(base.take(n as int) =~= base);
        assert(out@ =~= pre + base);
        if digit_led {
            assert(out@ == seq!['_'] + base);
        } else {
            assert(out@ == base);
        }
    }
    let ghost pref: Seq<char> = out@;
    proof {
        assert(pref.len() > 0);
        assert(!spec_is_digit(pref[0]));
        assert(forall|j: int| 0 <= j < pref.len() ==> spec_is_ident_char(#[trigger] pref[j]));
    }
    if is_reserved(out.as_str()) {
        push_char(&mut out, '_');
        proof {
            lemma_underscore_suffix_not_reserved(out@);
        }
    }
    proof {
        assert(out@ == sanitized_snake(name@));
        assert(is_valid_identifier(out@));
    }
    Ok(out)
}

} // verus!
