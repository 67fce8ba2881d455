use crate::error::{Error, ErrorView};
use crate::field::get_lit_spec;
use crate::input::rename_def_view;
use crate::lit::{Lit, LitView};
use crate::strukt::{FieldDecl, FieldDeclView};
use vstd::prelude::*;

verus! {

/// Compare a `String` with a string slice by contents.
pub fn str_is(s: &String, t: &str) -> (r: bool)
    ensures
        r == (s@ == t@),
{
    let o: String = t.to_owned();
    *s == o
}

/// The lowercase snake-case form of a string, a function of its characters
/// alone.
pub uninterp spec fn snake_of(s: Seq<char>) -> Seq<char>;

/// The uppercase snake-case form of a string, a function of its characters
/// alone.
pub uninterp spec fn shouty_snake_of(s: Seq<char>) -> Seq<char>;

/// Whether a character may begin an identifier word, as the Unicode
/// standard classifies it.
pub uninterp spec fn is_xid_start(c: char) -> bool;

/// Whether a character may continue an identifier word, as the Unicode
/// standard classifies it.
pub uninterp spec fn is_xid_continue(c: char) -> bool;

/// Relies on heck's `SnekCase` for `str`: the snake-case conversion returns
/// a string computed from the input's characters alone.
#[verifier::external_body]
pub(crate) fn to_snake(s: &str) -> (r: String)
    ensures
        r@ == snake_of(s@),
{
    heck::SnekCase::to_snek_case(s)
}

/// Relies on heck's `ShoutySnekCase` for `str`: the uppercase snake-case
/// conversion returns a string computed from the input's characters alone.
#[verifier::external_body]
pub(crate) fn to_shouty_snake(s: &str) -> (r: String)
    ensures
        r@ == shouty_snake_of(s@),
{
    heck::ShoutySnekCase::TO_SHOUTY_SNEK_CASE(s)
}

/// Relies on `unicode_ident::is_xid_start`: a lookup in the crate's
/// compiled-in Unicode tables, a function of the character alone.
#[verifier::external_body]
fn xid_start(c: char) -> (r: bool)
    ensures
        r == is_xid_start(c),
{
    unicode_ident::is_xid_start(c)
}

/// Relies on `unicode_ident::is_xid_continue`: a lookup in the crate's
/// compiled-in Unicode tables, a function of the character alone.
#[verifier::external_body]
fn xid_continue(c: char) -> (r: bool)
    ensures
        r == is_xid_continue(c),
{
    unicode_ident::is_xid_continue(c)
}

/// The characters of an identifier word: an underscore or a start
/// character, continued by continue characters.
pub open spec fn ident_chars(s: Seq<char>) -> bool {
    &&& s.len() > 0
    &&& (s[0] == '_' || is_xid_start(s[0]))
    &&& forall|i: int| 1 <= i < s.len() ==> is_xid_continue(#[trigger] s[i])
}

/// The words the identifier grammar reserves: the keywords, and the bare
/// underscore.
pub open spec fn is_keyword(s: Seq<char>) -> bool {
    ||| s == "_"@
    ||| s == "abstract"@
    ||| s == "as"@
    ||| s == "become"@
    ||| s == "box"@
    ||| s == "break"@
    ||| s == "const"@
    ||| s == "continue"@
    ||| s == "crate"@
    ||| s == "do"@
    ||| s == "else"@
    ||| s == "enum"@
    ||| s == "extern"@
    ||| s == "false"@
    ||| s == "final"@
    ||| s == "fn"@
    ||| s == "for"@
    ||| s == "if"@
    ||| s == "impl"@
    ||| s == "in"@
    ||| s == "let"@
    ||| s == "loop"@
    ||| s == "macro"@
    ||| s == "match"@
    ||| s == "mod"@
    ||| s == "move"@
    ||| s == "mut"@
    ||| s == "override"@
    ||| s == "priv"@
    ||| s == "pub"@
    ||| s == "ref"@
    ||| s == "return"@
    ||| s == "Self"@
    ||| s == "self"@
    ||| s == "static"@
    ||| s == "struct"@
    ||| s == "super"@
    ||| s == "trait"@
    ||| s == "true"@
    ||| s == "type"@
    ||| s == "typeof"@
    ||| s == "unsafe"@
    ||| s == "unsized"@
    ||| s == "use"@
    ||| s == "virtual"@
    ||| s == "where"@
    ||| s == "while"@
    ||| s == "yield"@
}

/// The words that may not stand behind a raw prefix.
pub open spec fn is_raw_reserved(s: Seq<char>) -> bool {
    ||| s == "_"@
    ||| s == "super"@
    ||| s == "self"@
    ||| s == "Self"@
    ||| s == "crate"@
}

/// A valid identifier for a rename, after Rust's identifier grammar: an
/// optional raw prefix, then an underscore or start character continued by
/// continue characters; without the prefix none of the reserved words, and
/// with it none of the words the prefix may not carry.
pub open spec fn is_valid_ident(s: Seq<char>) -> bool {
    if s.len() >= 2 && s[0] == 'r' && s[1] == '#' {
        ident_chars(s.skip(2)) && !is_raw_reserved(s.skip(2))
    } else {
        ident_chars(s) && !is_keyword(s)
    }
}

/// Compare two string slices by contents.
fn str_eq(a: &str, b: &str) -> (r: bool)
    ensures
        r == (a@ == b@),
{
    let oa: String = a.to_owned();
    let ob: String = b.to_owned();
    oa == ob
}

/// Whether a string holds identifier-word characters.
fn check_ident_chars(s: &str) -> (r: bool)
    ensures
        r == ident_chars(s@),
{
    let n = s.unicode_len();
    if n == 0 {
        return false;
    }
    let c0 = s.get_char(0);
    if !(c0 == '_' || xid_start(c0)) {
        return false;
    }
    let mut i: usize = 1;
    while i < n
        invariant
            1 <= i <= n,
            n == s@.len(),
            forall|j: int| 1 <= j < i ==> is_xid_continue(#[trigger] s@[j]),
        decreases n - i,
    {
        if !xid_continue(s.get_char(i)) {
            return false;
        }
        i += 1;
    }
    true
}

/// Whether a string is one of the reserved words.
fn check_keyword(s: &str) -> (r: bool)
    ensures
        r == is_keyword(s@),
{
    str_eq(s, "_") || str_eq(s, "abstract") || str_eq(s, "as") || str_eq(s, "become") || str_eq(
        s,
        "box",
    ) || str_eq(s, "break") || str_eq(s, "const") || str_eq(s, "continue") || str_eq(s, "crate")
        || str_eq(s, "do") || str_eq(s, "else") || str_eq(s, "enum") || str_eq(s, "extern")
        || str_eq(s, "false") || str_eq(s, "final") || str_eq(s, "fn") || str_eq(s, "for")
        || str_eq(s, "if") || str_eq(s, "impl") || str_eq(s, "in") || str_eq(s, "let") || str_eq(
        s,
        "loop",
    ) || str_eq(s, "macro") || str_eq(s, "match") || str_eq(s, "mod") || str_eq(s, "move")
        || str_eq(s, "mut") || str_eq(s, "override") || str_eq(s, "priv") || str_eq(s, "pub")
        || str_eq(s, "ref") || str_eq(s, "return") || str_eq(s, "Self") || str_eq(s, "self")
        || str_eq(s, "static") || str_eq(s, "struct") || str_eq(s, "super") || str_eq(s, "trait")
        || str_eq(s, "true") || str_eq(s, "type") || str_eq(s, "typeof") || str_eq(s, "unsafe")
        || str_eq(s, "unsized") || str_eq(s, "use") || str_eq(s, "virtual") || str_eq(s, "where")
        || str_eq(s, "while") || str_eq(s, "yield")
}

/// Whether a string is one of the words a raw prefix may not carry.
fn check_raw_reserved(s: &str) -> (r: bool)
    ensures
        r == is_raw_reserved(s@),
{
    str_eq(s, "_") || str_eq(s, "super") || str_eq(s, "self") || str_eq(s, "Self") || str_eq(
        s,
        "crate",
    )
}

/// Whether a string is a valid identifier for a rename.
pub fn valid_ident(s: &str) -> (r: bool)
    ensures
        r == is_valid_ident(s@),
{
    let n = s.unicode_len();
    if n >= 2 && s.get_char(0) == 'r' && s.get_char(1) == '#' {
        let rest = s.substring_char(2, n);
        proof {
            assert(rest@ =~= s@.skip(2));
        }
        check_ident_chars(rest) && !check_raw_reserved(rest)
    } else {
        check_ident_chars(s) && !check_keyword(s)
    }
}

/// The module name the expansion uses for a type: the type's identifier in
/// snake case behind a double underscore.
pub open spec fn mod_name_spec(name: Seq<char>) -> Seq<char> {
    "__"@ + snake_of(name)
}

/// The module name the expansion uses for a type.
pub fn mod_name(name: &String) -> (r: String)
    ensures
        r@ == mod_name_spec(name@),
{
    let prefix: String = "__".to_owned();
    let snake = to_snake(name.as_str());
    prefix.concat(snake.as_str())
}

/// What naming a member answers: its rename value where one is given (a
/// string, or the member is refused), else its declared identifier (absent
/// only on an unnamed struct, which is refused); beside it the name of the
/// generated constant, the name with a suffix in uppercase snake case.
pub open spec fn field_name_spec(f: FieldDeclView) -> Result<(Seq<char>, Seq<char>), ErrorView> {
    match get_lit_spec(rename_def_view(), f.attrs) {
        Ok(l) => match l {
            Some(LitView::Str(s)) => Ok((s, shouty_snake_of(s + "_field"@))),
            Some(_) => Err(ErrorView::UnexpectedShape),
            None => match f.name {
                Some(n) => Ok((n, shouty_snake_of(n + "_field"@))),
                None => Err(ErrorView::UnnamedField),
            },
        },
        Err(e) => Err(e),
    }
}

/// Name a member: its rename value or its declared identifier, beside the
/// name of the generated constant.
pub fn field_name(f: &FieldDecl) -> (r: Result<(String, String), Error>)
    ensures
        crate::views::res_dv(r) == field_name_spec(f@),
{
    let rename = crate::input::rename_field();
    let name: String = match rename.get_lit(&f.attrs) {
        Ok(l) => match l {
            Some(Lit::Str(s)) => s,
            Some(_) => {
                return Err(Error::UnexpectedShape);
            },
            None => match &f.name {
                Some(n) => n.clone(),
                None => {
                    return Err(Error::UnnamedField);
                },
            },
        },
        Err(e) => {
            return Err(e);
        },
    };
    let suffixed = name.clone().concat("_field");
    let cname = to_shouty_snake(suffixed.as_str());
    proof {
        reveal_strlit("_field");
    }
    Ok((name, cname))
}

} // verus!
