//! The pieces of generated source text that come from the token library:
//! identifiers and string literals.

use vstd::prelude::*;
use vstd::string::*;

verus! {

/// Whether `unicode_ident` counts `c` among the characters that may start an
/// identifier.
pub uninterp spec fn xid_start(c: char) -> bool;

/// Whether `unicode_ident` counts `c` among the characters that may continue
/// an identifier.
pub uninterp spec fn xid_continue(c: char) -> bool;

/// The source text of the string literal that `proc_macro2` writes for `text`:
/// the characters between double quotes, escaped where the language asks it.
pub uninterp spec fn string_literal(text: Seq<char>) -> Seq<char>;

/// Calls `unicode_ident::is_xid_start`. Not proved: that the result is a
/// function of the character alone, which the table lookup in its source
/// shows.
#[verifier::external_body]
fn is_xid_start(c: char) -> (starts: bool)
    ensures
        starts == xid_start(c),
{
    unicode_ident::is_xid_start(c)
}

/// Calls `unicode_ident::is_xid_continue`. Not proved: that the result is a
/// function of the character alone, which the table lookup in its source
/// shows.
#[verifier::external_body]
fn is_xid_continue(c: char) -> (continues: bool)
    ensures
        continues == xid_continue(c),
{
    unicode_ident::is_xid_continue(c)
}

/// An ASCII digit.
pub open spec fn digit(c: char) -> bool {
    '0' <= c <= '9'
}

/// What `proc_macro2` accepts as the name of an identifier: it is not empty,
/// it starts with an underscore or a start character, and goes on with
/// continue characters. A digit never starts one, so a number is none.
pub open spec fn identifier(text: Seq<char>) -> bool {
    &&& text.len() > 0
    &&& text[0] == '_' || xid_start(text[0])
    &&& !digit(text[0])
    &&& forall|i: int| 1 <= i < text.len() ==> xid_continue(#[trigger] text[i])
}

/// Tells whether `text` can name an identifier.
pub fn is_identifier(text: &str) -> (valid: bool)
    ensures
        valid == identifier(text@),
{
    let n: usize = text.unicode_len();
    if n == 0 {
        return false;
    }
    let first: char = text.get_char(0);
    if first != '_' && !is_xid_start(first) {
        return false;
    }
    if '0' <= first && first <= '9' {
        return false;
    }
    let mut i: usize = 1;
    while i < n
        invariant
            1 <= i <= n,
            n == text@.len(),
            forall|j: int| 1 <= j < i ==> xid_continue(#[trigger] text@[j]),
        decreases n - i,
    {
        if !is_xid_continue(text.get_char(i)) {
            return false;
        }
        i += 1;
    }
    true
}

/// Calls `proc_macro2::Ident::new` with the call-site span and writes the
/// identifier out again. Not proved: that outside the expansion of a
/// procedural macro the call accepts every name that `identifier` admits, and
/// that the identifier is written as the name it was made from.
#[verifier::external_body]
fn ident_text(name: &str) -> (text: String)
    requires
        identifier(name@),
    ensures
        text@ == name@,
{
    proc_macro2::Ident::new(name, proc_macro2::Span::call_site()).to_string()
}

/// Calls `proc_macro2::Literal::string` and writes the literal out. Not
/// proved: that outside the expansion of a procedural macro the text is a
/// function of the characters alone.
#[verifier::external_body]
pub(crate) fn string_literal_text(value: &str) -> (text: String)
    ensures
        text@ == string_literal(value@),
{
    proc_macro2::Literal::string(value).to_string()
}

/// The text of the identifier named `name`, where `name` can name one.
pub fn identifier_token(name: &str) -> (text: Option<String>)
    ensures
        match text {
            Some(token) => identifier(name@) && token@ == name@,
            None => !identifier(name@),
        },
{
    if is_identifier(name) {
        Some(ident_text(name))
    } else {
        None
    }
}

} // verus!
