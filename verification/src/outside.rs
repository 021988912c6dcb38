//! What this library takes from `proc_macro2`, `syn` and the standard library.
//!
//! Nothing in this module is proved: each item states what the function it calls does, and the
//! rest of the library is verified against these statements.
//!
//! `proc_macro2` leaves its work to the compiler inside a procedural macro, and does it itself
//! elsewhere. The two agree on ordinary code, but not on every text: the compiler brings
//! identifiers into a normal form, and what a token is depends on the edition of the macro's
//! caller. So what is read from a text, or printed or parsed for it, is named as a relation of the
//! text and the result, of which a text may have several.

use vstd::prelude::*;

verus! {

/// A parse error of `syn`. Nothing is read from it.
#[verifier::external_type_specification]
#[verifier::external_body]
pub struct ExSynError(syn::Error);

/// The error of a text that `proc_macro2` cannot break into tokens. Nothing is read from it.
#[verifier::external_type_specification]
#[verifier::external_body]
pub struct ExLexError(proc_macro2::LexError);

/// A parsed function item. The library hands it on and reads nothing from it.
#[verifier::external_type_specification]
#[verifier::external_body]
pub struct ExItemFn(syn::ItemFn);

/// Whether a character beyond ASCII is alphabetic or numeric in Unicode's tables.
pub uninterp spec fn unicode_alphanumeric(c: char) -> bool;

/// Whether `ident` is what `syn` reads from a text that is to hold one identifier, keywords and
/// raw identifiers among them, and nothing else: the identifier, the raw marker `r#` being part of
/// it, or none.
pub uninterp spec fn is_ident_read(text: Seq<char>, ident: Option<Seq<char>>) -> bool;

/// Whether `value` is what `syn` reads from a text that is to hold one string literal and nothing
/// else: the string that the literal stands for, or none.
pub uninterp spec fn is_value_read(token: Seq<char>, value: Option<Seq<char>>) -> bool;

/// Whether a text is the string literal that `proc_macro2` writes for `value`: the bare literal,
/// with nothing around it.
pub uninterp spec fn is_literal_of(value: Seq<char>, token: Seq<char>) -> bool;

/// Whether `text` is what `proc_macro2` prints for the tokens that it has read from `source`, or
/// none where it cannot break the source into tokens.
pub uninterp spec fn is_print_of(source: Seq<char>, text: Option<Seq<char>>) -> bool;

/// Whether an item is what `syn` has parsed a text into.
pub uninterp spec fn is_parse_of(source: Seq<char>, item: syn::ItemFn) -> bool;

/// Whether `syn` has refused a text as a function item.
pub uninterp spec fn is_refused(source: Seq<char>) -> bool;

/// An ASCII letter or digit.
pub open spec fn ascii_alphanumeric(c: char) -> bool {
    ||| '0' <= c <= '9'
    ||| 'A' <= c <= 'Z'
    ||| 'a' <= c <= 'z'
}

/// `char::is_alphanumeric`: among the ASCII characters the letters and the digits; beyond them
/// what Unicode's tables say, which are given a name.
pub assume_specification[ char::is_alphanumeric ](c: char) -> (res: bool)
    ensures
        res == if c <= '\x7f' {
            ascii_alphanumeric(c)
        } else {
            unicode_alphanumeric(c)
        },
;

/// `String::push` appends one character.
pub assume_specification[ String::push ](s: &mut String, c: char)
    ensures
        final(s)@ == old(s)@.push(c),
;

/// `syn::Ident::parse_any`, run on a whole text: the identifier found there, as `Ident` prints
/// it, or an error where the text is not one identifier.
#[verifier::external_body]
pub(crate) fn read_ident(text: &str) -> (res: Result<String, syn::Error>)
    ensures
        is_ident_read(
            text@,
            match res {
                Ok(ident) => Some(ident@),
                Err(_) => None,
            },
        ),
{
    syn::parse::Parser::parse_str(<syn::Ident as syn::ext::IdentExt>::parse_any, text)
        .map(|ident| ident.to_string())
}

/// `syn::LitStr::value`, on the literal that `syn::parse_str` reads from a text: the string with
/// its quotes taken off and its escapes resolved, or an error where the text is no string
/// literal.
#[verifier::external_body]
pub(crate) fn read_lit_str(token: &str) -> (res: Result<String, syn::Error>)
    ensures
        is_value_read(
            token@,
            match res {
                Ok(value) => Some(value@),
                Err(_) => None,
            },
        ),
{
    syn::parse_str::<syn::LitStr>(token).map(|literal| literal.value())
}

/// `proc_macro2::Literal::string`, printed: a string literal. Whatever is read from it is the
/// string it was made from. Which of several spellings of a character it takes (`\u{7f}` or
/// `\x7f`) is left unsaid.
#[verifier::external_body]
pub(crate) fn write_lit_str(value: &str) -> (token: String)
    ensures
        is_literal_of(value@, token@),
        forall|read: Option<Seq<char>>| #[trigger]
            is_value_read(token@, read) ==> read == Some(value@),
{
    proc_macro2::Literal::string(value).to_string()
}

/// `proc_macro2::TokenStream`, read from a text and printed again, or an error where the text
/// cannot be broken into tokens. How the tokens are spaced is left unsaid.
#[verifier::external_body]
pub(crate) fn print_tokens(source: &str) -> (res: Result<String, proc_macro2::LexError>)
    ensures
        is_print_of(
            source@,
            match res {
                Ok(text) => Some(text@),
                Err(_) => None,
            },
        ),
{
    source.parse::<proc_macro2::TokenStream>().map(|tokens| tokens.to_string())
}

/// `syn::parse_str` for a function item: the item that the text is parsed into, or an error where
/// the text is refused. What the item holds is left unsaid: the type is opaque here.
#[verifier::external_body]
pub(crate) fn parse_item_fn(source: &str) -> (res: Result<syn::ItemFn, syn::Error>)
    ensures
        match res {
            Ok(item) => is_parse_of(source@, item),
            Err(_) => is_refused(source@),
        },
{
    syn::parse_str::<syn::ItemFn>(source)
}

} // verus!
