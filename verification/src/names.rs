//! The names that R and the generated code see: of types, of identifiers and of variables.

use vstd::prelude::*;

use crate::outside::{ascii_alphanumeric, unicode_alphanumeric};
use crate::syntax::{Signature, Type, TypeKind};

verus! {

/// Whether a character is a letter or a digit.
pub open spec fn alphanumeric(c: char) -> bool {
    if c <= '\x7f' {
        ascii_alphanumeric(c)
    } else {
        unicode_alphanumeric(c)
    }
}

/// The hexadecimal digit for a number below sixteen, in lower case.
pub open spec fn hex_digit(n: nat) -> char {
    if n < 10 {
        (('0' as nat) + n) as char
    } else {
        (('a' as nat) + (n - 10)) as char
    }
}

/// A number in hexadecimal, without leading zeros.
pub open spec fn hex_digits(n: nat) -> Seq<char>
    decreases n,
{
    if n < 16 {
        seq![hex_digit(n)]
    } else {
        hex_digits(n / 16).push(hex_digit(n % 16))
    }
}

/// A number in hexadecimal, padded with a zero to two digits.
pub open spec fn hex(n: nat) -> Seq<char> {
    if n < 16 {
        seq!['0', hex_digit(n)]
    } else {
        hex_digits(n)
    }
}

/// What one character of a type contributes to the mangled name: a blank nothing, a letter or
/// digit itself, any other character an underscore and its code in hexadecimal.
pub open spec fn mangle_char(c: char) -> Seq<char> {
    if c == ' ' {
        seq![]
    } else if alphanumeric(c) {
        seq![c]
    } else {
        seq!['_'] + hex(c as nat)
    }
}

/// The mangled form of a text: what its characters contribute, in order.
pub open spec fn mangle(text: Seq<char>) -> Seq<char>
    decreases text.len(),
{
    if text.len() == 0 {
        seq![]
    } else {
        mangle(text.drop_last()) + mangle_char(text.last())
    }
}

/// The name of a type for R: the last word on a type that is a path of one segment, whatever
/// references, pointers and parentheses stand around it; the mangled tokens of any other type.
pub open spec fn simple_name(type_: Type) -> Seq<char>
    decreases type_,
{
    match type_.kind {
        TypeKind::Path(path) => if path.segments@.len() == 1 {
            path.segments@[0].ident@
        } else {
            mangle(type_.tokens@)
        },
        TypeKind::Group(elem) => simple_name(*elem),
        TypeKind::Reference(elem) => simple_name(*elem),
        TypeKind::Paren(elem) => simple_name(*elem),
        TypeKind::Ptr(elem) => simple_name(*elem),
        TypeKind::Other => mangle(type_.tokens@),
    }
}

/// The name for R of what a function returns.
pub open spec fn return_name(sig: Signature) -> Seq<char> {
    match sig.output {
        None => "()"@,
        Some(type_) => simple_name(type_),
    }
}

/// An identifier without its raw marker.
pub open spec fn unraw(ident: Seq<char>) -> Seq<char> {
    if ident.len() >= 2 && ident[0] == 'r' && ident[1] == '#' {
        ident.skip(2)
    } else {
        ident
    }
}

/// The variable that holds the R object of the argument `ident`.
pub open spec fn robj_var(ident: Seq<char>) -> Seq<char> {
    "_"@ + unraw(ident) + "_robj"@
}

/// The hexadecimal digit for a number below sixteen.
fn digit(n: u32) -> (c: char)
    requires
        n < 16,
    ensures
        c == hex_digit(n as nat),
{
    if n < 10 {
        (0x30u8 + n as u8) as char
    } else {
        (0x61u8 + (n - 10) as u8) as char
    }
}

/// Appends a number in hexadecimal, without leading zeros.
fn push_hex_digits(out: &mut String, n: u32)
    ensures
        final(out)@ == old(out)@ + hex_digits(n as nat),
    decreases n,
{
    if n >= 16 {
        push_hex_digits(out, n / 16);
    }
    out.push(digit(n % 16));
    assert(out@ =~= old(out)@ + hex_digits(n as nat));
}

/// Appends a number in hexadecimal, padded to two digits.
fn push_hex(out: &mut String, n: u32)
    ensures
        final(out)@ == old(out)@ + hex(n as nat),
{
    if n < 16 {
        out.push('0');
    }
    push_hex_digits(out, n);
    assert(out@ =~= old(out)@ + hex(n as nat));
}

/// Appends what one character contributes to a mangled name.
fn push_mangled(out: &mut String, c: char)
    ensures
        final(out)@ == old(out)@ + mangle_char(c),
{
    if c != ' ' {
        if c.is_alphanumeric() {
            out.push(c);
        } else {
            out.push('_');
            push_hex(out, c as u32);
        }
    }
    assert(out@ =~= old(out)@ + mangle_char(c));
}

/// The mangled form of a text.
pub fn mangled_text(text: &str) -> (res: String)
    ensures
        res@ == mangle(text@),
{
    let mut res = String::new();
    for c in it: text.chars()
        invariant
            it.seq() == text@,
            res@ == mangle(text@.take(it.index() as int)),
    {
        proof {
            let upto = text@.take(it.index() + 1);
            assert(upto.drop_last() =~= text@.take(it.index() as int));
            assert(upto.last() == c);
        }
        push_mangled(&mut res, c);
    }
    assert(text@.take(text@.len() as int) =~= text@);
    res
}

/// The tokens of a type in letters, digits and underscores: a name that any type has.
pub fn mangled_type_name(type_: &Type) -> (res: String)
    ensures
        res@ == mangle(type_.tokens@),
{
    mangled_text(type_.tokens.as_str())
}

/// A simplified name for a type that will be meaningful to R; the mangled name where there is no
/// simple one.
///
/// `&Fred`, `*const Fred`, `&&Fred` and `Fred<'a>` are all `Fred`; `&[i32]` is `_5bi32_5d`.
pub fn simple_type_name(type_: &Type) -> (res: String)
    ensures
        res@ == simple_name(*type_),
    decreases type_,
{
    match &type_.kind {
        TypeKind::Path(path) => {
            if let Some(ident) = path.get_ident() {
                ident.clone()
            } else if path.segments.len() == 1 {
                path.segments[0].ident.clone()
            } else {
                mangled_type_name(type_)
            }
        },
        TypeKind::Group(elem) => simple_type_name(elem),
        TypeKind::Reference(elem) => simple_type_name(elem),
        TypeKind::Paren(elem) => simple_type_name(elem),
        TypeKind::Ptr(elem) => simple_type_name(elem),
        TypeKind::Other => mangled_type_name(type_),
    }
}

/// The name for R of what a function returns; `()` where the signature names no type.
pub fn get_return_type(sig: &Signature) -> (res: String)
    ensures
        res@ == return_name(*sig),
{
    match &sig.output {
        None => "()".to_owned(),
        Some(type_) => simple_type_name(type_),
    }
}

/// Removes the raw identifier prefix `r#`. An identifier that does not start with the prefix is
/// returned as it is.
pub fn sanitize_identifier(ident: String) -> (res: String)
    ensures
        res@ == unraw(ident@),
{
    let len = ident.as_str().unicode_len();
    if len >= 2 && ident.as_str().get_char(0) == 'r' && ident.as_str().get_char(1) == '#' {
        ident.as_str().substring_char(2, len).to_owned()
    } else {
        ident
    }
}

/// The variable that holds the R object of the argument `ident`.
pub fn robj_variable(ident: &String) -> (res: String)
    ensures
        res@ == robj_var(ident@),
{
    let mut res = "_".to_owned();
    res.append(sanitize_identifier(ident.clone()).as_str());
    res.append("_robj");
    res
}

} // verus!
