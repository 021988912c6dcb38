//! What holds of every name: of types, of variables and of the generated items.

use vstd::prelude::*;

use crate::item_names::{
    has_foreign, is_foreign, meta_text, taken_as_ident, wrap_text, NameAnswersView,
};
use crate::laws::{
    is_narrow, law_blanks_do_not_show, law_mangled_names_tell_types_apart,
    law_raw_marker_comes_off, without_blanks,
};
use crate::names::{
    hex, hex_digits, mangle, mangle_char, return_name, robj_var, simple_name,
};
use crate::outside::{is_ident_read, unicode_alphanumeric};
use crate::syntax::{FnArg, PatType, Path, Signature, Type, TypeKind};
use crate::wrappers::{meta_arg_of, ExtendrOptions};

verus! {

// ---------------------------------------------------------------------------------------------
// Mangled names
// ---------------------------------------------------------------------------------------------

/// The value of a hexadecimal digit in lower case, and `-1` for any other character.
pub open spec fn digit_value(c: char) -> int {
    if '0' <= c <= '9' {
        c as int - '0' as int
    } else if 'a' <= c <= 'f' {
        c as int - 'a' as int + 10
    } else {
        -1
    }
}

/// The number that a sequence of hexadecimal digits stands for.
pub open spec fn hex_value(digits: Seq<char>) -> int
    decreases digits.len(),
{
    if digits.len() == 0 {
        0
    } else {
        16 * hex_value(digits.drop_last()) + digit_value(digits.last())
    }
}

/// Whether a text is a number in hexadecimal: at least two digits in lower case, of which the
/// first is zero only where there are no more than two.
pub open spec fn spells(text: Seq<char>, n: int) -> bool {
    &&& text.len() >= 2
    &&& text.len() > 2 ==> text[0] != '0'
    &&& forall|i: int| 0 <= i < text.len() ==> digit_value(#[trigger] text[i]) >= 0
    &&& hex_value(text) == n
}

/// The digits of a number, from which the number is read back, do not start with a zero.
proof fn lemma_hex_digits_spell(n: nat)
    ensures
        hex_digits(n).len() >= 1,
        hex_digits(n).len() >= 2 <==> n >= 16,
        n > 0 ==> hex_digits(n)[0] != '0',
        forall|i: int|
            0 <= i < hex_digits(n).len() ==> digit_value(#[trigger] hex_digits(n)[i]) >= 0,
        hex_value(hex_digits(n)) == n,
    decreases n,
{
    let digits = hex_digits(n);
    if n < 16 {
        assert(digits.drop_last() =~= Seq::<char>::empty());
        reveal_with_fuel(hex_value, 2);
    } else {
        lemma_hex_digits_spell(n / 16);
        let high = hex_digits(n / 16);
        assert(digits.drop_last() =~= high);
        assert forall|i: int| 0 <= i < digits.len() implies digit_value(
            #[trigger] digits[i],
        ) >= 0 by {
            if i < high.len() {
                assert(digits[i] == high[i]);
            }
        }
        assert(digits[0] == high[0]);
    }
}

/// A number in hexadecimal can be read back, and has two digits or more.
pub proof fn law_hexadecimal_reads_back(n: nat)
    ensures
        spells(hex(n), n as int),
{
    lemma_hex_digits_spell(n);
    if n < 16 {
        let digits = hex(n);
        reveal_with_fuel(hex_value, 3);
        assert(digits.drop_last().drop_last() =~= Seq::<char>::empty());
        assert(hex_value(digits.drop_last()) == 0);
    }
}

/// What one character becomes in a mangled name: a blank nothing, a letter or digit itself, and
/// any other character an underscore and then its code in hexadecimal.
pub proof fn law_characters_are_mangled_one_by_one(c: char)
    ensures
        c == ' ' ==> mangle(seq![c]).len() == 0,
        ('0' <= c <= '9' || 'A' <= c <= 'Z' || 'a' <= c <= 'z' || (c > '\x7f'
            && unicode_alphanumeric(c))) ==> mangle(seq![c]) == seq![c],
        !(c == ' ' || '0' <= c <= '9' || 'A' <= c <= 'Z' || 'a' <= c <= 'z' || (c > '\x7f'
            && unicode_alphanumeric(c))) ==> mangle(seq![c])[0] == '_' && spells(
            mangle(seq![c]).skip(1),
            c as int,
        ),
{
    let one = seq![c];
    assert(one.drop_last() =~= Seq::<char>::empty());
    reveal_with_fuel(mangle, 2);
    assert(mangle(one) =~= mangle_char(c));
    law_hexadecimal_reads_back(c as nat);
    if mangle(one).len() > 0 {
        assert((seq!['_'] + hex(c as nat)).skip(1) =~= hex(c as nat));
    }
}

// ---------------------------------------------------------------------------------------------
// Names of types
// ---------------------------------------------------------------------------------------------

/// A type that is a path of one segment is called by the identifier, whatever arguments follow it
/// and whatever stands before it.
pub proof fn law_short_paths_are_called_by_their_identifier(type_: Type, path: Path)
    requires
        type_.kind == TypeKind::Path(path),
        path.segments@.len() == 1,
    ensures
        simple_name(type_) == path.segments@[0].ident@,
{
}

/// A type that is a longer path, or none that can be looked into, is called by the mangled form
/// of all its tokens, with or without arguments.
pub proof fn law_long_types_are_called_by_their_tokens(type_: Type)
    requires
        match type_.kind {
            TypeKind::Path(path) => path.segments@.len() != 1,
            TypeKind::Other => true,
            _ => false,
        },
    ensures
        simple_name(type_) == mangle(type_.tokens@),
{
}

/// Two types that are both longer paths, or none that can be looked into, have the same name if
/// and only if their tokens are the same but for blanks.
pub proof fn law_long_types_are_told_apart(a: Type, b: Type)
    requires
        match a.kind {
            TypeKind::Path(path) => path.segments@.len() != 1,
            TypeKind::Other => true,
            _ => false,
        },
        match b.kind {
            TypeKind::Path(path) => path.segments@.len() != 1,
            TypeKind::Other => true,
            _ => false,
        },
        is_narrow(a.tokens@),
        is_narrow(b.tokens@),
    ensures
        simple_name(a) == simple_name(b) <==> without_blanks(a.tokens@) == without_blanks(
            b.tokens@,
        ),
{
    law_blanks_do_not_show(a.tokens@);
    law_blanks_do_not_show(b.tokens@);
    if simple_name(a) == simple_name(b) {
        law_mangled_names_tell_types_apart(a.tokens@, b.tokens@);
    }
}

/// What is returned has the name that a parameter of the same type has; where nothing is said of
/// what is returned, it is the unit.
pub proof fn law_results_are_named_like_parameters(
    sig: Signature,
    param: PatType,
    self_ty: Option<&Type>,
)
    ensures
        sig.output is None ==> return_name(sig) == seq!['(', ')'],
        sig.output == Some(param.ty) ==> return_name(sig) == simple_name(param.ty) && return_name(
            sig,
        ) == meta_arg_of(FnArg::Typed(param), self_ty).arg_type,
{
    reveal_strlit("()");
    assert("()"@ =~= seq!['(', ')']);
}

// ---------------------------------------------------------------------------------------------
// Names of variables and items
// ---------------------------------------------------------------------------------------------

/// The variable for an argument is the argument's name between `_` and `_robj`, and the raw marker
/// makes no difference to it.
pub proof fn law_variables_show_the_argument(ident: Seq<char>)
    ensures
        robj_var("r#"@ + ident) == "_"@ + ident + "_robj"@,
        !("r#"@.is_prefix_of(ident)) ==> robj_var(ident) == "_"@ + ident + "_robj"@,
{
    law_raw_marker_comes_off(ident);
}

/// The names of the items are the name they are known by behind two prefixes, and the raw marker
/// makes no difference to them.
pub proof fn law_item_names_show_prefix_and_name(prefix: Seq<char>, name: Seq<char>)
    ensures
        wrap_text(prefix, "r#"@ + name) == "wrap__"@ + prefix + name,
        meta_text(prefix, "r#"@ + name) == "meta__"@ + prefix + name,
        !("r#"@.is_prefix_of(name)) ==> wrap_text(prefix, name) == "wrap__"@ + prefix + name,
        !("r#"@.is_prefix_of(name)) ==> meta_text(prefix, name) == "meta__"@ + prefix + name,
{
    law_raw_marker_comes_off(name);
}

/// A letter, a digit, an underscore or the `#` of the raw marker is at home in an identifier, and
/// so is every character beyond ASCII but the blanks, the marks of direction and the byte order
/// mark. No other character is.
pub proof fn law_strangers_to_identifiers(c: char)
    ensures
        ('0' <= c <= '9' || 'A' <= c <= 'Z' || 'a' <= c <= 'z' || c == '_' || c == '#')
            ==> !is_foreign(c),
        c < '0' && c != '#' ==> is_foreign(c),
        '9' < c < 'A' ==> is_foreign(c),
        'Z' < c < 'a' && c != '_' ==> is_foreign(c),
        'z' < c <= '\x7f' ==> is_foreign(c),
        c > '\x7f' ==> (is_foreign(c) <==> {
            let n = c as int;
            ||| n == 0x85 || n == 0xa0 || n == 0x1680 || 0x2000 <= n <= 0x200a
            ||| 0x200e <= n <= 0x200f
            ||| 0x2028 <= n <= 0x2029 || n == 0x202f || n == 0x205f || n == 0x3000
            ||| n == 0xfeff
        }),
{
}

/// A text with a stranger in it is taken for no identifier; any other text is taken for what is
/// read from it.
pub proof fn law_strangers_are_not_read(text: Seq<char>, answer: Option<Seq<char>>)
    ensures
        forall|i: int|
            0 <= i < text.len() && is_foreign(#[trigger] text[i]) ==> (taken_as_ident(text, answer)
                <==> answer is None),
        (forall|i: int| 0 <= i < text.len() ==> !is_foreign(#[trigger] text[i])) ==> (
        taken_as_ident(text, answer) <==> is_ident_read(text, answer)),
{
    assert forall|i: int| 0 <= i < text.len() && is_foreign(#[trigger] text[i]) implies (
    taken_as_ident(text, answer) <==> answer is None) by {
        assert(has_foreign(text));
    }
}

/// The answers on the names follow one from the other. The function's own name is taken as it
/// is, and the name in the options is read. The raw marker comes off the one that is there. Both
/// items are named after what is left, and the names are what was read.
pub proof fn law_names_follow_from_the_given_one(
    answers: NameAnswersView,
    opts: ExtendrOptions,
    prefix: Seq<char>,
    sig: Signature,
    name: Seq<char>,
)
    requires
        answers.answer(opts, prefix, sig),
        !("r#"@.is_prefix_of(name)),
    ensures
        opts.mod_name is None ==> answers.given == Some(sig.ident@),
        opts.mod_name matches Some(text) ==> taken_as_ident(text@, answers.given),
        answers.given == Some(name) ==> taken_as_ident(name, answers.bare),
        answers.given == Some("r#"@ + name) ==> taken_as_ident(name, answers.bare),
        answers.bare == Some(name) || answers.bare == Some("r#"@ + name) ==> taken_as_ident(
            "wrap__"@ + prefix + name,
            answers.wrap,
        ) && taken_as_ident("meta__"@ + prefix + name, answers.meta),
        answers.given is None ==> answers.bare is None,
        answers.bare is None ==> answers.wrap is None && answers.meta is None,
        answers.bare == Some(answers.names().mod_name) || answers.bare is None,
        answers.wrap == Some(answers.names().wrap_name) || answers.wrap is None,
        answers.meta == Some(answers.names().meta_name) || answers.meta is None,
{
    law_raw_marker_comes_off(name);
    law_item_names_show_prefix_and_name(prefix, name);
}

/// Answers that follow one from the other are answers on the names.
pub proof fn law_answers_that_follow_are_answers(
    answers: NameAnswersView,
    opts: ExtendrOptions,
    prefix: Seq<char>,
    sig: Signature,
    name: Seq<char>,
)
    requires
        match opts.mod_name {
            None => answers.given == Some(sig.ident@),
            Some(text) => taken_as_ident(text@, answers.given),
        },
        answers.given == Some(name) || answers.given == Some("r#"@ + name),
        !("r#"@.is_prefix_of(name)),
        taken_as_ident(name, answers.bare),
        answers.bare == Some(name),
        taken_as_ident("wrap__"@ + prefix + name, answers.wrap),
        taken_as_ident("meta__"@ + prefix + name, answers.meta),
    ensures
        answers.answer(opts, prefix, sig),
{
    law_raw_marker_comes_off(name);
    law_item_names_show_prefix_and_name(prefix, name);
}

/// The names depend on the name in the options, the prefix and the function's name alone.
pub proof fn law_names_depend_on_little(
    answers: NameAnswersView,
    opts: ExtendrOptions,
    other_opts: ExtendrOptions,
    prefix: Seq<char>,
    sig: Signature,
    other_sig: Signature,
)
    requires
        opts.mod_name == other_opts.mod_name,
        sig.ident@ == other_sig.ident@,
    ensures
        answers.answer(opts, prefix, sig) == answers.answer(other_opts, prefix, other_sig),
{
}

} // verus!
