//! What holds of the names and of the generated items as a whole.

use vstd::prelude::*;

use crate::attributes::{doc_text, named_lit, without_lit};
use crate::code::{
    concatenated, reads_back_as, renders, wrapper_code, wrapper_text, write_all, writes,
    RESULT_TAIL,
};
use crate::item_names::{
    meta_text, wrap_text, ItemNamesView, NameAnswersView, META_PREFIX, WRAP_PREFIX,
};
use crate::items::{MetadataFnView, WrapperFnView};
use crate::names::{
    alphanumeric, hex, hex_digit, hex_digits, mangle, mangle_char, robj_var, simple_name, unraw,
};
use crate::outside::{ascii_alphanumeric, is_literal_of};
use crate::rejection::{
    meta_arg_rejection, patterns_rejection, receiver_rejection, receivers_rejection, rejection,
};
use crate::syntax::{Attribute, FnArg, Path, Signature, Type, TypeKind};
use crate::wrappers::{
    actual_of, actuals_of, conversion_of, formal_of, has_self, meta_arg_of, metadata_of,
    wrapper_of, without_default, without_defaults, ExtendrOptions,
};

verus! {

// ---------------------------------------------------------------------------------------------
// Mangled names
// ---------------------------------------------------------------------------------------------

/// A text without its blanks.
pub open spec fn without_blanks(text: Seq<char>) -> Seq<char>
    decreases text.len(),
{
    if text.len() == 0 {
        seq![]
    } else if text.last() == ' ' {
        without_blanks(text.drop_last())
    } else {
        without_blanks(text.drop_last()).push(text.last())
    }
}

/// Whether every character of a text is a letter, a digit, or one of the first 256 characters.
pub open spec fn is_narrow(text: Seq<char>) -> bool {
    forall|i: int| 0 <= i < text.len() ==> alphanumeric(#[trigger] text[i]) || text[i] <= '\u{ff}'
}

/// The mangled form of two texts in a row is that of the one, then that of the other.
pub proof fn law_mangling_goes_part_by_part(a: Seq<char>, b: Seq<char>)
    ensures
        mangle(a + b) == mangle(a) + mangle(b),
    decreases b.len(),
{
    if b.len() == 0 {
        assert(a + b =~= a);
        assert(mangle(a) + mangle(b) =~= mangle(a));
    } else {
        law_mangling_goes_part_by_part(a, b.drop_last());
        assert((a + b).drop_last() =~= a + b.drop_last());
        assert(mangle(a + b) =~= mangle(a) + mangle(b));
    }
}

/// The blanks between tokens do not show in a mangled name.
pub proof fn law_blanks_do_not_show(text: Seq<char>)
    ensures
        mangle(without_blanks(text)) == mangle(text),
    decreases text.len(),
{
    if text.len() > 0 {
        law_blanks_do_not_show(text.drop_last());
        if text.last() == ' ' {
            assert(mangle(text) =~= mangle(text.drop_last()));
        } else {
            assert(without_blanks(text).drop_last() =~= without_blanks(text.drop_last()));
        }
    }
}

/// A mangled name is made of letters, digits and underscores.
pub proof fn law_mangled_names_are_words(text: Seq<char>)
    ensures
        forall|i: int|
            0 <= i < mangle(text).len() ==> #[trigger] mangle(text)[i] == '_' || alphanumeric(
                mangle(text)[i],
            ),
    decreases text.len(),
{
    if text.len() > 0 {
        law_mangled_names_are_words(text.drop_last());
        lemma_hex_digits(text.last() as nat);
        let c = text.last();
        let before = mangle(text.drop_last());
        assert forall|i: int| 0 <= i < mangle(text).len() implies #[trigger] mangle(text)[i] == '_'
            || alphanumeric(mangle(text)[i]) by {
            if i < before.len() {
                assert(mangle(text)[i] == before[i]);
            } else {
                assert(mangle(text)[i] == mangle_char(c)[i - before.len()]);
                if c != ' ' && !alphanumeric(c) && i > before.len() {
                    assert(mangle_char(c)[i - before.len()] == hex(c as nat)[i - before.len() - 1]);
                }
            }
        }
    }
}

/// Hexadecimal digits are ASCII letters and digits.
proof fn lemma_hex_digits(n: nat)
    ensures
        forall|i: int|
            0 <= i < hex_digits(n).len() ==> ascii_alphanumeric(#[trigger] hex_digits(n)[i]),
        forall|i: int| 0 <= i < hex(n).len() ==> ascii_alphanumeric(#[trigger] hex(n)[i]),
    decreases n,
{
    if n < 16 {
        lemma_hex_digit(n);
    } else {
        lemma_hex_digit(n % 16);
        lemma_hex_digits(n / 16);
        let high = hex_digits(n / 16);
        assert forall|i: int| 0 <= i < hex_digits(n).len() implies ascii_alphanumeric(
            #[trigger] hex_digits(n)[i],
        ) by {
            if i < high.len() {
                assert(hex_digits(n)[i] == high[i]);
            }
        }
    }
}

/// A hexadecimal digit is an ASCII letter or digit, and tells its number.
proof fn lemma_hex_digit(n: nat)
    requires
        n < 16,
    ensures
        ascii_alphanumeric(hex_digit(n)),
        hex_digit(n) as nat == if n < 10 {
            0x30 + n
        } else {
            0x57 + n
        },
{
}

/// Two texts with the same mangled name differ at most in their blanks. This holds as long as
/// only the first 256 characters are spelled out as numbers, which then have two digits.
pub proof fn law_mangled_names_tell_types_apart(a: Seq<char>, b: Seq<char>)
    requires
        is_narrow(a),
        is_narrow(b),
        mangle(a) == mangle(b),
    ensures
        without_blanks(a) == without_blanks(b),
{
    lemma_without_blanks(a);
    lemma_without_blanks(b);
    law_blanks_do_not_show(a);
    law_blanks_do_not_show(b);
    lemma_mangle_injective(without_blanks(a), without_blanks(b));
}

/// A text without its blanks has no blanks, and is narrow where the text is.
proof fn lemma_without_blanks(text: Seq<char>)
    ensures
        forall|i: int|
            0 <= i < without_blanks(text).len() ==> #[trigger] without_blanks(text)[i] != ' ',
        is_narrow(text) ==> is_narrow(without_blanks(text)),
    decreases text.len(),
{
    if text.len() > 0 {
        lemma_without_blanks(text.drop_last());
        if is_narrow(text) {
            assert forall|i: int| 0 <= i < text.drop_last().len() implies alphanumeric(
                #[trigger] text.drop_last()[i],
            ) || text.drop_last()[i] <= '\u{ff}' by {
                assert(text.drop_last()[i] == text[i]);
            }
            assert(text[text.len() - 1] == text.last());
        }
    }
}

/// The hexadecimal form of a number below 256 has two digits, and they tell the number.
proof fn lemma_hex_two_digits(n: nat)
    requires
        n < 256,
    ensures
        hex(n) == seq![hex_digit(n / 16), hex_digit(n % 16)],
{
    reveal_with_fuel(hex_digits, 2);
    if n >= 16 {
        assert(hex_digits(n / 16) =~= seq![hex_digit(n / 16)]);
        assert(hex(n) =~= seq![hex_digit(n / 16), hex_digit(n % 16)]);
    } else {
        assert(n / 16 == 0 && n % 16 == n);
        assert(hex(n) =~= seq![hex_digit(n / 16), hex_digit(n % 16)]);
    }
}

/// Mangling tells narrow texts without blanks apart.
proof fn lemma_mangle_injective(a: Seq<char>, b: Seq<char>)
    requires
        is_narrow(a),
        is_narrow(b),
        forall|i: int| 0 <= i < a.len() ==> #[trigger] a[i] != ' ',
        forall|i: int| 0 <= i < b.len() ==> #[trigger] b[i] != ' ',
        mangle(a) == mangle(b),
    ensures
        a == b,
    decreases a.len(),
{
    if a.len() > 0 {
        lemma_mangle_first(a);
        lemma_mangle_char(a[0]);
    }
    if b.len() > 0 {
        lemma_mangle_first(b);
        lemma_mangle_char(b[0]);
    }
    if a.len() > 0 && b.len() > 0 {
        let x = a[0];
        let y = b[0];
        lemma_mangle_char_injective(x, y, mangle(a.skip(1)), mangle(b.skip(1)));
        assert forall|i: int| 0 <= i < a.skip(1).len() implies #[trigger] a.skip(1)[i] != ' ' && (
        alphanumeric(a.skip(1)[i]) || a.skip(1)[i] <= '\u{ff}') by {
            assert(a.skip(1)[i] == a[i + 1]);
        }
        assert forall|i: int| 0 <= i < b.skip(1).len() implies #[trigger] b.skip(1)[i] != ' ' && (
        alphanumeric(b.skip(1)[i]) || b.skip(1)[i] <= '\u{ff}') by {
            assert(b.skip(1)[i] == b[i + 1]);
        }
        lemma_mangle_injective(a.skip(1), b.skip(1));
        assert(a =~= seq![x] + a.skip(1));
        assert(b =~= seq![x] + b.skip(1));
    } else {
        assert(a =~= b);
    }
}

/// What one character other than a blank contributes: itself or, for one of the first 256
/// characters, an underscore and two digits.
proof fn lemma_mangle_char(c: char)
    requires
        c != ' ',
        alphanumeric(c) || c <= '\u{ff}',
    ensures
        alphanumeric(c) ==> mangle_char(c) == seq![c] && c != '_',
        !alphanumeric(c) ==> mangle_char(c) == seq![
            '_',
            hex_digit((c as nat) / 16),
            hex_digit((c as nat) % 16),
        ],
{
    if !alphanumeric(c) {
        lemma_hex_two_digits(c as nat);
        assert(mangle_char(c) =~= seq![
            '_',
            hex_digit((c as nat) / 16),
            hex_digit((c as nat) % 16),
        ]);
    }
}

/// Two characters that contribute the same, to the extent that the next three characters of the
/// name tell, are the same.
proof fn lemma_mangle_char_injective(x: char, y: char, rx: Seq<char>, ry: Seq<char>)
    requires
        x != ' ',
        y != ' ',
        alphanumeric(x) || x <= '\u{ff}',
        alphanumeric(y) || y <= '\u{ff}',
        mangle_char(x) + rx == mangle_char(y) + ry,
    ensures
        x == y,
        rx == ry,
{
    lemma_mangle_char(x);
    lemma_mangle_char(y);
    let sx = mangle_char(x) + rx;
    let sy = mangle_char(y) + ry;
    assert(sx[0] == mangle_char(x)[0]);
    assert(sy[0] == mangle_char(y)[0]);
    if !alphanumeric(x) && !alphanumeric(y) {
        assert(sx[1] == mangle_char(x)[1] && sx[2] == mangle_char(x)[2]);
        assert(sy[1] == mangle_char(y)[1] && sy[2] == mangle_char(y)[2]);
        let n = x as nat;
        let m = y as nat;
        assert(n < 256 && m < 256);
        lemma_hex_digit(n / 16);
        lemma_hex_digit(n % 16);
        lemma_hex_digit(m / 16);
        lemma_hex_digit(m % 16);
        assert(n / 16 == m / 16 && n % 16 == m % 16);
        assert(n == m);
    }
    assert(rx =~= sx.skip(mangle_char(x).len() as int));
    assert(ry =~= sy.skip(mangle_char(y).len() as int));
}

/// A mangled name starts with what the first character contributes.
proof fn lemma_mangle_first(text: Seq<char>)
    requires
        text.len() > 0,
    ensures
        mangle(text) == mangle_char(text[0]) + mangle(text.skip(1)),
{
    let one = seq![text[0]];
    assert(text =~= one + text.skip(1));
    law_mangling_goes_part_by_part(one, text.skip(1));
    assert(one.drop_last() =~= Seq::<char>::empty());
    reveal_with_fuel(mangle, 2);
    assert(mangle(one) =~= mangle_char(text[0]));
}

// ---------------------------------------------------------------------------------------------
// Names of types and identifiers
// ---------------------------------------------------------------------------------------------

/// References, pointers, parentheses and groups do not show in the name of a type.
pub proof fn law_indirections_do_not_show(type_: Type, elem: Type)
    requires
        match type_.kind {
            TypeKind::Group(e) => *e == elem,
            TypeKind::Reference(e) => *e == elem,
            TypeKind::Paren(e) => *e == elem,
            TypeKind::Ptr(e) => *e == elem,
            _ => false,
        },
    ensures
        simple_name(type_) == simple_name(elem),
{
}

/// The arguments of a type that is a path of one segment do not show in its name: two such types
/// with the same identifier have the same name.
pub proof fn law_arguments_do_not_show(a: Type, p: Path, b: Type, q: Path)
    requires
        a.kind == TypeKind::Path(p),
        b.kind == TypeKind::Path(q),
        p.segments@.len() == 1,
        q.segments@.len() == 1,
        p.segments@[0].ident@ == q.segments@[0].ident@,
    ensures
        simple_name(a) == simple_name(b),
{
}

/// The raw marker comes off an identifier, and nothing else does.
pub proof fn law_raw_marker_comes_off(ident: Seq<char>)
    ensures
        unraw("r#"@ + ident) == ident,
        "r#"@.is_prefix_of(ident) ==> ident == "r#"@ + unraw(ident),
        !("r#"@.is_prefix_of(ident)) ==> unraw(ident) == ident,
{
    reveal_strlit("r#");
    assert(("r#"@ + ident).skip(2) =~= ident);
    lemma_raw_prefix(ident);
    if "r#"@.is_prefix_of(ident) {
        assert(ident =~= "r#"@ + ident.skip(2));
    }
}

/// A text starts with the raw marker where its first two characters are those of the marker.
proof fn lemma_raw_prefix(ident: Seq<char>)
    ensures
        "r#"@.is_prefix_of(ident) <==> ident.len() >= 2 && ident[0] == 'r' && ident[1] == '#',
{
    reveal_strlit("r#");
    if ident.len() >= 2 && ident[0] == 'r' && ident[1] == '#' {
        assert("r#"@ =~= ident.subrange(0, 2));
    } else if "r#"@.is_prefix_of(ident) {
        assert("r#"@ =~= ident.subrange(0, 2));
        assert(ident.subrange(0, 2)[0] == ident[0] && ident.subrange(0, 2)[1] == ident[1]);
    }
}

/// Whether `#` occurs in a text at most as its second character, where an identifier can have it.
pub open spec fn has_one_marker(ident: Seq<char>) -> bool {
    forall|i: int| 0 <= i < ident.len() && i != 1 ==> #[trigger] ident[i] != '#'
}

/// An identifier without its raw marker has none left, and taking it off again changes nothing.
pub proof fn law_raw_marker_comes_off_once(ident: Seq<char>)
    requires
        has_one_marker(ident),
    ensures
        !("r#"@.is_prefix_of(unraw(ident))),
        unraw(unraw(ident)) == unraw(ident),
{
    lemma_raw_prefix(unraw(ident));
    if ident.len() >= 2 && ident[0] == 'r' && ident[1] == '#' && ident.len() >= 4 {
        assert(unraw(ident)[1] == ident[3]);
    }
}

/// Arguments with different names are held in different variables.
pub proof fn law_variables_tell_arguments_apart(a: Seq<char>, b: Seq<char>)
    requires
        robj_var(a) == robj_var(b),
    ensures
        unraw(a) == unraw(b),
{
    reveal_strlit("_");
    reveal_strlit("_robj");
    let n = robj_var(a).len();
    assert(unraw(a) =~= robj_var(a).subrange(1, n - 5));
    assert(unraw(b) =~= robj_var(b).subrange(1, n - 5));
}

// ---------------------------------------------------------------------------------------------
// Attributes
// ---------------------------------------------------------------------------------------------

/// An attribute that is no documentation makes no difference to the documentation, wherever it
/// stands.
pub proof fn law_other_attributes_are_not_documentation(
    before: Seq<Attribute>,
    other: Attribute,
    after: Seq<Attribute>,
)
    requires
        other.literal("doc"@) is None,
    ensures
        doc_text(before + seq![other] + after) == doc_text(before + after),
    decreases after.len(),
{
    let with = before + seq![other] + after;
    let without = before + after;
    if after.len() == 0 {
        assert(with.drop_last() =~= before);
        assert(without =~= before);
    } else {
        law_other_attributes_are_not_documentation(before, other, after.drop_last());
        assert(with.drop_last() =~= before + seq![other] + after.drop_last());
        assert(without.drop_last() =~= before + after.drop_last());
    }
}

/// Once the literals with a name have been taken out of a list, none is left to be found, and
/// taking them out again changes nothing.
pub proof fn law_literals_are_taken_once(attrs: Seq<Attribute>, name: Seq<char>)
    ensures
        named_lit(without_lit(attrs, name), name) is None,
        without_lit(without_lit(attrs, name), name) == without_lit(attrs, name),
    decreases attrs.len(),
{
    if attrs.len() > 0 {
        law_literals_are_taken_once(attrs.drop_last(), name);
        if attrs.last().literal(name) is None {
            let rest = without_lit(attrs.drop_last(), name);
            assert(without_lit(attrs, name).drop_last() =~= rest);
        }
    }
}

// ---------------------------------------------------------------------------------------------
// Rejections
// ---------------------------------------------------------------------------------------------

/// A parameter is rejected where the wrapper's parameter is made for it if and only if it is
/// rejected where its metadata is made, for the same reason and with the same message.
pub proof fn law_parameters_are_rejected_alike(input: FnArg, in_impl: bool)
    ensures
        meta_arg_rejection(input, in_impl) == receiver_rejection(input, in_impl),
        receiver_rejection(input, in_impl) matches Some(r) ==> input is Receiver && r.text()
            == if input->Receiver_0.attrs@.len() != 0 || !input->Receiver_0.reference {
            "expected &self or &mut self"@
        } else {
            "found &self in non-impl function - have you missed the #[extendr] before the impl?"@
        },
{
}

// ---------------------------------------------------------------------------------------------
// Generated items
// ---------------------------------------------------------------------------------------------

/// The metadata of a function leads to its wrapper, and both call the function by the same name
/// in R.
pub proof fn law_metadata_leads_to_the_wrapper(
    opts: ExtendrOptions,
    names: ItemNamesView,
    attrs: Seq<Attribute>,
    sig: Signature,
    self_ty: Option<&Type>,
)
    ensures
        metadata_of(opts, names, attrs, sig, self_ty).wrapper == wrapper_of(
            opts,
            names,
            sig,
            self_ty,
        ).name,
        metadata_of(opts, names, attrs, sig, self_ty).r_name == wrapper_of(
            opts,
            names,
            sig,
            self_ty,
        ).r_name,
{
}

/// The text of no wrapper's name is that of a metadata function's, and the names of two wrappers
/// have the same text only where prefix and name make the same text, in which case those of their
/// metadata functions do too.
pub proof fn law_item_names_do_not_clash(
    prefix: Seq<char>,
    mod_name: Seq<char>,
    other_prefix: Seq<char>,
    other_mod_name: Seq<char>,
)
    ensures
        wrap_text(prefix, mod_name) != meta_text(other_prefix, other_mod_name),
        wrap_text(prefix, mod_name) == wrap_text(other_prefix, other_mod_name) <==> prefix + unraw(
            mod_name,
        ) == other_prefix + unraw(other_mod_name),
        meta_text(prefix, mod_name) == meta_text(other_prefix, other_mod_name) <==> prefix + unraw(
            mod_name,
        ) == other_prefix + unraw(other_mod_name),
{
    reveal_strlit("wrap__");
    reveal_strlit("meta__");
    let one = prefix + unraw(mod_name);
    let other = other_prefix + unraw(other_mod_name);
    assert(wrap_text(prefix, mod_name)[0] == 'w');
    assert(meta_text(other_prefix, other_mod_name)[0] == 'm');
    assert(wrap_text(prefix, mod_name) =~= WRAP_PREFIX@ + one);
    assert(wrap_text(other_prefix, other_mod_name) =~= WRAP_PREFIX@ + other);
    assert(meta_text(prefix, mod_name) =~= META_PREFIX@ + one);
    assert(meta_text(other_prefix, other_mod_name) =~= META_PREFIX@ + other);
    assert((WRAP_PREFIX@ + one).skip(6) =~= one);
    assert((WRAP_PREFIX@ + other).skip(6) =~= other);
    assert((META_PREFIX@ + one).skip(6) =~= one);
    assert((META_PREFIX@ + other).skip(6) =~= other);
}

/// A wrapper makes one R object of each of its parameters, in their order: the parameter's name
/// is what is converted.
pub proof fn law_every_parameter_is_converted(
    opts: ExtendrOptions,
    names: ItemNamesView,
    sig: Signature,
    self_ty: Option<&Type>,
    i: int,
)
    requires
        0 <= i < sig.inputs@.len(),
    ensures
        ({
            let w = wrapper_of(opts, names, sig, self_ty);
            &&& w.formals.len() == sig.inputs@.len()
            &&& w.conversions.len() == sig.inputs@.len()
            &&& w.formals[i] == w.conversions[i].arg + " : "@ + "extendr_api :: SEXP"@
        }),
{
}

/// The positions of the parameters that are not `self` parameters.
pub open spec fn typed_positions(inputs: Seq<FnArg>) -> Seq<int>
    decreases inputs.len(),
{
    if inputs.len() == 0 {
        seq![]
    } else if inputs.last() is Typed {
        typed_positions(inputs.drop_last()).push(inputs.len() - 1)
    } else {
        typed_positions(inputs.drop_last())
    }
}

/// In a function whose parameters have plain names every parameter but `self` is passed on, in
/// order, and what is passed is the variable that its conversion declares.
pub proof fn law_arguments_are_passed_in_order(
    opts: ExtendrOptions,
    names: ItemNamesView,
    sig: Signature,
    self_ty: Option<&Type>,
)
    requires
        patterns_rejection(sig.inputs@) is None,
    ensures
        ({
            let w = wrapper_of(opts, names, sig, self_ty);
            let at = typed_positions(sig.inputs@);
            &&& w.actuals.len() == at.len()
            &&& forall|k: int|
                0 <= k < at.len() ==> 0 <= at[k] < w.conversions.len()
                    && #[trigger] w.actuals[k].variable() == w.conversions[at[k]].var
        }),
{
    lemma_actuals(opts, sig.inputs@);
}

/// The arguments of the call are those of the typed parameters, one by one.
proof fn lemma_actuals(opts: ExtendrOptions, inputs: Seq<FnArg>)
    requires
        patterns_rejection(inputs) is None,
    ensures
        actuals_of(opts, inputs).len() == typed_positions(inputs).len(),
        forall|k: int|
            0 <= k < typed_positions(inputs).len() ==> 0 <= #[trigger] typed_positions(inputs)[k]
                < inputs.len() && actuals_of(opts, inputs)[k].variable() == conversion_of(
                inputs[typed_positions(inputs)[k]],
            ).var,
    decreases inputs.len(),
{
    if inputs.len() > 0 {
        let rest = inputs.drop_last();
        lemma_actuals(opts, rest);
        assert forall|k: int| 0 <= k < typed_positions(inputs).len() implies 0
            <= #[trigger] typed_positions(inputs)[k] < inputs.len() && actuals_of(
            opts,
            inputs,
        )[k].variable() == conversion_of(inputs[typed_positions(inputs)[k]]).var by {
            if k < typed_positions(rest).len() {
                assert(typed_positions(inputs)[k] == typed_positions(rest)[k]);
                assert(actuals_of(opts, inputs)[k] == actuals_of(opts, rest)[k]);
                assert(rest[typed_positions(rest)[k]] == inputs[typed_positions(rest)[k]]);
            }
        }
    }
}

/// A method is called on the R object of the wrapper's first parameter, which its first
/// conversion declares under the name that the call uses.
pub proof fn law_self_is_the_first_parameter(
    opts: ExtendrOptions,
    names: ItemNamesView,
    sig: Signature,
    self_ty: Option<&Type>,
)
    ensures
        ({
            let w = wrapper_of(opts, names, sig, self_ty);
            w.callee is Method <==> has_self(sig.inputs@)
        }),
        has_self(sig.inputs@) ==> ({
            let w = wrapper_of(opts, names, sig, self_ty);
            &&& w.conversions[0].var == "_self_robj"@
            &&& w.conversions[0].arg == "_self"@
        }),
{
}

/// A signature whose defaults have been taken off is accepted like the signature itself and has
/// the same wrapper. Its metadata differs in the defaults alone, of which none is left.
pub proof fn law_defaults_show_in_the_metadata_alone(
    opts: ExtendrOptions,
    names: ItemNamesView,
    attrs: Seq<Attribute>,
    before: Signature,
    after: Signature,
    self_ty: Option<&Type>,
)
    requires
        without_defaults(before, after),
    ensures
        forall|answers: NameAnswersView, prefix: Seq<char>| #[trigger]
            answers.answer(opts, prefix, after) == answers.answer(opts, prefix, before),
        forall|answers: NameAnswersView| #[trigger]
            rejection(answers, after.inputs@, self_ty is Some) == rejection(
                answers,
                before.inputs@,
                self_ty is Some,
            ),
        wrapper_of(opts, names, after, self_ty) == wrapper_of(opts, names, before, self_ty),
        ({
            let m = metadata_of(opts, names, attrs, before, self_ty);
            let n = metadata_of(opts, names, attrs, after, self_ty);
            &&& n.args.len() == m.args.len()
            &&& forall|i: int|
                0 <= i < m.args.len() ==> (#[trigger] n.args[i]).name == m.args[i].name
                    && n.args[i].arg_type == m.args[i].arg_type && n.args[i].default is None
            &&& n == (MetadataFnView { args: n.args, ..m })
        }),
        without_defaults(after, after),
{
    let b = before.inputs@;
    let a = after.inputs@;
    assert forall|i: int| 0 <= i < b.len() implies without_default(a[i], a[i])
        && #[trigger] formal_of(a[i]) == formal_of(b[i]) && conversion_of(a[i]) == conversion_of(b[i])
        && meta_arg_of(a[i], self_ty).name == meta_arg_of(b[i], self_ty).name && meta_arg_of(
        a[i],
        self_ty,
    ).arg_type == meta_arg_of(b[i], self_ty).arg_type && meta_arg_of(
        a[i],
        self_ty,
    ).default is None by {
        assert(without_default(b[i], a[i]));
        if let FnArg::Typed(p) = b[i] {
            law_literals_are_taken_once(p.attrs@, "default"@);
        }
    }
    assert forall|i: int| 0 <= i < a.len() implies without_default(a[i], #[trigger] a[i]) by {
        assert(formal_of(a[i]) == formal_of(b[i]));
    }
    lemma_defaults_in_lists(opts, b, a, self_ty is Some);
    let w = wrapper_of(opts, names, before, self_ty);
    let v = wrapper_of(opts, names, after, self_ty);
    assert(v.formals =~= w.formals) by {
        assert forall|i: int| 0 <= i < b.len() implies v.formals[i] == w.formals[i] by {
            assert(formal_of(a[i]) == formal_of(b[i]));
        }
    }
    assert(v.conversions =~= w.conversions) by {
        assert forall|i: int| 0 <= i < b.len() implies v.conversions[i] == w.conversions[i] by {
            assert(formal_of(a[i]) == formal_of(b[i]));
        }
    }
    if b.len() > 0 {
        assert(without_default(b[0], a[0]));
    }
    let m = metadata_of(opts, names, attrs, before, self_ty);
    let n = metadata_of(opts, names, attrs, after, self_ty);
    assert forall|i: int| 0 <= i < m.args.len() implies (#[trigger] n.args[i]).name
        == m.args[i].name && n.args[i].arg_type == m.args[i].arg_type
        && n.args[i].default is None by {
        assert(formal_of(a[i]) == formal_of(b[i]));
    }
}

/// Taking the defaults off the parameters of a list changes neither what is wrong with it nor
/// what is passed in the call.
proof fn lemma_defaults_in_lists(
    opts: ExtendrOptions,
    before: Seq<FnArg>,
    after: Seq<FnArg>,
    in_impl: bool,
)
    requires
        after.len() == before.len(),
        forall|i: int|
            0 <= i < before.len() ==> without_default(before[i], #[trigger] after[i]),
    ensures
        receivers_rejection(after, in_impl) == receivers_rejection(before, in_impl),
        patterns_rejection(after) == patterns_rejection(before),
        actuals_of(opts, after) == actuals_of(opts, before),
    decreases before.len(),
{
    if before.len() > 0 {
        let b = before.drop_last();
        let a = after.drop_last();
        assert forall|i: int| 0 <= i < b.len() implies without_default(b[i], #[trigger] a[i]) by {
            assert(without_default(before[i], after[i]));
        }
        lemma_defaults_in_lists(opts, b, a, in_impl);
        let last = before.len() - 1;
        assert(without_default(before[last], after[last]));
        assert(actual_of(opts, after.last()) == actual_of(opts, before.last()));
    }
}

/// The source text of a wrapper is settled but for the spelling of one string literal, the name
/// in the message on a panic: a bare literal, which reads back as the name of the function in R.
pub proof fn law_wrapper_source_is_settled(w: WrapperFnView, source: Seq<char>)
    requires
        renders(wrapper_code(w), source),
    ensures
        exists|literal: Seq<char>|
            #[trigger] is_literal_of(w.r_name, literal) && reads_back_as(literal, w.r_name)
                && source == wrapper_text(w) + literal + RESULT_TAIL@,
{
    let code = wrapper_code(w);
    let texts = choose|texts: Seq<Seq<char>>| #[trigger]
        write_all(code, texts) && source == concatenated(texts);
    assert(writes(code[0], texts[0]) && writes(code[1], texts[1]) && writes(code[2], texts[2]));
    reveal_with_fuel(concatenated, 4);
    assert(texts.drop_last().drop_last().drop_last().len() == 0);
    assert(concatenated(texts) =~= texts[0] + texts[1] + texts[2]);
}

} // verus!
