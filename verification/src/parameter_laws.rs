//! What holds of every attribute and parameter, and of what is generated for a list of them.

use vstd::prelude::*;

use crate::attributes::{doc_text, named_lit, without_lit};
use crate::item_names::{ItemNamesView, NameAnswersView};
use crate::items::{
    Actual, ActualView, Callee, CalleeView, Conversion, GeneratedFn, GeneratedFnView, MetaArg,
    MetadataFn, MetadataFnView, WrapperFn, WrapperFnView,
};
use crate::names::{return_name, robj_var, simple_name};
use crate::rejection::{
    checked, lemma_pattern_accepted, lemma_receiver_accepted, pattern_rejection,
    patterns_rejection, receiver_rejection, receivers_rejection, rejection, Rejection,
};
use crate::syntax::{
    Attribute, Expr, FnArg, LitStr, Meta, PatIdent, PatKind, PatType, Path, Receiver, Signature,
    Type,
};
use crate::wrappers::{
    actual_of, actuals_of, are_formals_of, metadata_of, without_defaults, wrapper_of,
    wrappers_added, ExtendrOptions,
};

verus! {

// ---------------------------------------------------------------------------------------------
// Positions
// ---------------------------------------------------------------------------------------------

/// Whether `at` are the positions that are chosen, in increasing order.
pub open spec fn picks(at: Seq<int>, chosen: Seq<bool>) -> bool {
    &&& forall|k: int| 0 <= k < at.len() ==> 0 <= #[trigger] at[k] < chosen.len() && chosen[at[k]]
    &&& forall|j: int, k: int| 0 <= j < k < at.len() ==> #[trigger] at[j] < #[trigger] at[k]
    &&& forall|i: int| 0 <= i < chosen.len() && #[trigger] chosen[i] ==> at.contains(i)
}

/// The positions chosen of a list but for its end.
pub(crate) proof fn lemma_picks_last(at: Seq<int>, chosen: Seq<bool>)
    requires
        picks(at, chosen),
        chosen.len() > 0,
    ensures
        chosen.last() ==> at.len() > 0 && at.last() == chosen.len() - 1 && picks(
            at.drop_last(),
            chosen.drop_last(),
        ),
        !chosen.last() ==> picks(at, chosen.drop_last()),
{
    let n = chosen.len() - 1;
    let rest = chosen.drop_last();
    if chosen.last() {
        assert(chosen[n]);
        assert(at.contains(n));
        let k = choose|k: int| 0 <= k < at.len() && at[k] == n;
        assert(k == at.len() - 1) by {
            if k < at.len() - 1 {
                assert(at[k] < at[at.len() - 1]);
            }
        }
        let front = at.drop_last();
        assert forall|j: int| 0 <= j < front.len() implies 0 <= #[trigger] front[j] < rest.len()
            && rest[front[j]] by {
            assert(at[j] < at[k]);
        }
        assert forall|i: int| 0 <= i < rest.len() && #[trigger] rest[i] implies front.contains(
            i,
        ) by {
            assert(chosen[i]);
            let j = choose|j: int| 0 <= j < at.len() && at[j] == i;
            assert(front[j] == i);
        }
    } else {
        assert forall|j: int| 0 <= j < at.len() implies 0 <= #[trigger] at[j] < rest.len()
            && rest[at[j]] by {
            assert(chosen[at[j]]);
        }
        assert forall|i: int| 0 <= i < rest.len() && #[trigger] rest[i] implies at.contains(i) by {
            assert(chosen[i]);
        }
    }
}

// ---------------------------------------------------------------------------------------------
// Attributes
// ---------------------------------------------------------------------------------------------

/// An attribute `path = "s"` has the string `s` under the name that is the whole of the path, and
/// under no other name.
pub proof fn law_strings_are_found_under_their_name(
    attr: Attribute,
    path: Path,
    lit: LitStr,
    name: Seq<char>,
)
    requires
        attr.meta == Meta::NameValue(path, Expr::Str(lit)),
    ensures
        attr.literal(name) is Some <==> !path.leading_colon && path.segments@.len() == 1
            && !path.segments@[0].has_arguments && path.segments@[0].ident@ == name,
        attr.literal(name) is Some ==> attr.literal(name) == Some(lit@),
{
}

/// An attribute that is not of the form `path = "s"` has no string under any name.
pub proof fn law_other_forms_hold_no_string(attr: Attribute, name: Seq<char>)
    requires
        !(attr.meta is NameValue) || !(attr.meta->NameValue_1 is Str),
    ensures
        attr.literal(name) is None,
{
}

/// An attribute is called by the path that it starts with.
pub proof fn law_attributes_are_called_by_their_path(attr: Attribute)
    ensures
        attr.meta is Path ==> attr.name() == attr.meta->Path_0,
        attr.meta is List ==> attr.name() == attr.meta->List_0,
        attr.meta is NameValue ==> attr.name() == attr.meta->NameValue_0,
{
}

/// Of the strings under a name the last counts: nothing behind it has one.
pub proof fn law_last_string_counts(attrs: Seq<Attribute>, name: Seq<char>, i: int)
    requires
        0 <= i < attrs.len(),
        attrs[i].literal(name) is Some,
        forall|j: int| i < j < attrs.len() ==> (#[trigger] attrs[j]).literal(name) is None,
    ensures
        named_lit(attrs, name) == attrs[i].literal(name),
    decreases attrs.len(),
{
    if i + 1 < attrs.len() {
        let rest = attrs.drop_last();
        assert forall|j: int| i < j < rest.len() implies (#[trigger] rest[j]).literal(
            name,
        ) is None by {
            assert(rest[j] == attrs[j]);
        }
        assert(attrs[attrs.len() - 1].literal(name) is None);
        law_last_string_counts(rest, name, i);
    }
}

/// Where no attribute has a string under a name, none is found.
pub proof fn law_no_string_is_made_up(attrs: Seq<Attribute>, name: Seq<char>)
    requires
        forall|j: int| 0 <= j < attrs.len() ==> (#[trigger] attrs[j]).literal(name) is None,
    ensures
        named_lit(attrs, name) is None,
    decreases attrs.len(),
{
    if attrs.len() > 0 {
        let rest = attrs.drop_last();
        assert(attrs[attrs.len() - 1].literal(name) is None);
        assert forall|j: int| 0 <= j < rest.len() implies (#[trigger] rest[j]).literal(
            name,
        ) is None by {
            assert(rest[j] == attrs[j]);
        }
        law_no_string_is_made_up(rest, name);
    }
}

/// The attributes that have a string under a name are taken out of a list, and every other one
/// stays, in its order.
pub proof fn law_strings_alone_are_taken_out(attrs: Seq<Attribute>, name: Seq<char>)
    ensures
        without_lit(attrs, name) == attrs.filter(|attr: Attribute| attr.literal(name) is None),
    decreases attrs.len(),
{
    reveal(Seq::filter);
    if attrs.len() > 0 {
        law_strings_alone_are_taken_out(attrs.drop_last(), name);
    }
}

/// The texts in a list with a separator between any two.
pub open spec fn joined(texts: Seq<Seq<char>>, separator: Seq<char>) -> Seq<char>
    decreases texts.len(),
{
    if texts.len() == 0 {
        seq![]
    } else if texts.len() == 1 {
        texts[0]
    } else {
        texts[0] + separator + joined(texts.skip(1), separator)
    }
}

/// A further text comes behind a separator.
pub(crate) proof fn lemma_joined_push(texts: Seq<Seq<char>>, separator: Seq<char>, text: Seq<char>)
    ensures
        texts.len() == 0 ==> joined(texts.push(text), separator) == text,
        texts.len() > 0 ==> joined(texts.push(text), separator) == joined(texts, separator)
            + separator + text,
    decreases texts.len(),
{
    if texts.len() > 0 {
        let more = texts.push(text);
        assert(more.skip(1) =~= texts.skip(1).push(text));
        lemma_joined_push(texts.skip(1), separator, text);
        assert(joined(more, separator) =~= joined(texts, separator) + separator + text);
    }
}

/// A further documentation string comes on a line of its own, whatever the documentation so far
/// ends with.
pub proof fn law_documentation_grows_line_by_line(attrs: Seq<Attribute>, attr: Attribute)
    ensures
        attr.literal("doc"@) is None ==> doc_text(attrs.push(attr)) == doc_text(attrs),
        attr.literal("doc"@) matches Some(line) ==> doc_text(attrs.push(attr)) == if doc_text(
            attrs,
        ).len() == 0 {
            line
        } else {
            doc_text(attrs) + seq!['\n'] + line
        },
{
    assert(attrs.push(attr).drop_last() =~= attrs);
}

/// The documentation is the documentation strings, from the first that is not empty on, with one
/// line break between any two. Here `at` are the positions of the strings, and `first` counts the
/// empty ones in front.
pub proof fn law_documentation_is_the_lines(attrs: Seq<Attribute>, at: Seq<int>, first: int)
    requires
        picks(at, Seq::new(attrs.len(), |i: int| attrs[i].literal("doc"@) is Some)),
        0 <= first <= at.len(),
        forall|k: int|
            0 <= k < first ==> attrs[#[trigger] at[k]].literal("doc"@) == Some(Seq::<char>::empty()),
        first < at.len() ==> attrs[at[first]].literal("doc"@) != Some(Seq::<char>::empty()),
    ensures
        doc_text(attrs) == joined(
            Seq::new(
                (at.len() - first) as nat,
                |k: int| attrs[at[first + k]].literal("doc"@)->0,
            ),
            seq!['\n'],
        ),
    decreases attrs.len(),
{
    let chosen = Seq::new(attrs.len(), |i: int| attrs[i].literal("doc"@) is Some);
    let lines = Seq::new(
        (at.len() - first) as nat,
        |k: int| attrs[at[first + k]].literal("doc"@)->0,
    );
    if attrs.len() == 0 {
        if at.len() > 0 {
            assert(0 <= at[0] < chosen.len());
        }
        assert(lines.len() == 0);
    } else {
        let rest = attrs.drop_last();
        let rest_chosen = Seq::new(rest.len(), |i: int| rest[i].literal("doc"@) is Some);
        lemma_picks_last(at, chosen);
        assert(chosen.drop_last() =~= rest_chosen);
        if chosen.last() {
            let front = at.drop_last();
            assert forall|k: int| 0 <= k < front.len() implies rest[#[trigger] front[k]]
                == attrs[at[k]] by {
                assert(0 <= front[k] < rest_chosen.len());
            }
            if first == at.len() {
                assert(attrs[at[first - 1]].literal("doc"@) == Some(Seq::<char>::empty()));
                law_documentation_is_the_lines(rest, front, first - 1);
                assert(Seq::new(
                    (front.len() - (first - 1)) as nat,
                    |k: int| rest[front[first - 1 + k]].literal("doc"@)->0,
                ) =~= lines);
            } else {
                if first < front.len() {
                    assert(rest[front[first]] == attrs[at[first]]);
                }
                law_documentation_is_the_lines(rest, front, first);
                let before = Seq::new(
                    (front.len() - first) as nat,
                    |k: int| rest[front[first + k]].literal("doc"@)->0,
                );
                assert(lines.drop_last() =~= before) by {
                    assert forall|k: int| 0 <= k < before.len() implies lines[k] == before[k] by {
                        assert(rest[front[first + k]] == attrs[at[first + k]]);
                    }
                }
                let line = attrs.last().literal("doc"@)->0;
                assert(lines =~= before.push(line));
                lemma_joined_push(before, seq!['\n'], line);
                if before.len() > 0 {
                    assert(before[0] == attrs[at[first]].literal("doc"@)->0);
                    lemma_joined_nonempty(before, seq!['\n']);
                }
            }
        } else {
            assert forall|k: int| 0 <= k < at.len() implies rest[#[trigger] at[k]]
                == attrs[at[k]] by {
                assert(0 <= at[k] < rest_chosen.len());
            }
            law_documentation_is_the_lines(rest, at, first);
            assert(lines =~= Seq::new(
                (at.len() - first) as nat,
                |k: int| rest[at[first + k]].literal("doc"@)->0,
            ));
        }
    }
}

/// Texts of which the first is not empty make a text that is not empty.
proof fn lemma_joined_nonempty(texts: Seq<Seq<char>>, separator: Seq<char>)
    requires
        texts.len() > 0,
        texts[0] != Seq::<char>::empty(),
    ensures
        joined(texts, separator).len() > 0,
{
    if texts[0].len() == 0 {
        assert(texts[0] =~= Seq::<char>::empty());
    }
}

// ---------------------------------------------------------------------------------------------
// Rejections
// ---------------------------------------------------------------------------------------------

/// Whether a parameter can stand in a function as far as `self` goes: it is `&self` or
/// `&mut self`, without attributes and in an `impl` block, or it is no `self` parameter.
pub open spec fn is_fit_for_self(input: FnArg, in_impl: bool) -> bool {
    input matches FnArg::Receiver(receiver) ==> receiver.attrs@.len() == 0 && receiver.reference
        && in_impl
}

/// Whether a parameter has a plain name, or is a `self` parameter.
pub open spec fn is_fit_by_name(input: FnArg) -> bool {
    input matches FnArg::Typed(pattype) ==> pattype.pat.kind is Ident
        && !pattype.pat.kind->Ident_0.by_ref && !pattype.pat.kind->Ident_0.mutability
        && !pattype.pat.kind->Ident_0.has_subpat
}

/// Where all `self` parameters before position `i` are fit and the one at `i` is not, that one is
/// what the list is rejected for.
proof fn lemma_first_unfit_self(inputs: Seq<FnArg>, in_impl: bool, i: int)
    requires
        0 <= i <= inputs.len(),
        forall|j: int| 0 <= j < i ==> is_fit_for_self(#[trigger] inputs[j], in_impl),
        i < inputs.len() ==> !is_fit_for_self(inputs[i], in_impl),
    ensures
        receivers_rejection(inputs, in_impl) == if i < inputs.len() {
            receiver_rejection(inputs[i], in_impl)
        } else {
            None
        },
    decreases inputs.len(),
{
    if inputs.len() > 0 {
        let rest = inputs.drop_last();
        let end = if i < inputs.len() {
            i
        } else {
            i - 1
        };
        assert forall|j: int| 0 <= j < end implies is_fit_for_self(#[trigger] rest[j], in_impl) by {
            assert(rest[j] == inputs[j]);
        }
        lemma_first_unfit_self(rest, in_impl, end);
        if i == inputs.len() {
            assert(is_fit_for_self(inputs[i - 1], in_impl));
        }
    }
}

/// Where all names before position `i` are fit and the one at `i` is not, that one is what the
/// list is rejected for.
proof fn lemma_first_unfit_name(inputs: Seq<FnArg>, i: int)
    requires
        0 <= i <= inputs.len(),
        forall|j: int| 0 <= j < i ==> is_fit_by_name(#[trigger] inputs[j]),
        i < inputs.len() ==> !is_fit_by_name(inputs[i]),
    ensures
        patterns_rejection(inputs) == if i < inputs.len() {
            pattern_rejection(inputs[i])
        } else {
            None
        },
    decreases inputs.len(),
{
    if inputs.len() > 0 {
        let rest = inputs.drop_last();
        let end = if i < inputs.len() {
            i
        } else {
            i - 1
        };
        assert forall|j: int| 0 <= j < end implies is_fit_by_name(#[trigger] rest[j]) by {
            assert(rest[j] == inputs[j]);
        }
        lemma_first_unfit_name(rest, end);
        if i == inputs.len() {
            assert(is_fit_by_name(inputs[i - 1]));
        }
    }
}

/// A function is accepted where identifiers were read for all its names and every parameter is
/// fit.
pub proof fn law_fit_functions_are_accepted(
    answers: NameAnswersView,
    inputs: Seq<FnArg>,
    in_impl: bool,
)
    requires
        answers.given is Some,
        answers.bare is Some,
        answers.wrap is Some,
        answers.meta is Some,
        forall|j: int|
            0 <= j < inputs.len() ==> is_fit_for_self(#[trigger] inputs[j], in_impl)
                && is_fit_by_name(inputs[j]),
    ensures
        rejection(answers, inputs, in_impl) is None,
        checked(rejection(answers, inputs, in_impl)) == Ok::<(), Rejection>(()),
{
    lemma_first_unfit_self(inputs, in_impl, inputs.len() as int);
    lemma_first_unfit_name(inputs, inputs.len() as int);
}

/// A function that is accepted is fit in every respect.
pub proof fn law_accepted_functions_are_fit(
    answers: NameAnswersView,
    inputs: Seq<FnArg>,
    in_impl: bool,
    i: int,
)
    requires
        rejection(answers, inputs, in_impl) is None,
    ensures
        answers.given is Some,
        answers.bare is Some,
        answers.wrap is Some,
        answers.meta is Some,
        0 <= i < inputs.len() ==> is_fit_for_self(inputs[i], in_impl) && is_fit_by_name(inputs[i]),
{
    if 0 <= i < inputs.len() {
        lemma_receiver_accepted(inputs, i, in_impl);
        lemma_pattern_accepted(inputs, i);
    }
}

/// A name that was not read is what a function is rejected for before anything else: first the
/// name that the items are known by, then the names of the items.
pub proof fn law_names_are_rejected_first(
    answers: NameAnswersView,
    inputs: Seq<FnArg>,
    in_impl: bool,
)
    ensures
        answers.given is None ==> checked(rejection(answers, inputs, in_impl)) == Err::<
            (),
            Rejection,
        >(Rejection::InvalidModName),
        answers.bare is None ==> checked(rejection(answers, inputs, in_impl)) == Err::<
            (),
            Rejection,
        >(Rejection::InvalidModName),
        answers.given is Some && answers.bare is Some && (answers.wrap is None
            || answers.meta is None) ==> checked(rejection(answers, inputs, in_impl)) == Err::<
            (),
            Rejection,
        >(Rejection::InvalidItemName),
{
}

/// Behind the names, the first `self` parameter that is not fit is what a function is rejected
/// for, whatever the other parameters are called.
pub proof fn law_first_unfit_self_is_rejected(
    answers: NameAnswersView,
    inputs: Seq<FnArg>,
    in_impl: bool,
    i: int,
    receiver: Receiver,
)
    requires
        answers.given is Some,
        answers.bare is Some,
        answers.wrap is Some,
        answers.meta is Some,
        0 <= i < inputs.len(),
        inputs[i] == FnArg::Receiver(receiver),
        !is_fit_for_self(inputs[i], in_impl),
        forall|j: int| 0 <= j < i ==> is_fit_for_self(#[trigger] inputs[j], in_impl),
    ensures
        checked(rejection(answers, inputs, in_impl)) == Err::<(), Rejection>(
            if receiver.reference && receiver.attrs@.len() == 0 {
                Rejection::SelfOutsideImpl
            } else {
                Rejection::ExpectedSelfReference
            },
        ),
{
    lemma_first_unfit_self(inputs, in_impl, i);
}

/// Where names and `self` parameters are fit, the first parameter without a plain name is what a
/// function is rejected for.
pub proof fn law_first_unfit_name_is_rejected(
    answers: NameAnswersView,
    inputs: Seq<FnArg>,
    in_impl: bool,
    i: int,
    param: PatType,
)
    requires
        answers.given is Some,
        answers.bare is Some,
        answers.wrap is Some,
        answers.meta is Some,
        forall|j: int| 0 <= j < inputs.len() ==> is_fit_for_self(#[trigger] inputs[j], in_impl),
        0 <= i < inputs.len(),
        inputs[i] == FnArg::Typed(param),
        !is_fit_by_name(inputs[i]),
        forall|j: int| 0 <= j < i ==> is_fit_by_name(#[trigger] inputs[j]),
    ensures
        checked(rejection(answers, inputs, in_impl)) == Err::<(), Rejection>(
            if param.pat.kind is Ident {
                Rejection::PatternNotExpression
            } else {
                Rejection::ExpectedIdentifier
            },
        ),
{
    lemma_first_unfit_self(inputs, in_impl, inputs.len() as int);
    lemma_first_unfit_name(inputs, i);
}

/// One parameter is checked alone as it is in a list of one.
pub proof fn law_one_parameter_is_checked_as_a_list(input: FnArg, in_impl: bool)
    ensures
        receiver_rejection(input, in_impl) == receivers_rejection(seq![input], in_impl),
        receiver_rejection(input, in_impl) is None <==> is_fit_for_self(input, in_impl),
        pattern_rejection(input) == patterns_rejection(seq![input]),
        pattern_rejection(input) is None <==> is_fit_by_name(input),
{
    assert(seq![input].drop_last() =~= Seq::<FnArg>::empty());
    reveal_with_fuel(receivers_rejection, 2);
    reveal_with_fuel(patterns_rejection, 2);
}

// ---------------------------------------------------------------------------------------------
// What is generated for a parameter
// ---------------------------------------------------------------------------------------------

/// A parameter of the wrapped function is a parameter of the wrapper under the same pattern, and
/// the R object made of it is held in a variable named after it. Its metadata has its pattern for
/// a name, the name of its type, and the last of its defaults.
pub proof fn law_parameters_are_carried_over(
    opts: ExtendrOptions,
    names: ItemNamesView,
    attrs: Seq<Attribute>,
    sig: Signature,
    self_ty: Option<&Type>,
    i: int,
    param: PatType,
)
    requires
        0 <= i < sig.inputs@.len(),
        sig.inputs@[i] == FnArg::Typed(param),
    ensures
        ({
            let w = wrapper_of(opts, names, sig, self_ty);
            let m = metadata_of(opts, names, attrs, sig, self_ty);
            &&& w.formals[i] == param.pat.tokens@ + " : extendr_api :: SEXP"@
            &&& !w.conversions[i].mutable
            &&& param.pat.kind matches PatKind::Ident(ident) ==> w.conversions[i].var == robj_var(
                ident.ident@,
            )
            &&& w.conversions[i].arg == param.pat.tokens@
            &&& m.args[i].name == param.pat.tokens@
            &&& m.args[i].arg_type == simple_name(param.ty)
            &&& m.args[i].default == named_lit(param.attrs@, "default"@)
        }),
{
    lemma_sexp_parameter(param.pat.tokens@);
}

/// A `self` parameter is the wrapper's parameter `_self`, and the R object made of it can be
/// changed. Its metadata has the name of the type that the function is a method of.
pub proof fn law_self_is_carried_over(
    opts: ExtendrOptions,
    names: ItemNamesView,
    attrs: Seq<Attribute>,
    sig: Signature,
    self_ty: &Type,
    i: int,
)
    requires
        0 <= i < sig.inputs@.len(),
        sig.inputs@[i] is Receiver,
    ensures
        ({
            let w = wrapper_of(opts, names, sig, Some(self_ty));
            let m = metadata_of(opts, names, attrs, sig, Some(self_ty));
            &&& w.formals[i] == "_self"@ + " : extendr_api :: SEXP"@
            &&& w.conversions[i].mutable
            &&& w.conversions[i].var == "_self_robj"@
            &&& w.conversions[i].arg == "_self"@
            &&& m.args[i].name == "self"@
            &&& m.args[i].arg_type == simple_name(*self_ty)
            &&& m.args[i].default is None
        }),
{
    lemma_sexp_parameter("_self"@);
}

/// The type of an R object behind a name.
pub(crate) proof fn lemma_sexp_parameter(name: Seq<char>)
    ensures
        name + " : "@ + "extendr_api :: SEXP"@ == name + " : extendr_api :: SEXP"@,
{
    reveal_strlit(" : ");
    reveal_strlit("extendr_api :: SEXP");
    reveal_strlit(" : extendr_api :: SEXP");
    assert(name + " : "@ + "extendr_api :: SEXP"@ =~= name + " : extendr_api :: SEXP"@);
}

/// The conversion of an argument is asked of the type that the parameter is declared with, all of
/// it, unless it is left to the compiler which type that is.
pub proof fn law_conversion_is_asked_of_the_declared_type(
    opts: ExtendrOptions,
    param: PatType,
    ident: PatIdent,
)
    requires
        param.pat.kind == PatKind::Ident(ident),
    ensures
        opts.use_try_from ==> actual_of(opts, FnArg::Typed(param)) == Some(
            ActualView::TryInto { var: robj_var(ident.ident@) },
        ),
        !opts.use_try_from ==> actual_of(opts, FnArg::Typed(param)) == Some(
            ActualView::FromRobj { ty: param.ty.tokens@, var: robj_var(ident.ident@) },
        ),
{
}

/// Two parameters are converted in the same way only where they are declared with the same type
/// and held in the same variable.
pub proof fn law_conversions_tell_types_apart(opts: ExtendrOptions, a: PatType, b: PatType)
    requires
        !opts.use_try_from,
        a.pat.kind is Ident,
        b.pat.kind is Ident,
        actual_of(opts, FnArg::Typed(a)) == actual_of(opts, FnArg::Typed(b)),
    ensures
        a.ty.tokens@ == b.ty.tokens@,
        robj_var(a.pat.kind->Ident_0.ident@) == robj_var(b.pat.kind->Ident_0.ident@),
{
}

/// What is passed in the call are the parameters with a name, in their order, each converted to
/// the type it is declared with from the variable that is named after it. Here `at` are the
/// positions of these parameters.
pub proof fn law_every_named_parameter_is_passed(
    opts: ExtendrOptions,
    names: ItemNamesView,
    sig: Signature,
    self_ty: Option<&Type>,
    at: Seq<int>,
)
    requires
        picks(
            at,
            Seq::new(
                sig.inputs@.len(),
                |i: int| sig.inputs@[i] is Typed && sig.inputs@[i]->Typed_0.pat.kind is Ident,
            ),
        ),
    ensures
        ({
            let w = wrapper_of(opts, names, sig, self_ty);
            &&& w.actuals.len() == at.len()
            &&& forall|k: int|
                0 <= k < at.len() ==> #[trigger] w.actuals[k] == ({
                    let param = sig.inputs@[at[k]]->Typed_0;
                    let var = robj_var(param.pat.kind->Ident_0.ident@);
                    if opts.use_try_from {
                        ActualView::TryInto { var }
                    } else {
                        ActualView::FromRobj { ty: param.ty.tokens@, var }
                    }
                })
        }),
{
    lemma_actuals_at(opts, sig.inputs@, at);
}

/// The arguments of a call for a list of parameters.
pub(crate) proof fn lemma_actuals_at(opts: ExtendrOptions, inputs: Seq<FnArg>, at: Seq<int>)
    requires
        picks(
            at,
            Seq::new(
                inputs.len(),
                |i: int| inputs[i] is Typed && inputs[i]->Typed_0.pat.kind is Ident,
            ),
        ),
    ensures
        actuals_of(opts, inputs).len() == at.len(),
        forall|k: int|
            0 <= k < at.len() ==> Some(#[trigger] actuals_of(opts, inputs)[k]) == actual_of(
                opts,
                inputs[at[k]],
            ) && inputs[at[k]] is Typed && inputs[at[k]]->Typed_0.pat.kind is Ident,
    decreases inputs.len(),
{
    let chosen = Seq::new(
        inputs.len(),
        |i: int| inputs[i] is Typed && inputs[i]->Typed_0.pat.kind is Ident,
    );
    if inputs.len() == 0 {
        if at.len() > 0 {
            assert(0 <= at[0] < chosen.len());
        }
    } else {
        let rest = inputs.drop_last();
        let rest_chosen = Seq::new(
            rest.len(),
            |i: int| rest[i] is Typed && rest[i]->Typed_0.pat.kind is Ident,
        );
        lemma_picks_last(at, chosen);
        assert(chosen.drop_last() =~= rest_chosen);
        let front = if chosen.last() {
            at.drop_last()
        } else {
            at
        };
        lemma_actuals_at(opts, rest, front);
        assert forall|k: int| 0 <= k < at.len() implies Some(
            #[trigger] actuals_of(opts, inputs)[k],
        ) == actual_of(opts, inputs[at[k]]) && inputs[at[k]] is Typed
            && inputs[at[k]]->Typed_0.pat.kind is Ident by {
            if k < front.len() {
                assert(0 <= front[k] < rest_chosen.len());
                assert(actuals_of(opts, rest)[k] == actuals_of(opts, inputs)[k]);
                assert(rest[front[k]] == inputs[at[k]]);
            }
        }
    }
}

/// The arguments of the call for two lists of parameters in a row are those for the one, then
/// those for the other.
pub proof fn law_arguments_go_list_by_list(
    opts: ExtendrOptions,
    first: Seq<FnArg>,
    second: Seq<FnArg>,
)
    ensures
        actuals_of(opts, first + second) == actuals_of(opts, first) + actuals_of(opts, second),
    decreases second.len(),
{
    if second.len() == 0 {
        assert(first + second =~= first);
        assert(actuals_of(opts, first) + actuals_of(opts, second) =~= actuals_of(opts, first));
    } else {
        law_arguments_go_list_by_list(opts, first, second.drop_last());
        assert((first + second).drop_last() =~= first + second.drop_last());
        assert(actuals_of(opts, first + second) =~= actuals_of(opts, first) + actuals_of(
            opts,
            second,
        ));
    }
}

// ---------------------------------------------------------------------------------------------
// What is generated for a function
// ---------------------------------------------------------------------------------------------

/// A function in an `impl` block that does not take `self` first is called as an associated
/// function of the block's type, whatever its parameters are; a function in no block is called by
/// its name alone.
pub proof fn law_functions_of_a_type_are_called_through_it(
    opts: ExtendrOptions,
    names: ItemNamesView,
    sig: Signature,
    self_ty: Option<&Type>,
)
    requires
        sig.inputs@.len() == 0 || sig.inputs@[0] is Typed,
    ensures
        wrapper_of(opts, names, sig, self_ty).callee == match self_ty {
            Some(type_) => CalleeView::Associated { self_ty: type_.tokens@, name: sig.ident@ },
            None => CalleeView::Free { name: sig.ident@ },
        },
{
}

/// A function that takes `self` first is called as a method of the block's type, through a
/// reference that can be written through where the function takes `&mut self`.
pub proof fn law_methods_are_called_on_self(
    opts: ExtendrOptions,
    names: ItemNamesView,
    sig: Signature,
    self_ty: &Type,
    receiver: Receiver,
)
    requires
        sig.inputs@.len() > 0,
        sig.inputs@[0] == FnArg::Receiver(receiver),
    ensures
        wrapper_of(opts, names, sig, Some(self_ty)).callee == (CalleeView::Method {
            mutable: receiver.mutability,
            self_ty: self_ty.tokens@,
            name: sig.ident@,
        }),
{
}

/// The items of a function have the names they are given, show the name in R that the options ask
/// for or else the function's own, and have one entry for each parameter.
pub proof fn law_items_show_what_they_were_made_of(
    opts: ExtendrOptions,
    names: ItemNamesView,
    attrs: Seq<Attribute>,
    sig: Signature,
    self_ty: Option<&Type>,
)
    ensures
        ({
            let w = wrapper_of(opts, names, sig, self_ty);
            let m = metadata_of(opts, names, attrs, sig, self_ty);
            &&& w.name == names.wrap_name
            &&& m.name == names.meta_name
            &&& m.mod_name == names.mod_name
            &&& m.wrapper == names.wrap_name
            &&& m.rust_name == sig.ident@
            &&& opts.r_name matches Some(name) ==> w.r_name == name@ && m.r_name == name@
            &&& opts.r_name is None ==> w.r_name == sig.ident@ && m.r_name == sig.ident@
            &&& m.doc == doc_text(attrs)
            &&& m.return_type == return_name(sig)
            &&& !m.hidden
            &&& w.use_rng == opts.use_rng
            &&& w.formals.len() == sig.inputs@.len()
            &&& w.conversions.len() == sig.inputs@.len()
            &&& m.args.len() == sig.inputs@.len()
        }),
{
}

/// What was there stays where it is, and behind it come the wrapper and then the metadata
/// function.
pub proof fn law_items_come_behind_the_others(
    before: Seq<GeneratedFn>,
    after: Seq<GeneratedFn>,
    inputs: Seq<FnArg>,
    wrapper: WrapperFnView,
    metadata: MetadataFnView,
)
    requires
        wrappers_added(before, after, inputs, wrapper, metadata),
    ensures
        after.len() == before.len() + 2,
        forall|i: int| 0 <= i < before.len() ==> after[i] == #[trigger] before[i],
        after[before.len() as int] is Wrapper,
        after[before.len() as int]->Wrapper_0@ == wrapper,
        after[before.len() as int + 1] is Metadata,
        after[before.len() as int + 1]->Metadata_0@ == metadata,
        are_formals_of(after[before.len() as int]->Wrapper_0.formals@, inputs),
{
    assert forall|i: int| 0 <= i < before.len() implies after[i] == #[trigger] before[i] by {
        assert(after.take(before.len() as int)[i] == after[i]);
    }
}

/// The parameters of a wrapper are as many as those of the function. Each is an R object without
/// attributes, under the pattern of the function's parameter, or under the name `_self`.
pub proof fn law_wrapper_parameters_are_r_objects(
    formals: Seq<FnArg>,
    inputs: Seq<FnArg>,
    i: int,
)
    requires
        are_formals_of(formals, inputs),
        0 <= i < inputs.len(),
    ensures
        formals.len() == inputs.len(),
        formals[i] is Typed,
        ({
            let made = formals[i]->Typed_0;
            &&& made.attrs@.len() == 0
            &&& made.ty.tokens@ == "extendr_api :: SEXP"@
            &&& made.ty.kind is Path
            &&& !made.ty.kind->Path_0.leading_colon
            &&& made.ty.kind->Path_0.segments@.len() == 2
            &&& made.ty.kind->Path_0.segments@[0].ident@ == "extendr_api"@
            &&& made.ty.kind->Path_0.segments@[1].ident@ == "SEXP"@
            &&& forall|k: int|
                0 <= k < 2 ==> !(#[trigger] made.ty.kind->Path_0.segments@[k]).has_arguments
            &&& inputs[i] is Typed ==> made.pat == inputs[i]->Typed_0.pat
            &&& inputs[i] is Receiver ==> {
                &&& made.pat.tokens@ == "_self"@
                &&& made.pat.kind is Ident
                &&& made.pat.kind->Ident_0.ident@ == "_self"@
                &&& !made.pat.kind->Ident_0.by_ref
                &&& !made.pat.kind->Ident_0.mutability
                &&& !made.pat.kind->Ident_0.has_subpat
            }
        }),
{
}

/// Nothing comes off a signature but the defaults of its parameters.
pub proof fn law_defaults_alone_come_off(before: Signature, after: Signature, i: int)
    requires
        without_defaults(before, after),
        0 <= i < before.inputs@.len(),
    ensures
        after.ident == before.ident,
        after.output == before.output,
        after.inputs@.len() == before.inputs@.len(),
        before.inputs@[i] is Receiver ==> after.inputs@[i] == before.inputs@[i],
        before.inputs@[i] is Typed ==> {
            let b = before.inputs@[i]->Typed_0;
            let a = after.inputs@[i]->Typed_0;
            &&& after.inputs@[i] is Typed
            &&& a.pat == b.pat
            &&& a.ty == b.ty
            &&& a.attrs@ == b.attrs@.filter(|attr: Attribute| attr.literal("default"@) is None)
        },
{
    assert(after.inputs@[i] == after.inputs@[i]);
    if before.inputs@[i] is Typed {
        law_strings_alone_are_taken_out(before.inputs@[i]->Typed_0.attrs@, "default"@);
    }
}

/// The view of a part of a generated function shows every field of it.
pub proof fn law_views_of_parts_show_every_field(
    conversion: Conversion,
    actual: Actual,
    callee: Callee,
    arg: MetaArg,
)
    ensures
        conversion@.mutable == conversion.mutable,
        conversion@.var == conversion.var@,
        conversion@.arg == conversion.arg@,
        actual matches Actual::TryInto { var } ==> actual@ == (ActualView::TryInto { var: var@ }),
        actual matches Actual::FromRobj { ty, var } ==> actual@ == (ActualView::FromRobj {
            ty: ty@,
            var: var@,
        }),
        actual@.variable() == match actual {
            Actual::TryInto { var } => var@,
            Actual::FromRobj { ty, var } => var@,
        },
        callee matches Callee::Method { mutable, self_ty, name } ==> callee@ == (
        CalleeView::Method { mutable, self_ty: self_ty@, name: name@ }),
        callee matches Callee::Associated { self_ty, name } ==> callee@ == (
        CalleeView::Associated { self_ty: self_ty@, name: name@ }),
        callee matches Callee::Free { name } ==> callee@ == (CalleeView::Free { name: name@ }),
        arg@.name == arg.name@,
        arg@.arg_type == arg.arg_type@,
        arg.default is None ==> arg@.default is None,
        arg.default matches Some(default) ==> arg@.default == Some(default@),
{
}

/// The view of a generated function shows every field of it.
pub proof fn law_views_of_items_show_every_field(wrapper: WrapperFn, metadata: MetadataFn, i: int)
    ensures
        GeneratedFn::Wrapper(wrapper)@ == GeneratedFnView::Wrapper(wrapper@),
        GeneratedFn::Metadata(metadata)@ == GeneratedFnView::Metadata(metadata@),
        wrapper@.name == wrapper.name@,
        wrapper@.use_rng == wrapper.use_rng,
        wrapper@.callee == wrapper.callee@,
        wrapper@.r_name == wrapper.r_name@,
        wrapper@.formals.len() == wrapper.formals@.len(),
        wrapper@.conversions.len() == wrapper.conversions@.len(),
        wrapper@.actuals.len() == wrapper.actuals@.len(),
        0 <= i < wrapper.formals@.len() && wrapper.formals@[i] is Typed ==> wrapper@.formals[i]
            == wrapper.formals@[i]->Typed_0.pat.tokens@ + " : "@
            + wrapper.formals@[i]->Typed_0.ty.tokens@,
        0 <= i < wrapper.conversions@.len() ==> wrapper@.conversions[i]
            == wrapper.conversions@[i]@,
        0 <= i < wrapper.actuals@.len() ==> wrapper@.actuals[i] == wrapper.actuals@[i]@,
        metadata@.name == metadata.name@,
        metadata@.args.len() == metadata.args@.len(),
        0 <= i < metadata.args@.len() ==> metadata@.args[i] == metadata.args@[i]@,
        metadata@.doc == metadata.doc@,
        metadata@.rust_name == metadata.rust_name@,
        metadata@.r_name == metadata.r_name@,
        metadata@.mod_name == metadata.mod_name@,
        metadata@.return_type == metadata.return_type@,
        metadata@.wrapper == metadata.wrapper@,
        metadata@.hidden == metadata.hidden,
{
}

} // verus!
