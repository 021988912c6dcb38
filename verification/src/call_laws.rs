//! What every call gives, said of the calls themselves.

use vstd::prelude::*;

use crate::attributes::{get_doc_string, get_named_lit};
use crate::code::{generated_code, pieces, renders, source_text, Piece, PieceView};
use crate::externalptr::{
    created, finalized, finalizer, written, ExternalPtr, PtrError, Robj, Rtype, Store,
};
use crate::item_names::{
    read_names, take_ident, taken_as_ident, ItemNames, NameAnswers, NameAnswersView,
};
use crate::items::{
    Actual, Conversion, GeneratedFn, GeneratedFnView, MetaArg, MetadataFn, WrapperFn,
};
use crate::laws::law_raw_marker_comes_off;
use crate::names::{
    get_return_type, mangle, mangled_text, mangled_type_name, robj_variable, sanitize_identifier,
    simple_name, simple_type_name,
};
use crate::naming_laws::law_variables_show_the_argument;
use crate::outside::{is_parse_of, is_print_of, is_refused, is_value_read};
use crate::parameter_laws::{
    is_fit_by_name, is_fit_for_self, joined, law_documentation_is_the_lines,
    law_fit_functions_are_accepted, law_items_come_behind_the_others,
    law_last_string_counts, law_no_string_is_made_up, law_strings_alone_are_taken_out, picks,
};
use crate::rejection::{
    check_answers, check_function, check_receiver, checked, rejection, Rejection,
};
use crate::syntax::{
    Attribute, FnArg, LitStr, Meta, PatIdent, PatKind, PatType, Path, Receiver, Signature,
    SyntaxError, Tokens, Type, TypeKind,
};
use crate::wrappers::{
    make_function_wrappers, make_named_wrappers, metadata_of, translate_actual, translate_formal,
    translate_meta_arg, translate_to_robj, without_defaults, wrapper_of, wrappers_added,
    ExtendrOptions,
};

verus! {

// ---------------------------------------------------------------------------------------------
// Names
// ---------------------------------------------------------------------------------------------

/// The name of a type is its identifier where it is a path of one segment, the name of what it
/// points to where it is a reference, a pointer or in brackets, and else its mangled tokens.
pub proof fn law_of_simple_type_name(type_: &Type, res: String)
    requires
        call_ensures(simple_type_name, (type_,), res),
    ensures
        type_.kind matches TypeKind::Path(path) ==> res@ == if path.segments@.len() == 1 {
            path.segments@[0].ident@
        } else {
            mangle(type_.tokens@)
        },
        type_.kind is Other ==> res@ == mangle(type_.tokens@),
        type_.kind matches TypeKind::Group(elem) ==> res@ == simple_name(*elem),
        type_.kind matches TypeKind::Reference(elem) ==> res@ == simple_name(*elem),
        type_.kind matches TypeKind::Paren(elem) ==> res@ == simple_name(*elem),
        type_.kind matches TypeKind::Ptr(elem) ==> res@ == simple_name(*elem),
{
}

/// A type and a reference to it have the same name.
pub proof fn law_of_type_names_of_references(outer: &Type, inner: &Type, a: String, b: String)
    requires
        outer.kind matches TypeKind::Reference(elem) && *elem == *inner,
        call_ensures(simple_type_name, (outer,), a),
        call_ensures(simple_type_name, (inner,), b),
    ensures
        a@ == b@,
{
}

/// The mangled name of a type is the mangled form of its tokens, and that of a text its own.
pub proof fn law_of_mangled_names(type_: &Type, text: &str, of_type: String, of_text: String)
    requires
        call_ensures(mangled_type_name, (type_,), of_type),
        call_ensures(mangled_text, (text,), of_text),
    ensures
        of_type@ == mangle(type_.tokens@),
        of_text@ == mangle(text@),
        type_.tokens@ == text@ ==> of_type@ == of_text@,
{
}

/// What is returned is called by the name of its type, and the unit by its own.
pub proof fn law_of_get_return_type(sig: &Signature, res: String)
    requires
        call_ensures(get_return_type, (sig,), res),
    ensures
        sig.output is None ==> res@ == "()"@,
        sig.output matches Some(type_) ==> res@ == simple_name(type_),
{
}

/// The raw marker comes off, and the variable for an argument is named after what is left.
pub proof fn law_of_identifiers(
    ident: String,
    plain: Seq<char>,
    sanitized: String,
    variable: String,
)
    requires
        call_ensures(sanitize_identifier, (ident,), sanitized),
        call_ensures(robj_variable, (&ident,), variable),
        ident@ == "r#"@ + plain || (ident@ == plain && !("r#"@.is_prefix_of(plain))),
    ensures
        sanitized@ == plain,
        variable@ == "_"@ + plain + "_robj"@,
{
    law_raw_marker_comes_off(plain);
    law_variables_show_the_argument(plain);
}

/// A text is taken for an identifier as it is read, and the names of a function's items are read
/// from the name that is given for them.
pub proof fn law_of_reading_names(
    text: &str,
    opts: &ExtendrOptions,
    prefix: &str,
    sig: &Signature,
    taken: Option<String>,
    answers: NameAnswers,
)
    requires
        call_ensures(take_ident, (text,), taken),
        call_ensures(read_names, (opts, prefix, sig), answers),
    ensures
        taken matches Some(ident) ==> taken_as_ident(text@, Some(ident@)),
        taken is None ==> taken_as_ident(text@, None),
        answers@.answer(*opts, prefix@, *sig),
{
}

/// The view of names and of answers on names shows every field.
pub proof fn law_views_of_names_show_every_field(names: ItemNames, answers: NameAnswers)
    ensures
        names@.mod_name == names.mod_name@,
        names@.wrap_name == names.wrap_name@,
        names@.meta_name == names.meta_name@,
        answers@.given == match answers.given {
            Some(name) => Some(name@),
            None => None,
        },
        answers@.bare == match answers.bare {
            Some(name) => Some(name@),
            None => None,
        },
        answers@.wrap == match answers.wrap {
            Some(name) => Some(name@),
            None => None,
        },
        answers@.meta == match answers.meta {
            Some(name) => Some(name@),
            None => None,
        },
{
}

// ---------------------------------------------------------------------------------------------
// Syntax
// ---------------------------------------------------------------------------------------------

/// Tokens and string literals hold what is read from their source, and give it back.
pub proof fn law_of_reading_source(
    source: &str,
    tokens: Result<Tokens, SyntaxError>,
    lit: Result<LitStr, SyntaxError>,
)
    requires
        call_ensures(Tokens::read, (source,), tokens),
        call_ensures(LitStr::read, (source,), lit),
    ensures
        tokens matches Ok(tokens) ==> is_print_of(source@, Some(tokens@)),
        tokens is Err ==> is_print_of(source@, None) && tokens == Err::<Tokens, SyntaxError>(
            SyntaxError::NotTokens,
        ),
        lit matches Ok(lit) ==> is_value_read(source@, Some(lit@)) && lit.written() == source@,
        lit is Err ==> is_value_read(source@, None) && lit == Err::<LitStr, SyntaxError>(
            SyntaxError::NotStringLiteral,
        ),
{
}

/// What tokens and literals hold is what they show.
pub proof fn law_of_showing_source(
    tokens: &Tokens,
    lit: &LitStr,
    text: &str,
    value: String,
    token: &str,
)
    requires
        call_ensures(Tokens::as_str, (tokens,), text),
        call_ensures(LitStr::value, (lit,), value),
        call_ensures(LitStr::token, (lit,), token),
    ensures
        text@ == tokens@,
        value@ == lit@,
        token@ == lit.written(),
{
}

/// A path is an identifier where it is one segment with nothing before it and nothing behind it.
pub proof fn law_of_paths(
    path: &Path,
    name: &str,
    attr: &Attribute,
    ident: Option<&String>,
    is: bool,
    called: &Path,
)
    requires
        call_ensures(Path::get_ident, (path,), ident),
        call_ensures(Path::is_ident, (path, name), is),
        call_ensures(Attribute::path, (attr,), called),
    ensures
        ident is Some <==> !path.leading_colon && path.segments@.len() == 1
            && !path.segments@[0].has_arguments,
        ident matches Some(ident) ==> *ident == path.segments@[0].ident,
        is <==> (ident matches Some(ident) && ident@ == name@),
        attr.meta matches Meta::Path(path) ==> *called == path,
        attr.meta matches Meta::List(path, _) ==> *called == path,
        attr.meta matches Meta::NameValue(path, _) ==> *called == path,
{
}

// ---------------------------------------------------------------------------------------------
// Attributes
// ---------------------------------------------------------------------------------------------

/// The documentation is the documentation strings, from the first that is not empty on, with one
/// line break between any two. Here `at` are the positions of the strings, and `first` counts the
/// empty ones in front.
pub proof fn law_of_get_doc_string(attrs: &[Attribute], at: Seq<int>, first: int, res: String)
    requires
        call_ensures(get_doc_string, (attrs,), res),
        picks(at, Seq::new(attrs@.len(), |i: int| attrs@[i].literal("doc"@) is Some)),
        0 <= first <= at.len(),
        forall|k: int|
            0 <= k < first ==> attrs@[#[trigger] at[k]].literal("doc"@) == Some(
                Seq::<char>::empty(),
            ),
        first < at.len() ==> attrs@[at[first]].literal("doc"@) != Some(Seq::<char>::empty()),
    ensures
        res@ == joined(
            Seq::new(
                (at.len() - first) as nat,
                |k: int| attrs@[at[first + k]].literal("doc"@)->0,
            ),
            seq!['\n'],
        ),
{
    law_documentation_is_the_lines(attrs@, at, first);
    let lines = Seq::new(
        (at.len() - first) as nat,
        |k: int| attrs@[at[first + k]].literal("doc"@)->0,
    );
    assert(res@ == joined(lines, seq!['\n']));
}

/// Of the strings under a name the last is found, and all attributes that have one are taken out.
pub proof fn law_of_get_named_lit(name: &str, i: int)
    ensures
        forall|attrs: &mut Vec<Attribute>, res: Option<String>| #[trigger]
            call_ensures(get_named_lit, (attrs, name), res) ==> final(attrs)@ == attrs@.filter(
                |attr: Attribute| attr.literal(name@) is None,
            ),
        forall|attrs: &mut Vec<Attribute>, res: Option<String>| #[trigger]
            call_ensures(get_named_lit, (attrs, name), res) && 0 <= i < attrs@.len()
                && attrs@[i].literal(name@) is Some && (forall|j: int|
                i < j < attrs@.len() ==> (#[trigger] attrs@[j]).literal(name@) is None) ==> res
                is Some && attrs@[i].literal(name@) == Some(res->0@),
        forall|attrs: &mut Vec<Attribute>, res: Option<String>| #[trigger]
            call_ensures(get_named_lit, (attrs, name), res) && (forall|j: int|
                0 <= j < attrs@.len() ==> (#[trigger] attrs@[j]).literal(name@) is None) ==> res
                is None,
{
    assert forall|attrs: &mut Vec<Attribute>, res: Option<String>| #[trigger]
        call_ensures(get_named_lit, (attrs, name), res) implies final(attrs)@ == attrs@.filter(
        |attr: Attribute| attr.literal(name@) is None,
    ) by {
        law_strings_alone_are_taken_out(attrs@, name@);
    }
    assert forall|attrs: &mut Vec<Attribute>, res: Option<String>| #[trigger]
        call_ensures(get_named_lit, (attrs, name), res) && 0 <= i < attrs@.len()
            && attrs@[i].literal(name@) is Some && (forall|j: int|
            i < j < attrs@.len() ==> (#[trigger] attrs@[j]).literal(name@) is None) implies res
        is Some && attrs@[i].literal(name@) == Some(res->0@) by {
        law_last_string_counts(attrs@, name@, i);
    }
    assert forall|attrs: &mut Vec<Attribute>, res: Option<String>| #[trigger]
        call_ensures(get_named_lit, (attrs, name), res) && (forall|j: int|
            0 <= j < attrs@.len() ==> (#[trigger] attrs@[j]).literal(name@) is None) implies res
        is None by {
        law_no_string_is_made_up(attrs@, name@);
    }
}

// ---------------------------------------------------------------------------------------------
// Parameters
// ---------------------------------------------------------------------------------------------

/// The wrapper's parameter is an R object without attributes, under the pattern of the function's
/// parameter, or under the name `_self`.
pub proof fn law_of_translate_formal(input: &FnArg, self_ty: Option<&Type>, res: FnArg)
    requires
        call_ensures(translate_formal, (input, self_ty), res),
    ensures
        res is Typed,
        res->Typed_0.attrs@.len() == 0,
        res->Typed_0.ty.tokens@ == "extendr_api :: SEXP"@,
        res->Typed_0.ty.kind is Path,
        input is Typed ==> res->Typed_0.pat == input->Typed_0.pat,
        input is Receiver ==> res->Typed_0.pat.tokens@ == "_self"@
            && res->Typed_0.pat.kind is Ident && res->Typed_0.pat.kind->Ident_0.ident@ == "_self"@
            && is_fit_by_name(res),
{
}

/// The R object of a parameter is held in a variable named after it, and that of `self` in one
/// that can be changed.
pub proof fn law_of_translate_to_robj(
    input: &FnArg,
    param: PatType,
    ident: PatIdent,
    plain: Seq<char>,
    res: Conversion,
)
    requires
        call_ensures(translate_to_robj, (input,), res),
        param.pat.kind == PatKind::Ident(ident),
        ident.ident@ == "r#"@ + plain || (ident.ident@ == plain && !("r#"@.is_prefix_of(plain))),
    ensures
        *input == FnArg::Typed(param) ==> !res.mutable && res.var@ == "_"@ + plain + "_robj"@
            && res.arg@ == param.pat.tokens@,
        input is Receiver ==> res.mutable && res.var@ == "_self_robj"@ && res.arg@ == "_self"@,
{
    law_variables_show_the_argument(plain);
}

/// The argument for a parameter with a name is converted from the variable named after it, to the
/// type that the parameter is declared with or to the one that the compiler finds. Nothing is
/// passed for any other parameter.
pub proof fn law_of_translate_actual(
    opts: &ExtendrOptions,
    input: &FnArg,
    param: PatType,
    ident: PatIdent,
    plain: Seq<char>,
    res: Option<Actual>,
)
    requires
        call_ensures(translate_actual, (opts, input), res),
        param.pat.kind == PatKind::Ident(ident),
        ident.ident@ == "r#"@ + plain || (ident.ident@ == plain && !("r#"@.is_prefix_of(plain))),
    ensures
        *input == FnArg::Typed(param) ==> {
            &&& res is Some
            &&& res->0 is TryInto <==> opts.use_try_from
            &&& res->0 matches Actual::TryInto { var } ==> var@ == "_"@ + plain + "_robj"@
            &&& res->0 matches Actual::FromRobj { ty, var } ==> ty@ == param.ty.tokens@ && var@
                == "_"@ + plain + "_robj"@
        },
        input is Receiver ==> res is None,
        input is Typed && input->Typed_0.pat.kind is Other ==> res is None,
{
    law_variables_show_the_argument(plain);
    if res is Some {
        crate::parameter_laws::law_views_of_parts_show_every_field(
            arbitrary(),
            res->0,
            arbitrary(),
            arbitrary(),
        );
    }
}

/// The metadata of a parameter has its pattern, the name of its type and the last of its defaults,
/// and the defaults come off it. The metadata of `self` has the name of its type.
pub proof fn law_of_translate_meta_arg(self_ty: Option<&Type>)
    ensures
        forall|input: &mut FnArg, res: MetaArg| #[trigger]
            call_ensures(translate_meta_arg, (input, self_ty), res) && *input is Typed ==> {
                let b = (*input)->Typed_0;
                let a = (*final(input))->Typed_0;
                &&& res.name@ == b.pat.tokens@
                &&& res.arg_type@ == simple_name(b.ty)
                &&& res@.default == crate::attributes::named_lit(b.attrs@, "default"@)
                &&& *final(input) is Typed
                &&& a.pat == b.pat
                &&& a.ty == b.ty
                &&& a.attrs@ == b.attrs@.filter(
                    |attr: Attribute| attr.literal("default"@) is None,
                )
            },
        forall|input: &mut FnArg, res: MetaArg| #[trigger]
            call_ensures(translate_meta_arg, (input, self_ty), res) && *input is Receiver ==> {
                &&& res.name@ == "self"@
                &&& res.arg_type@ == simple_name(*self_ty->0)
                &&& res.default is None
                &&& *final(input) == *input
            },
{
    assert forall|input: &mut FnArg, res: MetaArg| #[trigger]
        call_ensures(translate_meta_arg, (input, self_ty), res) && *input is Typed implies ({
        let b = (*input)->Typed_0;
        let a = (*final(input))->Typed_0;
        &&& res.name@ == b.pat.tokens@
        &&& res.arg_type@ == simple_name(b.ty)
        &&& res@.default == crate::attributes::named_lit(b.attrs@, "default"@)
        &&& *final(input) is Typed
        &&& a.pat == b.pat
        &&& a.ty == b.ty
        &&& a.attrs@ == b.attrs@.filter(|attr: Attribute| attr.literal("default"@) is None)
    }) by {
        law_strings_alone_are_taken_out((*input)->Typed_0.attrs@, "default"@);
    }
}

// ---------------------------------------------------------------------------------------------
// Rejections
// ---------------------------------------------------------------------------------------------

/// A `self` parameter passes as `&self` or `&mut self` without attributes, in an `impl` block;
/// every other parameter passes.
pub proof fn law_of_check_receiver(input: &FnArg, in_impl: bool, res: Result<(), Rejection>)
    requires
        call_ensures(check_receiver, (input, in_impl), res),
    ensures
        res is Ok <==> is_fit_for_self(*input, in_impl),
        input matches FnArg::Receiver(receiver) ==> (res == Err::<(), Rejection>(
            Rejection::ExpectedSelfReference,
        ) <==> receiver.attrs@.len() > 0 || !receiver.reference),
        res is Err ==> res->Err_0 == Rejection::ExpectedSelfReference || res->Err_0
            == Rejection::SelfOutsideImpl,
{
}

/// The answers and the parameters together pass where all answers are there and every parameter
/// is fit, and fail for the first fault otherwise.
pub proof fn law_of_check_answers(
    answers: &NameAnswers,
    inputs: &Vec<FnArg>,
    in_impl: bool,
    res: Result<(), Rejection>,
)
    requires
        call_ensures(check_answers, (answers, inputs, in_impl), res),
    ensures
        res == checked(rejection(answers@, inputs@, in_impl)),
        answers.given is Some && answers.bare is Some && answers.wrap is Some && answers.meta
            is Some && (forall|j: int|
            0 <= j < inputs@.len() ==> is_fit_for_self(#[trigger] inputs@[j], in_impl)
                && is_fit_by_name(inputs@[j])) ==> res is Ok,
        res is Ok ==> answers.given is Some && answers.bare is Some && answers.wrap is Some
            && answers.meta is Some,
{
    if answers.given is Some && answers.bare is Some && answers.wrap is Some && answers.meta is Some
        && (forall|j: int|
        0 <= j < inputs@.len() ==> is_fit_for_self(#[trigger] inputs@[j], in_impl)
            && is_fit_by_name(inputs@[j])) {
        law_fit_functions_are_accepted(answers@, inputs@, in_impl);
    }
}

/// A function is checked by what is read for its names and by its parameters.
pub proof fn law_of_check_function(
    opts: &ExtendrOptions,
    prefix: &str,
    sig: &Signature,
    self_ty: Option<&Type>,
    res: Result<(), Rejection>,
)
    requires
        call_ensures(check_function, (opts, prefix, sig, self_ty), res),
    ensures
        exists|answers: NameAnswersView| #[trigger]
            answers.answer(*opts, prefix@, *sig) && res == checked(
                rejection(answers, sig.inputs@, self_ty is Some),
            ),
{
}

/// Each rejection tells the user what is wrong.
pub proof fn law_of_rejection_messages(rejection: &Rejection, res: &'static str)
    requires
        call_ensures(Rejection::message, (rejection,), res),
    ensures
        *rejection == Rejection::ExpectedSelfReference ==> res@ == "expected &self or &mut self"@,
        *rejection == Rejection::SelfOutsideImpl ==> res@
            == "found &self in non-impl function - have you missed the #[extendr] before the impl?"@,
        *rejection == Rejection::ExpectedIdentifier ==> res@ == "expect identifier as arg name"@,
        *rejection == Rejection::PatternNotExpression ==> res@ == "expected an expression"@,
        *rejection == Rejection::InvalidModName ==> res@
            == "the name of the generated items is not a valid Ident"@,
        *rejection == Rejection::InvalidItemName ==> res@ == "a generated name is not a valid Ident"@,
{
}

// ---------------------------------------------------------------------------------------------
// Wrappers
// ---------------------------------------------------------------------------------------------

/// Under given names, the wrapper and the metadata function of a function come behind what is
/// there, and nothing but the defaults comes off the signature.
pub proof fn law_of_make_named_wrappers(
    opts: &ExtendrOptions,
    names: ItemNames,
    attrs: &[Attribute],
    self_ty: Option<&Type>,
)
    ensures
        forall|wrappers: &mut Vec<GeneratedFn>, sig: &mut Signature, res: ()| #[trigger]
            call_ensures(
                make_named_wrappers,
                (opts, wrappers, names, attrs, sig, self_ty),
                res,
            ) ==> {
                let n = wrappers@.len() as int;
                let after = final(wrappers)@;
                &&& after.len() == n + 2
                &&& forall|i: int| 0 <= i < n ==> after[i] == #[trigger] wrappers@[i]
                &&& after[n] is Wrapper
                &&& after[n]->Wrapper_0@ == wrapper_of(*opts, names@, *sig, self_ty)
                &&& after[n + 1] is Metadata
                &&& after[n + 1]->Metadata_0@ == metadata_of(*opts, names@, attrs@, *sig, self_ty)
                &&& without_defaults(*sig, *final(sig))
            },
{
    assert forall|wrappers: &mut Vec<GeneratedFn>, sig: &mut Signature, res: ()| #[trigger]
        call_ensures(make_named_wrappers, (opts, wrappers, names, attrs, sig, self_ty), res)
            implies ({
        let n = wrappers@.len() as int;
        let after = final(wrappers)@;
        &&& after.len() == n + 2
        &&& forall|i: int| 0 <= i < n ==> after[i] == #[trigger] wrappers@[i]
        &&& after[n] is Wrapper
        &&& after[n]->Wrapper_0@ == wrapper_of(*opts, names@, *sig, self_ty)
        &&& after[n + 1] is Metadata
        &&& after[n + 1]->Metadata_0@ == metadata_of(*opts, names@, attrs@, *sig, self_ty)
        &&& without_defaults(*sig, *final(sig))
    }) by {
        law_items_come_behind_the_others(
            wrappers@,
            final(wrappers)@,
            sig.inputs@,
            wrapper_of(*opts, names@, *sig, self_ty),
            metadata_of(*opts, names@, attrs@, *sig, self_ty),
        );
    }
}

/// A function that is accepted gets its items under the names that were read, and one that is
/// rejected leaves everything as it is.
pub proof fn law_of_make_function_wrappers(
    opts: &ExtendrOptions,
    prefix: &str,
    attrs: &[Attribute],
    self_ty: Option<&Type>,
)
    ensures
        forall|wrappers: &mut Vec<GeneratedFn>, sig: &mut Signature, res: Result<(), Rejection>|
            #[trigger] call_ensures(
                make_function_wrappers,
                (opts, wrappers, prefix, attrs, sig, self_ty),
                res,
            ) ==> exists|answers: NameAnswersView|
                {
                    &&& #[trigger] answers.answer(*opts, prefix@, *sig)
                    &&& res == checked(rejection(answers, sig.inputs@, self_ty is Some))
                    &&& res is Ok ==> wrappers_added(
                        wrappers@,
                        final(wrappers)@,
                        sig.inputs@,
                        wrapper_of(*opts, answers.names(), *sig, self_ty),
                        metadata_of(*opts, answers.names(), attrs@, *sig, self_ty),
                    )
                },
        forall|wrappers: &mut Vec<GeneratedFn>, sig: &mut Signature, res: Result<(), Rejection>|
            #[trigger] call_ensures(
                make_function_wrappers,
                (opts, wrappers, prefix, attrs, sig, self_ty),
                res,
            ) ==> if res is Ok {
                without_defaults(*sig, *final(sig))
            } else {
                *final(wrappers) == *wrappers && *final(sig) == *sig
            },
{
}

// ---------------------------------------------------------------------------------------------
// Code
// ---------------------------------------------------------------------------------------------

/// The source text of a function is what its code is written as, and its syntax tree is what such
/// a text is parsed into.
pub proof fn law_of_source(
    item: &GeneratedFn,
    code: Vec<Piece>,
    source: String,
    tree: Result<syn::ItemFn, SyntaxError>,
)
    requires
        call_ensures(GeneratedFn::code, (item,), code),
        call_ensures(GeneratedFn::source, (item,), source),
        call_ensures(GeneratedFn::to_syn, (item,), tree),
    ensures
        pieces(code@) == generated_code(item@),
        renders(pieces(code@), source@),
        exists|text: Seq<char>|
            #[trigger] renders(pieces(code@), text) && match tree {
                Ok(tree) => is_parse_of(text, tree),
                Err(e) => is_refused(text) && e == SyntaxError::NotItemFn,
            },
{
    let text = choose|text: Seq<char>|
        #[trigger] renders(generated_code(item@), text) && match tree {
            Ok(tree) => is_parse_of(text, tree),
            Err(e) => is_refused(text) && e == SyntaxError::NotItemFn,
        };
    assert(renders(pieces(code@), text));
}

/// The code of a wrapper and of a metadata function is their code as generated functions, and the
/// pieces of code are written out in their order.
pub proof fn law_of_code(
    wrapper: &WrapperFn,
    metadata: &MetadataFn,
    code: &Vec<Piece>,
    of_wrapper: Vec<Piece>,
    of_metadata: Vec<Piece>,
    text: String,
)
    requires
        call_ensures(WrapperFn::code, (wrapper,), of_wrapper),
        call_ensures(MetadataFn::code, (metadata,), of_metadata),
        call_ensures(source_text, (code,), text),
    ensures
        pieces(of_wrapper@) == generated_code(GeneratedFnView::Wrapper(wrapper@)),
        pieces(of_metadata@) == generated_code(GeneratedFnView::Metadata(metadata@)),
        renders(pieces(code@), text@),
{
}

/// The view of code shows every piece, in its order.
pub proof fn law_views_of_code_show_every_piece(code: Seq<Piece>, i: int)
    ensures
        pieces(code).len() == code.len(),
        0 <= i < code.len() && code[i] is Code ==> pieces(code)[i] == PieceView::Code(
            code[i]->Code_0@,
        ),
        0 <= i < code.len() && code[i] is Str ==> pieces(code)[i] == PieceView::Str(
            code[i]->Str_0@,
        ),
{
}

// ---------------------------------------------------------------------------------------------
// External pointers
// ---------------------------------------------------------------------------------------------

/// An object tells its kind, and whether it is an external pointer with a tag.
pub proof fn law_of_asking_objects(robj: &Robj, name: &str, kind: Rtype, tagged: bool)
    requires
        call_ensures(Robj::rtype, (robj,), kind),
        call_ensures(Robj::check_external_ptr_type, (robj, name), tagged),
    ensures
        kind == Rtype::Null <==> robj is Null,
        kind == Rtype::Strings <==> robj is Str,
        kind == Rtype::ExternalPtr <==> robj is ExternalPtr,
        kind == Rtype::Other <==> robj is Object,
        tagged <==> robj is ExternalPtr && *robj->tag is Str && (*robj->tag)->Str_0@ == name@,
{
}

/// A store is made empty, for values of the type with a name, and tells which addresses are in use
/// and whether any is left.
pub proof fn law_of_stores<T>(
    name: &str,
    made: Store<T>,
    store: &Store<T>,
    addr: usize,
    contains: bool,
    room: bool,
)
    requires
        call_ensures(Store::<T>::new, (name,), made),
        call_ensures(Store::<T>::contains, (store, addr), contains),
        call_ensures(Store::<T>::room, (store,), room),
    ensures
        made.wf(),
        made.name() == name@,
        forall|a: usize| !#[trigger] made.values().contains_key(a),
        contains <==> store.values().contains_key(addr),
        room <==> exists|a: usize| a != 0 && !#[trigger] store.values().contains_key(a),
{
}

/// A pointer is made for a value, written through, and ended by the finalizer, each to the effect
/// that is named after it.
pub proof fn law_of_changing_stores<T>(val: T)
    ensures
        forall|store: &mut Store<T>, res: ExternalPtr<T>| #[trigger]
            call_ensures(ExternalPtr::<T>::new, (store, val), res) ==> created(
                *store,
                *final(store),
                res,
                val,
            ),
        forall|x: &mut Robj, store: &mut Store<T>, res: T| #[trigger]
            call_ensures(finalizer::<T>, (x, store), res) ==> finalized(
                *store,
                *final(store),
                *x,
                *final(x),
                res,
            ),
{
}

/// The reference that is given for writing leads to the value, and what is written through it is
/// written in the store. The pointer itself stays as it is.
pub proof fn law_of_writing<T>()
    ensures
        forall|ptr: &mut ExternalPtr<T>, store: &mut Store<T>, res: &mut T| #[trigger]
            call_ensures(ExternalPtr::<T>::addr_mut, (ptr, store), res) ==> *final(ptr) == *ptr
                && *res == ptr.value(*store) && written(*store, *final(store), *ptr, *final(res)),
        forall|ptr: &mut ExternalPtr<T>, store: &mut Store<T>, res: &mut T| #[trigger]
            call_ensures(ExternalPtr::<T>::deref_mut, (ptr, store), res) ==> *final(ptr) == *ptr
                && *res == ptr.value(*store) && written(*store, *final(store), *ptr, *final(res)),
        forall|ptr: &mut ExternalPtr<T>, res: &mut Robj| #[trigger]
            call_ensures(ExternalPtr::<T>::as_robj_mut, (ptr,), res) ==> *res == ptr.object()
                && final(ptr).object() == *final(res),
{
}

/// What is read through a pointer is what the address of its object leads to, and the other fields
/// are those of its object.
pub proof fn law_of_reading<T>(
    ptr: &ExternalPtr<T>,
    store: &Store<T>,
    addr: &T,
    deref: &T,
    robj: &Robj,
    tag: Robj,
    prot: Robj,
)
    requires
        call_ensures(ExternalPtr::<T>::addr, (ptr, store), addr),
        call_ensures(ExternalPtr::<T>::deref, (ptr, store), deref),
        call_ensures(ExternalPtr::<T>::as_robj, (ptr,), robj),
        call_ensures(ExternalPtr::<T>::tag, (ptr,), tag),
        call_ensures(ExternalPtr::<T>::protected, (ptr,), prot),
        ptr.is_live(*store),
    ensures
        *robj == ptr.object(),
        tag == *robj->tag,
        prot == *robj->prot,
        *addr == store.values()[robj->addr],
        *deref == *addr,
{
}

/// An object is taken for an external pointer in the same way whether it is lent or given away: by
/// its tag, which must be the name of the store's type.
pub proof fn law_of_taking_objects<T>(
    robj: &Robj,
    store: &Store<T>,
    lent: Result<ExternalPtr<T>, PtrError>,
    given: Result<ExternalPtr<T>, PtrError>,
)
    requires
        call_ensures(ExternalPtr::<T>::try_from, (robj, store), lent),
        call_ensures(ExternalPtr::<T>::try_from_robj, (*robj, store), given),
    ensures
        lent is Ok <==> robj is ExternalPtr && *robj->tag is Str && (*robj->tag)->Str_0@
            == store.name(),
        lent is Ok <==> given is Ok,
        lent is Ok ==> lent->Ok_0.object() == *robj && given->Ok_0.object() == *robj,
        !(robj is ExternalPtr) ==> lent->Err_0 == PtrError::ExpectedExternalPtr(*robj)
            && given->Err_0 == PtrError::ExpectedExternalPtr(*robj),
        robj is ExternalPtr && lent is Err ==> lent->Err_0 is ExpectedExternalPtrType
            && lent->Err_0->ExpectedExternalPtrType_0 == *robj
            && lent->Err_0->ExpectedExternalPtrType_1@ == store.name()
            && given->Err_0 is ExpectedExternalPtrType
            && given->Err_0->ExpectedExternalPtrType_0 == *robj
            && given->Err_0->ExpectedExternalPtrType_1@ == store.name(),
{
}

} // verus!
