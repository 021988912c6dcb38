//! The wrappers of a function: what is generated so that R can call it.
//!
//! For a function two items are made: a wrapper with the C calling convention, whose parameters
//! are R objects, and a function that adds the metadata of the wrapped function to a list.

use vstd::prelude::*;

use crate::attributes::{doc_text, get_doc_string, get_named_lit, named_lit, without_lit};
use crate::item_names::{read_names, ItemNames, ItemNamesView, NameAnswersView};
use crate::items::{
    printed_param, Actual, ActualView, Callee, CalleeView, Conversion, ConversionView, GeneratedFn,
    GeneratedFnView, MetaArg, MetaArgView, MetadataFn, MetadataFnView, WrapperFn, WrapperFnView,
};
use crate::laws::law_parameters_are_rejected_alike;
use crate::names::{
    get_return_type, return_name, robj_var, robj_variable, simple_name, simple_type_name,
};
use crate::rejection::{
    check_answers, checked, lemma_pattern_accepted, lemma_receiver_accepted, meta_arg_rejection,
    pattern_rejection, patterns_rejection, receiver_rejection, receivers_rejection, rejection,
    Rejection,
};
use crate::syntax::{
    Attribute, FnArg, Pat, PatIdent, PatKind, PatType, Path, PathSegment, Signature, Tokens, Type,
    TypeKind,
};

verus! {

/// The options of a wrapped function.
#[derive(Debug)]
pub struct ExtendrOptions {
    /// Convert arguments with `TryFrom` instead of `FromRobj`.
    pub use_try_from: bool,
    /// The function's name in R, where it differs from its name in Rust.
    pub r_name: Option<String>,
    /// The name that the generated items are known by, where it differs from the function's.
    pub mod_name: Option<String>,
    /// Fetch the state of R's random number generator before the call and hand it back after.
    pub use_rng: bool,
}

impl Default for ExtendrOptions {
    fn default() -> (res: Self)
        ensures
            !res.use_try_from,
            res.r_name is None,
            res.mod_name is None,
            !res.use_rng,
    {
        ExtendrOptions { use_try_from: false, r_name: None, mod_name: None, use_rng: false }
    }
}

/// The function's name in R.
pub open spec fn r_name_of(opts: ExtendrOptions, sig: Signature) -> Seq<char> {
    match opts.r_name {
        Some(name) => name@,
        None => sig.ident@,
    }
}

/// The function's name in R.
fn r_name(opts: &ExtendrOptions, sig: &Signature) -> (res: String)
    ensures
        res@ == r_name_of(*opts, *sig),
{
    match &opts.r_name {
        Some(name) => name.clone(),
        None => sig.ident.clone(),
    }
}

// ---------------------------------------------------------------------------------------------
// Parameters
// ---------------------------------------------------------------------------------------------

/// Whether a type is `extendr_api::SEXP`, the type of an R object.
pub open spec fn is_sexp(type_: Type) -> bool {
    &&& type_.tokens@ == "extendr_api :: SEXP"@
    &&& type_.kind matches TypeKind::Path(path)
    &&& !path.leading_colon
    &&& path.segments@.len() == 2
    &&& path.segments@[0].ident@ == "extendr_api"@
    &&& !path.segments@[0].has_arguments
    &&& path.segments@[1].ident@ == "SEXP"@
    &&& !path.segments@[1].has_arguments
}

/// Whether a pattern is the plain identifier `name`.
pub open spec fn is_name(pat: Pat, name: Seq<char>) -> bool {
    &&& pat.tokens@ == name
    &&& pat.is_plain()
    &&& pat.kind->Ident_0.ident@ == name
}

/// Whether `formal` is the wrapper's parameter for `input`: an R object, under the name of the
/// parameter, or under the name `_self` for a `self` parameter.
pub open spec fn is_formal_of(formal: FnArg, input: FnArg) -> bool {
    &&& formal matches FnArg::Typed(made)
    &&& made.attrs@.len() == 0
    &&& is_sexp(made.ty)
    &&& match input {
        FnArg::Typed(pattype) => made.pat == pattype.pat,
        FnArg::Receiver(_) => is_name(made.pat, "_self"@),
    }
}

/// The name of the wrapper's parameter for `input`.
pub open spec fn formal_name(input: FnArg) -> Seq<char> {
    match input {
        FnArg::Typed(pattype) => pattype.pat.tokens@,
        FnArg::Receiver(_) => "_self"@,
    }
}

/// The wrapper's parameter for `input`, as it is printed.
pub open spec fn formal_of(input: FnArg) -> Seq<char> {
    formal_name(input) + " : "@ + "extendr_api :: SEXP"@
}

/// The statement that makes an R object of the wrapper's parameter for `input`.
pub open spec fn conversion_of(input: FnArg) -> ConversionView {
    match input {
        FnArg::Typed(pattype) => ConversionView {
            mutable: false,
            var: robj_var(pattype.pat.kind->Ident_0.ident@),
            arg: pattype.pat.tokens@,
        },
        FnArg::Receiver(_) => ConversionView {
            mutable: true,
            var: "_self_robj"@,
            arg: "_self"@,
        },
    }
}

/// What is passed for `input` in the call: nothing for a `self` parameter, nor for a pattern that
/// is not an identifier.
pub open spec fn actual_of(opts: ExtendrOptions, input: FnArg) -> Option<ActualView> {
    match input {
        FnArg::Typed(pattype) => match pattype.pat.kind {
            PatKind::Ident(p) => if opts.use_try_from {
                Some(ActualView::TryInto { var: robj_var(p.ident@) })
            } else {
                Some(ActualView::FromRobj { ty: pattype.ty.tokens@, var: robj_var(p.ident@) })
            },
            PatKind::Other => None,
        },
        FnArg::Receiver(_) => None,
    }
}

/// What is passed in the call, in the order of the parameters.
pub open spec fn actuals_of(opts: ExtendrOptions, inputs: Seq<FnArg>) -> Seq<ActualView>
    decreases inputs.len(),
{
    if inputs.len() == 0 {
        seq![]
    } else {
        let before = actuals_of(opts, inputs.drop_last());
        match actual_of(opts, inputs.last()) {
            Some(actual) => before.push(actual),
            None => before,
        }
    }
}

/// The metadata of a parameter.
pub open spec fn meta_arg_of(input: FnArg, self_ty: Option<&Type>) -> MetaArgView {
    match input {
        FnArg::Typed(pattype) => MetaArgView {
            name: pattype.pat.tokens@,
            arg_type: simple_name(pattype.ty),
            default: named_lit(pattype.attrs@, "default"@),
        },
        FnArg::Receiver(_) => MetaArgView {
            name: "self"@,
            arg_type: simple_name(*self_ty->0),
            default: None,
        },
    }
}

/// Whether `after` is the parameter `before` with its `#[default = ".."]` attributes removed.
pub open spec fn without_default(before: FnArg, after: FnArg) -> bool {
    match before {
        FnArg::Typed(b) => {
            &&& after matches FnArg::Typed(a)
            &&& a.pat == b.pat
            &&& a.ty == b.ty
            &&& a.attrs@ == without_lit(b.attrs@, "default"@)
        },
        FnArg::Receiver(_) => after == before,
    }
}

/// The type of an R object.
fn sexp() -> (res: Type)
    ensures
        is_sexp(res),
{
    let mut segments: Vec<PathSegment> = Vec::new();
    segments.push(PathSegment { ident: "extendr_api".to_owned(), has_arguments: false });
    segments.push(PathSegment { ident: "SEXP".to_owned(), has_arguments: false });
    Type {
        tokens: Tokens::printed("extendr_api :: SEXP"),
        kind: TypeKind::Path(Path { leading_colon: false, segments }),
    }
}

/// Generates the parameter of the wrapper for a parameter of the wrapped function. All are R
/// objects, as `.Call` in R passes them.
pub fn translate_formal(input: &FnArg, self_ty: Option<&Type>) -> (res: FnArg)
    requires
        receiver_rejection(*input, self_ty is Some) is None,
    ensures
        is_formal_of(res, *input),
        printed_param(res) == formal_of(*input),
{
    let pat = match input {
        // function argument.
        FnArg::Typed(pattype) => pattype.pat.clone(),
        // &self
        FnArg::Receiver(_) => Pat {
            tokens: Tokens::printed("_self"),
            kind: PatKind::Ident(
                PatIdent {
                    by_ref: false,
                    mutability: false,
                    ident: "_self".to_owned(),
                    has_subpat: false,
                },
            ),
        },
    };
    FnArg::Typed(PatType { attrs: Vec::new(), pat, ty: sexp() })
}

/// Generates the metadata of a parameter, and takes the `#[default = ".."]` attribute off it.
pub fn translate_meta_arg(input: &mut FnArg, self_ty: Option<&Type>) -> (res: MetaArg)
    requires
        meta_arg_rejection(*old(input), self_ty is Some) is None,
    ensures
        res@ == meta_arg_of(*old(input), self_ty),
        without_default(*old(input), *final(input)),
{
    match input {
        // function argument.
        FnArg::Typed(pattype) => {
            let name = pattype.pat.tokens.as_str().to_owned();
            let arg_type = simple_type_name(&pattype.ty);
            let default = get_named_lit(&mut pattype.attrs, "default");
            MetaArg { name, arg_type, default }
        },
        // &self
        FnArg::Receiver(_) => {
            let arg_type = simple_type_name(self_ty.unwrap());
            MetaArg { name: "self".to_owned(), arg_type, default: None }
        },
    }
}

/// Converts a parameter of the wrapper into an R object.
/// This maintains the lifetime of references.
pub fn translate_to_robj(input: &FnArg) -> (res: Conversion)
    requires
        pattern_rejection(*input) is None,
    ensures
        res@ == conversion_of(*input),
{
    match input {
        FnArg::Typed(pattype) => match &pattype.pat.kind {
            PatKind::Ident(p) => Conversion {
                mutable: false,
                var: robj_variable(&p.ident),
                arg: pattype.pat.tokens.clone(),
            },
            PatKind::Other => vstd::pervasive::unreached(),
        },
        FnArg::Receiver(_) => Conversion {
            mutable: true,
            var: "_self_robj".to_owned(),
            arg: Tokens::printed("_self"),
        },
    }
}

/// Generates the argument of the call for a parameter, that is, the conversion of an R object.
pub fn translate_actual(opts: &ExtendrOptions, input: &FnArg) -> (res: Option<Actual>)
    ensures
        res matches Some(actual) ==> actual_of(*opts, *input) == Some(actual@),
        res is None ==> actual_of(*opts, *input) is None,
{
    match input {
        FnArg::Typed(pattype) => match &pattype.pat.kind {
            PatKind::Ident(p) => {
                let var = robj_variable(&p.ident);
                if opts.use_try_from {
                    Some(Actual::TryInto { var })
                } else {
                    Some(Actual::FromRobj { ty: pattype.ty.tokens.clone(), var })
                }
            },
            PatKind::Other => None,
        },
        // Do not use self explicitly as an actual arg.
        FnArg::Receiver(_) => None,
    }
}

// ---------------------------------------------------------------------------------------------
// Wrappers
// ---------------------------------------------------------------------------------------------

/// Whether the first parameter is a `self` parameter.
pub open spec fn has_self(inputs: Seq<FnArg>) -> bool {
    inputs.len() > 0 && inputs[0] is Receiver
}

/// What the wrapper calls.
pub open spec fn callee_of(sig: Signature, self_ty: Option<&Type>) -> CalleeView {
    if has_self(sig.inputs@) {
        CalleeView::Method {
            mutable: sig.inputs@[0]->Receiver_0.mutability,
            self_ty: self_ty->0.tokens@,
            name: sig.ident@,
        }
    } else {
        match self_ty {
            Some(type_) => CalleeView::Associated { self_ty: type_.tokens@, name: sig.ident@ },
            None => CalleeView::Free { name: sig.ident@ },
        }
    }
}

/// The wrapper of a function, under the names of its items.
pub open spec fn wrapper_of(
    opts: ExtendrOptions,
    names: ItemNamesView,
    sig: Signature,
    self_ty: Option<&Type>,
) -> WrapperFnView {
    WrapperFnView {
        name: names.wrap_name,
        formals: Seq::new(sig.inputs@.len(), |i: int| formal_of(sig.inputs@[i])),
        use_rng: opts.use_rng,
        conversions: Seq::new(sig.inputs@.len(), |i: int| conversion_of(sig.inputs@[i])),
        callee: callee_of(sig, self_ty),
        actuals: actuals_of(opts, sig.inputs@),
        r_name: r_name_of(opts, sig),
    }
}

/// The metadata function of a function, under the names of its items.
pub open spec fn metadata_of(
    opts: ExtendrOptions,
    names: ItemNamesView,
    attrs: Seq<Attribute>,
    sig: Signature,
    self_ty: Option<&Type>,
) -> MetadataFnView {
    MetadataFnView {
        name: names.meta_name,
        args: Seq::new(sig.inputs@.len(), |i: int| meta_arg_of(sig.inputs@[i], self_ty)),
        doc: doc_text(attrs),
        rust_name: sig.ident@,
        r_name: r_name_of(opts, sig),
        mod_name: names.mod_name,
        return_type: return_name(sig),
        wrapper: names.wrap_name,
        hidden: false,
    }
}

/// Whether `after` is the signature `before` with the `#[default = ".."]` attributes taken off
/// its parameters.
pub open spec fn without_defaults(before: Signature, after: Signature) -> bool {
    &&& after.ident == before.ident
    &&& after.output == before.output
    &&& after.inputs@.len() == before.inputs@.len()
    &&& forall|i: int|
        0 <= i < before.inputs@.len() ==> without_default(
            before.inputs@[i],
            #[trigger] after.inputs@[i],
        )
}

/// Whether `formals` are the wrapper's parameters for `inputs`, one by one.
pub open spec fn are_formals_of(formals: Seq<FnArg>, inputs: Seq<FnArg>) -> bool {
    &&& formals.len() == inputs.len()
    &&& forall|i: int| 0 <= i < inputs.len() ==> is_formal_of(#[trigger] formals[i], inputs[i])
}

/// Whether `after` is `before` with the wrapper and the metadata function of a function with the
/// parameters `inputs` behind it.
pub open spec fn wrappers_added(
    before: Seq<GeneratedFn>,
    after: Seq<GeneratedFn>,
    inputs: Seq<FnArg>,
    wrapper: WrapperFnView,
    metadata: MetadataFnView,
) -> bool {
    &&& after.len() == before.len() + 2
    &&& after.take(before.len() as int) == before
    &&& after[before.len() as int]@ == GeneratedFnView::Wrapper(wrapper)
    &&& after[before.len() as int] matches GeneratedFn::Wrapper(made)
    &&& are_formals_of(made.formals@, inputs)
    &&& after[before.len() as int + 1]@ == GeneratedFnView::Metadata(metadata)
}

/// The parameters of the wrapper.
fn formal_args(inputs: &Vec<FnArg>, self_ty: Option<&Type>) -> (res: Vec<FnArg>)
    requires
        receivers_rejection(inputs@, self_ty is Some) is None,
    ensures
        are_formals_of(res@, inputs@),
        forall|i: int|
            0 <= i < inputs@.len() ==> printed_param(#[trigger] res@[i]) == formal_of(inputs@[i]),
{
    let mut res: Vec<FnArg> = Vec::new();
    for i in 0..inputs.len()
        invariant
            receivers_rejection(inputs@, self_ty is Some) is None,
            res@.len() == i,
            forall|k: int| 0 <= k < i ==> is_formal_of(#[trigger] res@[k], inputs@[k]),
            forall|k: int|
                0 <= k < i ==> printed_param(#[trigger] res@[k]) == formal_of(inputs@[k]),
    {
        proof {
            lemma_receiver_accepted(inputs@, i as int, self_ty is Some);
        }
        res.push(translate_formal(&inputs[i], self_ty));
    }
    res
}

/// The statements that make R objects of the wrapper's parameters.
fn convert_args(inputs: &Vec<FnArg>) -> (res: Vec<Conversion>)
    requires
        patterns_rejection(inputs@) is None,
    ensures
        res@.len() == inputs@.len(),
        forall|i: int|
            0 <= i < inputs@.len() ==> (#[trigger] res@[i])@ == conversion_of(inputs@[i]),
{
    let mut res: Vec<Conversion> = Vec::new();
    for i in 0..inputs.len()
        invariant
            patterns_rejection(inputs@) is None,
            res@.len() == i,
            forall|k: int| 0 <= k < i ==> (#[trigger] res@[k])@ == conversion_of(inputs@[k]),
    {
        proof {
            lemma_pattern_accepted(inputs@, i as int);
        }
        res.push(translate_to_robj(&inputs[i]));
    }
    res
}

/// The arguments of the call.
fn actual_args(opts: &ExtendrOptions, inputs: &Vec<FnArg>) -> (res: Vec<Actual>)
    ensures
        Seq::new(res@.len(), |i: int| res@[i]@) == actuals_of(*opts, inputs@),
{
    let mut res: Vec<Actual> = Vec::new();
    for i in 0..inputs.len()
        invariant
            Seq::new(res@.len(), |k: int| res@[k]@) == actuals_of(
                *opts,
                inputs@.take(i as int),
            ),
    {
        let ghost before = Seq::new(res@.len(), |k: int| res@[k]@);
        proof {
            assert(inputs@.take(i + 1).drop_last() =~= inputs@.take(i as int));
        }
        match translate_actual(opts, &inputs[i]) {
            Some(actual) => {
                res.push(actual);
                assert(Seq::new(res@.len(), |k: int| res@[k]@) =~= before.push(actual@));
            },
            None => {},
        }
    }
    assert(inputs@.take(inputs@.len() as int) =~= inputs@);
    res
}

/// The metadata of the parameters, whose `#[default = ".."]` attributes are taken off them.
fn meta_args(inputs: &mut Vec<FnArg>, self_ty: Option<&Type>) -> (res: Vec<MetaArg>)
    requires
        receivers_rejection(old(inputs)@, self_ty is Some) is None,
    ensures
        res@.len() == old(inputs)@.len(),
        forall|i: int|
            0 <= i < old(inputs)@.len() ==> (#[trigger] res@[i])@ == meta_arg_of(
                old(inputs)@[i],
                self_ty,
            ),
        final(inputs)@.len() == old(inputs)@.len(),
        forall|i: int|
            0 <= i < old(inputs)@.len() ==> without_default(
                old(inputs)@[i],
                #[trigger] final(inputs)@[i],
            ),
{
    let ghost before = inputs@;
    let len = inputs.len();
    let mut res: Vec<MetaArg> = Vec::new();
    for i in 0..len
        invariant
            receivers_rejection(before, self_ty is Some) is None,
            len == before.len(),
            inputs@.len() == len,
            res@.len() == i,
            forall|k: int| 0 <= k < i ==> (#[trigger] res@[k])@ == meta_arg_of(before[k], self_ty),
            forall|k: int| 0 <= k < i ==> without_default(before[k], #[trigger] inputs@[k]),
            forall|k: int| i <= k < len ==> before[k] == #[trigger] inputs@[k],
    {
        proof {
            lemma_receiver_accepted(before, i as int, self_ty is Some);
            law_parameters_are_rejected_alike(before[i as int], self_ty is Some);
        }
        let arg = translate_meta_arg(&mut inputs[i], self_ty);
        res.push(arg);
    }
    res
}

/// What the wrapper calls.
fn callee(sig: &Signature, self_ty: Option<&Type>) -> (res: Callee)
    requires
        receivers_rejection(sig.inputs@, self_ty is Some) is None,
    ensures
        res@ == callee_of(*sig, self_ty),
{
    let name = sig.ident.clone();
    if sig.inputs.len() > 0 {
        if let FnArg::Receiver(receiver) = &sig.inputs[0] {
            // eg. Person::name(&self) or Person::name(&mut self)
            proof {
                lemma_receiver_accepted(sig.inputs@, 0, self_ty is Some);
            }
            return Callee::Method {
                mutable: receiver.mutability,
                self_ty: self_ty.unwrap().tokens.clone(),
                name,
            };
        }
    }
    match self_ty {
        // eg. Person::new()
        Some(type_) => Callee::Associated { self_ty: type_.tokens.clone(), name },
        // eg. aux_func()
        None => Callee::Free { name },
    }
}

/// Generates the wrappers for a function under the given names: its wrapper and its metadata
/// function, in this order. The `#[default = ".."]` attributes of the parameters are taken off
/// the signature.
///
/// The parameters must be such as [`check_answers`] accepts.
pub fn make_named_wrappers(
    opts: &ExtendrOptions,
    wrappers: &mut Vec<GeneratedFn>,
    names: ItemNames,
    attrs: &[Attribute],
    sig: &mut Signature,
    self_ty: Option<&Type>,
)
    requires
        receivers_rejection(old(sig).inputs@, self_ty is Some) is None,
        patterns_rejection(old(sig).inputs@) is None,
    ensures
        wrappers_added(
            old(wrappers)@,
            final(wrappers)@,
            old(sig).inputs@,
            wrapper_of(*opts, names@, *old(sig), self_ty),
            metadata_of(*opts, names@, attrs@, *old(sig), self_ty),
        ),
        without_defaults(*old(sig), *final(sig)),
{
    let r_name_str = r_name(opts, sig);
    let rust_name_str = sig.ident.clone();
    let doc_string = get_doc_string(attrs);
    let return_type_string = get_return_type(sig);

    let call_name = callee(sig, self_ty);
    let formals = formal_args(&sig.inputs, self_ty);
    let conversions = convert_args(&sig.inputs);
    let actuals = actual_args(opts, &sig.inputs);
    let args = meta_args(&mut sig.inputs, self_ty);

    let wrapper = WrapperFn {
        name: names.wrap_name.clone(),
        formals,
        use_rng: opts.use_rng,
        conversions,
        callee: call_name,
        actuals,
        r_name: r_name_str.clone(),
    };
    assert(wrapper@ =~= wrapper_of(*opts, names@, *old(sig), self_ty));

    let metadata = MetadataFn {
        name: names.meta_name,
        args,
        doc: doc_string,
        rust_name: rust_name_str,
        r_name: r_name_str,
        mod_name: names.mod_name,
        return_type: return_type_string,
        wrapper: names.wrap_name,
        hidden: false,
    };
    assert(metadata@ =~= metadata_of(*opts, names@, attrs@, *old(sig), self_ty));

    wrappers.push(GeneratedFn::Wrapper(wrapper));
    wrappers.push(GeneratedFn::Metadata(metadata));
    assert(wrappers@.take(old(wrappers)@.len() as int) =~= old(wrappers)@);
}

/// Generates the wrappers for a function, as [`make_named_wrappers`] does, under the names that
/// are read for its items. Where no wrappers can be made, everything is left as it is, and the
/// result says what is wrong with the function.
pub fn make_function_wrappers(
    opts: &ExtendrOptions,
    wrappers: &mut Vec<GeneratedFn>,
    prefix: &str,
    attrs: &[Attribute],
    sig: &mut Signature,
    self_ty: Option<&Type>,
) -> (res: Result<(), Rejection>)
    ensures
        exists|answers: NameAnswersView|
            {
                &&& #[trigger] answers.answer(*opts, prefix@, *old(sig))
                &&& res == checked(rejection(answers, old(sig).inputs@, self_ty is Some))
                &&& res is Ok ==> wrappers_added(
                    old(wrappers)@,
                    final(wrappers)@,
                    old(sig).inputs@,
                    wrapper_of(*opts, answers.names(), *old(sig), self_ty),
                    metadata_of(*opts, answers.names(), attrs@, *old(sig), self_ty),
                )
            },
        res is Ok ==> without_defaults(*old(sig), *final(sig)),
        res is Err ==> *final(wrappers) == *old(wrappers) && *final(sig) == *old(sig),
{
    let answers = read_names(opts, prefix, sig);
    assert(answers@.answer(*opts, prefix@, *old(sig)));
    match check_answers(&answers, &sig.inputs, self_ty.is_some()) {
        Ok(()) => {
            let names = ItemNames {
                mod_name: answers.bare.unwrap(),
                wrap_name: answers.wrap.unwrap(),
                meta_name: answers.meta.unwrap(),
            };
            make_named_wrappers(opts, wrappers, names, attrs, sig, self_ty);
            Ok(())
        },
        Err(r) => Err(r),
    }
}

} // verus!
