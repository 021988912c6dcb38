//! Which functions can be wrapped, and what is wrong with the others.

use vstd::prelude::*;

use crate::item_names::{read_names, NameAnswers, NameAnswersView};
use crate::syntax::{FnArg, PatKind, Signature, Type};
use crate::wrappers::ExtendrOptions;

verus! {

/// Why no wrappers can be made for a function.
#[derive(Clone, Copy, Debug, PartialEq, Eq, Structural)]
pub enum Rejection {
    /// The name for the generated items is not an identifier.
    InvalidModName,
    /// Prefix and name together do not make an identifier.
    InvalidItemName,
    /// A `self` parameter is not a plain `&self` or `&mut self`.
    ExpectedSelfReference,
    /// A `self` parameter in a function that is in no `impl` block.
    SelfOutsideImpl,
    /// A parameter whose pattern is not an identifier.
    ExpectedIdentifier,
    /// A parameter whose pattern has more to it than an identifier.
    PatternNotExpression,
}

impl Rejection {
    /// What the user is told.
    pub open spec fn text(self) -> Seq<char> {
        match self {
            Rejection::InvalidModName => "the name of the generated items is not a valid Ident"@,
            Rejection::InvalidItemName => "a generated name is not a valid Ident"@,
            Rejection::ExpectedSelfReference => "expected &self or &mut self"@,
            Rejection::SelfOutsideImpl =>
                "found &self in non-impl function - have you missed the #[extendr] before the impl?"@,
            Rejection::ExpectedIdentifier => "expect identifier as arg name"@,
            Rejection::PatternNotExpression => "expected an expression"@,
        }
    }

    /// What the user is told.
    pub fn message(&self) -> (res: &'static str)
        ensures
            res@ == self.text(),
    {
        match self {
            Rejection::InvalidModName => "the name of the generated items is not a valid Ident",
            Rejection::InvalidItemName => "a generated name is not a valid Ident",
            Rejection::ExpectedSelfReference => "expected &self or &mut self",
            Rejection::SelfOutsideImpl =>
                "found &self in non-impl function - have you missed the #[extendr] before the impl?",
            Rejection::ExpectedIdentifier => "expect identifier as arg name",
            Rejection::PatternNotExpression => "expected an expression",
        }
    }
}

/// What is wrong with the names of the generated items, going by what was read for them, if
/// anything is.
pub open spec fn name_rejection(answers: NameAnswersView) -> Option<Rejection> {
    if answers.given is None || answers.bare is None {
        Some(Rejection::InvalidModName)
    } else if answers.wrap is None || answers.meta is None {
        Some(Rejection::InvalidItemName)
    } else {
        None
    }
}

/// What is wrong with a parameter as a `self` parameter, if anything is.
pub open spec fn receiver_rejection(input: FnArg, in_impl: bool) -> Option<Rejection> {
    match input {
        FnArg::Typed(_) => None,
        FnArg::Receiver(receiver) => if receiver.attrs@.len() != 0 || !receiver.reference {
            Some(Rejection::ExpectedSelfReference)
        } else if !in_impl {
            Some(Rejection::SelfOutsideImpl)
        } else {
            None
        },
    }
}

/// What is wrong with a parameter when its metadata is made, if anything is: a `self` parameter
/// must be a plain reference, and its metadata names the type of the `impl` block.
pub open spec fn meta_arg_rejection(input: FnArg, in_impl: bool) -> Option<Rejection> {
    if !(input is Receiver) {
        None
    } else if !(input->Receiver_0.reference && input->Receiver_0.attrs@.len() == 0) {
        Some(Rejection::ExpectedSelfReference)
    } else if in_impl {
        None
    } else {
        Some(Rejection::SelfOutsideImpl)
    }
}

/// What is wrong with the pattern of a parameter, if anything is.
pub open spec fn pattern_rejection(input: FnArg) -> Option<Rejection> {
    match input {
        FnArg::Receiver(_) => None,
        FnArg::Typed(pattype) => if pattype.pat.kind is Other {
            Some(Rejection::ExpectedIdentifier)
        } else if !pattype.pat.is_plain() {
            Some(Rejection::PatternNotExpression)
        } else {
            None
        },
    }
}

/// What is wrong with the first bad `self` parameter in a list.
pub open spec fn receivers_rejection(inputs: Seq<FnArg>, in_impl: bool) -> Option<Rejection>
    decreases inputs.len(),
{
    if inputs.len() == 0 {
        None
    } else if receivers_rejection(inputs.drop_last(), in_impl) is Some {
        receivers_rejection(inputs.drop_last(), in_impl)
    } else {
        receiver_rejection(inputs.last(), in_impl)
    }
}

/// What is wrong with the first bad pattern in a list of parameters.
pub open spec fn patterns_rejection(inputs: Seq<FnArg>) -> Option<Rejection>
    decreases inputs.len(),
{
    if inputs.len() == 0 {
        None
    } else if patterns_rejection(inputs.drop_last()) is Some {
        patterns_rejection(inputs.drop_last())
    } else {
        pattern_rejection(inputs.last())
    }
}

/// What is wrong with a function, if anything is: first its names, then its `self` parameters,
/// then the patterns of its other parameters.
pub open spec fn rejection(
    answers: NameAnswersView,
    inputs: Seq<FnArg>,
    in_impl: bool,
) -> Option<Rejection> {
    if name_rejection(answers) is Some {
        name_rejection(answers)
    } else if receivers_rejection(inputs, in_impl) is Some {
        receivers_rejection(inputs, in_impl)
    } else {
        patterns_rejection(inputs)
    }
}

/// The result of a check that finds `rejection`.
pub open spec fn checked(rejection: Option<Rejection>) -> Result<(), Rejection> {
    match rejection {
        None => Ok(()),
        Some(r) => Err(r),
    }
}

/// Checks what was read for the names of the generated items.
fn check_names(answers: &NameAnswers) -> (res: Result<(), Rejection>)
    ensures
        res == checked(name_rejection(answers@)),
{
    if answers.given.is_none() || answers.bare.is_none() {
        Err(Rejection::InvalidModName)
    } else if answers.wrap.is_none() || answers.meta.is_none() {
        Err(Rejection::InvalidItemName)
    } else {
        Ok(())
    }
}

/// Checks one `self` parameter; any other parameter passes.
pub fn check_receiver(input: &FnArg, in_impl: bool) -> (res: Result<(), Rejection>)
    ensures
        res == checked(receiver_rejection(*input, in_impl)),
{
    match input {
        FnArg::Typed(_) => Ok(()),
        FnArg::Receiver(receiver) => {
            if !receiver.attrs.is_empty() || !receiver.reference {
                Err(Rejection::ExpectedSelfReference)
            } else if !in_impl {
                Err(Rejection::SelfOutsideImpl)
            } else {
                Ok(())
            }
        },
    }
}

/// Checks the pattern of one parameter; a `self` parameter passes.
fn check_pattern(input: &FnArg) -> (res: Result<(), Rejection>)
    ensures
        res == checked(pattern_rejection(*input)),
{
    match input {
        FnArg::Receiver(_) => Ok(()),
        FnArg::Typed(pattype) => match &pattype.pat.kind {
            PatKind::Other => Err(Rejection::ExpectedIdentifier),
            PatKind::Ident(p) => {
                if p.by_ref || p.mutability || p.has_subpat {
                    Err(Rejection::PatternNotExpression)
                } else {
                    Ok(())
                }
            },
        },
    }
}

/// Checks whether wrappers can be made for a function with the parameters `inputs`, going by what
/// was read for the names of its items.
pub fn check_answers(answers: &NameAnswers, inputs: &Vec<FnArg>, in_impl: bool) -> (res: Result<
    (),
    Rejection,
>)
    ensures
        res == checked(rejection(answers@, inputs@, in_impl)),
{
    if let Err(r) = check_names(answers) {
        return Err(r);
    }
    for i in 0..inputs.len()
        invariant
            name_rejection(answers@) is None,
            receivers_rejection(inputs@.take(i as int), in_impl) is None,
    {
        proof {
            lemma_first_receiver(inputs@, i as int, in_impl);
        }
        if let Err(r) = check_receiver(&inputs[i], in_impl) {
            return Err(r);
        }
    }
    assert(inputs@.take(inputs@.len() as int) =~= inputs@);
    for i in 0..inputs.len()
        invariant
            name_rejection(answers@) is None,
            receivers_rejection(inputs@, in_impl) is None,
            patterns_rejection(inputs@.take(i as int)) is None,
    {
        proof {
            lemma_first_pattern(inputs@, i as int);
        }
        if let Err(r) = check_pattern(&inputs[i]) {
            return Err(r);
        }
    }
    assert(inputs@.take(inputs@.len() as int) =~= inputs@);
    Ok(())
}

/// Checks whether wrappers can be made for a function.
pub fn check_function(
    opts: &ExtendrOptions,
    prefix: &str,
    sig: &Signature,
    self_ty: Option<&Type>,
) -> (res: Result<(), Rejection>)
    ensures
        exists|answers: NameAnswersView| #[trigger]
            answers.answer(*opts, prefix@, *sig) && res == checked(
                rejection(answers, sig.inputs@, self_ty is Some),
            ),
{
    let answers = read_names(opts, prefix, sig);
    assert(answers@.answer(*opts, prefix@, *sig));
    check_answers(&answers, &sig.inputs, self_ty.is_some())
}

/// Where the parameters before `n` pass as `self` parameters, the list is rejected for what is
/// wrong with the one at `n`, and passes up to there if nothing is.
proof fn lemma_first_receiver(inputs: Seq<FnArg>, n: int, in_impl: bool)
    requires
        0 <= n < inputs.len(),
        receivers_rejection(inputs.take(n), in_impl) is None,
    ensures
        receivers_rejection(inputs.take(n + 1), in_impl) == receiver_rejection(inputs[n], in_impl),
        receiver_rejection(inputs[n], in_impl) is Some ==> receivers_rejection(inputs, in_impl)
            == receiver_rejection(inputs[n], in_impl),
    decreases inputs.len(),
{
    assert(inputs.take(n + 1).drop_last() =~= inputs.take(n));
    if n + 1 == inputs.len() {
        assert(inputs.take(n + 1) =~= inputs);
    } else {
        assert(inputs.drop_last().take(n) =~= inputs.take(n));
        lemma_first_receiver(inputs.drop_last(), n, in_impl);
    }
}

/// Where the patterns before `n` pass, the list is rejected for what is wrong with the one at
/// `n`, and passes up to there if nothing is.
proof fn lemma_first_pattern(inputs: Seq<FnArg>, n: int)
    requires
        0 <= n < inputs.len(),
        patterns_rejection(inputs.take(n)) is None,
    ensures
        patterns_rejection(inputs.take(n + 1)) == pattern_rejection(inputs[n]),
        pattern_rejection(inputs[n]) is Some ==> patterns_rejection(inputs) == pattern_rejection(
            inputs[n],
        ),
    decreases inputs.len(),
{
    assert(inputs.take(n + 1).drop_last() =~= inputs.take(n));
    if n + 1 == inputs.len() {
        assert(inputs.take(n + 1) =~= inputs);
    } else {
        assert(inputs.drop_last().take(n) =~= inputs.take(n));
        lemma_first_pattern(inputs.drop_last(), n);
    }
}

/// Where a list passes, each parameter passes as a `self` parameter.
pub(crate) proof fn lemma_receiver_accepted(inputs: Seq<FnArg>, n: int, in_impl: bool)
    requires
        0 <= n < inputs.len(),
        receivers_rejection(inputs, in_impl) is None,
    ensures
        receiver_rejection(inputs[n], in_impl) is None,
    decreases inputs.len(),
{
    if n + 1 < inputs.len() {
        lemma_receiver_accepted(inputs.drop_last(), n, in_impl);
    }
}

/// Where a list passes, the pattern of each parameter passes.
pub(crate) proof fn lemma_pattern_accepted(inputs: Seq<FnArg>, n: int)
    requires
        0 <= n < inputs.len(),
        patterns_rejection(inputs) is None,
    ensures
        pattern_rejection(inputs[n]) is None,
    decreases inputs.len(),
{
    if n + 1 < inputs.len() {
        lemma_pattern_accepted(inputs.drop_last(), n);
    }
}

} // verus!
