//! What holds of the source text of every generated function.

use vstd::prelude::*;

use crate::attributes::{doc_text, named_lit};
use crate::code::{
    actual_text, callee_text, comma_separated, concatenated, conversion_text, evaluation_text,
    generated_code, meta_arg_code, meta_args_code, metadata_code, pieces, renders, wrapper_code,
    write_all, writes, Piece, PieceView, EVALUATION_CALL, EVALUATION_HEAD, EVALUATION_TAIL,
    RESULT_HEAD, RESULT_TAIL, RNG_END, RNG_START, WRAPPER_BODY, WRAPPER_HEAD,
};
use crate::item_names::ItemNamesView;
use crate::items::{
    printed_param, ActualView, CalleeView, ConversionView, GeneratedFnView, MetaArgView,
    MetadataFnView, WrapperFnView,
};
use crate::names::{return_name, robj_var, simple_name};
use crate::outside::{is_literal_of, is_value_read};
use crate::parameter_laws::{
    joined, lemma_actuals_at, lemma_joined_push, lemma_sexp_parameter, picks,
};
use crate::syntax::{Attribute, FnArg, Signature, Type};
use crate::wrappers::{
    actual_of, actuals_of, formal_of, metadata_of, wrapper_of, ExtendrOptions,
};

verus! {

// ---------------------------------------------------------------------------------------------
// Lists
// ---------------------------------------------------------------------------------------------

/// The parameters and the arguments of a wrapper are joined by a comma and a blank, its statements
/// by nothing.
pub proof fn law_lists_are_joined(texts: Seq<Seq<char>>)
    ensures
        comma_separated(texts) == joined(texts, ", "@),
        concatenated(texts) == joined(texts, Seq::<char>::empty()),
    decreases texts.len(),
{
    if texts.len() > 0 {
        let rest = texts.drop_last();
        law_lists_are_joined(rest);
        assert(rest.push(texts.last()) =~= texts);
        lemma_joined_push(rest, ", "@, texts.last());
        lemma_joined_push(rest, Seq::<char>::empty(), texts.last());
        if texts.len() == 1 {
            assert(concatenated(rest) =~= Seq::<char>::empty());
        }
        assert(concatenated(texts) =~= joined(texts, Seq::<char>::empty()));
    }
}

/// What two lists are written as in a row.
proof fn lemma_concatenated_add(a: Seq<Seq<char>>, b: Seq<Seq<char>>)
    ensures
        concatenated(a + b) == concatenated(a) + concatenated(b),
    decreases b.len(),
{
    if b.len() == 0 {
        assert(a + b =~= a);
        assert(concatenated(a) + concatenated(b) =~= concatenated(a));
    } else {
        lemma_concatenated_add(a, b.drop_last());
        assert((a + b).drop_last() =~= a + b.drop_last());
        assert(concatenated(a + b) =~= concatenated(a) + concatenated(b));
    }
}

/// Three texts in a row can be grouped either way.
proof fn lemma_regroup(a: Seq<char>, b: Seq<char>, c: Seq<char>)
    ensures
        a + (b + c) == a + b + c,
{
    assert(a + (b + c) =~= a + b + c);
}

// ---------------------------------------------------------------------------------------------
// Pieces
// ---------------------------------------------------------------------------------------------

/// Whether a text is a string literal for `value`, from which nothing else is read.
pub open spec fn stands_for(token: Seq<char>, value: Seq<char>) -> bool {
    &&& is_literal_of(value, token)
    &&& forall|read: Option<Seq<char>>| #[trigger]
        is_value_read(token, read) ==> read == Some(value)
}

/// Text is written as it stands, and a string as a literal that stands for it.
pub proof fn law_pieces_are_written_as_they_are(piece: Piece, text: Seq<char>)
    ensures
        piece matches Piece::Code(code) ==> (writes(piece@, text) <==> text == code@),
        piece matches Piece::Str(value) ==> (writes(piece@, text) <==> stands_for(text, value@)),
{
}

/// The code of two lists of pieces in a row is written as that of the one, then that of the other.
pub proof fn law_code_is_written_in_order(first: Seq<Piece>, second: Seq<Piece>, source: Seq<char>)
    ensures
        renders(pieces(first + second), source) <==> exists|a: Seq<char>, b: Seq<char>|
            #[trigger] renders(pieces(first), a) && #[trigger] renders(pieces(second), b) && source
                == a + b,
{
    assert(pieces(first + second) =~= pieces(first) + pieces(second));
    lemma_renders_add(pieces(first), pieces(second), source);
}

/// Code in two parts is written part by part.
proof fn lemma_renders_add(first: Seq<PieceView>, second: Seq<PieceView>, source: Seq<char>)
    ensures
        renders(first + second, source) <==> exists|a: Seq<char>, b: Seq<char>|
            #[trigger] renders(first, a) && #[trigger] renders(second, b) && source == a + b,
{
    if renders(first + second, source) {
        let texts = choose|texts: Seq<Seq<char>>| #[trigger]
            write_all(first + second, texts) && source == concatenated(texts);
        let n = first.len() as int;
        let a = texts.take(n);
        let b = texts.skip(n);
        assert(a + b =~= texts);
        lemma_concatenated_add(a, b);
        assert forall|i: int| 0 <= i < first.len() implies writes(first[i], #[trigger] a[i]) by {
            assert(writes((first + second)[i], texts[i]));
        }
        assert forall|i: int| 0 <= i < second.len() implies writes(
            second[i],
            #[trigger] b[i],
        ) by {
            assert(writes((first + second)[n + i], texts[n + i]));
        }
        assert(write_all(first, a) && write_all(second, b));
        assert(renders(first, concatenated(a)) && renders(second, concatenated(b)));
    }
    if exists|a: Seq<char>, b: Seq<char>|
        #[trigger] renders(first, a) && #[trigger] renders(second, b) && source == a + b {
        let (a, b) = choose|a: Seq<char>, b: Seq<char>|
            #[trigger] renders(first, a) && #[trigger] renders(second, b) && source == a + b;
        let p = choose|texts: Seq<Seq<char>>| #[trigger]
            write_all(first, texts) && a == concatenated(texts);
        let q = choose|texts: Seq<Seq<char>>| #[trigger]
            write_all(second, texts) && b == concatenated(texts);
        lemma_concatenated_add(p, q);
        assert forall|i: int| 0 <= i < (first + second).len() implies writes(
            (first + second)[i],
            #[trigger] (p + q)[i],
        ) by {
            if i < first.len() {
                assert(writes(first[i], p[i]));
            } else {
                assert(writes(second[i - first.len()], q[i - first.len()]));
            }
        }
        assert(write_all(first + second, p + q));
    }
}

/// Code of one piece, or of none, is written as that piece, or not at all.
pub proof fn law_one_piece_is_written_alone(piece: Piece, source: Seq<char>)
    ensures
        renders(pieces(seq![piece]), source) <==> writes(piece@, source),
        renders(pieces(Seq::<Piece>::empty()), source) <==> source.len() == 0,
{
    assert(pieces(seq![piece]) =~= seq![piece@]);
    assert(pieces(Seq::<Piece>::empty()) =~= Seq::<PieceView>::empty());
    lemma_renders_one(piece@, source);
    if renders(Seq::<PieceView>::empty(), source) {
        let texts = choose|texts: Seq<Seq<char>>| #[trigger]
            write_all(Seq::<PieceView>::empty(), texts) && source == concatenated(texts);
        assert(texts.len() == 0);
    }
    if source.len() == 0 {
        assert(write_all(Seq::<PieceView>::empty(), Seq::<Seq<char>>::empty()));
        assert(source =~= concatenated(Seq::<Seq<char>>::empty()));
    }
}

/// Code of one piece is written as that piece.
proof fn lemma_renders_one(piece: PieceView, source: Seq<char>)
    ensures
        renders(seq![piece], source) <==> writes(piece, source),
{
    reveal_with_fuel(concatenated, 2);
    if renders(seq![piece], source) {
        let texts = choose|texts: Seq<Seq<char>>| #[trigger]
            write_all(seq![piece], texts) && source == concatenated(texts);
        assert(writes(seq![piece][0], texts[0]));
        assert(texts.drop_last().len() == 0);
        assert(concatenated(texts) =~= texts[0]);
    }
    if writes(piece, source) {
        let texts = seq![source];
        assert(write_all(seq![piece], texts));
        assert(texts.drop_last().len() == 0);
        assert(concatenated(texts) =~= source);
    }
}

// ---------------------------------------------------------------------------------------------
// The wrapper
// ---------------------------------------------------------------------------------------------

/// A parameter is printed as its pattern, a colon and its type.
pub proof fn law_parameters_are_printed(input: FnArg)
    ensures
        input matches FnArg::Typed(param) ==> printed_param(input) == param.pat.tokens@ + " : "@
            + param.ty.tokens@,
        input matches FnArg::Receiver(receiver) ==> printed_param(input) == match (
            receiver.reference,
            receiver.mutability,
        ) {
            (true, true) => "&mut self"@,
            (true, false) => "&self"@,
            (false, true) => "mut self"@,
            (false, false) => "self"@,
        },
{
    reveal_strlit("&mut self");
    reveal_strlit("&self");
    reveal_strlit("mut self");
    reveal_strlit("self");
    reveal_strlit("mut ");
    reveal_strlit("&");
    if let FnArg::Receiver(receiver) = input {
        if receiver.reference {
            if receiver.mutability {
                assert(printed_param(input) =~= "&mut self"@);
            } else {
                assert(printed_param(input) =~= "&self"@);
            }
        } else if receiver.mutability {
            assert(printed_param(input) =~= "mut self"@);
        } else {
            assert(printed_param(input) =~= "self"@);
        }
    }
}

/// The statement for a conversion declares its variable, which can be changed or not, as the R
/// object behind the parameter.
pub proof fn law_conversions_are_written_out(c: ConversionView)
    ensures
        c.mutable ==> conversion_text(c) == "        let mut "@ + c.var
            + " = extendr_api::robj::Robj::from_sexp("@ + c.arg + ");\n"@,
        !c.mutable ==> conversion_text(c) == "        let "@ + c.var
            + " = extendr_api::robj::Robj::from_sexp("@ + c.arg + ");\n"@,
{
}

/// A conversion of an argument names the variable, and the type where it is asked of a type. What
/// is called is named behind what it is called through.
pub proof fn law_calls_are_written_out(ty: Seq<char>, var: Seq<char>, name: Seq<char>)
    ensures
        actual_text(ActualView::TryInto { var }) == var + ".try_into()?"@,
        actual_text(ActualView::FromRobj { ty, var }) == "<"@ + ty + ">::from_robj(&"@ + var
            + ")?"@,
        callee_text(CalleeView::Free { name }) == name,
        callee_text(CalleeView::Associated { self_ty: ty, name }) == "<"@ + ty + ">::"@ + name,
        callee_text(CalleeView::Method { mutable: true, self_ty: ty, name })
            == "extendr_api::unwrap_or_throw(<&mut "@ + ty + ">::from_robj(&_self_robj))."@ + name,
        callee_text(CalleeView::Method { mutable: false, self_ty: ty, name })
            == "extendr_api::unwrap_or_throw(<&"@ + ty + ">::from_robj(&_self_robj))."@ + name,
{
}

/// The state of the random number generator is returned in the way in which it is pulled: the two
/// statements differ in nothing but the function of R that they call.
pub proof fn law_generator_state_is_pulled_and_returned()
    ensures
        exists|before: Seq<char>, after: Seq<char>|
            RNG_START@ == #[trigger] (before + "GetRNGstate"@ + after) && RNG_END@ == before
                + "PutRNGstate"@ + after,
{
    reveal_strlit("    single_threaded(|| unsafe {\n        libR_sys::GetRNGstate();\n    });\n");
    reveal_strlit("    single_threaded(|| unsafe {\n        libR_sys::PutRNGstate();\n    });\n");
    reveal_strlit("    single_threaded(|| unsafe {\n        libR_sys::");
    reveal_strlit("GetRNGstate");
    reveal_strlit("PutRNGstate");
    reveal_strlit("();\n    });\n");
    let before = "    single_threaded(|| unsafe {\n        libR_sys::"@;
    let after = "();\n    });\n"@;
    assert(RNG_START@ =~= before + "GetRNGstate"@ + after);
    assert(RNG_END@ =~= before + "PutRNGstate"@ + after);
}

/// The texts of the statements for a list of conversions.
pub open spec fn conversion_texts(conversions: Seq<ConversionView>) -> Seq<Seq<char>> {
    Seq::new(conversions.len(), |i: int| conversion_text(conversions[i]))
}

/// The texts of the arguments of a call.
pub open spec fn actual_texts(actuals: Seq<ActualView>) -> Seq<Seq<char>> {
    Seq::new(actuals.len(), |i: int| actual_text(actuals[i]))
}

/// The source text of every wrapper shows each of its parts: the parameters, the statements that
/// make objects of them, the call and its arguments, each in their order. The state of the random
/// number generator is pulled right before this and returned right after it, or neither.
pub proof fn law_wrapper_source_shows_every_part(w: WrapperFnView, source: Seq<char>)
    requires
        renders(generated_code(GeneratedFnView::Wrapper(w)), source),
    ensures
        exists|literal: Seq<char>|
            #[trigger] stands_for(literal, w.r_name) && source == WRAPPER_HEAD@ + w.name + "("@
                + joined(w.formals, ", "@) + WRAPPER_BODY@ + (if w.use_rng {
                RNG_START@
            } else {
                seq![]
            }) + EVALUATION_HEAD@ + joined(
                conversion_texts(w.conversions),
                seq![],
            ) + EVALUATION_CALL@ + callee_text(w.callee) + "("@ + joined(
                actual_texts(w.actuals),
                ", "@,
            ) + ")"@ + EVALUATION_TAIL@ + (if w.use_rng {
                RNG_END@
            } else {
                seq![]
            }) + RESULT_HEAD@ + literal + RESULT_TAIL@,
{
    let code = wrapper_code(w);
    let texts = choose|texts: Seq<Seq<char>>| #[trigger]
        write_all(code, texts) && source == concatenated(texts);
    assert(writes(code[0], texts[0]) && writes(code[1], texts[1]) && writes(code[2], texts[2]));
    reveal_with_fuel(concatenated, 4);
    assert(texts.drop_last().drop_last().drop_last().len() == 0);
    assert(source =~= texts[0] + texts[1] + texts[2]);
    assert(stands_for(texts[1], w.r_name));
    let statements = conversion_texts(w.conversions);
    let passed = actual_texts(w.actuals);
    assert(w.conversions.map_values(|c| conversion_text(c)) =~= statements);
    assert(w.actuals.map_values(|a| actual_text(a)) =~= passed);
    law_lists_are_joined(w.formals);
    law_lists_are_joined(statements);
    law_lists_are_joined(passed);
    let opening = WRAPPER_HEAD@ + w.name + "("@ + joined(w.formals, ", "@) + WRAPPER_BODY@;
    let start = if w.use_rng {
        RNG_START@
    } else {
        seq![]
    };
    let end = if w.use_rng {
        RNG_END@
    } else {
        seq![]
    };
    lemma_evaluation_regrouped(
        opening + start,
        EVALUATION_HEAD@,
        joined(statements, seq![]),
        EVALUATION_CALL@,
        callee_text(w.callee),
        joined(passed, ", "@),
        EVALUATION_TAIL@,
    );
    assert(opening + Seq::<char>::empty() =~= opening);
    let evaluated = opening + start + evaluation_text(w);
    assert(evaluated + Seq::<char>::empty() =~= evaluated);
    assert(texts[0] == evaluated + end + RESULT_HEAD@);
}

/// What a parameter of a function is in the parameter list of its wrapper.
pub open spec fn wrapper_param(input: FnArg) -> Seq<char> {
    if input is Typed {
        input->Typed_0.pat.tokens@ + " : extendr_api :: SEXP"@
    } else {
        "_self"@ + " : extendr_api :: SEXP"@
    }
}

/// What the parameters of a function are in the parameter list of its wrapper.
pub open spec fn wrapper_params(inputs: Seq<FnArg>) -> Seq<Seq<char>> {
    Seq::new(inputs.len(), |i: int| wrapper_param(inputs[i]))
}

/// The statement of a wrapper that makes an R object of a parameter.
pub open spec fn object_statement(input: FnArg) -> Seq<char> {
    if input is Typed {
        "        let "@ + robj_var(input->Typed_0.pat.kind->Ident_0.ident@)
            + " = extendr_api::robj::Robj::from_sexp("@ + input->Typed_0.pat.tokens@ + ");\n"@
    } else {
        "        let mut "@ + "_self_robj"@ + " = extendr_api::robj::Robj::from_sexp("@ + "_self"@
            + ");\n"@
    }
}

/// The statements of a wrapper that make R objects of its parameters.
pub open spec fn object_statements(inputs: Seq<FnArg>) -> Seq<Seq<char>> {
    Seq::new(inputs.len(), |i: int| object_statement(inputs[i]))
}

/// How the wrapped function is called: through the type of its `impl` block, as a method on the
/// value behind the R object for `self`, or by its name alone.
pub open spec fn call_text(sig: Signature, self_ty: Option<&Type>) -> Seq<char> {
    if sig.inputs@.len() > 0 && sig.inputs@[0] is Receiver {
        if sig.inputs@[0]->Receiver_0.mutability {
            "extendr_api::unwrap_or_throw(<&mut "@ + self_ty->0.tokens@
                + ">::from_robj(&_self_robj))."@ + sig.ident@
        } else {
            "extendr_api::unwrap_or_throw(<&"@ + self_ty->0.tokens@
                + ">::from_robj(&_self_robj))."@ + sig.ident@
        }
    } else if self_ty is Some {
        "<"@ + self_ty->0.tokens@ + ">::"@ + sig.ident@
    } else {
        sig.ident@
    }
}

/// What is passed for a parameter with a name.
pub open spec fn passed_text(opts: ExtendrOptions, input: FnArg) -> Seq<char> {
    let var = robj_var(input->Typed_0.pat.kind->Ident_0.ident@);
    if opts.use_try_from {
        var + ".try_into()?"@
    } else {
        "<"@ + input->Typed_0.ty.tokens@ + ">::from_robj(&"@ + var + ")?"@
    }
}

/// What is passed for the parameters at the given positions.
pub open spec fn passed_texts(
    opts: ExtendrOptions,
    inputs: Seq<FnArg>,
    at: Seq<int>,
) -> Seq<Seq<char>> {
    Seq::new(at.len(), |k: int| passed_text(opts, inputs[at[k]]))
}

/// The name of a function in R: the one that the options ask for, or else its own.
pub open spec fn name_in_r(opts: ExtendrOptions, sig: Signature) -> Seq<char> {
    if opts.r_name is Some {
        opts.r_name->0@
    } else {
        sig.ident@
    }
}

/// The source text of a wrapper, from its first character to its last, for every signature. The
/// wrapper takes an R object for each parameter, makes objects of all of them, and calls the
/// function with the parameters that have a name, whose positions are `at`. Where the options
/// ask for it, the state of the random number generator is pulled right before this and returned
/// right after it. The literal stands for the function's name in R.
pub proof fn law_wrapper_source(
    opts: ExtendrOptions,
    names: ItemNamesView,
    sig: Signature,
    self_ty: Option<&Type>,
    at: Seq<int>,
    source: Seq<char>,
)
    requires
        renders(
            generated_code(GeneratedFnView::Wrapper(wrapper_of(opts, names, sig, self_ty))),
            source,
        ),
        picks(
            at,
            Seq::new(
                sig.inputs@.len(),
                |i: int| sig.inputs@[i] is Typed && sig.inputs@[i]->Typed_0.pat.kind is Ident,
            ),
        ),
    ensures
        exists|literal: Seq<char>|
            #[trigger] stands_for(literal, name_in_r(opts, sig)) && source == WRAPPER_HEAD@
                + names.wrap_name + "("@ + joined(
                wrapper_params(sig.inputs@),
                ", "@,
            ) + WRAPPER_BODY@ + (if opts.use_rng {
                RNG_START@
            } else {
                seq![]
            }) + EVALUATION_HEAD@ + joined(
                object_statements(sig.inputs@),
                seq![],
            ) + EVALUATION_CALL@ + call_text(sig, self_ty) + "("@ + joined(
                passed_texts(opts, sig.inputs@, at),
                ", "@,
            ) + ")"@ + EVALUATION_TAIL@ + (if opts.use_rng {
                RNG_END@
            } else {
                seq![]
            }) + RESULT_HEAD@ + literal + RESULT_TAIL@,
{
    let w = wrapper_of(opts, names, sig, self_ty);
    law_wrapper_source_shows_every_part(w, source);
    assert forall|i: int| 0 <= i < sig.inputs@.len() implies wrapper_param(#[trigger] sig.inputs@[i])
        == formal_of(sig.inputs@[i]) by {
        lemma_sexp_parameter(sig.inputs@[i]->Typed_0.pat.tokens@);
        lemma_sexp_parameter("_self"@);
    }
    assert(w.formals =~= wrapper_params(sig.inputs@));
    assert(conversion_texts(w.conversions) =~= object_statements(sig.inputs@));
    lemma_actuals_at(opts, sig.inputs@, at);
    let passed = passed_texts(opts, sig.inputs@, at);
    assert(actual_texts(w.actuals) =~= passed) by {
        assert forall|k: int| 0 <= k < at.len() implies actual_text(w.actuals[k]) == passed[k] by {
            assert(Some(actuals_of(opts, sig.inputs@)[k]) == actual_of(opts, sig.inputs@[at[k]]));
        }
    }
    assert(callee_text(w.callee) == call_text(sig, self_ty));
    assert(w.r_name == name_in_r(opts, sig));
}

/// The parts of an evaluation come one by one behind what stands before it.
proof fn lemma_evaluation_regrouped(
    before: Seq<char>,
    head: Seq<char>,
    statements: Seq<char>,
    call: Seq<char>,
    callee: Seq<char>,
    passed: Seq<char>,
    tail: Seq<char>,
)
    ensures
        before + (head + statements + call + callee + "("@ + passed + ")"@ + tail) == before + head
            + statements + call + callee + "("@ + passed + ")"@ + tail,
{
    lemma_regroup(before, head, statements);
    lemma_regroup(before, head + statements, call);
    lemma_regroup(before, head + statements + call, callee);
    lemma_regroup(before, head + statements + call + callee, "("@);
    lemma_regroup(before, head + statements + call + callee + "("@, passed);
    lemma_regroup(before, head + statements + call + callee + "("@ + passed, ")"@);
    lemma_regroup(before, head + statements + call + callee + "("@ + passed + ")"@, tail);
}

// ---------------------------------------------------------------------------------------------
// The metadata function
// ---------------------------------------------------------------------------------------------

/// Whether a text makes the metadata of a parameter: literals that stand for its name and for the
/// name of its type, and for its default where it has one.
pub open spec fn describes_arg(
    text: Seq<char>,
    name: Seq<char>,
    arg_type: Seq<char>,
    default: Option<Seq<char>>,
) -> bool {
    exists|n: Seq<char>, t: Seq<char>, d: Seq<char>|
        #[trigger] stands_for(n, name) && #[trigger] stands_for(t, arg_type)
            && #[trigger] is_default(d, default) && text
            == "        extendr_api::metadata::Arg { name: "@ + n + ", arg_type: "@ + t
            + ", default: "@ + d + " },\n"@
}

/// Whether a text makes the default of a parameter, which may have none.
pub open spec fn is_default(text: Seq<char>, default: Option<Seq<char>>) -> bool {
    match default {
        None => text == "None"@,
        Some(value) => exists|literal: Seq<char>|
            #[trigger] stands_for(literal, value) && text == "Some("@ + literal + ")"@,
    }
}

/// Whether a text makes the metadata of a parameter of a function in the `impl` block of
/// `self_ty`, if it is in one: of its pattern, its type and its default, or of `self`.
pub open spec fn describes_parameter(text: Seq<char>, input: FnArg, self_ty: Option<&Type>) -> bool {
    if input is Typed {
        describes_arg(
            text,
            input->Typed_0.pat.tokens@,
            simple_name(input->Typed_0.ty),
            named_lit(input->Typed_0.attrs@, "default"@),
        )
    } else {
        describes_arg(text, "self"@, simple_name(*self_ty->0), None)
    }
}

/// Code that starts with a text is written as that text and what the rest is written as.
proof fn lemma_code_first(text: Seq<char>, rest: Seq<PieceView>, source: Seq<char>) -> (end: Seq<
    char,
>)
    requires
        renders(seq![PieceView::Code(text)] + rest, source),
    ensures
        renders(rest, end),
        source == text + end,
{
    let first = seq![PieceView::Code(text)];
    lemma_renders_add(first, rest, source);
    let (a, b) = choose|a: Seq<char>, b: Seq<char>|
        #[trigger] renders(first, a) && #[trigger] renders(rest, b) && source == a + b;
    lemma_renders_one(first[0], a);
    b
}

/// Code that starts with a string is written as a literal for it and what the rest is written as.
proof fn lemma_str_first(value: Seq<char>, rest: Seq<PieceView>, source: Seq<char>) -> (res: (
    Seq<char>,
    Seq<char>,
))
    requires
        renders(seq![PieceView::Str(value)] + rest, source),
    ensures
        stands_for(res.0, value),
        renders(rest, res.1),
        source == res.0 + res.1,
{
    let first = seq![PieceView::Str(value)];
    lemma_renders_add(first, rest, source);
    let (a, b) = choose|a: Seq<char>, b: Seq<char>|
        #[trigger] renders(first, a) && #[trigger] renders(rest, b) && source == a + b;
    lemma_renders_one(first[0], a);
    (a, b)
}

/// Code of no pieces is written as nothing.
proof fn lemma_no_code(source: Seq<char>)
    requires
        renders(Seq::<PieceView>::empty(), source),
    ensures
        source.len() == 0,
{
    law_one_piece_is_written_alone(arbitrary(), source);
    assert(pieces(Seq::<Piece>::empty()) =~= Seq::<PieceView>::empty());
}

/// The code of a parameter's metadata holds literals for its name, its type and its default.
proof fn lemma_meta_arg_source(arg: MetaArgView, source: Seq<char>)
    requires
        renders(meta_arg_code(arg), source),
    ensures
        describes_arg(source, arg.name, arg.arg_type, arg.default),
{
    let code = meta_arg_code(arg);
    assert(code =~= seq![code[0]] + code.skip(1));
    let s1 = lemma_code_first("        extendr_api::metadata::Arg { name: "@, code.skip(1), source);
    assert(code.skip(1) =~= seq![code[1]] + code.skip(2));
    let (n, s2) = lemma_str_first(arg.name, code.skip(2), s1);
    assert(code.skip(2) =~= seq![code[2]] + code.skip(3));
    let s3 = lemma_code_first(", arg_type: "@, code.skip(3), s2);
    assert(code.skip(3) =~= seq![code[3]] + code.skip(4));
    let (t, s4) = lemma_str_first(arg.arg_type, code.skip(4), s3);
    assert(code.skip(4) =~= seq![code[4]] + code.skip(5));
    let s5 = lemma_code_first(", default: "@, code.skip(5), s4);
    assert(code.skip(5) =~= seq![code[5]] + code.skip(6));
    let d: Seq<char>;
    match arg.default {
        None => {
            let s6 = lemma_code_first("None"@, code.skip(6), s5);
            assert(code.skip(6) =~= seq![code[6]] + Seq::<PieceView>::empty());
            let s7 = lemma_code_first(" },\n"@, Seq::<PieceView>::empty(), s6);
            lemma_no_code(s7);
            d = "None"@;
        },
        Some(default) => {
            let s6 = lemma_code_first("Some("@, code.skip(6), s5);
            assert(code.skip(6) =~= seq![code[6]] + code.skip(7));
            let (literal, s7) = lemma_str_first(default, code.skip(7), s6);
            assert(code.skip(7) =~= seq![code[7]] + code.skip(8));
            let s8 = lemma_code_first(")"@, code.skip(8), s7);
            assert(code.skip(8) =~= seq![code[8]] + Seq::<PieceView>::empty());
            let s9 = lemma_code_first(" },\n"@, Seq::<PieceView>::empty(), s8);
            lemma_no_code(s9);
            d = "Some("@ + literal + ")"@;
            assert(stands_for(literal, default));
        },
    }
    assert(is_default(d, arg.default));
    assert(source =~= "        extendr_api::metadata::Arg { name: "@ + n + ", arg_type: "@ + t
        + ", default: "@ + d + " },\n"@);
}

/// The code of a list of parameters' metadata is written parameter by parameter.
proof fn lemma_meta_args_source(args: Seq<MetaArgView>, source: Seq<char>) -> (texts: Seq<
    Seq<char>,
>)
    requires
        renders(meta_args_code(args), source),
    ensures
        texts.len() == args.len(),
        source == concatenated(texts),
        forall|i: int|
            0 <= i < args.len() ==> describes_arg(
                #[trigger] texts[i],
                args[i].name,
                args[i].arg_type,
                args[i].default,
            ),
    decreases args.len(),
{
    if args.len() == 0 {
        lemma_no_code(source);
        let texts = Seq::<Seq<char>>::empty();
        assert(source =~= concatenated(texts));
        texts
    } else {
        let first = meta_args_code(args.drop_last());
        let second = meta_arg_code(args.last());
        lemma_renders_add(first, second, source);
        let (a, b) = choose|a: Seq<char>, b: Seq<char>|
            #[trigger] renders(first, a) && #[trigger] renders(second, b) && source == a + b;
        let before = lemma_meta_args_source(args.drop_last(), a);
        lemma_meta_arg_source(args.last(), b);
        let texts = before.push(b);
        assert(texts.drop_last() =~= before);
        assert forall|i: int| 0 <= i < args.len() implies describes_arg(
            #[trigger] texts[i],
            args[i].name,
            args[i].arg_type,
            args[i].default,
        ) by {
            if i < before.len() {
                assert(texts[i] == before[i]);
                assert(args.drop_last()[i] == args[i]);
            }
        }
        texts
    }
}

/// Whether `source` is the source text of a metadata function, from its first character to its
/// last, with `args` for the metadata of the parameters and `literals` for the documentation, the
/// name in Rust, the name in R, the name the items are known by and the name of the result's type.
pub open spec fn is_metadata_source(
    source: Seq<char>,
    name: Seq<char>,
    args: Seq<Seq<char>>,
    literals: Seq<Seq<char>>,
    wrapper: Seq<char>,
    hidden: bool,
) -> bool {
    &&& literals.len() == 5
    &&& source == "#[allow(non_snake_case)]\nfn "@ + name
        + "(metadata: &mut Vec<extendr_api::metadata::Func>) {\n    let mut args = vec![\n"@
        + joined(args, seq![])
        + "    ];\n\n    metadata.push(extendr_api::metadata::Func {\n        doc: "@ + literals[0]
        + ",\n        rust_name: "@ + literals[1] + ",\n        r_name: "@ + literals[2]
        + ",\n        mod_name: "@ + literals[3] + ",\n        args: args,\n        return_type: "@
        + literals[4] + ",\n        func_ptr: "@ + wrapper + " as * const u8,\n        hidden: "@ + (
    if hidden {
        "true"@
    } else {
        "false"@
    }) + ",\n    })\n}\n"@
}

/// The source text of every metadata function shows each of its fields: behind the name of a
/// field stands a literal for the value of that field and of no other. The metadata of the
/// parameters come in their order.
pub proof fn law_metadata_source_shows_every_field(m: MetadataFnView, source: Seq<char>)
    requires
        renders(generated_code(GeneratedFnView::Metadata(m)), source),
    ensures
        exists|args: Seq<Seq<char>>, literals: Seq<Seq<char>>|
            {
                &&& #[trigger] is_metadata_source(
                    source,
                    m.name,
                    args,
                    literals,
                    m.wrapper,
                    m.hidden,
                )
                &&& args.len() == m.args.len()
                &&& forall|i: int|
                    0 <= i < args.len() ==> describes_arg(
                        #[trigger] args[i],
                        m.args[i].name,
                        m.args[i].arg_type,
                        m.args[i].default,
                    )
                &&& stands_for(literals[0], m.doc)
                &&& stands_for(literals[1], m.rust_name)
                &&& stands_for(literals[2], m.r_name)
                &&& stands_for(literals[3], m.mod_name)
                &&& stands_for(literals[4], m.return_type)
            },
{
    let code = metadata_code(m);
    let tail = func_code(m);
    let head = "#[allow(non_snake_case)]\nfn "@ + m.name
        + "(metadata: &mut Vec<extendr_api::metadata::Func>) {\n    let mut args = vec![\n"@;
    assert(code =~= seq![PieceView::Code(head)] + (meta_args_code(m.args) + tail));
    let s0 = lemma_code_first(head, meta_args_code(m.args) + tail, source);
    lemma_renders_add(meta_args_code(m.args), tail, s0);
    let (a, s1) = choose|a: Seq<char>, b: Seq<char>|
        #[trigger] renders(meta_args_code(m.args), a) && #[trigger] renders(tail, b) && s0 == a + b;
    let args = lemma_meta_args_source(m.args, a);
    law_lists_are_joined(args);
    lemma_regroup(head, a, s1);
    let literals = lemma_func_source(m, head + a, s1);
    assert(is_metadata_source(source, m.name, args, literals, m.wrapper, m.hidden));
}

/// The source text of the metadata function of every signature. The literal behind `r_name` stands
/// for the name that the options ask for in R, or else for the function's own, and each other
/// literal for what its field is called after. The parameters are described in their order.
pub proof fn law_metadata_source(
    opts: ExtendrOptions,
    names: ItemNamesView,
    attrs: Seq<Attribute>,
    sig: Signature,
    self_ty: Option<&Type>,
    source: Seq<char>,
)
    requires
        renders(
            generated_code(
                GeneratedFnView::Metadata(metadata_of(opts, names, attrs, sig, self_ty)),
            ),
            source,
        ),
    ensures
        exists|args: Seq<Seq<char>>, literals: Seq<Seq<char>>|
            {
                &&& #[trigger] is_metadata_source(
                    source,
                    names.meta_name,
                    args,
                    literals,
                    names.wrap_name,
                    false,
                )
                &&& args.len() == sig.inputs@.len()
                &&& forall|i: int|
                    0 <= i < args.len() ==> describes_parameter(
                        #[trigger] args[i],
                        sig.inputs@[i],
                        self_ty,
                    )
                &&& stands_for(literals[0], doc_text(attrs))
                &&& stands_for(literals[1], sig.ident@)
                &&& stands_for(literals[2], name_in_r(opts, sig))
                &&& stands_for(literals[3], names.mod_name)
                &&& stands_for(literals[4], return_name(sig))
            },
{
    let m = metadata_of(opts, names, attrs, sig, self_ty);
    law_metadata_source_shows_every_field(m, source);
    let (args, literals) = choose|args: Seq<Seq<char>>, literals: Seq<Seq<char>>|
        {
            &&& #[trigger] is_metadata_source(source, m.name, args, literals, m.wrapper, m.hidden)
            &&& args.len() == m.args.len()
            &&& forall|i: int|
                0 <= i < args.len() ==> describes_arg(
                    #[trigger] args[i],
                    m.args[i].name,
                    m.args[i].arg_type,
                    m.args[i].default,
                )
            &&& stands_for(literals[0], m.doc)
            &&& stands_for(literals[1], m.rust_name)
            &&& stands_for(literals[2], m.r_name)
            &&& stands_for(literals[3], m.mod_name)
            &&& stands_for(literals[4], m.return_type)
        };
    assert(is_metadata_source(
        source,
        names.meta_name,
        args,
        literals,
        names.wrap_name,
        false,
    ));
    assert forall|i: int| 0 <= i < args.len() implies describes_parameter(
        #[trigger] args[i],
        sig.inputs@[i],
        self_ty,
    ) by {
        assert(describes_arg(args[i], m.args[i].name, m.args[i].arg_type, m.args[i].default));
    }
}

/// The end of the code of a metadata function, behind the metadata of the parameters.
spec fn func_code(m: MetadataFnView) -> Seq<PieceView> {
    metadata_code(m).skip(meta_args_code(m.args).len() as int + 1)
}

/// The end of a metadata function, behind `before`, holds a literal for each field.
proof fn lemma_func_source(m: MetadataFnView, before: Seq<char>, source: Seq<char>) -> (literals:
    Seq<Seq<char>>)
    requires
        renders(func_code(m), source),
    ensures
        literals.len() == 5,
        stands_for(literals[0], m.doc),
        stands_for(literals[1], m.rust_name),
        stands_for(literals[2], m.r_name),
        stands_for(literals[3], m.mod_name),
        stands_for(literals[4], m.return_type),
        before + source == before
            + "    ];\n\n    metadata.push(extendr_api::metadata::Func {\n        doc: "@
            + literals[0] + ",\n        rust_name: "@ + literals[1] + ",\n        r_name: "@
            + literals[2] + ",\n        mod_name: "@ + literals[3]
            + ",\n        args: args,\n        return_type: "@ + literals[4]
            + ",\n        func_ptr: "@ + m.wrapper + " as * const u8,\n        hidden: "@ + (
        if m.hidden {
            "true"@
        } else {
            "false"@
        }) + ",\n    })\n}\n"@,
{
    let tail = func_code(m);
    let opening = "    ];\n\n    metadata.push(extendr_api::metadata::Func {\n        doc: "@;
    let return_type_head = ",\n        args: args,\n        return_type: "@;
    let hidden = if m.hidden {
        "true"@
    } else {
        "false"@
    };
    let end = ",\n        func_ptr: "@ + m.wrapper + " as * const u8,\n        hidden: "@ + hidden
        + ",\n    })\n}\n"@;
    assert(tail =~= seq![
        PieceView::Code(opening),
        PieceView::Str(m.doc),
        PieceView::Code(",\n        rust_name: "@),
        PieceView::Str(m.rust_name),
        PieceView::Code(",\n        r_name: "@),
        PieceView::Str(m.r_name),
        PieceView::Code(",\n        mod_name: "@),
        PieceView::Str(m.mod_name),
        PieceView::Code(return_type_head),
        PieceView::Str(m.return_type),
        PieceView::Code(end),
    ]);
    let (p1, doc, s1) = lemma_field_source(opening, m.doc, tail, before, source);
    let (p2, rust_name, s2) = lemma_field_source(
        ",\n        rust_name: "@,
        m.rust_name,
        tail.skip(2),
        p1,
        s1,
    );
    let (p3, r_name, s3) = lemma_field_source(
        ",\n        r_name: "@,
        m.r_name,
        tail.skip(2).skip(2),
        p2,
        s2,
    );
    let (p4, mod_name, s4) = lemma_field_source(
        ",\n        mod_name: "@,
        m.mod_name,
        tail.skip(2).skip(2).skip(2),
        p3,
        s3,
    );
    let (p5, return_type, s5) = lemma_field_source(
        return_type_head,
        m.return_type,
        tail.skip(2).skip(2).skip(2).skip(2),
        p4,
        s4,
    );
    let last = tail.skip(2).skip(2).skip(2).skip(2).skip(2);
    assert(last =~= seq![PieceView::Code(end)]);
    lemma_renders_one(last[0], s5);
    assert(s5 == end);
    let rest = ",\n        func_ptr: "@;
    lemma_regroup(p5, rest, m.wrapper);
    lemma_regroup(p5, rest + m.wrapper, " as * const u8,\n        hidden: "@);
    lemma_regroup(p5, rest + m.wrapper + " as * const u8,\n        hidden: "@, hidden);
    lemma_regroup(
        p5,
        rest + m.wrapper + " as * const u8,\n        hidden: "@ + hidden,
        ",\n    })\n}\n"@,
    );
    seq![doc, rust_name, r_name, mod_name, return_type]
}

/// Code that starts with the name of a field and its value is written, behind `before`, as that
/// name, a literal for the value, and what the rest is written as.
proof fn lemma_field_source(
    field: Seq<char>,
    value: Seq<char>,
    code: Seq<PieceView>,
    before: Seq<char>,
    source: Seq<char>,
) -> (res: (Seq<char>, Seq<char>, Seq<char>))
    requires
        code.len() >= 2,
        code[0] == PieceView::Code(field),
        code[1] == PieceView::Str(value),
        renders(code, source),
    ensures
        stands_for(res.1, value),
        renders(code.skip(2), res.2),
        res.0 == before + field + res.1,
        before + source == res.0 + res.2,
{
    assert(code =~= seq![PieceView::Code(field)] + code.skip(1));
    let rest = lemma_code_first(field, code.skip(1), source);
    assert(code.skip(1) =~= seq![PieceView::Str(value)] + code.skip(2));
    let (literal, end) = lemma_str_first(value, code.skip(2), rest);
    lemma_regroup(before, field, rest);
    lemma_regroup(before + field, literal, end);
    (before + field + literal, literal, end)
}

} // verus!
