//! The code of the generated items.
//!
//! Code is a sequence of pieces: text that is taken as it stands, and strings that become string
//! literals. Only where the pieces are put together is it settled how a literal is spelled.

use vstd::prelude::*;

use crate::items::{
    printed_param, Actual, ActualView, Callee, CalleeView, Conversion, ConversionView, GeneratedFn,
    GeneratedFnView, MetaArg, MetaArgView, MetadataFn, MetadataFnView, WrapperFn, WrapperFnView,
};
use crate::outside::{
    is_literal_of, is_parse_of, is_refused, is_value_read, parse_item_fn, write_lit_str,
};
use crate::syntax::{FnArg, SyntaxError};

verus! {

// ---------------------------------------------------------------------------------------------
// Pieces
// ---------------------------------------------------------------------------------------------

/// A piece of code.
pub enum Piece {
    /// Text that is taken as it stands.
    Code(String),
    /// A string literal with this value.
    Str(String),
}

/// The view of a [`Piece`].
pub enum PieceView {
    Code(Seq<char>),
    Str(Seq<char>),
}

impl View for Piece {
    type V = PieceView;

    open spec fn view(&self) -> PieceView {
        match self {
            Piece::Code(text) => PieceView::Code(text@),
            Piece::Str(value) => PieceView::Str(value@),
        }
    }
}

/// The views of a sequence of pieces.
pub open spec fn pieces(code: Seq<Piece>) -> Seq<PieceView> {
    code.map_values(|p: Piece| p@)
}

/// Whether whatever is read from a string literal is the string `value`.
pub open spec fn reads_back_as(token: Seq<char>, value: Seq<char>) -> bool {
    forall|read: Option<Seq<char>>| #[trigger]
        is_value_read(token, read) ==> read == Some(value)
}

/// Whether `text` is what a piece is written as: for a string, a bare string literal, which reads
/// back as the string.
pub open spec fn writes(piece: PieceView, text: Seq<char>) -> bool {
    match piece {
        PieceView::Code(code) => text == code,
        PieceView::Str(value) => is_literal_of(value, text) && reads_back_as(text, value),
    }
}

/// Whether `texts` are what the pieces of `code` are written as, one by one.
pub open spec fn write_all(code: Seq<PieceView>, texts: Seq<Seq<char>>) -> bool {
    &&& texts.len() == code.len()
    &&& forall|i: int| 0 <= i < code.len() ==> writes(code[i], #[trigger] texts[i])
}

/// Whether `source` is the code written out: texts of its pieces, one after the other.
pub open spec fn renders(code: Seq<PieceView>, source: Seq<char>) -> bool {
    exists|texts: Seq<Seq<char>>| #[trigger]
        write_all(code, texts) && source == concatenated(texts)
}

/// Adds a piece of text.
fn push_code(out: &mut Vec<Piece>, text: String)
    ensures
        pieces(final(out)@) == pieces(old(out)@).push(PieceView::Code(text@)),
{
    out.push(Piece::Code(text));
    assert(pieces(out@) =~= pieces(old(out)@).push(PieceView::Code(text@)));
}

/// Adds a string literal.
fn push_str(out: &mut Vec<Piece>, value: &String)
    ensures
        pieces(final(out)@) == pieces(old(out)@).push(PieceView::Str(value@)),
{
    out.push(Piece::Str(value.clone()));
    assert(pieces(out@) =~= pieces(old(out)@).push(PieceView::Str(value@)));
}

/// Writes code out.
pub fn source_text(code: &Vec<Piece>) -> (res: String)
    ensures
        renders(pieces(code@), res@),
{
    let mut res = String::new();
    let ghost mut texts: Seq<Seq<char>> = seq![];
    for i in 0..code.len()
        invariant
            texts.len() == i,
            forall|k: int| 0 <= k < i ==> writes(pieces(code@)[k], #[trigger] texts[k]),
            res@ == concatenated(texts),
    {
        match &code[i] {
            Piece::Code(text) => {
                res.append(text.as_str());
                proof {
                    assert(texts.push(text@).drop_last() =~= texts);
                    texts = texts.push(text@);
                }
            },
            Piece::Str(value) => {
                let literal = write_lit_str(value.as_str());
                res.append(literal.as_str());
                proof {
                    assert(texts.push(literal@).drop_last() =~= texts);
                    texts = texts.push(literal@);
                }
            },
        }
    }
    assert(write_all(pieces(code@), texts));
    res
}

// ---------------------------------------------------------------------------------------------
// The wrapper
// ---------------------------------------------------------------------------------------------

/// What stands before the name of a wrapper.
pub const WRAPPER_HEAD: &'static str = "#[no_mangle]
#[allow(non_snake_case, clippy::not_unsafe_ptr_arg_deref)]
pub extern \"C\" fn ";

/// What stands between the parameters of a wrapper and its body.
pub const WRAPPER_BODY: &'static str = ") -> extendr_api::SEXP {
    use extendr_api::robj::*;
";

/// Pulls the state of the random number generator before evaluation.
pub const RNG_START: &'static str = "    single_threaded(|| unsafe {
        libR_sys::GetRNGstate();
    });
";

/// What stands before the conversion of the parameters.
pub const EVALUATION_HEAD: &'static str = "    let wrap_result_state: std::result::Result<
        std::result::Result<Robj, extendr_api::Error>,
        Box<dyn std::any::Any + Send>
    > = unsafe {
";

/// What stands between the conversion of the parameters and the call.
pub const EVALUATION_CALL: &'static str = "        std::panic::catch_unwind(||-> std::result::Result<Robj, extendr_api::Error> {
            Ok(extendr_api::Robj::from(";

/// What stands behind the call.
pub const EVALUATION_TAIL: &'static str = "))
        })
    };
";

/// Returns the state of the random number generator after evaluation.
pub const RNG_END: &'static str = "    single_threaded(|| unsafe {
        libR_sys::PutRNGstate();
    });
";

/// What is done with the result of the call, up to the name in the message on a panic.
pub const RESULT_HEAD: &'static str = "    match wrap_result_state {
        Ok(Ok(zz)) => {
            return unsafe { zz.get() };
        }
        Ok(Err(conversion_err)) => {
            let err_string = conversion_err.to_string();
            drop(conversion_err);
            extendr_api::throw_r_error(&err_string);
        }
        Err(unwind_err) => {
            drop(unwind_err);
            let err_string = format!(\"user function panicked: {}\", ";

/// The end of a wrapper.
pub const RESULT_TAIL: &'static str = ");
            extendr_api::handle_panic(err_string.as_str(), || panic!());
        }
    }
    unreachable!(\"internal extendr error, this should never happen.\")
}
";

/// The texts in a list, with a comma and a blank between any two.
pub open spec fn comma_separated(texts: Seq<Seq<char>>) -> Seq<char>
    decreases texts.len(),
{
    if texts.len() == 0 {
        seq![]
    } else if texts.len() == 1 {
        texts[0]
    } else {
        comma_separated(texts.drop_last()) + ", "@ + texts.last()
    }
}

/// The texts in a list, one after the other.
pub open spec fn concatenated(texts: Seq<Seq<char>>) -> Seq<char>
    decreases texts.len(),
{
    if texts.len() == 0 {
        seq![]
    } else {
        concatenated(texts.drop_last()) + texts.last()
    }
}

/// The code of a statement that makes an R object of a parameter.
pub open spec fn conversion_text(c: ConversionView) -> Seq<char> {
    (if c.mutable {
        "        let mut "@
    } else {
        "        let "@
    }) + c.var + " = extendr_api::robj::Robj::from_sexp("@ + c.arg + ");\n"@
}

/// The code of what is called.
pub open spec fn callee_text(c: CalleeView) -> Seq<char> {
    match c {
        CalleeView::Method { mutable, self_ty, name } => (if mutable {
            "extendr_api::unwrap_or_throw(<&mut "@
        } else {
            "extendr_api::unwrap_or_throw(<&"@
        }) + self_ty + ">::from_robj(&_self_robj))."@ + name,
        CalleeView::Associated { self_ty, name } => "<"@ + self_ty + ">::"@ + name,
        CalleeView::Free { name } => name,
    }
}

/// The code of an argument of the call.
pub open spec fn actual_text(a: ActualView) -> Seq<char> {
    match a {
        ActualView::TryInto { var } => var + ".try_into()?"@,
        ActualView::FromRobj { ty, var } => "<"@ + ty + ">::from_robj(&"@ + var + ")?"@,
    }
}

/// The code of a wrapper up to its first statement.
pub open spec fn opening_text(w: WrapperFnView) -> Seq<char> {
    WRAPPER_HEAD@ + w.name + "("@ + comma_separated(w.formals) + WRAPPER_BODY@
}

/// The code of the statement that converts the parameters and makes the call.
pub open spec fn evaluation_text(w: WrapperFnView) -> Seq<char> {
    EVALUATION_HEAD@ + concatenated(w.conversions.map_values(|c| conversion_text(c)))
        + EVALUATION_CALL@ + callee_text(w.callee) + "("@ + comma_separated(
        w.actuals.map_values(|a| actual_text(a)),
    ) + ")"@ + EVALUATION_TAIL@
}

/// The code of a wrapper up to the name in the message on a panic. The random number generator's
/// state is pulled right before the evaluation and returned right after it, or neither.
pub open spec fn wrapper_text(w: WrapperFnView) -> Seq<char> {
    if w.use_rng {
        opening_text(w) + RNG_START@ + evaluation_text(w) + RNG_END@ + RESULT_HEAD@
    } else {
        opening_text(w) + evaluation_text(w) + RESULT_HEAD@
    }
}

/// The code of a wrapper.
pub open spec fn wrapper_code(w: WrapperFnView) -> Seq<PieceView> {
    seq![
        PieceView::Code(wrapper_text(w)),
        PieceView::Str(w.r_name),
        PieceView::Code(RESULT_TAIL@),
    ]
}

/// Appends a parameter.
fn push_formal(out: &mut String, formal: &FnArg)
    ensures
        final(out)@ == old(out)@ + printed_param(*formal),
{
    match formal {
        FnArg::Typed(pattype) => {
            out.append(pattype.pat.tokens.as_str());
            out.append(" : ");
            out.append(pattype.ty.tokens.as_str());
        },
        FnArg::Receiver(receiver) => {
            if receiver.reference {
                out.append("&");
            }
            if receiver.mutability {
                out.append("mut ");
            }
            out.append("self");
        },
    }
    assert(out@ =~= old(out)@ + printed_param(*formal));
}

/// Appends the parameters of a wrapper.
fn push_formals(out: &mut String, formals: &Vec<FnArg>)
    ensures
        final(out)@ == old(out)@ + comma_separated(
            Seq::new(formals@.len(), |i: int| printed_param(formals@[i])),
        ),
{
    let ghost texts = Seq::new(formals@.len(), |i: int| printed_param(formals@[i]));
    let ghost start = out@;
    for i in 0..formals.len()
        invariant
            texts == Seq::new(formals@.len(), |k: int| printed_param(formals@[k])),
            out@ == start + comma_separated(texts.take(i as int)),
    {
        let ghost upto = texts.take(i + 1);
        proof {
            assert(upto.drop_last() =~= texts.take(i as int));
            assert(upto.last() == printed_param(formals@[i as int]));
        }
        if i > 0 {
            out.append(", ");
        }
        push_formal(out, &formals[i]);
        assert(out@ =~= start + comma_separated(upto));
    }
    assert(texts.take(formals@.len() as int) =~= texts);
}

/// Appends the statements that make R objects of the parameters.
fn push_conversions(out: &mut String, conversions: &Vec<Conversion>)
    ensures
        final(out)@ == old(out)@ + concatenated(
            Seq::new(conversions@.len(), |i: int| conversion_text(conversions@[i]@)),
        ),
{
    let ghost texts = Seq::new(conversions@.len(), |i: int| conversion_text(conversions@[i]@));
    let ghost start = out@;
    for i in 0..conversions.len()
        invariant
            texts == Seq::new(conversions@.len(), |k: int| conversion_text(conversions@[k]@)),
            out@ == start + concatenated(texts.take(i as int)),
    {
        let ghost upto = texts.take(i + 1);
        proof {
            assert(upto.drop_last() =~= texts.take(i as int));
            assert(upto.last() == conversion_text(conversions@[i as int]@));
        }
        let c = &conversions[i];
        if c.mutable {
            out.append("        let mut ");
        } else {
            out.append("        let ");
        }
        out.append(c.var.as_str());
        out.append(" = extendr_api::robj::Robj::from_sexp(");
        out.append(c.arg.as_str());
        out.append(");\n");
        assert(out@ =~= start + concatenated(upto));
    }
    assert(texts.take(conversions@.len() as int) =~= texts);
}

/// Appends what is called.
fn push_callee(out: &mut String, callee: &Callee)
    ensures
        final(out)@ == old(out)@ + callee_text(callee@),
{
    match callee {
        Callee::Method { mutable, self_ty, name } => {
            if *mutable {
                out.append("extendr_api::unwrap_or_throw(<&mut ");
            } else {
                out.append("extendr_api::unwrap_or_throw(<&");
            }
            out.append(self_ty.as_str());
            out.append(">::from_robj(&_self_robj)).");
            out.append(name.as_str());
        },
        Callee::Associated { self_ty, name } => {
            out.append("<");
            out.append(self_ty.as_str());
            out.append(">::");
            out.append(name.as_str());
        },
        Callee::Free { name } => {
            out.append(name.as_str());
        },
    }
    assert(out@ =~= old(out)@ + callee_text(callee@));
}

/// Appends the arguments of the call.
fn push_actuals(out: &mut String, actuals: &Vec<Actual>)
    ensures
        final(out)@ == old(out)@ + comma_separated(
            Seq::new(actuals@.len(), |i: int| actual_text(actuals@[i]@)),
        ),
{
    let ghost texts = Seq::new(actuals@.len(), |i: int| actual_text(actuals@[i]@));
    let ghost start = out@;
    for i in 0..actuals.len()
        invariant
            texts == Seq::new(actuals@.len(), |k: int| actual_text(actuals@[k]@)),
            out@ == start + comma_separated(texts.take(i as int)),
    {
        let ghost upto = texts.take(i + 1);
        proof {
            assert(upto.drop_last() =~= texts.take(i as int));
            assert(upto.last() == actual_text(actuals@[i as int]@));
        }
        if i > 0 {
            out.append(", ");
        }
        match &actuals[i] {
            Actual::TryInto { var } => {
                out.append(var.as_str());
                out.append(".try_into()?");
            },
            Actual::FromRobj { ty, var } => {
                out.append("<");
                out.append(ty.as_str());
                out.append(">::from_robj(&");
                out.append(var.as_str());
                out.append(")?");
            },
        }
        assert(out@ =~= start + comma_separated(upto));
    }
    assert(texts.take(actuals@.len() as int) =~= texts);
}

impl WrapperFn {
    /// The code of the wrapper.
    pub fn code(&self) -> (res: Vec<Piece>)
        ensures
            pieces(res@) == wrapper_code(self@),
    {
        let mut text = WRAPPER_HEAD.to_owned();
        text.append(self.name.as_str());
        text.append("(");
        push_formals(&mut text, &self.formals);
        text.append(WRAPPER_BODY);
        if self.use_rng {
            text.append(RNG_START);
        }
        text.append(EVALUATION_HEAD);
        push_conversions(&mut text, &self.conversions);
        text.append(EVALUATION_CALL);
        push_callee(&mut text, &self.callee);
        text.append("(");
        push_actuals(&mut text, &self.actuals);
        text.append(")");
        text.append(EVALUATION_TAIL);
        if self.use_rng {
            text.append(RNG_END);
        }
        text.append(RESULT_HEAD);
        proof {
            assert(self@.conversions.map_values(|c| conversion_text(c)) =~= Seq::new(
                self.conversions@.len(),
                |i: int| conversion_text(self.conversions@[i]@),
            ));
            assert(self@.actuals.map_values(|a| actual_text(a)) =~= Seq::new(
                self.actuals@.len(),
                |i: int| actual_text(self.actuals@[i]@),
            ));
            assert(text@ =~= wrapper_text(self@));
        }
        let mut res: Vec<Piece> = Vec::new();
        push_code(&mut res, text);
        push_str(&mut res, &self.r_name);
        push_code(&mut res, RESULT_TAIL.to_owned());
        assert(pieces(res@) =~= wrapper_code(self@));
        res
    }
}

// ---------------------------------------------------------------------------------------------
// The metadata function
// ---------------------------------------------------------------------------------------------

/// The code that makes the metadata of a parameter.
pub open spec fn meta_arg_code(arg: MetaArgView) -> Seq<PieceView> {
    seq![
        PieceView::Code("        extendr_api::metadata::Arg { name: "@),
        PieceView::Str(arg.name),
        PieceView::Code(", arg_type: "@),
        PieceView::Str(arg.arg_type),
        PieceView::Code(", default: "@),
    ] + match arg.default {
        None => seq![PieceView::Code("None"@)],
        Some(default) => seq![
            PieceView::Code("Some("@),
            PieceView::Str(default),
            PieceView::Code(")"@),
        ],
    } + seq![PieceView::Code(" },\n"@)]
}

/// The code that makes the metadata of a list of parameters.
pub open spec fn meta_args_code(args: Seq<MetaArgView>) -> Seq<PieceView>
    decreases args.len(),
{
    if args.len() == 0 {
        seq![]
    } else {
        meta_args_code(args.drop_last()) + meta_arg_code(args.last())
    }
}

/// The code of a metadata function.
pub open spec fn metadata_code(m: MetadataFnView) -> Seq<PieceView> {
    seq![
        PieceView::Code(
            "#[allow(non_snake_case)]\nfn "@ + m.name
                + "(metadata: &mut Vec<extendr_api::metadata::Func>) {\n    let mut args = vec![\n"@,
        ),
    ] + meta_args_code(m.args) + seq![
        PieceView::Code(
            "    ];\n\n    metadata.push(extendr_api::metadata::Func {\n        doc: "@,
        ),
        PieceView::Str(m.doc),
        PieceView::Code(",\n        rust_name: "@),
        PieceView::Str(m.rust_name),
        PieceView::Code(",\n        r_name: "@),
        PieceView::Str(m.r_name),
        PieceView::Code(",\n        mod_name: "@),
        PieceView::Str(m.mod_name),
        PieceView::Code(",\n        args: args,\n        return_type: "@),
        PieceView::Str(m.return_type),
        PieceView::Code(
            ",\n        func_ptr: "@ + m.wrapper + " as * const u8,\n        hidden: "@
                + if m.hidden {
                "true"@
            } else {
                "false"@
            } + ",\n    })\n}\n"@,
        ),
    ]
}

/// The code of a generated function.
pub open spec fn generated_code(g: GeneratedFnView) -> Seq<PieceView> {
    match g {
        GeneratedFnView::Wrapper(w) => wrapper_code(w),
        GeneratedFnView::Metadata(m) => metadata_code(m),
    }
}

/// Adds the code that makes the metadata of a parameter.
fn push_meta_arg(out: &mut Vec<Piece>, arg: &MetaArg)
    ensures
        pieces(final(out)@) == pieces(old(out)@) + meta_arg_code(arg@),
{
    push_code(out, "        extendr_api::metadata::Arg { name: ".to_owned());
    push_str(out, &arg.name);
    push_code(out, ", arg_type: ".to_owned());
    push_str(out, &arg.arg_type);
    push_code(out, ", default: ".to_owned());
    match &arg.default {
        None => {
            push_code(out, "None".to_owned());
        },
        Some(default) => {
            push_code(out, "Some(".to_owned());
            push_str(out, default);
            push_code(out, ")".to_owned());
        },
    }
    push_code(out, " },\n".to_owned());
    assert(pieces(out@) =~= pieces(old(out)@) + meta_arg_code(arg@));
}

impl MetadataFn {
    /// The code of the metadata function.
    pub fn code(&self) -> (res: Vec<Piece>)
        ensures
            pieces(res@) == metadata_code(self@),
    {
        let mut res: Vec<Piece> = Vec::new();
        let mut head = "#[allow(non_snake_case)]\nfn ".to_owned();
        head.append(self.name.as_str());
        head.append(
            "(metadata: &mut Vec<extendr_api::metadata::Func>) {\n    let mut args = vec![\n",
        );
        push_code(&mut res, head);
        let ghost start = pieces(res@);
        let ghost args = self@.args;
        for i in 0..self.args.len()
            invariant
                args == self@.args,
                pieces(res@) == start + meta_args_code(args.take(i as int)),
        {
            let ghost upto = args.take(i + 1);
            proof {
                assert(upto.drop_last() =~= args.take(i as int));
                assert(upto.last() == self.args@[i as int]@);
            }
            push_meta_arg(&mut res, &self.args[i]);
            assert(pieces(res@) =~= start + meta_args_code(upto));
        }
        assert(args.take(args.len() as int) =~= args);
        push_code(
            &mut res,
            "    ];\n\n    metadata.push(extendr_api::metadata::Func {\n        doc: ".to_owned(),
        );
        push_str(&mut res, &self.doc);
        push_code(&mut res, ",\n        rust_name: ".to_owned());
        push_str(&mut res, &self.rust_name);
        push_code(&mut res, ",\n        r_name: ".to_owned());
        push_str(&mut res, &self.r_name);
        push_code(&mut res, ",\n        mod_name: ".to_owned());
        push_str(&mut res, &self.mod_name);
        push_code(&mut res, ",\n        args: args,\n        return_type: ".to_owned());
        push_str(&mut res, &self.return_type);
        let mut tail = ",\n        func_ptr: ".to_owned();
        tail.append(self.wrapper.as_str());
        tail.append(" as * const u8,\n        hidden: ");
        if self.hidden {
            tail.append("true");
        } else {
            tail.append("false");
        }
        tail.append(",\n    })\n}\n");
        push_code(&mut res, tail);
        assert(pieces(res@) =~= metadata_code(self@));
        res
    }
}

impl GeneratedFn {
    /// The code of the function.
    pub fn code(&self) -> (res: Vec<Piece>)
        ensures
            pieces(res@) == generated_code(self@),
    {
        match self {
            GeneratedFn::Wrapper(w) => w.code(),
            GeneratedFn::Metadata(m) => m.code(),
        }
    }

    /// The source text of the function.
    pub fn source(&self) -> (res: String)
        ensures
            renders(generated_code(self@), res@),
    {
        source_text(&self.code())
    }

    /// The function as a syntax tree of `syn`, read from its source text.
    pub fn to_syn(&self) -> (res: Result<syn::ItemFn, SyntaxError>)
        ensures
            exists|source: Seq<char>|
                #[trigger] renders(generated_code(self@), source) && match res {
                    Ok(item) => is_parse_of(source, item),
                    Err(e) => is_refused(source) && e == SyntaxError::NotItemFn,
                },
    {
        let source = self.source();
        assert(renders(generated_code(self@), source@));
        match parse_item_fn(source.as_str()) {
            Ok(item) => Ok(item),
            Err(_) => Err(SyntaxError::NotItemFn),
        }
    }
}

} // verus!
