//! The generated items and their parts.

use vstd::prelude::*;

use crate::attributes::opt_view;
use crate::syntax::{FnArg, Tokens};

verus! {

/// `let var = extendr_api::robj::Robj::from_sexp(arg);`
pub struct Conversion {
    /// Whether the variable is declared `mut`.
    pub mutable: bool,
    pub var: String,
    pub arg: Tokens,
}

/// The view of a [`Conversion`].
pub struct ConversionView {
    pub mutable: bool,
    pub var: Seq<char>,
    pub arg: Seq<char>,
}

impl View for Conversion {
    type V = ConversionView;

    open spec fn view(&self) -> ConversionView {
        ConversionView { mutable: self.mutable, var: self.var@, arg: self.arg@ }
    }
}

/// An argument of the call: an R object, converted to what the wrapped function takes.
pub enum Actual {
    /// `var.try_into()?`
    TryInto { var: String },
    /// `<ty>::from_robj(&var)?`
    FromRobj { ty: Tokens, var: String },
}

/// The view of an [`Actual`].
pub enum ActualView {
    TryInto { var: Seq<char> },
    FromRobj { ty: Seq<char>, var: Seq<char> },
}

impl ActualView {
    /// The variable that holds the R object.
    pub open spec fn variable(self) -> Seq<char> {
        match self {
            ActualView::TryInto { var } => var,
            ActualView::FromRobj { var, .. } => var,
        }
    }
}

impl View for Actual {
    type V = ActualView;

    open spec fn view(&self) -> ActualView {
        match self {
            Actual::TryInto { var } => ActualView::TryInto { var: var@ },
            Actual::FromRobj { ty, var } => ActualView::FromRobj { ty: ty@, var: var@ },
        }
    }
}

/// What is called.
pub enum Callee {
    /// A method, on the value behind the R object `_self_robj`.
    Method { mutable: bool, self_ty: Tokens, name: String },
    /// An associated function: `<self_ty>::name`.
    Associated { self_ty: Tokens, name: String },
    /// A function: `name`.
    Free { name: String },
}

/// The view of a [`Callee`].
pub enum CalleeView {
    Method { mutable: bool, self_ty: Seq<char>, name: Seq<char> },
    Associated { self_ty: Seq<char>, name: Seq<char> },
    Free { name: Seq<char> },
}

impl View for Callee {
    type V = CalleeView;

    open spec fn view(&self) -> CalleeView {
        match self {
            Callee::Method { mutable, self_ty, name } => CalleeView::Method {
                mutable: *mutable,
                self_ty: self_ty@,
                name: name@,
            },
            Callee::Associated { self_ty, name } => CalleeView::Associated {
                self_ty: self_ty@,
                name: name@,
            },
            Callee::Free { name } => CalleeView::Free { name: name@ },
        }
    }
}

/// The metadata of a parameter.
pub struct MetaArg {
    pub name: String,
    pub arg_type: String,
    pub default: Option<String>,
}

/// The view of a [`MetaArg`].
pub struct MetaArgView {
    pub name: Seq<char>,
    pub arg_type: Seq<char>,
    pub default: Option<Seq<char>>,
}

impl View for MetaArg {
    type V = MetaArgView;

    open spec fn view(&self) -> MetaArgView {
        MetaArgView {
            name: self.name@,
            arg_type: self.arg_type@,
            default: opt_view(self.default),
        }
    }
}

/// A parameter as it is printed, its attributes left out.
pub open spec fn printed_param(arg: FnArg) -> Seq<char> {
    match arg {
        FnArg::Typed(pattype) => pattype.pat.tokens@ + " : "@ + pattype.ty.tokens@,
        FnArg::Receiver(receiver) => (if receiver.reference {
            "&"@
        } else {
            seq![]
        }) + (if receiver.mutability {
            "mut "@
        } else {
            seq![]
        }) + "self"@,
    }
}

/// A wrapper: the function that R calls.
pub struct WrapperFn {
    pub name: String,
    /// The parameters, each an R object.
    pub formals: Vec<FnArg>,
    /// Whether the state of R's random number generator is fetched and handed back.
    pub use_rng: bool,
    pub conversions: Vec<Conversion>,
    pub callee: Callee,
    pub actuals: Vec<Actual>,
    /// The name of the wrapped function in R, for the message on a panic.
    pub r_name: String,
}

/// The view of a [`WrapperFn`].
#[verifier::ext_equal]
pub struct WrapperFnView {
    pub name: Seq<char>,
    pub formals: Seq<Seq<char>>,
    pub use_rng: bool,
    pub conversions: Seq<ConversionView>,
    pub callee: CalleeView,
    pub actuals: Seq<ActualView>,
    pub r_name: Seq<char>,
}

impl View for WrapperFn {
    type V = WrapperFnView;

    open spec fn view(&self) -> WrapperFnView {
        WrapperFnView {
            name: self.name@,
            formals: Seq::new(self.formals@.len(), |i: int| printed_param(self.formals@[i])),
            use_rng: self.use_rng,
            conversions: Seq::new(self.conversions@.len(), |i: int| self.conversions@[i]@),
            callee: self.callee@,
            actuals: Seq::new(self.actuals@.len(), |i: int| self.actuals@[i]@),
            r_name: self.r_name@,
        }
    }
}

/// A metadata function: it adds the metadata of a wrapped function to a list.
pub struct MetadataFn {
    pub name: String,
    pub args: Vec<MetaArg>,
    pub doc: String,
    pub rust_name: String,
    pub r_name: String,
    pub mod_name: String,
    pub return_type: String,
    /// The wrapper whose address the metadata holds.
    pub wrapper: String,
    pub hidden: bool,
}

/// The view of a [`MetadataFn`].
#[verifier::ext_equal]
pub struct MetadataFnView {
    pub name: Seq<char>,
    pub args: Seq<MetaArgView>,
    pub doc: Seq<char>,
    pub rust_name: Seq<char>,
    pub r_name: Seq<char>,
    pub mod_name: Seq<char>,
    pub return_type: Seq<char>,
    pub wrapper: Seq<char>,
    pub hidden: bool,
}

impl View for MetadataFn {
    type V = MetadataFnView;

    open spec fn view(&self) -> MetadataFnView {
        MetadataFnView {
            name: self.name@,
            args: Seq::new(self.args@.len(), |i: int| self.args@[i]@),
            doc: self.doc@,
            rust_name: self.rust_name@,
            r_name: self.r_name@,
            mod_name: self.mod_name@,
            return_type: self.return_type@,
            wrapper: self.wrapper@,
            hidden: self.hidden,
        }
    }
}

/// A generated function.
pub enum GeneratedFn {
    Wrapper(WrapperFn),
    Metadata(MetadataFn),
}

/// The view of a [`GeneratedFn`].
pub enum GeneratedFnView {
    Wrapper(WrapperFnView),
    Metadata(MetadataFnView),
}

impl View for GeneratedFn {
    type V = GeneratedFnView;

    open spec fn view(&self) -> GeneratedFnView {
        match self {
            GeneratedFn::Wrapper(w) => GeneratedFnView::Wrapper(w@),
            GeneratedFn::Metadata(m) => GeneratedFnView::Metadata(m@),
        }
    }
}

} // verus!
