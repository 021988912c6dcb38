//! The parts of a Rust function signature that wrapper generation reads.
//!
//! The types follow `syn`'s syntax tree. Where the generator looks inside a node, the node has a
//! field for it; where it only prints a node, the node holds its printed tokens.

use vstd::prelude::*;

use crate::outside::{is_print_of, is_value_read, print_tokens, read_lit_str};

verus! {

/// Why a text could not be read.
#[derive(Clone, Copy, Debug, PartialEq, Eq, Structural)]
pub enum SyntaxError {
    /// The text cannot be broken into tokens.
    NotTokens,
    /// The text is not a string literal.
    NotStringLiteral,
    /// The text is not a function item.
    NotItemFn,
}

/// Tokens of Rust code, held as the text that `proc_macro2` prints for them.
///
/// A text has no spans, and two kinds of tokens that a compiler can hold are not told in it:
/// invisible delimiters leave no trace, and `$crate` cannot be read outside of a macro's
/// definition.
pub struct Tokens {
    text: String,
}

impl View for Tokens {
    type V = Seq<char>;

    closed spec fn view(&self) -> Seq<char> {
        self.text@
    }
}

impl Tokens {
    /// Reads the tokens of a piece of source text.
    ///
    /// The text is what is printed for the tokens of the source: comments are gone, and the blanks
    /// between the tokens may differ.
    pub fn read(source: &str) -> (res: Result<Tokens, SyntaxError>)
        ensures
            match res {
                Ok(tokens) => is_print_of(source@, Some(tokens@)),
                Err(e) => is_print_of(source@, None) && e == SyntaxError::NotTokens,
            },
    {
        match print_tokens(source) {
            Ok(text) => Ok(Tokens { text }),
            Err(_) => Err(SyntaxError::NotTokens),
        }
    }

    /// Tokens whose printed text is known.
    pub(crate) fn printed(text: &str) -> (res: Tokens)
        ensures
            res@ == text@,
    {
        Tokens { text: text.to_owned() }
    }

    /// The printed text.
    pub fn as_str(&self) -> (res: &str)
        ensures
            res@ == self@,
    {
        self.text.as_str()
    }
}

impl Clone for Tokens {
    fn clone(&self) -> (res: Self)
        ensures
            res == *self,
    {
        Tokens { text: self.text.clone() }
    }
}

/// One segment of a path.
pub struct PathSegment {
    pub ident: String,
    /// Whether generic or parenthesized arguments follow the identifier.
    pub has_arguments: bool,
}

/// A path such as `doc` or `std::vec::Vec<i32>`.
pub struct Path {
    pub leading_colon: bool,
    pub segments: Vec<PathSegment>,
}

impl Path {
    /// Whether the path is a single identifier and nothing more.
    pub open spec fn is_bare(self) -> bool {
        &&& !self.leading_colon
        &&& self.segments@.len() == 1
        &&& !self.segments@[0].has_arguments
    }

    /// Whether the path is the single identifier `name`.
    pub open spec fn is_named(self, name: Seq<char>) -> bool {
        self.is_bare() && self.segments@[0].ident@ == name
    }

    /// The identifier of a path that is a single identifier.
    pub fn get_ident(&self) -> (res: Option<&String>)
        ensures
            res == if self.is_bare() {
                Some(&self.segments@[0].ident)
            } else {
                None
            },
    {
        if !self.leading_colon && self.segments.len() == 1 && !self.segments[0].has_arguments {
            Some(&self.segments[0].ident)
        } else {
            None
        }
    }

    /// Whether the path is the single identifier `name`.
    pub fn is_ident(&self, name: &str) -> (res: bool)
        ensures
            res == self.is_named(name@),
    {
        match self.get_ident() {
            Some(ident) => *ident == name.to_owned(),
            None => false,
        }
    }
}

/// A type, with the tokens it prints as.
pub struct Type {
    pub tokens: Tokens,
    pub kind: TypeKind,
}

/// The shape of a type, as far as its name for R depends on it.
pub enum TypeKind {
    /// A path. A qualified self type, as in `<T as Iterator>::Item`, shows in the tokens alone.
    Path(Path),
    /// A type in invisible delimiters.
    Group(Box<Type>),
    /// `&T`, `&mut T` and `&'a T`.
    Reference(Box<Type>),
    /// `(T)`.
    Paren(Box<Type>),
    /// `*const T` and `*mut T`.
    Ptr(Box<Type>),
    /// Every other type: slices, arrays, tuples, trait objects and so on.
    Other,
}

/// A string literal, as it is written and as the string it stands for.
pub struct LitStr {
    token: String,
    value: String,
}

impl View for LitStr {
    type V = Seq<char>;

    /// The string that the literal stands for.
    closed spec fn view(&self) -> Seq<char> {
        self.value@
    }
}

impl LitStr {
    /// The literal as it is written.
    pub closed spec fn written(self) -> Seq<char> {
        self.token@
    }

    /// Reads a string literal.
    pub fn read(token: &str) -> (res: Result<LitStr, SyntaxError>)
        ensures
            match res {
                Ok(lit) => lit.written() == token@ && is_value_read(token@, Some(lit@)),
                Err(e) => is_value_read(token@, None) && e == SyntaxError::NotStringLiteral,
            },
    {
        match read_lit_str(token) {
            Ok(value) => Ok(LitStr { token: token.to_owned(), value }),
            Err(_) => Err(SyntaxError::NotStringLiteral),
        }
    }

    /// The string that the literal stands for.
    pub fn value(&self) -> (res: String)
        ensures
            res@ == self@,
    {
        self.value.clone()
    }

    /// The literal as it is written.
    pub fn token(&self) -> (res: &str)
        ensures
            res@ == self.written(),
    {
        self.token.as_str()
    }
}

/// The value of a `name = value` attribute.
pub enum Expr {
    /// A string literal.
    Str(LitStr),
    /// Every other expression.
    Other(Tokens),
}

/// What stands between the brackets of an attribute.
pub enum Meta {
    /// `#[name]`
    Path(Path),
    /// `#[name(..)]`
    List(Path, Tokens),
    /// `#[name = value]`
    NameValue(Path, Expr),
}

/// An attribute.
pub struct Attribute {
    pub meta: Meta,
    /// Where the attribute stands in the list it was taken from, by which it is found again.
    pub position: usize,
}

impl Attribute {
    /// The name of the attribute.
    pub open spec fn name(self) -> Path {
        match self.meta {
            Meta::Path(path) => path,
            Meta::List(path, _) => path,
            Meta::NameValue(path, _) => path,
        }
    }

    /// The name of the attribute.
    pub fn path(&self) -> (res: &Path)
        ensures
            *res == self.name(),
    {
        match &self.meta {
            Meta::Path(path) => path,
            Meta::List(path, _) => path,
            Meta::NameValue(path, _) => path,
        }
    }

    /// The string `s` of an attribute `#[name = "s"]`.
    pub open spec fn literal(self, name: Seq<char>) -> Option<Seq<char>> {
        match self.meta {
            Meta::NameValue(path, Expr::Str(lit)) => if path.is_named(name) {
                Some(lit@)
            } else {
                None
            },
            _ => None,
        }
    }
}

/// A pattern that is an identifier, such as `x`, `mut x`, `ref x` or `x @ 1..=3`.
pub struct PatIdent {
    pub by_ref: bool,
    pub mutability: bool,
    pub ident: String,
    /// Whether a pattern follows the identifier after an `@`.
    pub has_subpat: bool,
}

/// The shape of a pattern.
pub enum PatKind {
    Ident(PatIdent),
    /// Every other pattern: wildcards, tuples, structs and so on.
    Other,
}

/// A pattern, with the tokens it prints as.
pub struct Pat {
    pub tokens: Tokens,
    pub kind: PatKind,
}

impl Pat {
    /// Whether the pattern is an identifier with nothing around it, so that it can also be read
    /// as an expression.
    pub open spec fn is_plain(self) -> bool {
        match self.kind {
            PatKind::Ident(p) => !p.by_ref && !p.mutability && !p.has_subpat,
            PatKind::Other => false,
        }
    }
}

impl Clone for PatIdent {
    fn clone(&self) -> (res: Self)
        ensures
            res == *self,
    {
        PatIdent {
            by_ref: self.by_ref,
            mutability: self.mutability,
            ident: self.ident.clone(),
            has_subpat: self.has_subpat,
        }
    }
}

impl Clone for Pat {
    fn clone(&self) -> (res: Self)
        ensures
            res == *self,
    {
        let kind = match &self.kind {
            PatKind::Ident(p) => PatKind::Ident(p.clone()),
            PatKind::Other => PatKind::Other,
        };
        Pat { tokens: self.tokens.clone(), kind }
    }
}

/// A parameter `pat: ty`, with its attributes.
pub struct PatType {
    pub attrs: Vec<Attribute>,
    pub pat: Pat,
    pub ty: Type,
}

/// A `self` parameter.
pub struct Receiver {
    pub attrs: Vec<Attribute>,
    /// Whether it is taken by reference: `&self` or `&mut self`.
    pub reference: bool,
    /// Whether `mut` occurs in it.
    pub mutability: bool,
}

/// A parameter of a function.
pub enum FnArg {
    Receiver(Receiver),
    Typed(PatType),
}

/// The signature of a function.
pub struct Signature {
    pub ident: String,
    pub inputs: Vec<FnArg>,
    /// The type after the arrow, where there is one.
    pub output: Option<Type>,
}

} // verus!
