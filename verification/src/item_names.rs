//! The names of the generated items.
//!
//! A name is an identifier, and what an identifier is, the compiler decides: inside a procedural
//! macro it also brings the name into a normal form. So the texts of the names are read as
//! identifiers, and the names are what has been read.

use vstd::prelude::*;

use crate::attributes::opt_view;
use crate::names::{sanitize_identifier, unraw};
use crate::outside::{ascii_alphanumeric, is_ident_read, read_ident};
use crate::syntax::Signature;
use crate::wrappers::ExtendrOptions;

verus! {

/// What the name of a metadata function starts with.
pub const META_PREFIX: &'static str = "meta__";

/// What the name of a wrapper starts with.
pub const WRAP_PREFIX: &'static str = "wrap__";

// ---------------------------------------------------------------------------------------------
// Identifiers
// ---------------------------------------------------------------------------------------------

/// Whether a character stands in no identifier, though the text of one can be read with it: a
/// blank of any kind, or a character of a comment. In ASCII these are all but letters, digits,
/// the underscore and the `#` of the raw marker.
pub open spec fn is_foreign(c: char) -> bool {
    if c <= '\x7f' {
        !ascii_alphanumeric(c) && c != '_' && c != '#'
    } else {
        ||| c == '\u{85}'
        ||| c == '\u{a0}'
        ||| c == '\u{1680}'
        ||| '\u{2000}' <= c <= '\u{200a}'
        ||| c == '\u{200e}'
        ||| c == '\u{200f}'
        ||| c == '\u{2028}'
        ||| c == '\u{2029}'
        ||| c == '\u{202f}'
        ||| c == '\u{205f}'
        ||| c == '\u{3000}'
        ||| c == '\u{feff}'
    }
}

/// Whether a text holds a character that stands in no identifier.
pub open spec fn has_foreign(text: Seq<char>) -> bool {
    exists|i: int| 0 <= i < text.len() && is_foreign(#[trigger] text[i])
}

/// Whether `answer` is what comes of taking a text for an identifier: none if it holds a
/// character that stands in no identifier, and else what is read from it.
pub open spec fn taken_as_ident(text: Seq<char>, answer: Option<Seq<char>>) -> bool {
    if has_foreign(text) {
        answer is None
    } else {
        is_ident_read(text, answer)
    }
}

/// Whether a character stands in no identifier.
fn foreign(c: char) -> (res: bool)
    ensures
        res == is_foreign(c),
{
    if c <= '\x7f' {
        !c.is_alphanumeric() && c != '_' && c != '#'
    } else {
        c == '\u{85}' || c == '\u{a0}' || c == '\u{1680}' || ('\u{2000}' <= c && c <= '\u{200a}')
            || c == '\u{200e}' || c == '\u{200f}' || c == '\u{2028}' || c == '\u{2029}'
            || c == '\u{202f}' || c == '\u{205f}' || c == '\u{3000}' || c == '\u{feff}'
    }
}

/// Takes a text for an identifier.
pub fn take_ident(text: &str) -> (res: Option<String>)
    ensures
        taken_as_ident(text@, opt_view(res)),
{
    for c in it: text.chars()
        invariant
            it.seq() == text@,
            forall|i: int| 0 <= i < it.index() ==> !is_foreign(#[trigger] text@[i]),
    {
        if foreign(c) {
            assert(text@[it.index() as int] == c);
            return None;
        }
    }
    match read_ident(text) {
        Ok(ident) => Some(ident),
        Err(_) => None,
    }
}

// ---------------------------------------------------------------------------------------------
// Names
// ---------------------------------------------------------------------------------------------

/// The text of a wrapper's name.
pub open spec fn wrap_text(prefix: Seq<char>, mod_name: Seq<char>) -> Seq<char> {
    WRAP_PREFIX@ + prefix + unraw(mod_name)
}

/// The text of a metadata function's name.
pub open spec fn meta_text(prefix: Seq<char>, mod_name: Seq<char>) -> Seq<char> {
    META_PREFIX@ + prefix + unraw(mod_name)
}

/// The names of the items that are generated for a function.
pub struct ItemNames {
    /// What the items are known by.
    pub mod_name: String,
    /// The name of the wrapper.
    pub wrap_name: String,
    /// The name of the metadata function.
    pub meta_name: String,
}

/// The view of [`ItemNames`].
pub struct ItemNamesView {
    pub mod_name: Seq<char>,
    pub wrap_name: Seq<char>,
    pub meta_name: Seq<char>,
}

impl View for ItemNames {
    type V = ItemNamesView;

    open spec fn view(&self) -> ItemNamesView {
        ItemNamesView {
            mod_name: self.mod_name@,
            wrap_name: self.wrap_name@,
            meta_name: self.meta_name@,
        }
    }
}

/// What has been read for the names of a function's items, each none if no identifier was there.
pub struct NameAnswers {
    /// For the name that is given in the options, or else for the function's name.
    pub given: Option<String>,
    /// For that name without its raw marker.
    pub bare: Option<String>,
    /// For the wrapper's name.
    pub wrap: Option<String>,
    /// For the metadata function's name.
    pub meta: Option<String>,
}

/// The view of [`NameAnswers`].
pub struct NameAnswersView {
    pub given: Option<Seq<char>>,
    pub bare: Option<Seq<char>>,
    pub wrap: Option<Seq<char>>,
    pub meta: Option<Seq<char>>,
}

impl View for NameAnswers {
    type V = NameAnswersView;

    open spec fn view(&self) -> NameAnswersView {
        NameAnswersView {
            given: opt_view(self.given),
            bare: opt_view(self.bare),
            wrap: opt_view(self.wrap),
            meta: opt_view(self.meta),
        }
    }
}

impl NameAnswersView {
    /// The names, where identifiers were read for all of them.
    pub open spec fn names(self) -> ItemNamesView {
        ItemNamesView {
            mod_name: self.bare->0,
            wrap_name: self.wrap->0,
            meta_name: self.meta->0,
        }
    }

    /// Whether these are answers on the names of a function's items: the name given in the
    /// options is read, while the function's own name is an identifier already; its raw marker is
    /// taken off; and the prefixes are put before it. Where nothing was read, nothing is read
    /// further.
    pub open spec fn answer(
        self,
        opts: ExtendrOptions,
        prefix: Seq<char>,
        sig: Signature,
    ) -> bool {
        &&& match opts.mod_name {
            Some(name) => taken_as_ident(name@, self.given),
            None => self.given == Some(sig.ident@),
        }
        &&& match self.given {
            Some(given) => taken_as_ident(unraw(given), self.bare),
            None => self.bare is None,
        }
        &&& match self.bare {
            Some(bare) => {
                &&& taken_as_ident(wrap_text(prefix, bare), self.wrap)
                &&& taken_as_ident(meta_text(prefix, bare), self.meta)
            },
            None => self.wrap is None && self.meta is None,
        }
    }
}

/// Three texts in a row.
fn concat3(a: &str, b: &str, c: &str) -> (res: String)
    ensures
        res@ == a@ + b@ + c@,
{
    let mut res = a.to_owned();
    res.append(b);
    res.append(c);
    res
}

/// Reads the names of the items of a function.
pub fn read_names(opts: &ExtendrOptions, prefix: &str, sig: &Signature) -> (res: NameAnswers)
    ensures
        res@.answer(*opts, prefix@, *sig),
{
    let given = match &opts.mod_name {
        Some(name) => take_ident(name.as_str()),
        None => Some(sig.ident.clone()),
    };
    let bare = match &given {
        Some(name) => take_ident(sanitize_identifier(name.clone()).as_str()),
        None => None,
    };
    match &bare {
        Some(name) => {
            let name = sanitize_identifier(name.clone());
            let wrap = take_ident(concat3(WRAP_PREFIX, prefix, name.as_str()).as_str());
            let meta = take_ident(concat3(META_PREFIX, prefix, name.as_str()).as_str());
            NameAnswers { given, bare, wrap, meta }
        },
        None => NameAnswers { given, bare, wrap: None, meta: None },
    }
}

} // verus!
