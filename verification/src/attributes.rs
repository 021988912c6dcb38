//! What wrapper generation reads from the attributes of a function and of its parameters.

use vstd::prelude::*;

use crate::syntax::{Attribute, Expr, Meta};

verus! {

/// The documentation in a list of attributes: the strings of the `doc` attributes, each on a line
/// of its own. No line break is put behind documentation that is empty so far.
pub open spec fn doc_text(attrs: Seq<Attribute>) -> Seq<char>
    decreases attrs.len(),
{
    if attrs.len() == 0 {
        seq![]
    } else {
        let before = doc_text(attrs.drop_last());
        match attrs.last().literal("doc"@) {
            None => before,
            Some(line) => if before.len() == 0 {
                line
            } else {
                before + seq!['\n'] + line
            },
        }
    }
}

/// The string of the last attribute `#[name = ".."]` in a list.
pub open spec fn named_lit(attrs: Seq<Attribute>, name: Seq<char>) -> Option<Seq<char>>
    decreases attrs.len(),
{
    if attrs.len() == 0 {
        None
    } else if attrs.last().literal(name) is Some {
        attrs.last().literal(name)
    } else {
        named_lit(attrs.drop_last(), name)
    }
}

/// The attributes of a list that are not `#[name = ".."]`, in their order.
pub open spec fn without_lit(attrs: Seq<Attribute>, name: Seq<char>) -> Seq<Attribute>
    decreases attrs.len(),
{
    if attrs.len() == 0 {
        seq![]
    } else if attrs.last().literal(name) is Some {
        without_lit(attrs.drop_last(), name)
    } else {
        without_lit(attrs.drop_last(), name).push(attrs.last())
    }
}

/// The view of an optional string.
pub open spec fn opt_view(s: Option<String>) -> Option<Seq<char>> {
    match s {
        None => None,
        Some(s) => Some(s@),
    }
}

/// The string of an attribute `#[name = ".."]`.
fn literal_of(attr: &Attribute, name: &str) -> (res: Option<String>)
    ensures
        opt_view(res) == attr.literal(name@),
{
    match &attr.meta {
        Meta::NameValue(path, Expr::Str(lit)) => {
            if path.is_ident(name) {
                Some(lit.value())
            } else {
                None
            }
        },
        _ => None,
    }
}

/// Extracts the documentation from attributes.
pub fn get_doc_string(attrs: &[Attribute]) -> (res: String)
    ensures
        res@ == doc_text(attrs@),
{
    let mut res = String::new();
    for i in 0..attrs.len()
        invariant
            res@ == doc_text(attrs@.take(i as int)),
    {
        proof {
            let upto = attrs@.take(i + 1);
            assert(upto.drop_last() =~= attrs@.take(i as int));
            assert(upto.last() == attrs@[i as int]);
        }
        let ghost before = res@;
        match literal_of(&attrs[i], "doc") {
            None => {},
            Some(line) => {
                if !res.as_str().is_empty() {
                    res.push('\n');
                }
                res.append(line.as_str());
                assert(res@ =~= if before.len() == 0 {
                    line@
                } else {
                    before + seq!['\n'] + line@
                });
            },
        }
    }
    assert(attrs@.take(attrs@.len() as int) =~= attrs@);
    res
}

/// Gets the string of an attribute `#[name = ".."]`, such as `#[default = "xyz"]`, from a list of
/// attributes, and removes every such attribute from the list. Of several, the last counts.
pub fn get_named_lit(attrs: &mut Vec<Attribute>, name: &str) -> (res: Option<String>)
    ensures
        final(attrs)@ == without_lit(old(attrs)@, name@),
        opt_view(res) == named_lit(old(attrs)@, name@),
{
    let mut res: Option<String> = None;
    let ghost all = attrs@;
    let ghost mut seen: int = 0;
    let mut i: usize = 0;
    while i < attrs.len()
        invariant
            0 <= seen <= all.len(),
            i <= attrs@.len(),
            attrs@.take(i as int) == without_lit(all.take(seen), name@),
            attrs@.skip(i as int) == all.skip(seen),
            opt_view(res) == named_lit(all.take(seen), name@),
        decreases attrs@.len() - i,
    {
        let ghost before = attrs@;
        proof {
            assert(attrs@.skip(i as int).len() == all.skip(seen).len());
            assert(attrs@.skip(i as int)[0] == all.skip(seen)[0]);
            let upto = all.take(seen + 1);
            assert(upto.drop_last() =~= all.take(seen));
            assert(upto.last() == attrs@[i as int]);
            assert(all.skip(seen + 1) =~= all.skip(seen).skip(1));
        }
        match literal_of(&attrs[i], name) {
            Some(value) => {
                res = Some(value);
                attrs.remove(i);
                assert(attrs@.take(i as int) =~= before.take(i as int));
                assert(attrs@.skip(i as int) =~= before.skip(i as int).skip(1));
            },
            None => {
                assert(attrs@.take(i + 1) =~= before.take(i as int).push(before[i as int]));
                assert(attrs@.skip(i + 1) =~= before.skip(i as int).skip(1));
                i = i + 1;
            },
        }
        proof {
            seen = seen + 1;
        }
    }
    assert(attrs@.skip(i as int).len() == all.skip(seen).len());
    assert(all.take(seen) =~= all);
    assert(attrs@.take(i as int) =~= attrs@);
    res
}

} // verus!
