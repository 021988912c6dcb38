use extendr_wrappers::attributes::{get_doc_string, get_named_lit};
use extendr_wrappers::code::Piece;
use extendr_wrappers::item_names::{
    read_names, take_ident, ItemNames, NameAnswers, META_PREFIX, WRAP_PREFIX,
};
use extendr_wrappers::items::{Actual, Callee, GeneratedFn, MetadataFn, WrapperFn};
use extendr_wrappers::names::{
    get_return_type, mangled_text, mangled_type_name, robj_variable, sanitize_identifier,
    simple_type_name,
};
use extendr_wrappers::rejection::{check_answers, check_function, check_receiver, Rejection};
use extendr_wrappers::syntax::{
    Attribute, Expr, FnArg, LitStr, Meta, Pat, PatIdent, PatKind, PatType, Path, PathSegment,
    Receiver, Signature, SyntaxError, Tokens, Type, TypeKind,
};
use extendr_wrappers::wrappers::{
    make_function_wrappers, make_named_wrappers, translate_actual, translate_formal,
    translate_meta_arg, translate_to_robj, ExtendrOptions,
};
use quote::ToTokens;

fn tokens(node: &dyn ToTokens) -> Tokens {
    Tokens::read(&node.to_token_stream().to_string()).unwrap_or_else(|e| panic!("{:?}", e))
}

fn path(path: &syn::Path) -> Path {
    let segments = path
        .segments
        .iter()
        .map(|s| PathSegment { ident: s.ident.to_string(), has_arguments: !s.arguments.is_none() })
        .collect();
    Path { leading_colon: path.leading_colon.is_some(), segments }
}

fn to_type(ty: &syn::Type) -> Type {
    let kind = match ty {
        syn::Type::Path(t) => TypeKind::Path(path(&t.path)),
        syn::Type::Group(t) => TypeKind::Group(Box::new(to_type(&t.elem))),
        syn::Type::Reference(t) => TypeKind::Reference(Box::new(to_type(&t.elem))),
        syn::Type::Paren(t) => TypeKind::Paren(Box::new(to_type(&t.elem))),
        syn::Type::Ptr(t) => TypeKind::Ptr(Box::new(to_type(&t.elem))),
        _ => TypeKind::Other,
    };
    Type { tokens: tokens(ty), kind }
}

fn to_attr((position, attr): (usize, &syn::Attribute)) -> Attribute {
    let meta = match &attr.meta {
        syn::Meta::Path(p) => Meta::Path(path(p)),
        syn::Meta::List(l) => Meta::List(path(&l.path), tokens(&l.tokens)),
        syn::Meta::NameValue(nv) => {
            let value = match &nv.value {
                syn::Expr::Lit(syn::ExprLit { lit: syn::Lit::Str(s), .. }) => {
                    Expr::Str(LitStr::read(&s.token().to_string()).ok().unwrap())
                }
                e => Expr::Other(tokens(e)),
            };
            Meta::NameValue(path(&nv.path), value)
        }
    };
    Attribute { meta, position }
}

fn to_pat(pat: &syn::Pat) -> Pat {
    let kind = match pat {
        syn::Pat::Ident(p) => PatKind::Ident(PatIdent {
            by_ref: p.by_ref.is_some(),
            mutability: p.mutability.is_some(),
            ident: p.ident.to_string(),
            has_subpat: p.subpat.is_some(),
        }),
        _ => PatKind::Other,
    };
    Pat { tokens: tokens(pat), kind }
}

fn to_arg(arg: &syn::FnArg) -> FnArg {
    match arg {
        syn::FnArg::Receiver(r) => FnArg::Receiver(Receiver {
            attrs: r.attrs.iter().enumerate().map(to_attr).collect(),
            reference: r.reference.is_some(),
            mutability: r.mutability.is_some(),
        }),
        syn::FnArg::Typed(t) => FnArg::Typed(PatType {
            attrs: t.attrs.iter().enumerate().map(to_attr).collect(),
            pat: to_pat(&t.pat),
            ty: to_type(&t.ty),
        }),
    }
}

fn type_of(source: &str) -> Type {
    to_type(&syn::parse_str::<syn::Type>(source).unwrap())
}

fn arg_of(source: &str) -> FnArg {
    to_arg(&syn::parse_str::<syn::FnArg>(source).unwrap())
}

fn sig_of(source: &str) -> Signature {
    let sig = syn::parse_str::<syn::Signature>(source).unwrap();
    Signature {
        ident: sig.ident.to_string(),
        inputs: sig.inputs.iter().map(to_arg).collect(),
        output: match &sig.output {
            syn::ReturnType::Default => None,
            syn::ReturnType::Type(_, t) => Some(to_type(t)),
        },
    }
}

fn attrs_of(source: &str) -> Vec<Attribute> {
    let item = syn::parse_str::<syn::ItemFn>(&format!("{} fn f() {{}}", source)).unwrap();
    item.attrs.iter().enumerate().map(to_attr).collect()
}

fn made(opts: &ExtendrOptions, prefix: &str, attrs: &str, sig: &str, self_ty: Option<&str>) -> (WrapperFn, MetadataFn) {
    let mut wrappers = Vec::new();
    let mut sig = sig_of(sig);
    let self_ty = self_ty.map(type_of);
    let res = make_function_wrappers(
        opts, &mut wrappers, prefix, &attrs_of(attrs), &mut sig, self_ty.as_ref(),
    );
    assert_eq!(res, Ok(()));
    assert_eq!(wrappers.len(), 2);
    match (wrappers.remove(0), wrappers.remove(0)) {
        (GeneratedFn::Wrapper(w), GeneratedFn::Metadata(m)) => (w, m),
        _ => panic!(),
    }
}

fn rejected(opts: &ExtendrOptions, prefix: &str, sig: &str, self_ty: Option<&str>) -> Option<Rejection> {
    let self_ty = self_ty.map(type_of);
    check_function(opts, prefix, &sig_of(sig), self_ty.as_ref()).err()
}

fn same_item(made: &GeneratedFn, expected: &str) {
    let made = made.to_syn().unwrap_or_else(|e| panic!("{:?}", e));
    let expected = syn::parse_str::<syn::ItemFn>(expected).unwrap();
    assert_eq!(made.to_token_stream().to_string(), expected.to_token_stream().to_string());
}

// ---------------------------------------------------------------------------------------------
// Names
// ---------------------------------------------------------------------------------------------

#[test]
fn type_names_are_simplified() {
    for source in vec!["Fred", "& Fred", "*const Fred", "&& Fred", "Fred<'a>", "&'a mut Fred", "(Fred)", "::Fred"] {
        assert_eq!(simple_type_name(&type_of(source)), "Fred", "{}", source);
    }
    assert_eq!(simple_type_name(&type_of("Vec<i32>")), "Vec");
    assert_eq!(simple_type_name(&type_of("&[i32]")), "_5bi32_5d");
    assert_eq!(simple_type_name(&type_of("std::string::String")), "std_3a_3astring_3a_3aString");
    assert_eq!(simple_type_name(&type_of("()")), "_28_29");
    assert_eq!(simple_type_name(&type_of("<T as Tr>::X")), "_3cTasTr_3e_3a_3aX");
    let grouped = Type { tokens: Tokens::read("Fred").ok().unwrap(), kind: TypeKind::Group(Box::new(type_of("Fred"))) };
    assert_eq!(simple_type_name(&grouped), "Fred");
}

#[test]
fn mangled_names_spell_out_punctuation() {
    assert_eq!(mangled_type_name(&type_of("&[i32]")), "_26_5bi32_5d");
    assert_eq!(mangled_type_name(&type_of("Fred")), "Fred");
    assert_eq!(mangled_text(""), "");
    assert_eq!(mangled_text("a b\tc"), "ab_09c");
    assert_eq!(mangled_text("_"), "_5f");
    assert_eq!(mangled_text("\u{e9}\u{a7}"), "\u{e9}_a7");
    assert_eq!(mangled_text("\u{2192}"), "_2192");
    assert_eq!(mangled_text("\u{1f600}"), "_1f600");
}

#[test]
fn blanks_do_not_show_in_mangled_names() {
    assert_eq!(mangled_text("& [ i32 ]"), mangled_text("&[i32]"));
    assert_eq!(mangled_text("Vec < i32 >"), "Vec_3ci32_3e");
    let text = "&'a mut [u8]";
    let halves = text.split_at(5);
    assert_eq!(mangled_text(text), format!("{}{}", mangled_text(halves.0), mangled_text(halves.1)));
    assert!(mangled_text(text).chars().all(|c| c == '_' || c.is_alphanumeric()));
}

#[test]
fn mangled_names_tell_types_apart_but_for_wide_characters() {
    assert_ne!(mangled_text("(i32,u8)"), mangled_text("(i32;u8)"));
    assert_ne!(mangled_text("_26"), mangled_text("&"));
    // Beyond the first 256 characters a number can run into what follows it.
    assert_eq!(mangled_text("\u{2192}"), mangled_text("!92"));
}

#[test]
fn return_type_has_a_name() {
    assert_eq!(get_return_type(&sig_of("fn f()")), "()");
    assert_eq!(get_return_type(&sig_of("fn f() -> ()")), "_28_29");
    assert_eq!(get_return_type(&sig_of("fn f() -> &str")), "str");
}

#[test]
fn raw_marker_comes_off() {
    assert_eq!(sanitize_identifier("r#type".to_string()), "type");
    assert_eq!(sanitize_identifier("type".to_string()), "type");
    assert_eq!(sanitize_identifier("r".to_string()), "r");
    assert_eq!(sanitize_identifier("r#".to_string()), "");
    for ident in vec!["r#type", "type", "r", "r2", ""] {
        let once = sanitize_identifier(ident.to_string());
        assert!(!once.starts_with("r#"));
        assert_eq!(sanitize_identifier(once.clone()), once);
    }
    // One marker comes off; a second one, which no identifier has, stays.
    assert_eq!(sanitize_identifier("r#r#x".to_string()), "r#x");
    assert_eq!(robj_variable(&"x".to_string()), "_x_robj");
    assert_eq!(robj_variable(&"r#x".to_string()), "_x_robj");
    assert_ne!(robj_variable(&"x".to_string()), robj_variable(&"y".to_string()));
}

#[test]
fn identifiers_are_recognized() {
    for text in vec!["x", "_x1", "fn", "r#fn", "wrap__hello", "\u{e9}t\u{e9}", "e\u{301}", "\u{4e2d}"] {
        assert_eq!(take_ident(text).as_deref(), Some(text));
    }
    for text in vec!["", "1x", "a-b", "a b", "r#", "r#self", "x.y", "\"x\"", "x\u{2014}y"] {
        assert_eq!(take_ident(text), None, "{}", text);
    }
}

#[test]
fn blanks_and_comments_stand_in_no_identifier() {
    for text in vec![
        " a", "a ", "a\n", "\ta", "a\r\n", "a/**/", "//\na", "\u{b}a", "\u{feff}a", "a\u{85}",
        "a\u{200e}", "\u{200f}a", "a\u{2028}", "\u{2029}a", "x\u{a0}", "\u{1680}x", "x\u{2000}",
        "x\u{200a}", "x\u{202f}", "x\u{205f}", "x\u{3000}",
    ] {
        assert_eq!(take_ident(text), None, "{:?}", text);
    }
    // Their neighbours are left to the reading.
    for text in vec!["\u{aa}", "\u{2c6}", "\u{3005}"] {
        assert_eq!(take_ident(text).as_deref(), Some(text));
    }
}

#[test]
fn names_are_read_step_by_step() {
    let named = |name: &str| ExtendrOptions {
        mod_name: Some(name.to_string()),
        ..ExtendrOptions::default()
    };
    let views = |a: &NameAnswers| {
        (a.given.clone(), a.bare.clone(), a.wrap.clone(), a.meta.clone())
    };
    let some = |text: &str| Some(text.to_string());
    let sig = sig_of("fn r#loop()");
    let answers = read_names(&ExtendrOptions::default(), "P__", &sig);
    assert_eq!(
        views(&answers),
        (some("r#loop"), some("loop"), some("wrap__P__loop"), some("meta__P__loop"))
    );
    let answers = read_names(&named("r#fn"), "", &sig);
    assert_eq!(views(&answers), (some("r#fn"), some("fn"), some("wrap__fn"), some("meta__fn")));
    assert_eq!(views(&read_names(&named("a-b"), "", &sig)), (None, None, None, None));
    assert_eq!(views(&read_names(&named("f"), "-", &sig)), (some("f"), some("f"), None, None));
}

#[test]
fn answers_decide_before_parameters() {
    let some = Some("x".to_string());
    let full = NameAnswers { given: some.clone(), bare: some.clone(), wrap: some.clone(), meta: some.clone() };
    let good = sig_of("fn f(x: i32)").inputs;
    let bad = sig_of("fn f(self, _: i32)").inputs;
    let unplain = sig_of("fn f(_: i32)").inputs;
    assert_eq!(check_answers(&full, &good, false), Ok(()));
    assert_eq!(check_answers(&full, &bad, true), Err(Rejection::ExpectedSelfReference));
    assert_eq!(check_answers(&full, &unplain, true), Err(Rejection::ExpectedIdentifier));
    for (given, bare, wrap, meta, rejection) in vec![
        (false, true, true, true, Rejection::InvalidModName),
        (true, false, true, true, Rejection::InvalidModName),
        (true, true, false, true, Rejection::InvalidItemName),
        (true, true, true, false, Rejection::InvalidItemName),
    ] {
        let answer = |there: bool| some.clone().filter(|_| there);
        let answers = NameAnswers {
            given: answer(given),
            bare: answer(bare),
            wrap: answer(wrap),
            meta: answer(meta),
        };
        assert_eq!(check_answers(&answers, &bad, false).as_ref(), Err(&rejection));
        assert_eq!(check_answers(&answers, &good, false), Err(rejection));
    }
}

#[test]
fn named_wrappers_have_the_names_given() {
    let names = ItemNames {
        mod_name: "m".to_string(),
        wrap_name: "w".to_string(),
        meta_name: "n".to_string(),
    };
    let mut wrappers = Vec::new();
    let mut sig = sig_of("fn f(#[a] #[default = \"1\"] #[b] x: i32)");
    make_named_wrappers(&ExtendrOptions::default(), &mut wrappers, names, &[], &mut sig, None);
    match (wrappers.remove(0), wrappers.remove(0)) {
        (GeneratedFn::Wrapper(w), GeneratedFn::Metadata(m)) => {
            assert_eq!((w.name.as_str(), w.r_name.as_str()), ("w", "f"));
            assert_eq!((m.name.as_str(), m.mod_name.as_str(), m.wrapper.as_str()), ("n", "m", "w"));
        }
        _ => panic!(),
    }
    // What is left of the attributes tells where it stood.
    match &sig.inputs[0] {
        FnArg::Typed(p) => {
            assert_eq!(p.attrs.iter().map(|a| a.position).collect::<Vec<usize>>(), vec![0, 2])
        }
        _ => panic!(),
    }
}

#[test]
fn tokens_are_read_and_printed() {
    assert_eq!(Tokens::read("Vec<i32>").ok().unwrap().as_str(), "Vec < i32 >");
    assert_eq!(Tokens::read("&&  T // c").ok().unwrap().as_str(), "&& T");
    assert_eq!(Tokens::read("(").err(), Some(SyntaxError::NotTokens));
}

#[test]
fn path_is_an_identifier_only_when_bare() {
    let p = |s: &str| path(&syn::parse_str::<syn::Path>(s).unwrap());
    assert_eq!(p("doc").get_ident(), Some(&"doc".to_string()));
    assert!(p("doc").is_ident("doc"));
    assert!(!p("doc").is_ident("docs"));
    for s in vec!["::doc", "a::doc", "doc<T>"] {
        assert_eq!(p(s).get_ident(), None);
        assert!(!p(s).is_ident("doc"));
    }
}

// ---------------------------------------------------------------------------------------------
// Attributes
// ---------------------------------------------------------------------------------------------

#[test]
fn string_literals_are_read() {
    let lit = LitStr::read(r#""a\tb\u{e9}\"""#).ok().unwrap();
    assert_eq!(lit.value(), "a\tb\u{e9}\"");
    assert_eq!(lit.token(), r#""a\tb\u{e9}\"""#);
    assert_eq!(LitStr::read("r\"\\n\"").ok().unwrap().value(), "\\n");
    for text in vec!["1", "b\"x\"", "x", "", "\"a\" \"b\""] {
        assert_eq!(LitStr::read(text).err(), Some(SyntaxError::NotStringLiteral));
    }
}

#[test]
fn documentation_is_put_together() {
    assert_eq!(get_doc_string(&attrs_of("")), "");
    assert_eq!(get_doc_string(&attrs_of("/// one\n/// two\n")), " one\n two");
    assert_eq!(get_doc_string(&attrs_of("#[doc = \"a\"] #[inline] #[doc(hidden)] #[doc = \"b\"]")), "a\nb");
    assert_eq!(get_doc_string(&attrs_of("#[other = \"a\"] #[doc = 1] #[x::doc = \"b\"]")), "");
    // No line break goes before the first text, but one goes before an empty last line.
    assert_eq!(get_doc_string(&attrs_of("#[doc = \"\"] #[doc = \"a\"] #[doc = \"\"]")), "a\n");
}

#[test]
fn named_literals_are_taken_out() {
    let mut attrs = attrs_of("#[a] #[default = \"1\"] #[b = \"x\"] #[default = 2] #[default = \"3\"] #[default(4)]");
    assert_eq!(get_named_lit(&mut attrs, "default"), Some("3".to_string()));
    let left: Vec<String> = attrs
        .iter()
        .map(|a| match &a.meta {
            Meta::Path(p) => p.segments[0].ident.clone(),
            Meta::List(p, t) => format!("{}({})", p.segments[0].ident, t.as_str()),
            Meta::NameValue(p, Expr::Str(s)) => format!("{}={:?}", p.segments[0].ident, s.value()),
            Meta::NameValue(p, Expr::Other(t)) => format!("{}={}", p.segments[0].ident, t.as_str()),
        })
        .collect();
    assert_eq!(left, vec!["a", "b=\"x\"", "default=2", "default(4)"]);
    assert_eq!(get_named_lit(&mut attrs, "default"), None);
    assert_eq!(attrs.len(), 4);
    assert_eq!(get_named_lit(&mut Vec::new(), "default"), None);
}

// ---------------------------------------------------------------------------------------------
// Parameters
// ---------------------------------------------------------------------------------------------

#[test]
fn formals_are_r_objects() {
    let ty = type_of("Person");
    for (source, name) in vec![("x: i32", "x"), ("#[default = \"1\"] r#type: &str", "r#type"), ("&mut self", "_self")] {
        match translate_formal(&arg_of(source), Some(&ty)) {
            FnArg::Typed(p) => {
                assert!(p.attrs.is_empty());
                assert_eq!(p.pat.tokens.as_str(), name);
                assert!(matches!(p.pat.kind, PatKind::Ident(i) if i.ident == name));
                assert_eq!(p.ty.tokens.as_str(), "extendr_api :: SEXP");
                assert_eq!(mangled_type_name(&p.ty), "extendr_5fapi_3a_3aSEXP");
                assert!(matches!(p.ty.kind, TypeKind::Path(q) if q.segments.len() == 2 && q.segments[1].ident == "SEXP"));
            }
            FnArg::Receiver(_) => panic!(),
        }
    }
}

#[test]
fn parameters_become_r_objects() {
    let c = translate_to_robj(&arg_of("x: i32"));
    assert_eq!((c.mutable, c.var.as_str(), c.arg.as_str()), (false, "_x_robj", "x"));
    let c = translate_to_robj(&arg_of("r#in: i32"));
    assert_eq!((c.mutable, c.var.as_str(), c.arg.as_str()), (false, "_in_robj", "r#in"));
    let c = translate_to_robj(&arg_of("&self"));
    assert_eq!((c.mutable, c.var.as_str(), c.arg.as_str()), (true, "_self_robj", "_self"));
}

#[test]
fn arguments_are_converted_one_way_or_the_other() {
    let mut opts = ExtendrOptions::default();
    match translate_actual(&opts, &arg_of("x: Vec<i32>")) {
        Some(Actual::FromRobj { ty, var }) => {
            assert_eq!((ty.as_str(), var.as_str()), ("Vec < i32 >", "_x_robj"));
        }
        _ => panic!(),
    }
    opts.use_try_from = true;
    assert!(matches!(translate_actual(&opts, &arg_of("x: i32")), Some(Actual::TryInto { var }) if var == "_x_robj"));
    assert!(translate_actual(&opts, &arg_of("&self")).is_none());
    assert!(translate_actual(&opts, &arg_of("(a, b): (i32, i32)")).is_none());
}

#[test]
fn parameters_have_metadata() {
    let mut arg = arg_of("#[default = \"NULL\"] #[other] x: &[f64]");
    let m = translate_meta_arg(&mut arg, None);
    assert_eq!((m.name.as_str(), m.arg_type.as_str(), m.default.as_deref()), ("x", "_5bf64_5d", Some("NULL")));
    assert!(matches!(&arg, FnArg::Typed(p) if p.attrs.len() == 1));
    let m = translate_meta_arg(&mut arg, None);
    assert_eq!((m.name.as_str(), m.default), ("x", None));
    let ty = type_of("Person");
    let m = translate_meta_arg(&mut arg_of("&self"), Some(&ty));
    assert_eq!((m.name.as_str(), m.arg_type.as_str(), m.default), ("self", "Person", None));
}

// ---------------------------------------------------------------------------------------------
// Which functions are accepted
// ---------------------------------------------------------------------------------------------

#[test]
fn bad_functions_are_rejected() {
    let opts = ExtendrOptions::default();
    assert_eq!(rejected(&opts, "", "fn f(x: i32)", None), None);
    assert_eq!(rejected(&opts, "", "fn f(&self, x: i32)", Some("P")), None);
    assert_eq!(rejected(&opts, "", "fn f(self)", Some("P")), Some(Rejection::ExpectedSelfReference));
    assert_eq!(rejected(&opts, "", "fn f(#[a] &self)", Some("P")), Some(Rejection::ExpectedSelfReference));
    assert_eq!(rejected(&opts, "", "fn f(self)", None), Some(Rejection::ExpectedSelfReference));
    assert_eq!(rejected(&opts, "", "fn f(&self)", None), Some(Rejection::SelfOutsideImpl));
    assert_eq!(rejected(&opts, "", "fn f(_: i32)", None), Some(Rejection::ExpectedIdentifier));
    assert_eq!(rejected(&opts, "", "fn f((a, b): (i32, i32))", None), Some(Rejection::ExpectedIdentifier));
    for pat in vec!["mut x", "ref x", "x @ 1"] {
        let sig = format!("fn f({}: i32)", pat);
        assert_eq!(rejected(&opts, "", &sig, None), Some(Rejection::PatternNotExpression));
    }
    assert_eq!(rejected(&opts, "a-b", "fn f()", None), Some(Rejection::InvalidItemName));
    let named = |name: &str| ExtendrOptions { mod_name: Some(name.to_string()), ..ExtendrOptions::default() };
    assert_eq!(rejected(&named("a b"), "", "fn f()", None), Some(Rejection::InvalidModName));
    assert_eq!(rejected(&named("r#fn"), "", "fn f()", None), None);
    // The names are looked at first, then self, then the patterns.
    assert_eq!(rejected(&named(""), "-", "fn f(&self, _: i32)", None), Some(Rejection::InvalidModName));
    assert_eq!(rejected(&opts, "-", "fn f(&self, _: i32)", None), Some(Rejection::InvalidItemName));
    assert_eq!(rejected(&opts, "", "fn f(&self, _: i32)", None), Some(Rejection::SelfOutsideImpl));
    assert_eq!(rejected(&opts, "", "fn f(mut x: i32, _: i32)", None), Some(Rejection::PatternNotExpression));
}

#[test]
fn self_parameters_are_checked_one_by_one() {
    assert_eq!(check_receiver(&arg_of("&self"), true), Ok(()));
    assert_eq!(check_receiver(&arg_of("x: i32"), false), Ok(()));
    assert_eq!(check_receiver(&arg_of("&self"), false), Err(Rejection::SelfOutsideImpl));
    assert_eq!(check_receiver(&arg_of("self"), false), Err(Rejection::ExpectedSelfReference));
    assert_eq!(check_receiver(&arg_of("#[a] &mut self"), true), Err(Rejection::ExpectedSelfReference));
}

#[test]
fn rejections_have_messages() {
    assert_eq!(Rejection::ExpectedSelfReference.message(), "expected &self or &mut self");
    assert_eq!(
        Rejection::SelfOutsideImpl.message(),
        "found &self in non-impl function - have you missed the #[extendr] before the impl?"
    );
    assert_eq!(Rejection::ExpectedIdentifier.message(), "expect identifier as arg name");
}

#[test]
fn rejected_function_leaves_everything_as_it_is() {
    let mut wrappers = Vec::new();
    let mut sig = sig_of("fn f(#[default = \"1\"] x: i32, _: i32)");
    let res = make_function_wrappers(&ExtendrOptions::default(), &mut wrappers, "", &[], &mut sig, None);
    assert_eq!(res, Err(Rejection::ExpectedIdentifier));
    assert!(wrappers.is_empty());
    assert!(matches!(&sig.inputs[0], FnArg::Typed(p) if p.attrs.len() == 1));
}

// ---------------------------------------------------------------------------------------------
// Wrappers
// ---------------------------------------------------------------------------------------------

#[test]
fn default_options_change_nothing() {
    let opts = ExtendrOptions::default();
    assert!(!opts.use_try_from && !opts.use_rng);
    assert_eq!((opts.r_name, opts.mod_name), (None, None));
    assert_eq!((WRAP_PREFIX, META_PREFIX), ("wrap__", "meta__"));
}

#[test]
fn names_come_from_the_options() {
    let (w, m) = made(&ExtendrOptions::default(), "", "", "fn r#loop()", None);
    assert_eq!((w.name.as_str(), m.name.as_str()), ("wrap__loop", "meta__loop"));
    assert_eq!((m.rust_name.as_str(), m.r_name.as_str(), m.mod_name.as_str()), ("r#loop", "r#loop", "loop"));
    let opts = ExtendrOptions {
        r_name: Some("my.fun".to_string()),
        mod_name: Some("r#other".to_string()),
        ..ExtendrOptions::default()
    };
    let (w, m) = made(&opts, "Person__", "", "fn f() -> Vec<i32>", None);
    assert_eq!((w.name.as_str(), m.name.as_str()), ("wrap__Person__other", "meta__Person__other"));
    assert_eq!(m.wrapper, w.name);
    assert_eq!((m.rust_name.as_str(), m.r_name.as_str(), m.mod_name.as_str()), ("f", "my.fun", "other"));
    assert_eq!(w.r_name, m.r_name);
    assert_eq!((m.return_type.as_str(), m.hidden), ("Vec", false));
}

#[test]
fn item_names_do_not_clash() {
    let names = |prefix: &str, sig: &str| {
        let (w, m) = made(&ExtendrOptions::default(), prefix, "", sig, None);
        (w.name, m.name)
    };
    let (w, m) = names("A__", "fn f()");
    assert_ne!(w, m);
    assert_ne!(names("B__", "fn f()"), (w.clone(), m.clone()));
    assert_ne!(names("A__", "fn g()"), (w.clone(), m.clone()));
    // Prefix and name are told apart by nothing but what they hold.
    assert_eq!(names("", "fn A__f()"), (w, m));
}

#[test]
fn callee_depends_on_self() {
    let opts = ExtendrOptions::default();
    assert!(matches!(made(&opts, "", "", "fn f()", None).0.callee, Callee::Free { name } if name == "f"));
    assert!(matches!(made(&opts, "", "", "fn new()", Some("P")).0.callee,
        Callee::Associated { self_ty, name } if self_ty.as_str() == "P" && name == "new"));
    assert!(matches!(made(&opts, "", "", "fn get(&self)", Some("P")).0.callee,
        Callee::Method { mutable: false, self_ty, name } if self_ty.as_str() == "P" && name == "get"));
    assert!(matches!(made(&opts, "", "", "fn set(&mut self)", Some("P<i32>")).0.callee,
        Callee::Method { mutable: true, self_ty, name } if self_ty.as_str() == "P < i32 >" && name == "set"));
}

#[test]
fn arguments_are_passed_in_order() {
    let (w, m) = made(&ExtendrOptions::default(), "", "", "fn f(&self, a: i32, b: &str)", Some("P"));
    assert_eq!((w.formals.len(), w.conversions.len(), w.actuals.len(), m.args.len()), (3, 3, 2, 3));
    for (formal, name) in w.formals.iter().zip(vec!["_self", "a", "b"]) {
        assert!(matches!(formal, FnArg::Typed(p) if p.attrs.is_empty()
            && matches!(&p.pat.kind, PatKind::Ident(i) if i.ident == name)
            && p.ty.tokens.as_str() == "extendr_api :: SEXP"));
    }
    let passed: Vec<&str> = w
        .actuals
        .iter()
        .map(|a| match a {
            Actual::TryInto { var } => var.as_str(),
            Actual::FromRobj { var, .. } => var.as_str(),
        })
        .collect();
    assert_eq!(passed, vec!["_a_robj", "_b_robj"]);
    let declared: Vec<&str> = w.conversions.iter().map(|c| c.var.as_str()).collect();
    assert_eq!(declared, vec!["_self_robj", "_a_robj", "_b_robj"]);
}

#[test]
fn wrappers_are_added_behind_those_there_are() {
    let opts = ExtendrOptions::default();
    let mut wrappers = Vec::new();
    assert_eq!(make_function_wrappers(&opts, &mut wrappers, "", &[], &mut sig_of("fn f()"), None), Ok(()));
    assert_eq!(make_function_wrappers(&opts, &mut wrappers, "", &[], &mut sig_of("fn g()"), None), Ok(()));
    let names: Vec<&str> = wrappers
        .iter()
        .map(|g| match g {
            GeneratedFn::Wrapper(w) => w.name.as_str(),
            GeneratedFn::Metadata(m) => m.name.as_str(),
        })
        .collect();
    assert_eq!(names, vec!["wrap__f", "meta__f", "wrap__g", "meta__g"]);
}

#[test]
fn defaults_show_in_the_metadata_once() {
    let opts = ExtendrOptions::default();
    let mut sig = sig_of("fn f(#[default = \"1\"] #[keep] x: i32)");
    let mut wrappers = Vec::new();
    assert_eq!(make_function_wrappers(&opts, &mut wrappers, "", &[], &mut sig, None), Ok(()));
    assert_eq!(make_function_wrappers(&opts, &mut wrappers, "", &[], &mut sig, None), Ok(()));
    assert!(matches!(&sig.inputs[0], FnArg::Typed(p) if p.attrs.len() == 1));
    assert_eq!(wrappers[0].source(), wrappers[2].source());
    let default = |g: &GeneratedFn| match g {
        GeneratedFn::Metadata(m) => m.args[0].default.clone(),
        GeneratedFn::Wrapper(_) => panic!(),
    };
    assert_eq!(default(&wrappers[1]), Some("1".to_string()));
    assert_eq!(default(&wrappers[3]), None);
}

// ---------------------------------------------------------------------------------------------
// Code
// ---------------------------------------------------------------------------------------------

const RNG_START: &str = "single_threaded(|| unsafe { libR_sys::GetRNGstate(); });";
const RNG_END: &str = "single_threaded(|| unsafe { libR_sys::PutRNGstate(); });";

fn expected_wrapper(head: &str, rng: bool, conversions: &str, call: &str, r_name: &str) -> String {
    format!(
        "#[no_mangle]
        #[allow(non_snake_case, clippy::not_unsafe_ptr_arg_deref)]
        pub extern \"C\" fn {head} -> extendr_api::SEXP {{
            use extendr_api::robj::*;

            // pull RNG state before evaluation
            {start}

            let wrap_result_state: std::result::Result<
                std::result::Result<Robj, extendr_api::Error>,
                Box<dyn std::any::Any + Send>
            > = unsafe {{
                {conversions}
                std::panic::catch_unwind(||-> std::result::Result<Robj, extendr_api::Error> {{
                    Ok(extendr_api::Robj::from({call}))
                }})
            }};

            // return RNG state back to r after evaluation
            {end}

            match wrap_result_state {{
                Ok(Ok(zz)) => {{
                    return unsafe {{ zz.get() }};
                }}
                Ok(Err(conversion_err)) => {{
                    let err_string = conversion_err.to_string();
                    drop(conversion_err);
                    extendr_api::throw_r_error(&err_string);
                }}
                Err(unwind_err) => {{
                    drop(unwind_err);
                    let err_string = format!(\"user function panicked: {{}}\",{r_name:?});
                    extendr_api::handle_panic(err_string.as_str(), || panic!());
                }}
            }}
            unreachable!(\"internal extendr error, this should never happen.\")
        }}",
        head = head,
        start = if rng { RNG_START } else { "" },
        conversions = conversions,
        call = call,
        end = if rng { RNG_END } else { "" },
        r_name = r_name,
    )
}

#[test]
fn wrapper_code_of_a_function() {
    let opts = ExtendrOptions { use_rng: true, ..ExtendrOptions::default() };
    let (w, _) = made(&opts, "", "", "fn hello(x: Vec<i32>, y: &str)", None);
    same_item(
        &GeneratedFn::Wrapper(w),
        &expected_wrapper(
            "wrap__hello(x: extendr_api::SEXP, y: extendr_api::SEXP)",
            true,
            "let _x_robj = extendr_api::robj::Robj::from_sexp(x);
             let _y_robj = extendr_api::robj::Robj::from_sexp(y);",
            "hello(<Vec<i32>>::from_robj(&_x_robj)?, <&str>::from_robj(&_y_robj)?)",
            "hello",
        ),
    );
}

#[test]
fn wrapper_code_of_a_method() {
    let opts = ExtendrOptions { use_try_from: true, r_name: Some("a\"b".to_string()), ..ExtendrOptions::default() };
    let (w, _) = made(&opts, "Person__", "", "fn set(&mut self, name: String)", Some("Person"));
    same_item(
        &GeneratedFn::Wrapper(w),
        &expected_wrapper(
            "wrap__Person__set(_self: extendr_api::SEXP, name: extendr_api::SEXP)",
            false,
            "let mut _self_robj = extendr_api::robj::Robj::from_sexp(_self);
             let _name_robj = extendr_api::robj::Robj::from_sexp(name);",
            "extendr_api::unwrap_or_throw(<&mut Person>::from_robj(&_self_robj)).set(_name_robj.try_into()?)",
            "a\"b",
        ),
    );
    let (w, _) = made(&ExtendrOptions::default(), "Person__", "", "fn get(&self)", Some("Person"));
    same_item(
        &GeneratedFn::Wrapper(w),
        &expected_wrapper(
            "wrap__Person__get(_self: extendr_api::SEXP)",
            false,
            "let mut _self_robj = extendr_api::robj::Robj::from_sexp(_self);",
            "extendr_api::unwrap_or_throw(<&Person>::from_robj(&_self_robj)).get()",
            "get",
        ),
    );
    let (w, _) = made(&ExtendrOptions::default(), "Person__", "", "fn new()", Some("Person"));
    same_item(
        &GeneratedFn::Wrapper(w),
        &expected_wrapper("wrap__Person__new()", false, "", "<Person>::new()", "new"),
    );
}

#[test]
fn metadata_code() {
    let attrs = "/// Says \"hi\".\n#[inline]\n/// \\o/\n";
    let (_, m) = made(
        &ExtendrOptions::default(), "Person__", attrs,
        "fn say(&self, #[default = \"\\\"x\\\"\"] what: &str, n: i32) -> String", Some("Person"),
    );
    same_item(
        &GeneratedFn::Metadata(m),
        "#[allow(non_snake_case)]
        fn meta__Person__say(metadata: &mut Vec<extendr_api::metadata::Func>) {
            let mut args = vec![
                extendr_api::metadata::Arg { name: \"self\", arg_type: \"Person\", default: None },
                extendr_api::metadata::Arg { name: \"what\", arg_type: \"str\", default: Some(\"\\\"x\\\"\") },
                extendr_api::metadata::Arg { name: \"n\", arg_type: \"i32\", default: None },
            ];

            metadata.push(extendr_api::metadata::Func {
                doc: \" Says \\\"hi\\\".\\n \\\\o/\",
                rust_name: \"say\",
                r_name: \"say\",
                mod_name: \"say\",
                args: args,
                return_type: \"String\",
                func_ptr: wrap__Person__say as * const u8,
                hidden: false,
            })
        }",
    );
}

#[test]
fn strings_in_the_code_read_back() {
    let value = "tab\t, quote \", backslash \\, nul \0, bell \u{7}, e\u{301}, line\n";
    let opts = ExtendrOptions { r_name: Some(value.to_string()), ..ExtendrOptions::default() };
    let (w, _) = made(&opts, "", "", "fn f()", None);
    let code = w.code();
    assert_eq!(code.len(), 3);
    let text = |p: &Piece| match p {
        Piece::Code(t) => t.clone(),
        Piece::Str(_) => panic!(),
    };
    assert!(matches!(&code[1], Piece::Str(s) if s == value));
    let source = GeneratedFn::Wrapper(w).source();
    let (head, tail) = (text(&code[0]), text(&code[2]));
    assert!(source.starts_with(&head) && source.ends_with(&tail));
    let literal = &source[head.len()..source.len() - tail.len()];
    assert_ne!(literal, value);
    assert_eq!(LitStr::read(literal).ok().unwrap().value(), value);
}

#[test]
fn code_that_is_no_item_is_not_parsed() {
    let (mut w, _) = made(&ExtendrOptions::default(), "", "", "fn f()", None);
    w.name = "not a name".to_string();
    assert_eq!(GeneratedFn::Wrapper(w).to_syn().err(), Some(SyntaxError::NotItemFn));
}
