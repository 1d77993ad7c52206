use std::collections::HashMap;

use lib::ast::{
    AttrStyle, AttributeKind, FloatTy, IntTy, LitKind, MetaItemKind, Span, Spanned, UintTy,
};
use lib::attrs::{collapse_docs, linkage_name, lit_to_str, Attribute};
use lib::clean::Clean;
use lib::context::DocContext;

fn sp() -> Span {
    Span { text: "lib.rs:1:0: 1:1".to_string(), snippet: None }
}

fn lit(k: LitKind) -> lib::ast::Lit {
    Spanned { node: k, span: sp() }
}

fn meta(k: MetaItemKind) -> lib::ast::MetaItem {
    Spanned { node: k, span: sp() }
}

fn attr(m: MetaItemKind) -> lib::ast::Attribute {
    Spanned {
        node: AttributeKind { style: AttrStyle::AttrOuter, value: meta(m), is_sugared_doc: false },
        span: sp(),
    }
}

fn cx() -> DocContext {
    DocContext { def_map: HashMap::new(), crates: HashMap::new() }
}

fn nv(k: &str, v: &str) -> Attribute {
    Attribute::NameValue(k.to_string(), v.to_string())
}

fn show(a: &Attribute) -> String {
    match a {
        Attribute::Word(w) => format!("W({})", w),
        Attribute::NameValue(k, v) => format!("NV({}={})", k, v),
        Attribute::List(n, l) => format!("L({}:{})", n, l.iter().map(show).collect::<Vec<_>>().join(",")),
    }
}

#[test]
fn integer_literals_read_back_as_their_values() {
    for i in [0i64, 7, -7, 10, -100, 123456789, i64::MIN, i64::MAX] {
        let t = lit_to_str(&lit(LitKind::LitInt(i, IntTy::TyI64)));
        assert_eq!(t.parse::<i64>(), Ok(i));
        let u = lit_to_str(&lit(LitKind::LitIntUnsuffixed(i)));
        assert_eq!(u.parse::<i64>(), Ok(i));
    }
    for n in [0u64, 9, 10, 99, 100, 4294967296, u64::MAX] {
        let t = lit_to_str(&lit(LitKind::LitUint(n, UintTy::TyU64)));
        assert_eq!(t.parse::<u64>(), Ok(n));
    }
}

#[test]
fn literals_render_as_text() {
    assert_eq!(lit_to_str(&lit(LitKind::LitStr("abc".to_string()))), "abc");
    assert_eq!(lit_to_str(&lit(LitKind::LitInt(97, IntTy::TyChar))), "'97'");
    assert_eq!(lit_to_str(&lit(LitKind::LitInt(-5, IntTy::TyI32))), "-5");
    assert_eq!(lit_to_str(&lit(LitKind::LitUint(18446744073709551615, UintTy::TyU64))), "18446744073709551615");
    assert_eq!(lit_to_str(&lit(LitKind::LitIntUnsuffixed(12))), "12");
    assert_eq!(lit_to_str(&lit(LitKind::LitFloat("1.5".to_string(), FloatTy::TyF64))), "1.5");
    assert_eq!(lit_to_str(&lit(LitKind::LitFloatUnsuffixed("2e3".to_string()))), "2e3");
    assert_eq!(lit_to_str(&lit(LitKind::LitBool(true))), "true");
    assert_eq!(lit_to_str(&lit(LitKind::LitBool(false))), "false");
    assert_eq!(lit_to_str(&lit(LitKind::LitNil)), "");
}

#[test]
fn meta_items_clean_with_comment_markers_removed() {
    let cx = cx();
    let w = attr(MetaItemKind::MetaWord("inline".to_string()));
    assert_eq!(show(&w.clean(&cx)), "W(inline)");
    let d = attr(MetaItemKind::MetaNameValue(
        "doc".to_string(),
        lit(LitKind::LitStr("/// Adds two numbers ".to_string())),
    ));
    assert_eq!(show(&d.clean(&cx)), "NV(doc=Adds two numbers)");
    let l = attr(MetaItemKind::MetaList(
        "link".to_string(),
        vec![
            meta(MetaItemKind::MetaNameValue("name".to_string(), lit(LitKind::LitStr("std".to_string())))),
            meta(MetaItemKind::MetaNameValue("vers".to_string(), lit(LitKind::LitIntUnsuffixed(3)))),
            meta(MetaItemKind::MetaWord("/** w */".to_string())),
        ],
    ));
    assert_eq!(show(&l.clean(&cx)), "L(link:NV(name=std),NV(vers=3),W(w))");
}

#[test]
fn collapse_docs_keeps_other_attributes_in_order() {
    let attrs = vec![
        Attribute::Word("inline".to_string()),
        nv("doc", "/// First line"),
        nv("cfg", "test"),
        nv("doc", "/// Second line"),
    ];
    let r = collapse_docs(attrs);
    let shown: Vec<String> = r.iter().map(show).collect();
    assert_eq!(shown, vec!["W(inline)", "NV(cfg=test)", "NV(doc=First line\n Second line)"]);
}

#[test]
fn collapse_docs_without_docs_adds_empty_doc() {
    let r = collapse_docs(vec![Attribute::Word("test".to_string())]);
    let shown: Vec<String> = r.iter().map(show).collect();
    assert_eq!(shown, vec!["W(test)", "NV(doc=)"]);
    let r = collapse_docs(vec![]);
    assert_eq!(r.iter().map(show).collect::<Vec<_>>(), vec!["NV(doc=)"]);
}

#[test]
fn collapse_docs_twice_keeps_the_same_other_attributes() {
    let once = collapse_docs(vec![nv("doc", "* a"), Attribute::Word("x".to_string()), nv("doc", "b")]);
    let first: Vec<String> = once.iter().map(show).collect();
    assert_eq!(first, vec!["W(x)", "NV(doc=a\n b)"]);
    let twice = collapse_docs(once);
    let second: Vec<String> = twice.iter().map(show).collect();
    assert_eq!(second[..second.len() - 1], first[..first.len() - 1]);
    assert_eq!(twice.len(), 2);
}

#[test]
fn link_name_is_the_last_name_item() {
    let link = |items: Vec<lib::ast::MetaItem>| attr(MetaItemKind::MetaList("link".to_string(), items));
    let name = |v: &str| meta(MetaItemKind::MetaNameValue("name".to_string(), lit(LitKind::LitStr(v.to_string()))));
    let attrs = vec![
        link(vec![name("first")]),
        attr(MetaItemKind::MetaWord("link".to_string())),
        link(vec![name("second"), meta(MetaItemKind::MetaWord("other".to_string()))]),
    ];
    assert_eq!(linkage_name(&attrs), Some("second".to_string()));
}

#[test]
fn link_name_needs_a_string() {
    let attrs = vec![
        attr(MetaItemKind::MetaList(
            "link".to_string(),
            vec![
                meta(MetaItemKind::MetaNameValue("name".to_string(), lit(LitKind::LitStr("a".to_string())))),
                meta(MetaItemKind::MetaNameValue("name".to_string(), lit(LitKind::LitIntUnsuffixed(1)))),
            ],
        )),
    ];
    assert_eq!(linkage_name(&attrs), None);
    let attrs = vec![attr(MetaItemKind::MetaNameValue("name".to_string(), lit(LitKind::LitStr("a".to_string()))))];
    assert_eq!(linkage_name(&attrs), None);
}
