use std::collections::HashMap;

use lib::ast::{
    AttrStyle, AttributeKind, DefId, ExplicitSelfKind, Expr, FnDecl, Generics as AstGenerics, Ident,
    LitKind, Lifetime, MetaItemKind, Method as AstMethod, Mutability as AstMut, OptVec, Path,
    PathListIdentKind, Purity, RetStyle, Span, Spanned, StructDef, StructFieldDef, StructFieldKind,
    TraitMethod as AstTraitMethod, TraitRef, Ty, TyKind, TyParam, TypeMethod, VariantArg,
    VariantKind as AstVariantKind, ViewItem as AstViewItem, ViewItemKind, ViewPathKind, Visibility,
};
use lib::attrs::Attribute;
use lib::clean::Clean;
use lib::context::{Def, DocContext};
use lib::doctree;
use lib::doctree::{struct_type_from_def, StructType};
use lib::items::{
    ToSource, TraitMethod, VariantKind, ViewItemInner, ViewPath,
};
use lib::types::{Mutability, SelfTy, Type};

fn sp(t: &str) -> Span {
    Span { text: t.to_string(), snippet: None }
}

fn ident(s: &str) -> Ident {
    Ident { name: s.to_string() }
}

fn path(segs: &[&str]) -> Path {
    Path { idents: segs.iter().map(|s| ident(s)).collect() }
}

fn doc(text: &str) -> lib::ast::Attribute {
    Spanned {
        node: AttributeKind {
            style: AttrStyle::AttrOuter,
            value: Spanned {
                node: MetaItemKind::MetaNameValue(
                    "doc".to_string(),
                    Spanned { node: LitKind::LitStr(text.to_string()), span: sp("") },
                ),
                span: sp(""),
            },
            is_sugared_doc: true,
        },
        span: sp(""),
    }
}

fn word(w: &str) -> lib::ast::Attribute {
    Spanned {
        node: AttributeKind {
            style: AttrStyle::AttrOuter,
            value: Spanned { node: MetaItemKind::MetaWord(w.to_string()), span: sp("") },
            is_sugared_doc: false,
        },
        span: sp(""),
    }
}

fn link_name(n: &str) -> lib::ast::Attribute {
    Spanned {
        node: AttributeKind {
            style: AttrStyle::AttrInner,
            value: Spanned {
                node: MetaItemKind::MetaList(
                    "link".to_string(),
                    vec![Spanned {
                        node: MetaItemKind::MetaNameValue(
                            "name".to_string(),
                            Spanned { node: LitKind::LitStr(n.to_string()), span: sp("") },
                        ),
                        span: sp(""),
                    }],
                ),
                span: sp(""),
            },
            is_sugared_doc: false,
        },
        span: sp(""),
    }
}

fn cx() -> DocContext {
    let mut def_map = HashMap::new();
    def_map.insert(1, Def::DefStruct(DefId { krate: 0, node: 10 }));
    def_map.insert(2, Def::DefPrimTy(lib::ast::PrimTy::TyBool));
    DocContext { def_map, crates: HashMap::new() }
}

fn ty(node: TyKind) -> Ty {
    Ty { id: 0, node }
}

fn no_generics() -> AstGenerics {
    AstGenerics { lifetimes: OptVec::Empty, ty_params: OptVec::Empty }
}

fn nil_decl() -> FnDecl {
    FnDecl { inputs: vec![], output: ty(TyKind::TyNil), cf: RetStyle::ReturnVal }
}

fn doc_of(attrs: &[Attribute]) -> String {
    match attrs.last() {
        Some(Attribute::NameValue(k, v)) if k == "doc" => v.clone(),
        _ => panic!("no merged doc"),
    }
}

fn function(name: &str, docs: &[&str]) -> doctree::Function {
    doctree::Function {
        decl: nil_decl(),
        attrs: docs.iter().map(|d| doc(d)).collect(),
        id: 5,
        name: ident(name),
        visibility: Visibility::Public,
        where_: sp("lib.rs:3:0: 3:10"),
        generics: no_generics(),
    }
}

fn empty_module(name: Option<&str>) -> doctree::Module {
    doctree::Module {
        name: name.map(ident),
        attrs: vec![],
        where_: sp(""),
        structs: vec![],
        enums: vec![],
        fns: vec![],
        mods: vec![],
        typedefs: vec![],
        statics: vec![],
        traits: vec![],
        impls: vec![],
        view_items: vec![],
    }
}

#[test]
fn functions_merge_their_documentation() {
    let f = function("add", &["/// Adds.", "/// Returns the sum."]).clean(&cx());
    assert_eq!(f.name, "add");
    assert_eq!(f.id, 5);
    assert_eq!(f.where_, "lib.rs:3:0: 3:10");
    assert_eq!(f.visibility, Visibility::Public);
    assert_eq!(f.attrs.len(), 1);
    assert_eq!(doc_of(&f.attrs), "Adds.\n Returnsthesum.");
    match &f.decl.output {
        Type::Unit => {}
        _ => panic!("expected unit"),
    }
}

#[test]
fn crate_and_nested_modules() {
    let mut inner = empty_module(Some("inner"));
    inner.fns.push(function("f", &["/// f"]));
    let mut root = empty_module(None);
    root.attrs.push(word("warn"));
    root.mods.push(inner);
    let v = doctree::RustdocVisitor { attrs: vec![link_name("mycrate"), word("no_std")], mods: vec![root] };
    let c = v.clean(&cx());
    assert_eq!(c.name, "mycrate");
    assert_eq!(c.attrs.len(), 2);
    assert_eq!(c.mods.len(), 1);
    assert_eq!(c.mods[0].name, "");
    assert_eq!(c.mods[0].attrs.len(), 1);
    assert_eq!(c.mods[0].mods.len(), 1);
    assert_eq!(c.mods[0].mods[0].name, "inner");
    assert_eq!(c.mods[0].mods[0].fns[0].name, "f");
    assert_eq!(doc_of(&c.mods[0].mods[0].fns[0].attrs), "f");
}

fn field(kind: StructFieldKind, t: Ty) -> lib::ast::StructField {
    Spanned { node: StructFieldDef { kind, id: 3, ty: t, attrs: vec![doc("/// a field")] }, span: sp("") }
}

#[test]
fn structure_shapes() {
    let tp = || ty(TyKind::TyPath(path(&["S"]), 1));
    let tuple = |n: usize, ctor: bool| StructDef {
        fields: (0..n).map(|_| field(StructFieldKind::UnnamedField, tp())).collect(),
        ctor_id: if ctor { Some(7) } else { None },
    };
    assert_eq!(struct_type_from_def(&tuple(0, true)), StructType::Unit);
    assert_eq!(struct_type_from_def(&tuple(1, true)), StructType::Newtype);
    assert_eq!(struct_type_from_def(&tuple(3, true)), StructType::Tuple);
    assert_eq!(struct_type_from_def(&tuple(2, false)), StructType::Plain);
}

#[test]
fn variant_kinds() {
    let cx = cx();
    let clike = AstVariantKind::TupleVariantKind(vec![]).clean(&cx);
    assert!(matches!(clike, VariantKind::CLikeVariant));
    let tuple = AstVariantKind::TupleVariantKind(vec![
        VariantArg { ty: ty(TyKind::TyPath(path(&["b"]), 2)), id: 1 },
        VariantArg { ty: ty(TyKind::TyBot), id: 2 },
    ])
    .clean(&cx);
    match tuple {
        VariantKind::TupleVariant(v) => {
            assert_eq!(v.len(), 2);
            assert!(matches!(v[0], Type::Bool));
            assert!(matches!(v[1], Type::Bottom));
        }
        _ => panic!("expected a tuple variant"),
    }
    let sd = StructDef {
        fields: vec![
            field(StructFieldKind::NamedField(ident("x"), Visibility::Private), ty(TyKind::TyPath(path(&["S"]), 1))),
            field(StructFieldKind::UnnamedField, ty(TyKind::TyNil)),
        ],
        ctor_id: None,
    };
    match AstVariantKind::StructVariantKind(Box::new(sd)).clean(&cx) {
        VariantKind::StructVariant(vs) => {
            assert_eq!(vs.struct_type, StructType::Plain);
            assert_eq!(vs.fields[0].name, "x");
            assert_eq!(vs.fields[0].visibility, Some(Visibility::Private));
            assert!(matches!(vs.fields[0].type_, Type::Resolved(10)));
            assert_eq!(vs.fields[1].name, "");
            assert_eq!(vs.fields[1].visibility, None);
            assert_eq!(doc_of(&vs.fields[1].attrs), "afield");
        }
        _ => panic!("expected a structure variant"),
    }
}

fn method(name: &str) -> AstMethod {
    AstMethod {
        ident: ident(name),
        attrs: vec![word("inline")],
        generics: AstGenerics {
            lifetimes: OptVec::Vec(vec![Lifetime { id: 1, ident: ident("a") }]),
            ty_params: OptVec::Vec(vec![TyParam { ident: ident("T"), id: 8, bounds: OptVec::Empty }]),
        },
        explicit_self: Spanned {
            node: ExplicitSelfKind::StyRegion(Some(Lifetime { id: 1, ident: ident("a") }), AstMut::MMutbl),
            span: sp(""),
        },
        purity: Purity::ImpureFn,
        decl: nil_decl(),
        id: 40,
        span: sp("lib.rs:9:4: 9:20"),
        self_id: 41,
        vis: Visibility::Inherited,
    }
}

#[test]
fn trait_methods_required_and_provided() {
    let cx = cx();
    let req = AstTraitMethod::Required(TypeMethod {
        ident: ident("len"),
        attrs: vec![],
        purity: Purity::ImpureFn,
        decl: nil_decl(),
        generics: no_generics(),
        explicit_self: Spanned { node: ExplicitSelfKind::StyStatic, span: sp("") },
        id: 30,
        span: sp("t"),
    })
    .clean(&cx);
    let prov = AstTraitMethod::Provided(Box::new(method("is_empty"))).clean(&cx);
    assert!(req.is_req() && !req.is_def());
    assert!(prov.is_def() && !prov.is_req());
    match prov {
        TraitMethod::Provided(m) => {
            assert_eq!(m.name, "is_empty");
            assert_eq!(m.id, 41);
            assert_eq!(m.where_, "lib.rs:9:4: 9:20");
            assert_eq!(m.generics.lifetimes[0].0, "a");
            assert_eq!(m.generics.type_params[0].name, "T");
            assert_eq!(m.generics.type_params[0].node, 8);
            match m.self_ {
                SelfTy::SelfBorrowed(Some(l), Mutability::Mutable) => assert_eq!(l.0, "a"),
                _ => panic!("expected a borrowed self"),
            }
            assert!(matches!(m.attrs[0], Attribute::Word(ref w) if w == "inline"));
        }
        _ => panic!("expected a provided method"),
    }
}

#[test]
fn statics_show_their_source() {
    let s = doctree::Static {
        type_: ty(TyKind::TyPath(path(&["bool"]), 2)),
        mutability: AstMut::MImm,
        expr: Expr { id: 1, span: Span { text: "x".to_string(), snippet: Some("true".to_string()) } },
        name: ident("FLAG"),
        attrs: vec![],
        where_: sp("lib.rs:1:0: 1:20"),
    }
    .clean(&cx());
    assert_eq!(s.expr, "true");
    assert_eq!(s.name, "FLAG");
    assert_eq!(s.mutability, Mutability::Immutable);
    assert!(matches!(s.type_, Type::Bool));
    assert_eq!(sp("x").to_src(), "");
}

#[test]
fn view_items() {
    let cx = cx();
    let v = AstViewItem {
        node: ViewItemKind::ViewItemUse(vec![
            Spanned { node: ViewPathKind::ViewPathSimple(ident("V"), path(&["std", "vec", "Vec"]), 1), span: sp("") },
            Spanned { node: ViewPathKind::ViewPathGlob(path(&["std", "io"]), 2), span: sp("") },
            Spanned {
                node: ViewPathKind::ViewPathList(
                    path(&["std", "str"]),
                    vec![Spanned { node: PathListIdentKind { name: ident("from_bytes"), id: 4 }, span: sp("") }],
                    3,
                ),
                span: sp(""),
            },
        ]),
        attrs: vec![],
        vis: Visibility::Public,
        span: sp("lib.rs:1:0: 1:5"),
    }
    .clean(&cx);
    assert_eq!(v.where_, "lib.rs:1:0: 1:5");
    match v.inner {
        ViewItemInner::Import(ps) => {
            assert!(matches!(&ps[0], ViewPath::SimpleImport(a, b, 1) if a == "V" && b == "std::vec::Vec"));
            assert!(matches!(&ps[1], ViewPath::GlobImport(a, 2) if a == "std::io"));
            assert!(matches!(&ps[2], ViewPath::ImportList(a, l, 3) if a == "std::str" && l == &vec!["from_bytes".to_string()]));
        }
        _ => panic!("expected an import"),
    }
    let e = AstViewItem {
        node: ViewItemKind::ViewItemExternMod(ident("extra"), vec![], 9),
        attrs: vec![],
        vis: Visibility::Private,
        span: sp(""),
    }
    .clean(&cx);
    assert!(matches!(e.inner, ViewItemInner::ExternMod(ref n, ref a, 9) if n == "extra" && a.is_empty()));
}

#[test]
fn traits_and_impls() {
    let cx = cx();
    let t = doctree::Trait {
        name: ident("Container"),
        methods: vec![AstTraitMethod::Provided(Box::new(method("m")))],
        generics: no_generics(),
        parents: vec![TraitRef { path: path(&["std", "Eq"]), ref_id: 3 }],
        attrs: vec![doc("/// not collapsed")],
        id: 12,
        where_: sp("w"),
    }
    .clean(&cx);
    assert_eq!(t.parents[0].path, "std::Eq");
    assert_eq!(t.attrs.len(), 1);
    assert!(matches!(t.attrs[0], Attribute::NameValue(_, ref v) if v == "not collapsed"));
    let i = doctree::Impl {
        generics: no_generics(),
        trait_: Some(TraitRef { path: path(&["Container"]), ref_id: 5 }),
        for_: ty(TyKind::TyPath(path(&["S"]), 1)),
        methods: vec![Box::new(method("m"))],
        attrs: vec![],
        where_: sp("w"),
    }
    .clean(&cx);
    assert!(matches!(i.for_, Type::Resolved(10)));
    assert_eq!(i.trait_.as_ref().map(|t| t.id), Some(5));
    assert_eq!(i.methods.len(), 1);
}
