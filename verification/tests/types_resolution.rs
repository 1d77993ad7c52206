use std::collections::HashMap;

use lib::ast::{
    Arg, DefId, FnDecl, Ident, IntTy, Lifetime, MutTy, Mutability, OptVec, Pat, PatKind, Path,
    PrimTy, Purity, RetStyle, Sigil, Onceness, Ty, TyBareFn, TyClosure, TyKind, TyParamBound,
    TraitRef,
};
use lib::clean::Clean;
use lib::context::{find_external_path, CrateData, Def, DefLike, DocContext, PathEntry};
use lib::types::{join_path, name_from_pat, resolve_type, Generics, Type, TyParamBound as Bound};

fn ident(s: &str) -> Ident {
    Ident { name: s.to_string() }
}

fn path(segs: &[&str]) -> Path {
    Path { idents: segs.iter().map(|s| ident(s)).collect() }
}

fn entry(p: &str, d: DefLike) -> PathEntry {
    PathEntry { path: p.to_string(), def: d }
}

fn local(node: i64) -> DefId {
    DefId { krate: 0, node }
}

fn context() -> DocContext {
    let mut def_map = HashMap::new();
    def_map.insert(1, Def::DefStruct(local(100)));
    def_map.insert(2, Def::DefPrimTy(PrimTy::TyStr));
    def_map.insert(3, Def::DefPrimTy(PrimTy::TyBool));
    def_map.insert(4, Def::DefPrimTy(PrimTy::TyInt(IntTy::TyI32)));
    def_map.insert(5, Def::DefTyParam(local(55), 0));
    def_map.insert(6, Def::DefSelf(66, false));
    def_map.insert(7, Def::DefTyparamBinder(77));
    def_map.insert(8, Def::DefTy(DefId { krate: 2, node: 10 }));
    def_map.insert(9, Def::DefTrait(DefId { krate: 2, node: 20 }));
    def_map.insert(10, Def::DefFn(DefId { krate: 2, node: 99 }, Purity::ImpureFn));
    def_map.insert(11, Def::DefSelfTy(111));
    let mut crates = HashMap::new();
    crates.insert(
        2,
        CrateData {
            name: "extra".to_string(),
            paths: vec![
                entry("old::Thing", DefLike::DlDef(Def::DefTy(DefId { krate: 2, node: 10 }))),
                entry("json::Json", DefLike::DlDef(Def::DefTy(DefId { krate: 2, node: 10 }))),
                entry("json::ToJson", DefLike::DlDef(Def::DefTrait(DefId { krate: 2, node: 20 }))),
                entry("json::field", DefLike::DlField),
                entry("json::impl", DefLike::DlImpl(DefId { krate: 2, node: 10 })),
            ],
        },
    );
    DocContext { def_map, crates }
}

fn ty(node: TyKind) -> Ty {
    Ty { id: 0, node }
}

fn show(t: &Type) -> String {
    match t {
        Type::Unresolved(i) => format!("Unresolved({})", i),
        Type::Resolved(i) => format!("Resolved({})", i),
        Type::External(p, k) => format!("External({},{})", p, k),
        Type::Generic(i) => format!("Generic({})", i),
        Type::Self_(i) => format!("Self({})", i),
        Type::Primitive(_) => "Primitive".to_string(),
        Type::Closure(c) => format!("Closure({} args->{})", c.decl.inputs.len(), show(&c.decl.output)),
        Type::BareFunction(b) => format!("BareFunction({},{})", b.abi, show(&b.decl.output)),
        Type::Tuple(v) => format!("Tuple({})", v.iter().map(show).collect::<Vec<_>>().join(",")),
        Type::Vector(t) => format!("Vector({})", show(t)),
        Type::String => "String".to_string(),
        Type::Bool => "Bool".to_string(),
        Type::Unit => "Unit".to_string(),
        Type::Bottom => "Bottom".to_string(),
        Type::Unique(t) => format!("Unique({})", show(t)),
        Type::Managed(t) => format!("Managed({})", show(t)),
        Type::RawPointer(t) => format!("RawPointer({})", show(t)),
        Type::BorrowedRef(t) => format!("BorrowedRef({})", show(t)),
    }
}

#[test]
fn resolution_of_each_kind_of_definition() {
    let cx = context();
    let r = |id: i64| show(&resolve_type(&cx, Type::Unresolved(id)));
    assert_eq!(r(1), "Resolved(100)");
    assert_eq!(r(2), "String");
    assert_eq!(r(3), "Bool");
    assert_eq!(r(4), "Primitive");
    assert_eq!(r(5), "Generic(55)");
    assert_eq!(r(6), "Self(66)");
    assert_eq!(r(7), "Resolved(77)");
    assert_eq!(r(11), "Self(111)");
}

#[test]
fn external_items_take_the_last_exported_path() {
    let cx = context();
    assert_eq!(show(&resolve_type(&cx, Type::Unresolved(8))), "External(extra::json::Json,enum)");
    assert_eq!(show(&resolve_type(&cx, Type::Unresolved(9))), "External(extra::json::ToJson,trait)");
    // No exported path names node 99: the path and kind stay empty.
    assert_eq!(show(&resolve_type(&cx, Type::Unresolved(10))), "External(extra::,)");
}

#[test]
fn find_external_path_kinds() {
    let entries = vec![
        entry("f", DefLike::DlDef(Def::DefFn(DefId { krate: 3, node: 1 }, Purity::UnsafeFn))),
        entry("S", DefLike::DlDef(Def::DefStruct(DefId { krate: 3, node: 2 }))),
        entry("other", DefLike::DlDef(Def::DefOther)),
    ];
    assert_eq!(find_external_path(&entries, 1), ("f".to_string(), "fn".to_string()));
    assert_eq!(find_external_path(&entries, 2), ("S".to_string(), "struct".to_string()));
    assert_eq!(find_external_path(&entries, 3), (String::new(), String::new()));
}

#[test]
fn resolved_types_pass_through() {
    let cx = context();
    assert_eq!(show(&resolve_type(&cx, Type::Bool)), "Bool");
    assert_eq!(show(&resolve_type(&cx, Type::Vector(Box::new(Type::Unit)))), "Vector(Unit)");
    let once = resolve_type(&cx, Type::Unresolved(1));
    let twice = resolve_type(&cx, once);
    assert_eq!(show(&twice), "Resolved(100)");
}

fn mt(t: Ty, m: Mutability) -> MutTy {
    MutTy { ty: Box::new(t), mutbl: m }
}

fn tpath(id: i64) -> Ty {
    ty(TyKind::TyPath(path(&["Foo"]), id))
}

#[test]
fn cleaning_types_resolves_every_path() {
    let cx = context();
    let t = ty(TyKind::TyTup(vec![
        tpath(1),
        ty(TyKind::TyPtr(mt(tpath(2), Mutability::MMutbl))),
        ty(TyKind::TyRptr(None, mt(tpath(3), Mutability::MImm))),
        ty(TyKind::TyBox(mt(ty(TyKind::TyNil), Mutability::MImm))),
        ty(TyKind::TyUniq(mt(tpath(5), Mutability::MImm))),
        ty(TyKind::TyVec(mt(tpath(8), Mutability::MConst))),
        ty(TyKind::TyBot),
    ]));
    assert_eq!(
        show(&t.clean(&cx)),
        "Tuple(Resolved(100),RawPointer(String),BorrowedRef(Bool),Unit,Generic(55),Vector(External(extra::json::Json,enum)),Bottom)"
    );
}

#[test]
fn cleaning_forgets_mutability() {
    let cx = context();
    let a = ty(TyKind::TyPtr(mt(tpath(1), Mutability::MMutbl))).clean(&cx);
    let b = ty(TyKind::TyPtr(mt(tpath(1), Mutability::MConst))).clean(&cx);
    assert_eq!(show(&a), show(&b));
    let r1 = ty(TyKind::TyRptr(Some(Lifetime { id: 0, ident: ident("a") }), mt(tpath(3), Mutability::MMutbl)))
        .clean(&cx);
    let r2 = ty(TyKind::TyRptr(None, mt(tpath(3), Mutability::MImm))).clean(&cx);
    assert_eq!(show(&r1), "BorrowedRef(Bool)");
    assert_eq!(show(&r1), show(&r2));
}

#[test]
fn cleaning_forgets_boxes() {
    let cx = context();
    let managed = ty(TyKind::TyBox(mt(tpath(1), Mutability::MMutbl))).clean(&cx);
    let unique = ty(TyKind::TyUniq(mt(tpath(1), Mutability::MImm))).clean(&cx);
    let bare = tpath(1).clean(&cx);
    assert_eq!(show(&managed), "Resolved(100)");
    assert_eq!(show(&managed), show(&unique));
    assert_eq!(show(&managed), show(&bare));
    let nested = ty(TyKind::TyUniq(mt(ty(TyKind::TyBox(mt(tpath(3), Mutability::MImm))), Mutability::MImm)))
        .clean(&cx);
    assert_eq!(show(&nested), "Bool");
}

#[test]
fn cleaning_a_type_twice_gives_the_same_type() {
    let cx = context();
    let t = ty(TyKind::TyTup(vec![
        ty(TyKind::TyVec(mt(tpath(8), Mutability::MImm))),
        ty(TyKind::TyUniq(mt(tpath(4), Mutability::MImm))),
        ty(TyKind::TyRptr(None, mt(tpath(6), Mutability::MMutbl))),
    ]));
    let first = t.clean(&cx);
    let second = t.clean(&cx);
    assert_eq!(show(&first), "Tuple(Vector(External(extra::json::Json,enum)),Primitive,BorrowedRef(Self(66)))");
    assert_eq!(show(&first), show(&second));
}

fn arg(p: PatKind, t: Ty) -> Arg {
    Arg { is_mutbl: false, ty: t, pat: Box::new(Pat { id: 0, node: p }), id: 9 }
}

#[test]
fn closure_and_bare_function_types() {
    let cx = context();
    let decl = FnDecl {
        inputs: vec![arg(PatKind::PatIdent(path(&["x"])), tpath(3)), arg(PatKind::PatWild, tpath(4))],
        output: tpath(2),
        cf: RetStyle::ReturnVal,
    };
    let c = TyClosure {
        sigil: Sigil::BorrowedSigil,
        region: Some(Lifetime { id: 0, ident: ident("a") }),
        lifetimes: OptVec::Empty,
        purity: Purity::ImpureFn,
        onceness: Onceness::Many,
        decl,
        bounds: Some(OptVec::Vec(vec![
            TyParamBound::RegionTyParamBound,
            TyParamBound::TraitTyParamBound(TraitRef { path: path(&["std", "Send"]), ref_id: 4 }),
        ])),
    };
    let d = c.clean(&cx);
    assert_eq!(d.decl.inputs.len(), 2);
    assert_eq!(d.decl.inputs[0].name, "x");
    assert_eq!(d.decl.inputs[1].name, "_");
    assert_eq!(show(&d.decl.inputs[0].ty), "Bool");
    assert_eq!(show(&d.decl.output), "String");
    assert_eq!(d.region.as_ref().map(|l| l.0.clone()), Some("a".to_string()));
    assert_eq!(d.bounds.len(), 2);
    match &d.bounds[1] {
        Bound::TraitBound(t) => assert_eq!(t.path, "std::Send"),
        _ => panic!("expected a trait bound"),
    }
    assert!(d.decl.attrs.is_empty());

    let b = TyBareFn {
        purity: Purity::ExternFn,
        abis: "\"C\"".to_string(),
        lifetimes: OptVec::Vec(vec![Lifetime { id: 1, ident: ident("b") }]),
        decl: FnDecl { inputs: vec![], output: ty(TyKind::TyNil), cf: RetStyle::NoReturn },
    };
    let t = ty(TyKind::TyBareFn(Box::new(b))).clean(&cx);
    assert_eq!(show(&t), "BareFunction(\"C\",Unit)");
    if let Type::BareFunction(bf) = &t {
        assert_eq!(bf.generics.lifetimes.len(), 1);
        assert_eq!(bf.generics.lifetimes[0].0, "b");
        assert!(bf.generics.type_params.is_empty());
    }
}

#[test]
fn argument_names_from_patterns() {
    let p = |k: PatKind| Pat { id: 0, node: k };
    assert_eq!(name_from_pat(&p(PatKind::PatWild)), "_");
    assert_eq!(name_from_pat(&p(PatKind::PatIdent(path(&["self"])))), "self");
    assert_eq!(name_from_pat(&p(PatKind::PatEnum(path(&["Some"])))), "Some");
    assert_eq!(name_from_pat(&p(PatKind::PatTup)), "(tuple arg NYI)");
    let boxed = p(PatKind::PatBox(Box::new(p(PatKind::PatRegion(Box::new(p(PatKind::PatIdent(path(&["v"])))))))));
    assert_eq!(name_from_pat(&boxed), "v");
    assert_eq!(name_from_pat(&p(PatKind::PatUniq(Box::new(p(PatKind::PatWild))))), "_");
}

#[test]
fn paths_join_with_double_colons() {
    assert_eq!(join_path(&path(&["std", "vec", "Vec"]).idents), "std::vec::Vec");
    assert_eq!(join_path(&path(&["x"]).idents), "x");
    assert_eq!(join_path(&vec![]), "");
    let cx = context();
    assert_eq!(path(&["a", "b"]).clean(&cx), "a::b");
}

#[test]
fn generics_new_is_empty() {
    let g = Generics::new();
    assert!(g.lifetimes.is_empty());
    assert!(g.type_params.is_empty());
}

#[test]
fn clones_are_the_same() {
    let cx = context();
    let t = ty(TyKind::TyTup(vec![tpath(8), ty(TyKind::TyPtr(mt(tpath(5), Mutability::MImm)))])).clean(&cx);
    let c = t.clone();
    assert_eq!(show(&c), show(&t));
    assert_eq!(show(&c), "Tuple(External(extra::json::Json,enum),RawPointer(Generic(55)))");
    let g = Generics::new();
    let g2 = g.clone();
    assert!(g2.lifetimes.is_empty() && g2.type_params.is_empty());
}
