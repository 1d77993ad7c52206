//! Types and declarations: their cleaned forms, the resolution of type
//! paths through the resolver and the crate store, and the names that
//! argument patterns give.
use vstd::prelude::*;

use crate::ast;
use crate::ast::{NodeId, CRATE_NODE_ID};
use crate::attrs::Attribute;
use crate::clean::Clean;
use crate::context::{
    entry_names, external_path_and_kind, find_external_path, lemma_last_entry_naming_is_last,
    no_module_named, Def, DefLike, DocContext,
};
use crate::copies::{
    lemma_same_type_reflexive, same_argument, same_bare_fn, same_bounds, same_closure,
    same_fn_decl, same_lifetimes, same_opt_lifetime, same_type,
};

verus! {

broadcast use vstd::std_specs::hash::group_hash_axioms;

// ---------------------------------------------------------------------------
// Names, paths and generics
// ---------------------------------------------------------------------------

impl Clean<String> for ast::Ident {
    open spec fn clean_requires(&self, cx: &DocContext) -> bool {
        true
    }

    open spec fn clean_ensures(&self, cx: &DocContext, out: String) -> bool {
        out@ == self.name@
    }

    fn clean(&self, cx: &DocContext) -> (out: String) {
        self.name.clone()
    }
}

/// The segments of a path joined by `::`.
pub open spec fn path_text(idents: Seq<ast::Ident>) -> Seq<char>
    decreases idents.len(),
{
    if idents.len() == 0 {
        Seq::empty()
    } else if idents.len() == 1 {
        idents[0].name@
    } else {
        path_text(idents.drop_last()) + "::"@ + idents.last().name@
    }
}

/// Joins the segments of a path with `::`.
pub fn join_path(idents: &Vec<ast::Ident>) -> (s: String)
    ensures
        s@ == path_text(idents@),
{
    proof {
        reveal_strlit("::");
    }
    let mut s = String::new();
    let mut first = true;
    let mut i: usize = 0;
    while i < idents.len()
        invariant
            i <= idents@.len(),
            first == (i == 0),
            s@ == path_text(idents@.take(i as int)),
        decreases idents@.len() - i,
    {
        if !first {
            s.append("::");
        } else {
            first = false;
        }
        s.append(idents[i].name.as_str());
        proof {
            let t = idents@.take(i + 1);
            assert(t.drop_last() =~= idents@.take(i as int));
            assert(s@ =~= path_text(t));
        }
        i = i + 1;
    }
    assert(idents@.take(idents@.len() as int) =~= idents@);
    s
}

impl Clean<String> for ast::Path {
    open spec fn clean_requires(&self, cx: &DocContext) -> bool {
        true
    }

    open spec fn clean_ensures(&self, cx: &DocContext, out: String) -> bool {
        out@ == path_text(self.idents@)
    }

    fn clean(&self, cx: &DocContext) -> (out: String) {
        let r = join_path(&self.idents);
        assert(self.clean_ensures(cx, r));
        r
    }
}

/// A lifetime, by its name.
pub struct Lifetime(pub String);

impl Clean<Lifetime> for ast::Lifetime {
    open spec fn clean_requires(&self, cx: &DocContext) -> bool {
        true
    }

    open spec fn clean_ensures(&self, cx: &DocContext, out: Lifetime) -> bool {
        out.0@ == self.ident.name@
    }

    fn clean(&self, cx: &DocContext) -> (out: Lifetime) {
        Lifetime(self.ident.clean(cx))
    }
}

/// A reference to a trait, by its path.
pub struct TraitRef {
    pub path: String,
    pub id: NodeId,
}

impl Clean<TraitRef> for ast::TraitRef {
    open spec fn clean_requires(&self, cx: &DocContext) -> bool {
        true
    }

    open spec fn clean_ensures(&self, cx: &DocContext, out: TraitRef) -> bool {
        out.path@ == path_text(self.path.idents@) && out.id == self.ref_id
    }

    fn clean(&self, cx: &DocContext) -> (out: TraitRef) {
        TraitRef { path: self.path.clean(cx), id: self.ref_id }
    }
}

pub enum TyParamBound {
    RegionBound,
    TraitBound(TraitRef),
}

impl Clean<TyParamBound> for ast::TyParamBound {
    open spec fn clean_requires(&self, cx: &DocContext) -> bool {
        true
    }

    open spec fn clean_ensures(&self, cx: &DocContext, out: TyParamBound) -> bool {
        match (self, out) {
            (ast::TyParamBound::RegionTyParamBound, TyParamBound::RegionBound) => true,
            (ast::TyParamBound::TraitTyParamBound(t), TyParamBound::TraitBound(o)) => t.clean_ensures(
                cx,
                o,
            ),
            _ => false,
        }
    }

    fn clean(&self, cx: &DocContext) -> (out: TyParamBound) {
        match self {
            ast::TyParamBound::RegionTyParamBound => TyParamBound::RegionBound,
            ast::TyParamBound::TraitTyParamBound(t) => TyParamBound::TraitBound(t.clean(cx)),
        }
    }
}

pub struct TyParam {
    pub name: String,
    pub node: NodeId,
    pub bounds: Vec<TyParamBound>,
}

impl Clean<TyParam> for ast::TyParam {
    open spec fn clean_requires(&self, cx: &DocContext) -> bool {
        true
    }

    open spec fn clean_ensures(&self, cx: &DocContext, out: TyParam) -> bool {
        &&& out.name@ == self.ident.name@
        &&& out.node == self.id
        &&& self.bounds.clean_ensures(cx, out.bounds)
    }

    fn clean(&self, cx: &DocContext) -> (out: TyParam) {
        TyParam { name: self.ident.clean(cx), node: self.id, bounds: self.bounds.clean(cx) }
    }
}

pub struct Generics {
    pub lifetimes: Vec<Lifetime>,
    pub type_params: Vec<TyParam>,
}

impl Generics {
    /// Generics with no lifetimes and no type parameters.
    pub fn new() -> (g: Generics)
        ensures
            g.lifetimes@.len() == 0,
            g.type_params@.len() == 0,
    {
        Generics { lifetimes: Vec::new(), type_params: Vec::new() }
    }
}

impl Clean<Generics> for ast::Generics {
    open spec fn clean_requires(&self, cx: &DocContext) -> bool {
        true
    }

    open spec fn clean_ensures(&self, cx: &DocContext, out: Generics) -> bool {
        &&& self.lifetimes.clean_ensures(cx, out.lifetimes)
        &&& self.ty_params.clean_ensures(cx, out.type_params)
    }

    fn clean(&self, cx: &DocContext) -> (out: Generics) {
        Generics { lifetimes: self.lifetimes.clean(cx), type_params: self.ty_params.clean(cx) }
    }
}

// ---------------------------------------------------------------------------
// Qualifiers
// ---------------------------------------------------------------------------

#[derive(Clone, Copy, Debug, PartialEq, Eq, Structural)]
pub enum Mutability {
    Mutable,
    Immutable,
    Const,
}

impl Clean<Mutability> for ast::Mutability {
    open spec fn clean_requires(&self, cx: &DocContext) -> bool {
        true
    }

    open spec fn clean_ensures(&self, cx: &DocContext, out: Mutability) -> bool {
        out == match self {
            ast::Mutability::MMutbl => Mutability::Mutable,
            ast::Mutability::MImm => Mutability::Immutable,
            ast::Mutability::MConst => Mutability::Const,
        }
    }

    fn clean(&self, cx: &DocContext) -> (out: Mutability) {
        match self {
            ast::Mutability::MMutbl => Mutability::Mutable,
            ast::Mutability::MImm => Mutability::Immutable,
            ast::Mutability::MConst => Mutability::Const,
        }
    }
}

#[derive(Clone, Copy, Debug, PartialEq, Eq, Structural)]
pub enum RetStyle {
    NoReturn,
    Return,
}

impl Clean<RetStyle> for ast::RetStyle {
    open spec fn clean_requires(&self, cx: &DocContext) -> bool {
        true
    }

    open spec fn clean_ensures(&self, cx: &DocContext, out: RetStyle) -> bool {
        out == match self {
            ast::RetStyle::ReturnVal => RetStyle::Return,
            ast::RetStyle::NoReturn => RetStyle::NoReturn,
        }
    }

    fn clean(&self, cx: &DocContext) -> (out: RetStyle) {
        match self {
            ast::RetStyle::ReturnVal => RetStyle::Return,
            ast::RetStyle::NoReturn => RetStyle::NoReturn,
        }
    }
}

/// The kind of the `self` argument of a method.
pub enum SelfTy {
    SelfStatic,
    SelfValue,
    SelfBorrowed(Option<Lifetime>, Mutability),
    SelfManaged(Mutability),
    SelfOwned,
}

impl Clean<SelfTy> for ast::ExplicitSelfKind {
    open spec fn clean_requires(&self, cx: &DocContext) -> bool {
        true
    }

    open spec fn clean_ensures(&self, cx: &DocContext, out: SelfTy) -> bool {
        match (self, out) {
            (ast::ExplicitSelfKind::StyStatic, SelfTy::SelfStatic) => true,
            (ast::ExplicitSelfKind::StyValue, SelfTy::SelfValue) => true,
            (ast::ExplicitSelfKind::StyUniq, SelfTy::SelfOwned) => true,
            (ast::ExplicitSelfKind::StyRegion(lt, mt), SelfTy::SelfBorrowed(olt, omt)) => {
                &&& lt.clean_ensures(cx, olt)
                &&& mt.clean_ensures(cx, omt)
            },
            (ast::ExplicitSelfKind::StyBox(mt), SelfTy::SelfManaged(omt)) => mt.clean_ensures(
                cx,
                omt,
            ),
            _ => false,
        }
    }

    fn clean(&self, cx: &DocContext) -> (out: SelfTy) {
        match self {
            ast::ExplicitSelfKind::StyStatic => SelfTy::SelfStatic,
            ast::ExplicitSelfKind::StyValue => SelfTy::SelfValue,
            ast::ExplicitSelfKind::StyUniq => SelfTy::SelfOwned,
            ast::ExplicitSelfKind::StyRegion(lt, mt) => SelfTy::SelfBorrowed(
                lt.clean(cx),
                mt.clean(cx),
            ),
            ast::ExplicitSelfKind::StyBox(mt) => SelfTy::SelfManaged(mt.clean(cx)),
        }
    }
}

// ---------------------------------------------------------------------------
// Types
// ---------------------------------------------------------------------------

/// A type, in a form suited to linking: it keeps which item a path names,
/// but not mutability or the kinds of box.
pub enum Type {
    /// A path not yet looked up in the resolver.
    Unresolved(NodeId),
    /// A structure, enumeration, trait or function of this crate.
    Resolved(NodeId),
    /// An item of an external crate: its full path and its kind.
    External(String, String),
    /// A type parameter.
    Generic(NodeId),
    /// `Self`.
    Self_(NodeId),
    /// A numeric type.
    Primitive(ast::PrimTy),
    Closure(Box<ClosureDecl>),
    BareFunction(Box<BareFunctionDecl>),
    Tuple(Vec<Type>),
    Vector(Box<Type>),
    String,
    Bool,
    Unit,
    Bottom,
    /// A unique box. Cleaning drops boxes, so it gives the pointee in its
    /// place and never this form.
    Unique(Box<Type>),
    /// A managed box; like `Unique`, never the result of cleaning.
    Managed(Box<Type>),
    RawPointer(Box<Type>),
    BorrowedRef(Box<Type>),
}

pub struct Argument {
    pub ty: Type,
    pub name: String,
    pub id: NodeId,
}

pub struct FnDecl {
    pub inputs: Vec<Argument>,
    pub output: Type,
    pub cf: RetStyle,
    pub attrs: Vec<Attribute>,
}

pub struct ClosureDecl {
    pub sigil: ast::Sigil,
    pub region: Option<Lifetime>,
    pub lifetimes: Vec<Lifetime>,
    pub decl: FnDecl,
    pub onceness: ast::Onceness,
    pub purity: ast::Purity,
    pub bounds: Vec<TyParamBound>,
}

pub struct BareFunctionDecl {
    pub purity: ast::Purity,
    pub generics: Generics,
    pub decl: FnDecl,
    pub abi: String,
}

// ---------------------------------------------------------------------------
// Resolution
// ---------------------------------------------------------------------------

/// The resolver knows `id`, and what it names can stand for a type: not a
/// module nor a value; an item of an external crate is in the crate store,
/// and no exported path there names it as a module.
pub open spec fn resolvable(cx: &DocContext, id: NodeId) -> bool {
    &&& cx.def_map@.contains_key(id)
    &&& match cx.def_map@[id] {
        Def::DefSelf(..) | Def::DefSelfTy(..) | Def::DefPrimTy(..) | Def::DefTyParam(..)
        | Def::DefTyparamBinder(..) => true,
        Def::DefFn(i, _) | Def::DefTy(i) | Def::DefTrait(i) | Def::DefStruct(i) => i.krate
            != CRATE_NODE_ID ==> {
            &&& cx.crates@.contains_key(i.krate)
            &&& no_module_named(cx.crates@[i.krate].paths@, i.node)
        },
        Def::DefMod(..) | Def::DefOther => false,
    }
}

/// `out` is what the path node `id` resolves to: `Self`, a primitive
/// (`str` and `bool` have types of their own), a type parameter, an item of
/// this crate by its node, or an item of an external crate by the crate's
/// name, `::`, the path the crate exports it under, and its kind.
pub open spec fn resolves_to(cx: &DocContext, id: NodeId, out: Type) -> bool {
    &&& cx.def_map@.contains_key(id)
    &&& match cx.def_map@[id] {
        Def::DefSelf(i, _) => out == Type::Self_(i),
        Def::DefSelfTy(i) => out == Type::Self_(i),
        Def::DefPrimTy(p) => match p {
            ast::PrimTy::TyStr => out == Type::String,
            ast::PrimTy::TyBool => out == Type::Bool,
            _ => out == Type::Primitive(p),
        },
        Def::DefTyParam(i, _) => out == Type::Generic(i.node),
        Def::DefTyparamBinder(i) => out == Type::Resolved(i),
        Def::DefFn(i, _) | Def::DefTy(i) | Def::DefTrait(i) | Def::DefStruct(i) => if i.krate
            != CRATE_NODE_ID {
            let c = cx.crates@[i.krate];
            let (path, kind) = external_path_and_kind(c.paths@, i.node);
            out matches Type::External(p, k) && p@ == c.name@ + "::"@ + path && k@ == kind
        } else {
            out == Type::Resolved(i.node)
        },
        Def::DefMod(..) | Def::DefOther => false,
    }
}

/// Resolves a type: a path not yet looked up is looked up in the resolver
/// (and, for an external item, in the crate store); any other type is
/// returned as it is.
pub fn resolve_type(cx: &DocContext, t: Type) -> (r: Type)
    requires
        t matches Type::Unresolved(id) ==> resolvable(cx, id),
    ensures
        match t {
            Type::Unresolved(id) => resolves_to(cx, id, r),
            _ => r == t,
        },
{
    let id = match &t {
        Type::Unresolved(id) => *id,
        _ => return t,
    };
    let d = match cx.def_map.get(&id) {
        Some(k) => *k,
        None => {
            proof {
                assert(false);
            }
            return t;
        },
    };
    let def_id = match d {
        Def::DefFn(i, _) => i,
        Def::DefSelf(i, _) => return Type::Self_(i),
        Def::DefSelfTy(i) => return Type::Self_(i),
        Def::DefTy(i) => i,
        Def::DefTrait(i) => i,
        Def::DefPrimTy(p) => {
            return match p {
                ast::PrimTy::TyStr => Type::String,
                ast::PrimTy::TyBool => Type::Bool,
                _ => Type::Primitive(p),
            };
        },
        Def::DefTyParam(i, _) => return Type::Generic(i.node),
        Def::DefStruct(i) => i,
        Def::DefTyparamBinder(i) => return Type::Resolved(i),
        _ => {
            proof {
                assert(false);
            }
            return t;
        },
    };
    if def_id.krate != CRATE_NODE_ID {
        let cdata = match cx.crates.get(&def_id.krate) {
            Some(c) => c,
            None => {
                proof {
                    assert(false);
                }
                return t;
            },
        };
        let (path, ty) = find_external_path(&cdata.paths, def_id.node);
        let mut name = cdata.name.clone();
        proof {
            reveal_strlit("::");
        }
        name.append("::");
        name.append(path.as_str());
        Type::External(name, ty)
    } else {
        Type::Resolved(def_id.node)
    }
}

/// What a path resolves to is never an unresolved path.
pub proof fn lemma_resolution_is_final(cx: &DocContext, id: NodeId, out: Type)
    requires
        resolves_to(cx, id, out),
    ensures
        !(out is Unresolved),
{
}

/// A path resolves to a primitive only for the numeric types: `str` and
/// `bool` resolve to types of their own.
pub proof fn lemma_primitives_are_numeric(cx: &DocContext, id: NodeId, out: Type)
    requires
        resolves_to(cx, id, out),
        out is Primitive,
    ensures
        out->Primitive_0 matches ast::PrimTy::TyInt(_) || out->Primitive_0 matches ast::PrimTy::TyUint(
            _,
        ) || out->Primitive_0 matches ast::PrimTy::TyFloat(_),
{
}

/// Resolving a type twice gives what resolving it once gives: the first
/// resolution leaves no unresolved path, and a type that is not an
/// unresolved path resolves to itself.
pub proof fn lemma_resolve_twice(cx: &DocContext, t: Type, once: Type, twice: Type)
    requires
        match t {
            Type::Unresolved(id) => resolves_to(cx, id, once),
            _ => once == t,
        },
        match once {
            Type::Unresolved(id) => resolves_to(cx, id, twice),
            _ => twice == once,
        },
    ensures
        twice == once,
{
}

// ---------------------------------------------------------------------------
// Patterns
// ---------------------------------------------------------------------------

/// An argument pattern gives a name: it is not a structure, literal, range
/// or vector pattern, nor does one stand inside the boxes and references
/// around it.
pub open spec fn pat_named(p: ast::Pat) -> bool
    decreases p,
{
    match p.node {
        ast::PatKind::PatStruct | ast::PatKind::PatLit | ast::PatKind::PatRange
        | ast::PatKind::PatVec => false,
        ast::PatKind::PatBox(q) => pat_named(*q),
        ast::PatKind::PatUniq(q) => pat_named(*q),
        ast::PatKind::PatRegion(q) => pat_named(*q),
        _ => true,
    }
}

/// The name an argument pattern gives: `_` for a wildcard, the path of an
/// identifier or enumeration pattern, a placeholder for a tuple, and the
/// name of the pattern inside a box or reference.
pub open spec fn pat_name(p: ast::Pat) -> Seq<char>
    decreases p,
{
    match p.node {
        ast::PatKind::PatWild => "_"@,
        ast::PatKind::PatIdent(path) => path_text(path.idents@),
        ast::PatKind::PatEnum(path) => path_text(path.idents@),
        ast::PatKind::PatTup => "(tuple arg NYI)"@,
        ast::PatKind::PatBox(q) => pat_name(*q),
        ast::PatKind::PatUniq(q) => pat_name(*q),
        ast::PatKind::PatRegion(q) => pat_name(*q),
        _ => Seq::empty(),
    }
}

/// The name an argument pattern gives.
pub fn name_from_pat(p: &ast::Pat) -> (r: String)
    requires
        pat_named(*p),
    ensures
        r@ == pat_name(*p),
    decreases p,
{
    proof {
        reveal_strlit("_");
        reveal_strlit("(tuple arg NYI)");
    }
    match &p.node {
        ast::PatKind::PatWild => String::from_str("_"),
        ast::PatKind::PatIdent(path) => join_path(&path.idents),
        ast::PatKind::PatEnum(path) => join_path(&path.idents),
        ast::PatKind::PatTup => String::from_str("(tuple arg NYI)"),
        ast::PatKind::PatBox(q) => name_from_pat(q),
        ast::PatKind::PatUniq(q) => name_from_pat(q),
        ast::PatKind::PatRegion(q) => name_from_pat(q),
        _ => {
            proof {
                assert(false);
            }
            String::new()
        },
    }
}

// ---------------------------------------------------------------------------
// Cleaning types and declarations
// ---------------------------------------------------------------------------

/// A type as written can be cleaned: it holds no macro and no type left to
/// inference, every path in it is resolvable, and every argument pattern
/// in it gives a name.
pub open spec fn ty_cleanable(cx: &DocContext, ty: ast::Ty) -> bool
    decreases ty,
{
    match ty.node {
        ast::TyKind::TyNil => true,
        ast::TyKind::TyBot => true,
        ast::TyKind::TyBox(m) => ty_cleanable(cx, *m.ty),
        ast::TyKind::TyUniq(m) => ty_cleanable(cx, *m.ty),
        ast::TyKind::TyVec(m) => ty_cleanable(cx, *m.ty),
        ast::TyKind::TyFixedLengthVec(m, _) => ty_cleanable(cx, *m.ty),
        ast::TyKind::TyPtr(m) => ty_cleanable(cx, *m.ty),
        ast::TyKind::TyRptr(_, m) => ty_cleanable(cx, *m.ty),
        ast::TyKind::TyClosure(c) => fn_decl_cleanable(cx, c.decl),
        ast::TyKind::TyBareFn(b) => fn_decl_cleanable(cx, b.decl),
        ast::TyKind::TyTup(tys) => forall|i: int|
            0 <= i < tys@.len() ==> ty_cleanable(cx, #[trigger] tys@[i]),
        ast::TyKind::TyPath(_, id) => resolvable(cx, id),
        ast::TyKind::TyMac => false,
        ast::TyKind::TyInfer => false,
    }
}

/// Every argument and the result of a declaration can be cleaned.
pub open spec fn fn_decl_cleanable(cx: &DocContext, f: ast::FnDecl) -> bool
    decreases f,
{
    &&& forall|i: int| 0 <= i < f.inputs@.len() ==> arg_cleanable(cx, #[trigger] f.inputs@[i])
    &&& ty_cleanable(cx, f.output)
}

/// An argument can be cleaned: its pattern gives a name and its type can be cleaned.
pub open spec fn arg_cleanable(cx: &DocContext, a: ast::Arg) -> bool
    decreases a,
{
    pat_named(*a.pat) && ty_cleanable(cx, a.ty)
}

/// `out` is the cleaned form of the type `ty`: the same shape, with every
/// path resolved, the pointee of each pointer and vector cleaned, closures
/// and bare functions by their cleaned declarations. Boxes are not kept: a
/// managed or unique box cleans to its cleaned pointee.
pub open spec fn ty_cleans_to(cx: &DocContext, ty: ast::Ty, out: Type) -> bool
    decreases ty,
{
    match ty.node {
        ast::TyKind::TyNil => out matches Type::Unit,
        ast::TyKind::TyBot => out matches Type::Bottom,
        ast::TyKind::TyBox(m) => ty_cleans_to(cx, *m.ty, out),
        ast::TyKind::TyUniq(m) => ty_cleans_to(cx, *m.ty, out),
        ast::TyKind::TyVec(m) => out matches Type::Vector(o) && ty_cleans_to(cx, *m.ty, *o),
        ast::TyKind::TyFixedLengthVec(m, _) => out matches Type::Vector(o) && ty_cleans_to(cx, *m.ty, *o),
        ast::TyKind::TyPtr(m) => out matches Type::RawPointer(o) && ty_cleans_to(cx, *m.ty, *o),
        ast::TyKind::TyRptr(_, m) => out matches Type::BorrowedRef(o) && ty_cleans_to(cx, *m.ty, *o),
        ast::TyKind::TyClosure(c) => out matches Type::Closure(d) && closure_cleans_to(cx, *c, *d),
        ast::TyKind::TyBareFn(b) => out matches Type::BareFunction(d) && bare_fn_cleans_to(
            cx,
            *b,
            *d,
        ),
        ast::TyKind::TyTup(tys) => out matches Type::Tuple(v) && v@.len() == tys@.len() && forall|
            i: int,
        |
            0 <= i < tys@.len() ==> ty_cleans_to(cx, #[trigger] tys@[i], v@[i]),
        ast::TyKind::TyPath(_, id) => resolves_to(cx, id, out),
        ast::TyKind::TyMac => false,
        ast::TyKind::TyInfer => false,
    }
}

/// `d` is the cleaned form of the declaration `f`: its arguments and result
/// cleaned, no attributes.
pub open spec fn fn_decl_cleans_to(cx: &DocContext, f: ast::FnDecl, d: FnDecl) -> bool
    decreases f,
{
    &&& d.inputs@.len() == f.inputs@.len()
    &&& forall|i: int|
        0 <= i < f.inputs@.len() ==> arg_cleans_to(cx, #[trigger] f.inputs@[i], d.inputs@[i])
    &&& ty_cleans_to(cx, f.output, d.output)
    &&& f.cf.clean_ensures(cx, d.cf)
    &&& d.attrs@.len() == 0
}

/// `o` is the cleaned form of the argument `a`: the name its pattern
/// gives, its type cleaned, its node.
pub open spec fn arg_cleans_to(cx: &DocContext, a: ast::Arg, o: Argument) -> bool
    decreases a,
{
    &&& o.name@ == pat_name(*a.pat)
    &&& ty_cleans_to(cx, a.ty, o.ty)
    &&& o.id == a.id
}

/// `d` is the cleaned form of the closure type `c`.
pub open spec fn closure_cleans_to(cx: &DocContext, c: ast::TyClosure, d: ClosureDecl) -> bool
    decreases c,
{
    &&& d.sigil == c.sigil
    &&& c.region.clean_ensures(cx, d.region)
    &&& c.lifetimes.clean_ensures(cx, d.lifetimes)
    &&& fn_decl_cleans_to(cx, c.decl, d.decl)
    &&& d.onceness == c.onceness
    &&& d.purity == c.purity
    &&& match c.bounds {
        Some(b) => b.clean_ensures(cx, d.bounds),
        None => d.bounds@.len() == 0,
    }
}

/// `d` is the cleaned form of the bare function type `b`: its lifetimes as
/// the only generics, its declaration cleaned, its ABI set as rendered.
pub open spec fn bare_fn_cleans_to(cx: &DocContext, b: ast::TyBareFn, d: BareFunctionDecl) -> bool
    decreases b,
{
    &&& d.purity == b.purity
    &&& b.lifetimes.clean_ensures(cx, d.generics.lifetimes)
    &&& d.generics.type_params@.len() == 0
    &&& fn_decl_cleans_to(cx, b.decl, d.decl)
    &&& d.abi@ == b.abis@
}

/// A cleaned type is never an unresolved path: cleaning resolves every
/// path it meets.
pub proof fn lemma_cleaned_type_is_resolved(cx: &DocContext, ty: ast::Ty, out: Type)
    requires
        ty_cleans_to(cx, ty, out),
    ensures
        !(out is Unresolved),
    decreases ty,
{
    match ty.node {
        ast::TyKind::TyBox(m) => lemma_cleaned_type_is_resolved(cx, *m.ty, out),
        ast::TyKind::TyUniq(m) => lemma_cleaned_type_is_resolved(cx, *m.ty, out),
        _ => {},
    }
}

/// Cleaning forgets mutability: a pointer, reference, box or vector type
/// cleans to the same form whatever mutability it is reached with (and a
/// reference whatever its region).
pub proof fn lemma_clean_forgets_mutability(
    cx: &DocContext,
    id: NodeId,
    pointee: Box<ast::Ty>,
    m1: ast::Mutability,
    m2: ast::Mutability,
    region: Option<ast::Lifetime>,
    len: Box<ast::Expr>,
    out: Type,
)
    ensures
        ty_cleans_to(
            cx,
            ast::Ty { id, node: ast::TyKind::TyPtr(ast::MutTy { ty: pointee, mutbl: m1 }) },
            out,
        ) == ty_cleans_to(
            cx,
            ast::Ty { id, node: ast::TyKind::TyPtr(ast::MutTy { ty: pointee, mutbl: m2 }) },
            out,
        ),
        ty_cleans_to(
            cx,
            ast::Ty { id, node: ast::TyKind::TyVec(ast::MutTy { ty: pointee, mutbl: m1 }) },
            out,
        ) == ty_cleans_to(
            cx,
            ast::Ty { id, node: ast::TyKind::TyVec(ast::MutTy { ty: pointee, mutbl: m2 }) },
            out,
        ),
        ty_cleans_to(
            cx,
            ast::Ty {
                id,
                node: ast::TyKind::TyFixedLengthVec(ast::MutTy { ty: pointee, mutbl: m1 }, len),
            },
            out,
        ) == ty_cleans_to(
            cx,
            ast::Ty {
                id,
                node: ast::TyKind::TyFixedLengthVec(ast::MutTy { ty: pointee, mutbl: m2 }, len),
            },
            out,
        ),
        ty_cleans_to(
            cx,
            ast::Ty { id, node: ast::TyKind::TyRptr(region, ast::MutTy { ty: pointee, mutbl: m1 }) },
            out,
        ) == ty_cleans_to(
            cx,
            ast::Ty { id, node: ast::TyKind::TyRptr(None, ast::MutTy { ty: pointee, mutbl: m2 }) },
            out,
        ),
        ty_cleans_to(
            cx,
            ast::Ty { id, node: ast::TyKind::TyBox(ast::MutTy { ty: pointee, mutbl: m1 }) },
            out,
        ) == ty_cleans_to(
            cx,
            ast::Ty { id, node: ast::TyKind::TyBox(ast::MutTy { ty: pointee, mutbl: m2 }) },
            out,
        ),
        ty_cleans_to(
            cx,
            ast::Ty { id, node: ast::TyKind::TyUniq(ast::MutTy { ty: pointee, mutbl: m1 }) },
            out,
        ) == ty_cleans_to(
            cx,
            ast::Ty { id, node: ast::TyKind::TyUniq(ast::MutTy { ty: pointee, mutbl: m2 }) },
            out,
        ),
{
}

/// Cleaning forgets boxes: a managed box and a unique box around the same
/// pointee clean to the same type, and that type is the cleaned pointee.
pub proof fn lemma_clean_forgets_boxes(
    cx: &DocContext,
    id: NodeId,
    pointee: Box<ast::Ty>,
    m1: ast::Mutability,
    m2: ast::Mutability,
    out: Type,
)
    ensures
        ty_cleans_to(
            cx,
            ast::Ty { id, node: ast::TyKind::TyBox(ast::MutTy { ty: pointee, mutbl: m1 }) },
            out,
        ) == ty_cleans_to(
            cx,
            ast::Ty { id, node: ast::TyKind::TyUniq(ast::MutTy { ty: pointee, mutbl: m2 }) },
            out,
        ),
        ty_cleans_to(
            cx,
            ast::Ty { id, node: ast::TyKind::TyBox(ast::MutTy { ty: pointee, mutbl: m1 }) },
            out,
        ) == ty_cleans_to(cx, *pointee, out),
{
}

proof fn lemma_lifetimes_determined(
    cx: &DocContext,
    l: ast::OptVec<ast::Lifetime>,
    x: Vec<Lifetime>,
    y: Vec<Lifetime>,
)
    requires
        l.clean_ensures(cx, x),
        l.clean_ensures(cx, y),
    ensures
        same_lifetimes(x@, y@),
{
    if let ast::OptVec::Vec(v) = l {
        assert forall|i: int| 0 <= i < x@.len() implies #[trigger] x@[i].0@ == y@[i].0@ by {
            assert(v@[i].clean_ensures(cx, x@[i]));
            assert(v@[i].clean_ensures(cx, y@[i]));
        }
    }
}

proof fn lemma_bounds_determined(
    cx: &DocContext,
    l: ast::OptVec<ast::TyParamBound>,
    x: Vec<TyParamBound>,
    y: Vec<TyParamBound>,
)
    requires
        l.clean_ensures(cx, x),
        l.clean_ensures(cx, y),
    ensures
        same_bounds(x@, y@),
{
    if let ast::OptVec::Vec(v) = l {
        assert forall|i: int| 0 <= i < x@.len() implies crate::copies::same_bound(
            #[trigger] x@[i],
            y@[i],
        ) by {
            assert(v@[i].clean_ensures(cx, x@[i]));
            assert(v@[i].clean_ensures(cx, y@[i]));
        }
    }
}

/// Cleaning a type has one result: two cleaned forms of the same type are
/// the same type.
pub proof fn lemma_type_cleaning_is_determined(cx: &DocContext, ty: ast::Ty, a: Type, b: Type)
    requires
        ty_cleans_to(cx, ty, a),
        ty_cleans_to(cx, ty, b),
    ensures
        same_type(a, b),
    decreases ty,
{
    match ty.node {
        ast::TyKind::TyBox(m) => lemma_type_cleaning_is_determined(cx, *m.ty, a, b),
        ast::TyKind::TyUniq(m) => lemma_type_cleaning_is_determined(cx, *m.ty, a, b),
        ast::TyKind::TyVec(m) => lemma_type_cleaning_is_determined(cx, *m.ty, *a->Vector_0, *b->Vector_0),
        ast::TyKind::TyFixedLengthVec(m, _) => lemma_type_cleaning_is_determined(
            cx,
            *m.ty,
            *a->Vector_0,
            *b->Vector_0,
        ),
        ast::TyKind::TyPtr(m) => lemma_type_cleaning_is_determined(
            cx,
            *m.ty,
            *a->RawPointer_0,
            *b->RawPointer_0,
        ),
        ast::TyKind::TyRptr(_, m) => lemma_type_cleaning_is_determined(
            cx,
            *m.ty,
            *a->BorrowedRef_0,
            *b->BorrowedRef_0,
        ),
        ast::TyKind::TyClosure(c) => lemma_closure_cleaning_is_determined(
            cx,
            *c,
            *a->Closure_0,
            *b->Closure_0,
        ),
        ast::TyKind::TyBareFn(f) => lemma_bare_fn_cleaning_is_determined(
            cx,
            *f,
            *a->BareFunction_0,
            *b->BareFunction_0,
        ),
        ast::TyKind::TyTup(tys) => {
            let x = a->Tuple_0;
            let y = b->Tuple_0;
            assert forall|i: int| 0 <= i < x@.len() implies same_type(#[trigger] x@[i], y@[i]) by {
                lemma_type_cleaning_is_determined(cx, tys@[i], x@[i], y@[i]);
            }
        },
        ast::TyKind::TyPath(_, id) => {
            lemma_same_type_reflexive(a);
        },
        _ => {},
    }
}

/// Cleaning a declaration has one result.
pub proof fn lemma_fn_decl_cleaning_is_determined(
    cx: &DocContext,
    f: ast::FnDecl,
    a: FnDecl,
    b: FnDecl,
)
    requires
        fn_decl_cleans_to(cx, f, a),
        fn_decl_cleans_to(cx, f, b),
    ensures
        same_fn_decl(a, b),
    decreases f,
{
    assert forall|i: int| 0 <= i < a.inputs@.len() implies same_argument(
        #[trigger] a.inputs@[i],
        b.inputs@[i],
    ) by {
        assert(arg_cleans_to(cx, f.inputs@[i], a.inputs@[i]));
        assert(arg_cleans_to(cx, f.inputs@[i], b.inputs@[i]));
        lemma_type_cleaning_is_determined(cx, f.inputs@[i].ty, a.inputs@[i].ty, b.inputs@[i].ty);
    }
    lemma_type_cleaning_is_determined(cx, f.output, a.output, b.output);
}

/// Cleaning a closure type has one result.
pub proof fn lemma_closure_cleaning_is_determined(
    cx: &DocContext,
    c: ast::TyClosure,
    a: ClosureDecl,
    b: ClosureDecl,
)
    requires
        closure_cleans_to(cx, c, a),
        closure_cleans_to(cx, c, b),
    ensures
        same_closure(a, b),
    decreases c,
{
    lemma_lifetimes_determined(cx, c.lifetimes, a.lifetimes, b.lifetimes);
    if let Some(bs) = c.bounds {
        lemma_bounds_determined(cx, bs, a.bounds, b.bounds);
    }
    lemma_fn_decl_cleaning_is_determined(cx, c.decl, a.decl, b.decl);
}

/// Cleaning a bare function type has one result.
pub proof fn lemma_bare_fn_cleaning_is_determined(
    cx: &DocContext,
    f: ast::TyBareFn,
    a: BareFunctionDecl,
    b: BareFunctionDecl,
)
    requires
        bare_fn_cleans_to(cx, f, a),
        bare_fn_cleans_to(cx, f, b),
    ensures
        same_bare_fn(a, b),
    decreases f,
{
    lemma_lifetimes_determined(cx, f.lifetimes, a.generics.lifetimes, b.generics.lifetimes);
    lemma_fn_decl_cleaning_is_determined(cx, f.decl, a.decl, b.decl);
}

/// The cleaned form keeps the kind of the written type: nil and bottom
/// stay themselves, a raw pointer, a reference and a vector (fixed-length
/// or not) become the matching pointer or vector around the cleaned
/// pointee, a tuple a tuple of as many cleaned types, and closure and bare
/// function types their cleaned declarations.
pub proof fn lemma_cleaned_type_keeps_its_kind(cx: &DocContext, ty: ast::Ty, out: Type)
    requires
        ty_cleans_to(cx, ty, out),
    ensures
        ty.node is TyNil ==> out == Type::Unit,
        ty.node is TyBot ==> out == Type::Bottom,
        ty.node is TyPtr ==> out is RawPointer && ty_cleans_to(
            cx,
            *ty.node->TyPtr_0.ty,
            *out->RawPointer_0,
        ),
        ty.node is TyRptr ==> out is BorrowedRef && ty_cleans_to(
            cx,
            *ty.node->TyRptr_1.ty,
            *out->BorrowedRef_0,
        ),
        ty.node is TyVec ==> out is Vector && ty_cleans_to(cx, *ty.node->TyVec_0.ty, *out->Vector_0),
        ty.node is TyFixedLengthVec ==> out is Vector && ty_cleans_to(
            cx,
            *ty.node->TyFixedLengthVec_0.ty,
            *out->Vector_0,
        ),
        ty.node is TyTup ==> out is Tuple && out->Tuple_0@.len() == ty.node->TyTup_0@.len()
            && forall|i: int|
            0 <= i < ty.node->TyTup_0@.len() ==> ty_cleans_to(
                cx,
                #[trigger] ty.node->TyTup_0@[i],
                out->Tuple_0@[i],
            ),
        ty.node is TyClosure ==> out is Closure && closure_cleans_to(
            cx,
            *ty.node->TyClosure_0,
            *out->Closure_0,
        ),
        ty.node is TyBareFn ==> out is BareFunction && bare_fn_cleans_to(
            cx,
            *ty.node->TyBareFn_0,
            *out->BareFunction_0,
        ),
{
}

/// A fixed-length vector type cleans exactly as the vector type of the same
/// element does: the length is dropped, the vector is kept.
pub proof fn lemma_fixed_length_vector_cleans_as_vector(
    cx: &DocContext,
    id: NodeId,
    m: ast::MutTy,
    len: Box<ast::Expr>,
    out: Type,
)
    ensures
        ty_cleans_to(cx, ast::Ty { id, node: ast::TyKind::TyFixedLengthVec(m, len) }, out)
            == ty_cleans_to(cx, ast::Ty { id, node: ast::TyKind::TyVec(m) }, out),
{
}

proof fn lemma_no_type_is_its_own_vector(x: Type)
    ensures
        !same_type(Type::Vector(Box::new(x)), x),
    decreases x,
{
    if let Type::Vector(y) = x {
        lemma_no_type_is_its_own_vector(*y);
    }
}

/// A vector type, fixed-length or not, never cleans to what its element
/// cleans to: the vector is not dropped.
pub proof fn lemma_vector_is_not_its_element(cx: &DocContext, ty: ast::Ty, out: Type)
    requires
        ty.node is TyVec || ty.node is TyFixedLengthVec,
        ty_cleans_to(cx, ty, out),
    ensures
        !ty_cleans_to(
            cx,
            if ty.node is TyVec {
                *ty.node->TyVec_0.ty
            } else {
                *ty.node->TyFixedLengthVec_0.ty
            },
            out,
        ),
{
    let elem = if ty.node is TyVec {
        *ty.node->TyVec_0.ty
    } else {
        *ty.node->TyFixedLengthVec_0.ty
    };
    let inner = *out->Vector_0;
    if ty_cleans_to(cx, elem, out) {
        lemma_type_cleaning_is_determined(cx, elem, out, inner);
        lemma_no_type_is_its_own_vector(inner);
        assert(out == Type::Vector(Box::new(inner)));
    }
}

/// A path that the resolver maps to a primitive type keeps that primitive:
/// `str` becomes `String`, `bool` becomes `Bool`, and a numeric type `p`
/// becomes `Primitive(p)` with the same `p`.
pub proof fn lemma_primitive_resolution_keeps_the_type(
    cx: &DocContext,
    id: NodeId,
    p: ast::PrimTy,
    out: Type,
)
    requires
        cx.def_map@.contains_key(id),
        cx.def_map@[id] == Def::DefPrimTy(p),
        resolves_to(cx, id, out),
    ensures
        p is TyStr ==> out == Type::String,
        p is TyBool ==> out == Type::Bool,
        (p is TyInt || p is TyUint || p is TyFloat) ==> out == Type::Primitive(p),
{
}

/// Two paths that the resolver maps to different primitive types resolve
/// to different types.
pub proof fn lemma_distinct_primitives_resolve_apart(
    cx: &DocContext,
    id1: NodeId,
    id2: NodeId,
    o1: Type,
    o2: Type,
)
    requires
        cx.def_map@.contains_key(id1),
        cx.def_map@.contains_key(id2),
        cx.def_map@[id1] is DefPrimTy,
        cx.def_map@[id2] is DefPrimTy,
        cx.def_map@[id1] != cx.def_map@[id2],
        resolves_to(cx, id1, o1),
        resolves_to(cx, id2, o2),
    ensures
        o1 != o2,
{
}

/// A type parameter resolves to the node that declares it, and an item of
/// this crate to its own node.
pub proof fn lemma_local_resolution_keeps_the_node(cx: &DocContext, id: NodeId, out: Type)
    requires
        resolves_to(cx, id, out),
    ensures
        match cx.def_map@[id] {
            Def::DefTyParam(d, _) => out == Type::Generic(d.node),
            Def::DefStruct(d) | Def::DefTy(d) | Def::DefTrait(d) | Def::DefFn(d, _) => d.krate
                == CRATE_NODE_ID ==> out == Type::Resolved(d.node),
            _ => true,
        },
{
}

/// An item of another crate resolves to the path under which that crate
/// last exports it, after the crate's name and `::`, with the kind of that
/// export: `fn`, `enum` for a type, `trait` or `struct`. An item that no
/// path exports gets the crate's name and `::` with an empty kind.
pub proof fn lemma_external_resolution(cx: &DocContext, id: NodeId, out: Type, k: int)
    requires
        resolves_to(cx, id, out),
        cx.def_map@[id] matches Def::DefFn(..) || cx.def_map@[id] matches Def::DefTy(..)
            || cx.def_map@[id] matches Def::DefTrait(..) || cx.def_map@[id] matches Def::DefStruct(
            ..,
        ),
        crate::context::def_target(cx.def_map@[id])->0.krate != CRATE_NODE_ID,
    ensures
        ({
            let d = crate::context::def_target(cx.def_map@[id])->0;
            let c = cx.crates@[d.krate];
            let e = c.paths@;
            &&& out is External
            &&& (0 <= k < e.len() && entry_names(e[k], d.node) && forall|l: int|
                k < l < e.len() ==> !entry_names(#[trigger] e[l], d.node)) ==> {
                &&& out->External_0@ == c.name@ + "::"@ + e[k].path@
                &&& e[k].def matches DefLike::DlDef(Def::DefFn(..)) ==> out->External_1@ == "fn"@
                &&& e[k].def matches DefLike::DlDef(Def::DefTy(..)) ==> out->External_1@ == "enum"@
                &&& e[k].def matches DefLike::DlDef(Def::DefTrait(..)) ==> out->External_1@
                    == "trait"@
                &&& e[k].def matches DefLike::DlDef(Def::DefStruct(..)) ==> out->External_1@
                    == "struct"@
            }
            &&& (forall|l: int| 0 <= l < e.len() ==> !entry_names(#[trigger] e[l], d.node)) ==> {
                &&& out->External_0@ == c.name@ + "::"@
                &&& out->External_1@.len() == 0
            }
        }),
{
    let d = crate::context::def_target(cx.def_map@[id])->0;
    let c = cx.crates@[d.krate];
    lemma_last_entry_naming_is_last(c.paths@, d.node, k);
    assert(c.name@ + "::"@ + Seq::<char>::empty() =~= c.name@ + "::"@);
}

/// A declaration's cleaned return style says it diverges exactly when the
/// declaration does.
pub proof fn lemma_return_style_is_kept(cx: &DocContext, r: ast::RetStyle, out: RetStyle)
    requires
        r.clean_ensures(cx, out),
    ensures
        (out == RetStyle::NoReturn) == (r == ast::RetStyle::NoReturn),
        (out == RetStyle::Return) == (r == ast::RetStyle::ReturnVal),
{
}

/// A cleaned declaration diverges exactly when the written one does.
pub proof fn lemma_cleaned_declaration_keeps_divergence(
    cx: &DocContext,
    f: ast::FnDecl,
    d: FnDecl,
)
    requires
        fn_decl_cleans_to(cx, f, d),
    ensures
        (d.cf == RetStyle::NoReturn) == (f.cf == ast::RetStyle::NoReturn),
{
}

/// Cleaning keeps the kind of mutability.
pub proof fn lemma_mutability_is_kept(cx: &DocContext, m: ast::Mutability, out: Mutability)
    requires
        m.clean_ensures(cx, out),
    ensures
        (out == Mutability::Mutable) == (m == ast::Mutability::MMutbl),
        (out == Mutability::Immutable) == (m == ast::Mutability::MImm),
        (out == Mutability::Const) == (m == ast::Mutability::MConst),
{
}

/// Cleaning keeps the kind of explicit self: a static method stays static,
/// a by-value `self` is `SelfValue`, an owned box `~self` is `SelfOwned`, a
/// borrowed `&self` is `SelfBorrowed` and a managed `@self` is
/// `SelfManaged`, each with its mutability kept.
pub proof fn lemma_self_kind_is_kept(cx: &DocContext, k: ast::ExplicitSelfKind, out: SelfTy)
    requires
        k.clean_ensures(cx, out),
    ensures
        (out is SelfStatic) == (k is StyStatic),
        (out is SelfValue) == (k is StyValue),
        (out is SelfOwned) == (k is StyUniq),
        (out is SelfBorrowed) == (k is StyRegion),
        (out is SelfManaged) == (k is StyBox),
        k is StyRegion ==> k->StyRegion_0.clean_ensures(cx, out->SelfBorrowed_0)
            && k->StyRegion_1.clean_ensures(cx, out->SelfBorrowed_1),
        k is StyBox ==> k->StyBox_0.clean_ensures(cx, out->SelfManaged_0),
{
}

fn clean_ty(cx: &DocContext, ty: &ast::Ty) -> (out: Type)
    requires
        ty_cleanable(cx, *ty),
    ensures
        ty_cleans_to(cx, *ty, out),
        !(out is Unresolved),
    decreases ty,
{
    let t = match &ty.node {
        ast::TyKind::TyNil => Type::Unit,
        ast::TyKind::TyPtr(m) => Type::RawPointer(Box::new(resolve_type(cx, clean_ty(cx, &*m.ty)))),
        ast::TyKind::TyRptr(_, m) => Type::BorrowedRef(
            Box::new(resolve_type(cx, clean_ty(cx, &*m.ty))),
        ),
        ast::TyKind::TyBox(m) => resolve_type(cx, clean_ty(cx, &*m.ty)),
        ast::TyKind::TyUniq(m) => resolve_type(cx, clean_ty(cx, &*m.ty)),
        ast::TyKind::TyVec(m) => Type::Vector(Box::new(resolve_type(cx, clean_ty(cx, &*m.ty)))),
        ast::TyKind::TyFixedLengthVec(m, _) => Type::Vector(
            Box::new(resolve_type(cx, clean_ty(cx, &*m.ty))),
        ),
        ast::TyKind::TyTup(tys) => {
            let mut v: Vec<Type> = Vec::new();
            let mut i: usize = 0;
            while i < tys.len()
                invariant
                    i <= tys@.len(),
                    v@.len() == i,
                    ty.node == ast::TyKind::TyTup(*tys),
                    forall|j: int| 0 <= j < tys@.len() ==> ty_cleanable(cx, #[trigger] tys@[j]),
                    forall|j: int| 0 <= j < i ==> ty_cleans_to(cx, #[trigger] tys@[j], v@[j]),
                decreases tys@.len() - i,
            {
                assert(ty_cleanable(cx, tys@[i as int]));
                proof {
                    broadcast use vstd::std_specs::vec::axiom_vec_decreases_to_view;

                    assert(decreases_to!(*ty => ty.node));
                    assert(decreases_to!(ty.node => ty.node->TyTup_0));
                    assert(ty.node->TyTup_0 == *tys);
                    assert(decreases_to!(*tys => tys@));
                    assert(decreases_to!(tys@ => tys@[i as int]));
                }
                let x = resolve_type(cx, clean_ty(cx, &tys[i]));
                v.push(x);
                i = i + 1;
            }
            Type::Tuple(v)
        },
        ast::TyKind::TyPath(_, id) => Type::Unresolved(*id),
        ast::TyKind::TyClosure(c) => Type::Closure(Box::new(clean_closure(cx, &**c))),
        ast::TyKind::TyBareFn(b) => Type::BareFunction(Box::new(clean_bare_fn(cx, &**b))),
        ast::TyKind::TyBot => Type::Bottom,
        _ => {
            proof {
                assert(false);
            }
            Type::Unit
        },
    };
    resolve_type(cx, t)
}

fn clean_fn_decl(cx: &DocContext, f: &ast::FnDecl) -> (d: FnDecl)
    requires
        fn_decl_cleanable(cx, *f),
    ensures
        fn_decl_cleans_to(cx, *f, d),
    decreases f,
{
    let mut inputs: Vec<Argument> = Vec::new();
    let mut i: usize = 0;
    while i < f.inputs.len()
        invariant
            i <= f.inputs@.len(),
            inputs@.len() == i,
            fn_decl_cleanable(cx, *f),
            forall|j: int| 0 <= j < i ==> arg_cleans_to(cx, #[trigger] f.inputs@[j], inputs@[j]),
        decreases f.inputs@.len() - i,
    {
        assert(arg_cleanable(cx, f.inputs@[i as int]));
        let a = clean_arg(cx, &f.inputs[i]);
        inputs.push(a);
        i = i + 1;
    }
    FnDecl { inputs, output: clean_ty(cx, &f.output), cf: f.cf.clean(cx), attrs: Vec::new() }
}

fn clean_arg(cx: &DocContext, a: &ast::Arg) -> (o: Argument)
    requires
        arg_cleanable(cx, *a),
    ensures
        arg_cleans_to(cx, *a, o),
    decreases a,
{
    Argument { name: name_from_pat(&a.pat), ty: clean_ty(cx, &a.ty), id: a.id }
}

fn clean_closure(cx: &DocContext, c: &ast::TyClosure) -> (d: ClosureDecl)
    requires
        fn_decl_cleanable(cx, c.decl),
    ensures
        closure_cleans_to(cx, *c, d),
    decreases c,
{
    ClosureDecl {
        sigil: c.sigil,
        region: c.region.clean(cx),
        lifetimes: c.lifetimes.clean(cx),
        decl: clean_fn_decl(cx, &c.decl),
        onceness: c.onceness,
        purity: c.purity,
        bounds: match &c.bounds {
            Some(x) => x.clean(cx),
            None => Vec::new(),
        },
    }
}

fn clean_bare_fn(cx: &DocContext, b: &ast::TyBareFn) -> (d: BareFunctionDecl)
    requires
        fn_decl_cleanable(cx, b.decl),
    ensures
        bare_fn_cleans_to(cx, *b, d),
    decreases b,
{
    BareFunctionDecl {
        purity: b.purity,
        generics: Generics { lifetimes: b.lifetimes.clean(cx), type_params: Vec::new() },
        decl: clean_fn_decl(cx, &b.decl),
        abi: b.abis.clone(),
    }
}

impl Clean<Type> for ast::Ty {
    open spec fn clean_requires(&self, cx: &DocContext) -> bool {
        ty_cleanable(cx, *self)
    }

    open spec fn clean_ensures(&self, cx: &DocContext, out: Type) -> bool {
        ty_cleans_to(cx, *self, out)
    }

    fn clean(&self, cx: &DocContext) -> (out: Type) {
        clean_ty(cx, self)
    }
}

impl Clean<FnDecl> for ast::FnDecl {
    open spec fn clean_requires(&self, cx: &DocContext) -> bool {
        fn_decl_cleanable(cx, *self)
    }

    open spec fn clean_ensures(&self, cx: &DocContext, out: FnDecl) -> bool {
        fn_decl_cleans_to(cx, *self, out)
    }

    fn clean(&self, cx: &DocContext) -> (out: FnDecl) {
        clean_fn_decl(cx, self)
    }
}

impl Clean<Argument> for ast::Arg {
    open spec fn clean_requires(&self, cx: &DocContext) -> bool {
        arg_cleanable(cx, *self)
    }

    open spec fn clean_ensures(&self, cx: &DocContext, out: Argument) -> bool {
        arg_cleans_to(cx, *self, out)
    }

    fn clean(&self, cx: &DocContext) -> (out: Argument) {
        clean_arg(cx, self)
    }
}

impl Clean<ClosureDecl> for ast::TyClosure {
    open spec fn clean_requires(&self, cx: &DocContext) -> bool {
        fn_decl_cleanable(cx, self.decl)
    }

    open spec fn clean_ensures(&self, cx: &DocContext, out: ClosureDecl) -> bool {
        closure_cleans_to(cx, *self, out)
    }

    fn clean(&self, cx: &DocContext) -> (out: ClosureDecl) {
        clean_closure(cx, self)
    }
}

impl Clean<BareFunctionDecl> for ast::TyBareFn {
    open spec fn clean_requires(&self, cx: &DocContext) -> bool {
        fn_decl_cleanable(cx, self.decl)
    }

    open spec fn clean_ensures(&self, cx: &DocContext, out: BareFunctionDecl) -> bool {
        bare_fn_cleans_to(cx, *self, out)
    }

    fn clean(&self, cx: &DocContext) -> (out: BareFunctionDecl) {
        clean_bare_fn(cx, self)
    }
}

} // verus!
