//! The parts of the syntax tree that the cleaning reads, held as plain values.
//!
//! Identifiers carry the text the interner gives for them, and spans carry
//! the text the code map renders for them, so that every value here can be
//! built without the compiler's session.
use vstd::prelude::*;

verus! {

/// The number of a node of the syntax tree.
pub type NodeId = i64;

/// The number of a crate in the crate store.
pub type CrateNum = i64;

/// The number of the crate being documented.
pub const CRATE_NODE_ID: NodeId = 0;

/// A stretch of source text, as the code map renders it.
pub struct Span {
    /// The position, as `span_to_str` renders it (`file:line:col: line:col`).
    pub text: String,
    /// The source text it covers, where the code map has it.
    pub snippet: Option<String>,
}

/// A node together with its span.
pub struct Spanned<T> {
    pub node: T,
    pub span: Span,
}

/// An identifier, by the text the interner holds for it.
pub struct Ident {
    pub name: String,
}

/// A definition: the crate it belongs to and its node there.
#[derive(Clone, Copy, Debug, PartialEq, Eq, Structural)]
pub struct DefId {
    pub krate: CrateNum,
    pub node: NodeId,
}

// ---------------------------------------------------------------------------
// Literals and attributes
// ---------------------------------------------------------------------------

#[derive(Clone, Copy, Debug, PartialEq, Eq, Structural)]
pub enum IntTy {
    TyI,
    TyChar,
    TyI8,
    TyI16,
    TyI32,
    TyI64,
}

#[derive(Clone, Copy, Debug, PartialEq, Eq, Structural)]
pub enum UintTy {
    TyU,
    TyU8,
    TyU16,
    TyU32,
    TyU64,
}

#[derive(Clone, Copy, Debug, PartialEq, Eq, Structural)]
pub enum FloatTy {
    TyF,
    TyF32,
    TyF64,
}

/// A literal. Float literals keep the text they were written with.
pub enum LitKind {
    LitStr(String),
    LitInt(i64, IntTy),
    LitUint(u64, UintTy),
    LitIntUnsuffixed(i64),
    LitFloat(String, FloatTy),
    LitFloatUnsuffixed(String),
    LitNil,
    LitBool(bool),
}

pub type Lit = Spanned<LitKind>;

/// The contents of an attribute: `word`, `name(items..)` or `name = lit`.
pub enum MetaItemKind {
    MetaWord(String),
    MetaList(String, Vec<MetaItem>),
    MetaNameValue(String, Lit),
}

pub type MetaItem = Spanned<MetaItemKind>;

#[derive(Clone, Copy, Debug, PartialEq, Eq, Structural)]
pub enum AttrStyle {
    AttrOuter,
    AttrInner,
}

pub struct AttributeKind {
    pub style: AttrStyle,
    pub value: MetaItem,
    pub is_sugared_doc: bool,
}

pub type Attribute = Spanned<AttributeKind>;

// ---------------------------------------------------------------------------
// Paths, generics and qualifiers
// ---------------------------------------------------------------------------

/// A path such as `std::vec::Vec`, by its segments.
pub struct Path {
    pub idents: Vec<Ident>,
}

pub struct Lifetime {
    pub id: NodeId,
    pub ident: Ident,
}

/// An optional list, where the empty list takes no space.
pub enum OptVec<T> {
    Empty,
    Vec(Vec<T>),
}

pub struct TraitRef {
    pub path: Path,
    pub ref_id: NodeId,
}

pub enum TyParamBound {
    TraitTyParamBound(TraitRef),
    RegionTyParamBound,
}

pub struct TyParam {
    pub ident: Ident,
    pub id: NodeId,
    pub bounds: OptVec<TyParamBound>,
}

pub struct Generics {
    pub lifetimes: OptVec<Lifetime>,
    pub ty_params: OptVec<TyParam>,
}

#[derive(Clone, Copy, Debug, PartialEq, Eq, Structural)]
pub enum Mutability {
    MMutbl,
    MImm,
    MConst,
}

#[derive(Clone, Copy, Debug, PartialEq, Eq, Structural)]
pub enum Purity {
    UnsafeFn,
    ImpureFn,
    ExternFn,
}

#[derive(Clone, Copy, Debug, PartialEq, Eq, Structural)]
pub enum Visibility {
    Public,
    Private,
    Inherited,
}

#[derive(Clone, Copy, Debug, PartialEq, Eq, Structural)]
pub enum Sigil {
    BorrowedSigil,
    OwnedSigil,
    ManagedSigil,
}

#[derive(Clone, Copy, Debug, PartialEq, Eq, Structural)]
pub enum Onceness {
    Once,
    Many,
}

#[derive(Clone, Copy, Debug, PartialEq, Eq, Structural)]
pub enum RetStyle {
    NoReturn,
    ReturnVal,
}

/// The kind of the `self` argument of a method.
pub enum ExplicitSelfKind {
    StyStatic,
    StyValue,
    StyRegion(Option<Lifetime>, Mutability),
    StyBox(Mutability),
    StyUniq,
}

pub type ExplicitSelf = Spanned<ExplicitSelfKind>;

// ---------------------------------------------------------------------------
// Types, declarations and patterns
// ---------------------------------------------------------------------------

#[derive(Clone, Copy, Debug, PartialEq, Eq, Structural)]
pub enum PrimTy {
    TyInt(IntTy),
    TyUint(UintTy),
    TyFloat(FloatTy),
    TyStr,
    TyBool,
}

/// A type together with the mutability it is reached with.
pub struct MutTy {
    pub ty: Box<Ty>,
    pub mutbl: Mutability,
}

/// A type as written. The pointer and vector forms hold the pointee; a
/// path holds the node by which the resolver knows it.
pub enum TyKind {
    TyNil,
    TyBot,
    TyBox(MutTy),
    TyUniq(MutTy),
    TyVec(MutTy),
    TyFixedLengthVec(MutTy, Box<Expr>),
    TyPtr(MutTy),
    TyRptr(Option<Lifetime>, MutTy),
    TyClosure(Box<TyClosure>),
    TyBareFn(Box<TyBareFn>),
    TyTup(Vec<Ty>),
    TyPath(Path, NodeId),
    TyMac,
    TyInfer,
}

pub struct Ty {
    pub id: NodeId,
    pub node: TyKind,
}

/// A pattern. Only the shape matters to the cleaning, and the path that an
/// identifier or enum pattern names.
pub enum PatKind {
    PatWild,
    PatIdent(Path),
    PatEnum(Path),
    PatStruct,
    PatTup,
    PatBox(Box<Pat>),
    PatUniq(Box<Pat>),
    PatRegion(Box<Pat>),
    PatLit,
    PatRange,
    PatVec,
}

pub struct Pat {
    pub id: NodeId,
    pub node: PatKind,
}

pub struct Arg {
    pub is_mutbl: bool,
    pub ty: Ty,
    pub pat: Box<Pat>,
    pub id: NodeId,
}

pub struct FnDecl {
    pub inputs: Vec<Arg>,
    pub output: Ty,
    pub cf: RetStyle,
}

pub struct TyClosure {
    pub sigil: Sigil,
    pub region: Option<Lifetime>,
    pub lifetimes: OptVec<Lifetime>,
    pub purity: Purity,
    pub onceness: Onceness,
    pub decl: FnDecl,
    pub bounds: Option<OptVec<TyParamBound>>,
}

/// A bare function type. Its ABI set carries the text it renders to.
pub struct TyBareFn {
    pub purity: Purity,
    pub abis: String,
    pub lifetimes: OptVec<Lifetime>,
    pub decl: FnDecl,
}

/// An expression, by its span.
pub struct Expr {
    pub id: NodeId,
    pub span: Span,
}

// ---------------------------------------------------------------------------
// Methods, traits, structures, variants and imports
// ---------------------------------------------------------------------------

pub struct Method {
    pub ident: Ident,
    pub attrs: Vec<Attribute>,
    pub generics: Generics,
    pub explicit_self: ExplicitSelf,
    pub purity: Purity,
    pub decl: FnDecl,
    pub id: NodeId,
    pub span: Span,
    pub self_id: NodeId,
    pub vis: Visibility,
}

pub struct TypeMethod {
    pub ident: Ident,
    pub attrs: Vec<Attribute>,
    pub purity: Purity,
    pub decl: FnDecl,
    pub generics: Generics,
    pub explicit_self: ExplicitSelf,
    pub id: NodeId,
    pub span: Span,
}

pub enum TraitMethod {
    Required(TypeMethod),
    Provided(Box<Method>),
}

pub enum StructFieldKind {
    NamedField(Ident, Visibility),
    UnnamedField,
}

pub struct StructFieldDef {
    pub kind: StructFieldKind,
    pub id: NodeId,
    pub ty: Ty,
    pub attrs: Vec<Attribute>,
}

pub type StructField = Spanned<StructFieldDef>;

pub struct StructDef {
    pub fields: Vec<StructField>,
    pub ctor_id: Option<NodeId>,
}

pub struct VariantArg {
    pub ty: Ty,
    pub id: NodeId,
}

pub enum VariantKind {
    TupleVariantKind(Vec<VariantArg>),
    StructVariantKind(Box<StructDef>),
}

pub struct PathListIdentKind {
    pub name: Ident,
    pub id: NodeId,
}

pub type PathListIdent = Spanned<PathListIdentKind>;

pub enum ViewPathKind {
    ViewPathSimple(Ident, Path, NodeId),
    ViewPathGlob(Path, NodeId),
    ViewPathList(Path, Vec<PathListIdent>, NodeId),
}

pub type ViewPath = Spanned<ViewPathKind>;

pub enum ViewItemKind {
    ViewItemExternMod(Ident, Vec<MetaItem>, NodeId),
    ViewItemUse(Vec<ViewPath>),
}

pub struct ViewItem {
    pub node: ViewItemKind,
    pub attrs: Vec<Attribute>,
    pub vis: Visibility,
    pub span: Span,
}

} // verus!
