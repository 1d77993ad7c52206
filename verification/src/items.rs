//! Items: their cleaned forms, from methods and functions up to modules
//! and the crate.
use vstd::prelude::*;

use crate::ast;
use crate::ast::NodeId;
use crate::attrs::{clean_and_collapse, docs_collapsed, link_name, linkage_name, Attribute};
use crate::clean::Clean;
use crate::context::DocContext;
use crate::doctree;
use crate::doctree::{struct_type_from_def, struct_type_of, StructType};
use crate::types::{
    fn_decl_cleanable, path_text, ty_cleanable, ty_cleans_to, FnDecl, Generics, Mutability, SelfTy, TraitRef, Type,
};

verus! {

/// Who can see an item.
pub type Visibility = ast::Visibility;

// ---------------------------------------------------------------------------
// Spans
// ---------------------------------------------------------------------------

impl Clean<String> for ast::Span {
    open spec fn clean_requires(&self, cx: &DocContext) -> bool {
        true
    }

    open spec fn clean_ensures(&self, cx: &DocContext, out: String) -> bool {
        out@ == self.text@
    }

    fn clean(&self, cx: &DocContext) -> (out: String) {
        self.text.clone()
    }
}

/// The source text something covers.
pub trait ToSource {
    fn to_src(&self) -> String;
}

/// The source text of a span: empty where the code map has none.
pub open spec fn span_src(sp: ast::Span) -> Seq<char> {
    match sp.snippet {
        Some(x) => x@,
        None => Seq::empty(),
    }
}

impl ToSource for ast::Span {
    fn to_src(&self) -> (r: String)
        ensures
            r@ == span_src(*self),
    {
        match &self.snippet {
            Some(x) => x.clone(),
            None => String::new(),
        }
    }
}

// ---------------------------------------------------------------------------
// Methods and traits
// ---------------------------------------------------------------------------

pub struct Method {
    pub name: String,
    pub attrs: Vec<Attribute>,
    pub generics: Generics,
    pub self_: SelfTy,
    pub purity: ast::Purity,
    pub decl: FnDecl,
    pub where_: String,
    pub id: NodeId,
    pub vis: Visibility,
}

impl Clean<Method> for ast::Method {
    open spec fn clean_requires(&self, cx: &DocContext) -> bool {
        self.attrs.clean_requires(cx) && fn_decl_cleanable(cx, self.decl)
    }

    open spec fn clean_ensures(&self, cx: &DocContext, out: Method) -> bool {
        &&& self.ident.clean_ensures(cx, out.name)
        &&& self.attrs.clean_ensures(cx, out.attrs)
        &&& self.generics.clean_ensures(cx, out.generics)
        &&& self.explicit_self.clean_ensures(cx, out.self_)
        &&& out.purity == self.purity
        &&& self.decl.clean_ensures(cx, out.decl)
        &&& self.span.clean_ensures(cx, out.where_)
        &&& out.id == self.self_id
        &&& out.vis == self.vis
    }

    fn clean(&self, cx: &DocContext) -> (out: Method) {
        Method {
            name: self.ident.clean(cx),
            attrs: self.attrs.clean(cx),
            generics: self.generics.clean(cx),
            self_: self.explicit_self.clean(cx),
            purity: self.purity,
            decl: self.decl.clean(cx),
            where_: self.span.clean(cx),
            id: self.self_id,
            vis: self.vis,
        }
    }
}

pub struct TyMethod {
    pub name: String,
    pub attrs: Vec<Attribute>,
    pub purity: ast::Purity,
    pub decl: FnDecl,
    pub generics: Generics,
    pub id: NodeId,
    pub self_: SelfTy,
    pub where_: String,
}

impl Clean<TyMethod> for ast::TypeMethod {
    open spec fn clean_requires(&self, cx: &DocContext) -> bool {
        self.attrs.clean_requires(cx) && fn_decl_cleanable(cx, self.decl)
    }

    open spec fn clean_ensures(&self, cx: &DocContext, out: TyMethod) -> bool {
        &&& self.ident.clean_ensures(cx, out.name)
        &&& self.attrs.clean_ensures(cx, out.attrs)
        &&& out.purity == self.purity
        &&& self.decl.clean_ensures(cx, out.decl)
        &&& self.explicit_self.clean_ensures(cx, out.self_)
        &&& self.generics.clean_ensures(cx, out.generics)
        &&& out.id == self.id
        &&& self.span.clean_ensures(cx, out.where_)
    }

    fn clean(&self, cx: &DocContext) -> (out: TyMethod) {
        TyMethod {
            name: self.ident.clean(cx),
            attrs: self.attrs.clean(cx),
            purity: self.purity,
            decl: self.decl.clean(cx),
            self_: self.explicit_self.clean(cx),
            generics: self.generics.clean(cx),
            id: self.id,
            where_: self.span.clean(cx),
        }
    }
}

/// A method of a trait: one that implementations must give, or one with a
/// default body.
pub enum TraitMethod {
    Required(TyMethod),
    Provided(Method),
}

impl TraitMethod {
    /// The method must be given by implementations.
    pub fn is_req(&self) -> (r: bool)
        ensures
            r == (self is Required),
    {
        match self {
            TraitMethod::Required(..) => true,
            _ => false,
        }
    }

    /// The method has a default body.
    pub fn is_def(&self) -> (r: bool)
        ensures
            r == (self is Provided),
    {
        match self {
            TraitMethod::Provided(..) => true,
            _ => false,
        }
    }
}

/// Every trait method is either required or provided, never both.
pub proof fn lemma_trait_method_kind(m: TraitMethod)
    ensures
        (m is Required) != (m is Provided),
{
}

impl Clean<TraitMethod> for ast::TraitMethod {
    open spec fn clean_requires(&self, cx: &DocContext) -> bool {
        match self {
            ast::TraitMethod::Required(t) => t.clean_requires(cx),
            ast::TraitMethod::Provided(m) => m.clean_requires(cx),
        }
    }

    open spec fn clean_ensures(&self, cx: &DocContext, out: TraitMethod) -> bool {
        match (self, out) {
            (ast::TraitMethod::Required(t), TraitMethod::Required(o)) => t.clean_ensures(cx, o),
            (ast::TraitMethod::Provided(m), TraitMethod::Provided(o)) => m.clean_ensures(cx, o),
            _ => false,
        }
    }

    fn clean(&self, cx: &DocContext) -> (out: TraitMethod) {
        match self {
            ast::TraitMethod::Required(t) => TraitMethod::Required(t.clean(cx)),
            ast::TraitMethod::Provided(t) => TraitMethod::Provided(t.clean(cx)),
        }
    }
}

pub struct Trait {
    pub name: String,
    pub methods: Vec<TraitMethod>,
    pub generics: Generics,
    pub where_: String,
    pub attrs: Vec<Attribute>,
    pub parents: Vec<TraitRef>,
    pub id: NodeId,
}

impl Clean<Trait> for doctree::Trait {
    open spec fn clean_requires(&self, cx: &DocContext) -> bool {
        self.methods.clean_requires(cx) && self.attrs.clean_requires(cx)
    }

    open spec fn clean_ensures(&self, cx: &DocContext, out: Trait) -> bool {
        &&& self.name.clean_ensures(cx, out.name)
        &&& self.methods.clean_ensures(cx, out.methods)
        &&& self.generics.clean_ensures(cx, out.generics)
        &&& self.parents.clean_ensures(cx, out.parents)
        &&& self.where_.clean_ensures(cx, out.where_)
        &&& self.attrs.clean_ensures(cx, out.attrs)
        &&& out.id == self.id
    }

    fn clean(&self, cx: &DocContext) -> (out: Trait) {
        Trait {
            name: self.name.clean(cx),
            methods: self.methods.clean(cx),
            generics: self.generics.clean(cx),
            parents: self.parents.clean(cx),
            where_: self.where_.clean(cx),
            attrs: self.attrs.clean(cx),
            id: self.id,
        }
    }
}

// ---------------------------------------------------------------------------
// Functions
// ---------------------------------------------------------------------------

pub struct Function {
    pub decl: FnDecl,
    pub name: String,
    pub visibility: Visibility,
    pub where_: String,
    pub generics: Generics,
    pub id: NodeId,
    pub attrs: Vec<Attribute>,
}

impl Clean<Function> for doctree::Function {
    open spec fn clean_requires(&self, cx: &DocContext) -> bool {
        fn_decl_cleanable(cx, self.decl) && self.attrs.clean_requires(cx)
    }

    open spec fn clean_ensures(&self, cx: &DocContext, out: Function) -> bool {
        &&& self.decl.clean_ensures(cx, out.decl)
        &&& self.name.clean_ensures(cx, out.name)
        &&& out.id == self.id
        &&& docs_collapsed(self.attrs@, out.attrs@)
        &&& self.where_.clean_ensures(cx, out.where_)
        &&& out.visibility == self.visibility
        &&& self.generics.clean_ensures(cx, out.generics)
    }

    fn clean(&self, cx: &DocContext) -> (out: Function) {
        Function {
            decl: self.decl.clean(cx),
            name: self.name.clean(cx),
            id: self.id,
            attrs: clean_and_collapse(cx, &self.attrs),
            where_: self.where_.clean(cx),
            visibility: self.visibility,
            generics: self.generics.clean(cx),
        }
    }
}

// ---------------------------------------------------------------------------
// Structures and enumerations
// ---------------------------------------------------------------------------

pub struct StructField {
    pub name: String,
    pub type_: Type,
    pub attrs: Vec<Attribute>,
    pub visibility: Option<Visibility>,
}

/// The name of an optional identifier: empty where there is none.
pub open spec fn opt_name(name: Option<ast::Ident>) -> Seq<char> {
    match name {
        Some(i) => i.name@,
        None => Seq::empty(),
    }
}

fn clean_opt_name(cx: &DocContext, name: &Option<ast::Ident>) -> (r: String)
    ensures
        r@ == opt_name(*name),
{
    match name {
        Some(i) => i.clean(cx),
        None => String::new(),
    }
}

impl Clean<StructField> for doctree::StructField {
    open spec fn clean_requires(&self, cx: &DocContext) -> bool {
        ty_cleanable(cx, self.type_) && self.attrs.clean_requires(cx)
    }

    open spec fn clean_ensures(&self, cx: &DocContext, out: StructField) -> bool {
        &&& out.name@ == opt_name(self.name)
        &&& self.type_.clean_ensures(cx, out.type_)
        &&& docs_collapsed(self.attrs@, out.attrs@)
        &&& out.visibility == self.visibility
    }

    fn clean(&self, cx: &DocContext) -> (out: StructField) {
        StructField {
            name: clean_opt_name(cx, &self.name),
            type_: self.type_.clean(cx),
            attrs: clean_and_collapse(cx, &self.attrs),
            visibility: self.visibility,
        }
    }
}

pub struct Struct {
    pub name: String,
    pub where_: String,
    pub node: NodeId,
    pub struct_type: StructType,
    pub attrs: Vec<Attribute>,
    pub generics: Generics,
    pub fields: Vec<StructField>,
}

impl Clean<Struct> for doctree::Struct {
    open spec fn clean_requires(&self, cx: &DocContext) -> bool {
        self.attrs.clean_requires(cx) && self.fields.clean_requires(cx)
    }

    open spec fn clean_ensures(&self, cx: &DocContext, out: Struct) -> bool {
        &&& self.name.clean_ensures(cx, out.name)
        &&& out.node == self.id
        &&& out.struct_type == self.struct_type
        &&& docs_collapsed(self.attrs@, out.attrs@)
        &&& self.generics.clean_ensures(cx, out.generics)
        &&& self.fields.clean_ensures(cx, out.fields)
        &&& self.where_.clean_ensures(cx, out.where_)
    }

    fn clean(&self, cx: &DocContext) -> (out: Struct) {
        Struct {
            name: self.name.clean(cx),
            node: self.id,
            struct_type: self.struct_type,
            attrs: clean_and_collapse(cx, &self.attrs),
            generics: self.generics.clean(cx),
            fields: self.fields.clean(cx),
            where_: self.where_.clean(cx),
        }
    }
}

/// The fields of a structure variant: a structure without name, node or
/// generics.
pub struct VariantStruct {
    pub struct_type: StructType,
    pub fields: Vec<StructField>,
}

/// The field of a structure definition can be cleaned.
pub open spec fn field_def_cleanable(cx: &DocContext, sf: ast::StructFieldDef) -> bool {
    ty_cleanable(cx, sf.ty) && sf.attrs.clean_requires(cx)
}

/// `o` is the cleaned form of the field `sf`: named after its identifier
/// (empty for a tuple field), with its type cleaned, its documentation
/// merged, and the visibility that a named field declares.
pub open spec fn field_def_cleans_to(cx: &DocContext, sf: ast::StructFieldDef, o: StructField) -> bool {
    &&& match sf.kind {
        ast::StructFieldKind::NamedField(id, _) => o.name@ == id.name@,
        ast::StructFieldKind::UnnamedField => o.name@ == Seq::<char>::empty(),
    }
    &&& ty_cleans_to(cx, sf.ty, o.type_)
    &&& docs_collapsed(sf.attrs@, o.attrs@)
    &&& o.visibility == match sf.kind {
        ast::StructFieldKind::NamedField(_, vis) => Some(vis),
        ast::StructFieldKind::UnnamedField => None,
    }
}

fn clean_field_def(cx: &DocContext, sf: &ast::StructFieldDef) -> (o: StructField)
    requires
        field_def_cleanable(cx, *sf),
    ensures
        field_def_cleans_to(cx, *sf, o),
{
    let (name, visibility) = match &sf.kind {
        ast::StructFieldKind::NamedField(id, vis) => (id.clean(cx), Some(*vis)),
        ast::StructFieldKind::UnnamedField => (String::new(), None),
    };
    StructField {
        name,
        type_: sf.ty.clean(cx),
        attrs: clean_and_collapse(cx, &sf.attrs),
        visibility,
    }
}

impl Clean<VariantStruct> for ast::StructDef {
    open spec fn clean_requires(&self, cx: &DocContext) -> bool {
        forall|i: int|
            0 <= i < self.fields@.len() ==> field_def_cleanable(cx, #[trigger] self.fields@[i].node)
    }

    open spec fn clean_ensures(&self, cx: &DocContext, out: VariantStruct) -> bool {
        &&& out.struct_type == struct_type_of(*self)
        &&& out.fields@.len() == self.fields@.len()
        &&& forall|i: int|
            0 <= i < self.fields@.len() ==> field_def_cleans_to(
                cx,
                #[trigger] self.fields@[i].node,
                out.fields@[i],
            )
    }

    fn clean(&self, cx: &DocContext) -> (out: VariantStruct) {
        let mut fields: Vec<StructField> = Vec::new();
        let mut i: usize = 0;
        while i < self.fields.len()
            invariant
                i <= self.fields@.len(),
                fields@.len() == i,
                self.clean_requires(cx),
                forall|j: int|
                    0 <= j < i ==> field_def_cleans_to(cx, #[trigger] self.fields@[j].node, fields@[j]),
            decreases self.fields@.len() - i,
        {
            assert(field_def_cleanable(cx, self.fields@[i as int].node));
            let f = clean_field_def(cx, &self.fields[i].node);
            fields.push(f);
            i = i + 1;
        }
        VariantStruct { struct_type: struct_type_from_def(self), fields }
    }
}

pub enum VariantKind {
    CLikeVariant,
    TupleVariant(Vec<Type>),
    StructVariant(VariantStruct),
}

impl Clean<VariantKind> for ast::VariantKind {
    open spec fn clean_requires(&self, cx: &DocContext) -> bool {
        match self {
            ast::VariantKind::TupleVariantKind(args) => forall|i: int|
                0 <= i < args@.len() ==> ty_cleanable(cx, (#[trigger] args@[i]).ty),
            ast::VariantKind::StructVariantKind(sd) => sd.clean_requires(cx),
        }
    }

    open spec fn clean_ensures(&self, cx: &DocContext, out: VariantKind) -> bool {
        match self {
            ast::VariantKind::TupleVariantKind(args) => if args@.len() == 0 {
                out is CLikeVariant
            } else {
                out matches VariantKind::TupleVariant(v) && v@.len() == args@.len() && forall|
                    i: int,
                |
                    0 <= i < args@.len() ==> ty_cleans_to(cx, (#[trigger] args@[i]).ty, v@[i])
            },
            ast::VariantKind::StructVariantKind(sd) => out matches VariantKind::StructVariant(o)
                && sd.clean_ensures(cx, o),
        }
    }

    fn clean(&self, cx: &DocContext) -> (out: VariantKind) {
        match self {
            ast::VariantKind::TupleVariantKind(args) => {
                if args.len() == 0 {
                    VariantKind::CLikeVariant
                } else {
                    let mut v: Vec<Type> = Vec::new();
                    let mut i: usize = 0;
                    while i < args.len()
                        invariant
                            i <= args@.len(),
                            v@.len() == i,
                            forall|j: int|
                                0 <= j < args@.len() ==> ty_cleanable(cx, (#[trigger] args@[j]).ty),
                            forall|j: int|
                                0 <= j < i ==> ty_cleans_to(cx, (#[trigger] args@[j]).ty, v@[j]),
                        decreases args@.len() - i,
                    {
                        assert(ty_cleanable(cx, args@[i as int].ty));
                        let t = args[i].ty.clean(cx);
                        v.push(t);
                        i = i + 1;
                    }
                    VariantKind::TupleVariant(v)
                }
            },
            ast::VariantKind::StructVariantKind(sd) => VariantKind::StructVariant(sd.clean(cx)),
        }
    }
}

pub struct Variant {
    pub name: String,
    pub attrs: Vec<Attribute>,
    pub kind: VariantKind,
    pub visibility: Visibility,
}

impl Clean<Variant> for doctree::Variant {
    open spec fn clean_requires(&self, cx: &DocContext) -> bool {
        self.attrs.clean_requires(cx) && self.kind.clean_requires(cx)
    }

    open spec fn clean_ensures(&self, cx: &DocContext, out: Variant) -> bool {
        &&& self.name.clean_ensures(cx, out.name)
        &&& docs_collapsed(self.attrs@, out.attrs@)
        &&& self.kind.clean_ensures(cx, out.kind)
        &&& out.visibility == self.visibility
    }

    fn clean(&self, cx: &DocContext) -> (out: Variant) {
        Variant {
            name: self.name.clean(cx),
            attrs: clean_and_collapse(cx, &self.attrs),
            kind: self.kind.clean(cx),
            visibility: self.visibility,
        }
    }
}

pub struct Enum {
    pub variants: Vec<Variant>,
    pub generics: Generics,
    pub attrs: Vec<Attribute>,
    pub name: String,
    pub node: NodeId,
    pub where_: String,
}

impl Clean<Enum> for doctree::Enum {
    open spec fn clean_requires(&self, cx: &DocContext) -> bool {
        self.variants.clean_requires(cx) && self.attrs.clean_requires(cx)
    }

    open spec fn clean_ensures(&self, cx: &DocContext, out: Enum) -> bool {
        &&& self.variants.clean_ensures(cx, out.variants)
        &&& self.generics.clean_ensures(cx, out.generics)
        &&& docs_collapsed(self.attrs@, out.attrs@)
        &&& self.name.clean_ensures(cx, out.name)
        &&& self.where_.clean_ensures(cx, out.where_)
        &&& out.node == self.id
    }

    fn clean(&self, cx: &DocContext) -> (out: Enum) {
        Enum {
            variants: self.variants.clean(cx),
            generics: self.generics.clean(cx),
            attrs: clean_and_collapse(cx, &self.attrs),
            name: self.name.clean(cx),
            where_: self.where_.clean(cx),
            node: self.id,
        }
    }
}

// ---------------------------------------------------------------------------
// Type definitions, statics and implementations
// ---------------------------------------------------------------------------

pub struct Typedef {
    pub name: String,
    pub type_: Type,
    pub generics: Generics,
    pub where_: String,
    pub id: NodeId,
    pub attrs: Vec<Attribute>,
}

impl Clean<Typedef> for doctree::Typedef {
    open spec fn clean_requires(&self, cx: &DocContext) -> bool {
        ty_cleanable(cx, self.ty) && self.attrs.clean_requires(cx)
    }

    open spec fn clean_ensures(&self, cx: &DocContext, out: Typedef) -> bool {
        &&& self.ty.clean_ensures(cx, out.type_)
        &&& self.gen.clean_ensures(cx, out.generics)
        &&& self.name.clean_ensures(cx, out.name)
        &&& out.id == self.id
        &&& self.attrs.clean_ensures(cx, out.attrs)
        &&& self.where_.clean_ensures(cx, out.where_)
    }

    fn clean(&self, cx: &DocContext) -> (out: Typedef) {
        Typedef {
            type_: self.ty.clean(cx),
            generics: self.gen.clean(cx),
            name: self.name.clean(cx),
            id: self.id,
            attrs: self.attrs.clean(cx),
            where_: self.where_.clean(cx),
        }
    }
}

pub struct Static {
    pub name: String,
    pub type_: Type,
    pub mutability: Mutability,
    pub where_: String,
    /// The source text of the value.
    pub expr: String,
    pub attrs: Vec<Attribute>,
}

impl Clean<Static> for doctree::Static {
    open spec fn clean_requires(&self, cx: &DocContext) -> bool {
        ty_cleanable(cx, self.type_) && self.attrs.clean_requires(cx)
    }

    open spec fn clean_ensures(&self, cx: &DocContext, out: Static) -> bool {
        &&& self.type_.clean_ensures(cx, out.type_)
        &&& self.mutability.clean_ensures(cx, out.mutability)
        &&& out.expr@ == span_src(self.expr.span)
        &&& self.name.clean_ensures(cx, out.name)
        &&& self.attrs.clean_ensures(cx, out.attrs)
        &&& self.where_.clean_ensures(cx, out.where_)
    }

    fn clean(&self, cx: &DocContext) -> (out: Static) {
        Static {
            type_: self.type_.clean(cx),
            mutability: self.mutability.clean(cx),
            expr: self.expr.span.to_src(),
            name: self.name.clean(cx),
            attrs: self.attrs.clean(cx),
            where_: self.where_.clean(cx),
        }
    }
}

pub struct Impl {
    pub generics: Generics,
    pub trait_: Option<TraitRef>,
    pub for_: Type,
    pub methods: Vec<Method>,
    pub attrs: Vec<Attribute>,
    pub where_: String,
}

impl Clean<Impl> for doctree::Impl {
    open spec fn clean_requires(&self, cx: &DocContext) -> bool {
        &&& ty_cleanable(cx, self.for_)
        &&& self.methods.clean_requires(cx)
        &&& self.attrs.clean_requires(cx)
    }

    open spec fn clean_ensures(&self, cx: &DocContext, out: Impl) -> bool {
        &&& self.generics.clean_ensures(cx, out.generics)
        &&& self.trait_.clean_ensures(cx, out.trait_)
        &&& self.for_.clean_ensures(cx, out.for_)
        &&& self.methods.clean_ensures(cx, out.methods)
        &&& self.attrs.clean_ensures(cx, out.attrs)
        &&& self.where_.clean_ensures(cx, out.where_)
    }

    fn clean(&self, cx: &DocContext) -> (out: Impl) {
        Impl {
            generics: self.generics.clean(cx),
            trait_: self.trait_.clean(cx),
            for_: self.for_.clean(cx),
            methods: self.methods.clean(cx),
            attrs: self.attrs.clean(cx),
            where_: self.where_.clean(cx),
        }
    }
}

// ---------------------------------------------------------------------------
// Imports
// ---------------------------------------------------------------------------

/// A name in an import list.
pub type ViewListIdent = String;

impl Clean<ViewListIdent> for ast::PathListIdentKind {
    open spec fn clean_requires(&self, cx: &DocContext) -> bool {
        true
    }

    open spec fn clean_ensures(&self, cx: &DocContext, out: ViewListIdent) -> bool {
        out@ == self.name.name@
    }

    fn clean(&self, cx: &DocContext) -> (out: ViewListIdent) {
        self.name.clean(cx)
    }
}

pub enum ViewPath {
    SimpleImport(String, String, NodeId),
    GlobImport(String, NodeId),
    ImportList(String, Vec<ViewListIdent>, NodeId),
}

impl Clean<ViewPath> for ast::ViewPathKind {
    open spec fn clean_requires(&self, cx: &DocContext) -> bool {
        true
    }

    open spec fn clean_ensures(&self, cx: &DocContext, out: ViewPath) -> bool {
        match (self, out) {
            (ast::ViewPathKind::ViewPathSimple(i, p, id), ViewPath::SimpleImport(oi, op, oid)) => {
                &&& i.clean_ensures(cx, oi)
                &&& op@ == path_text(p.idents@)
                &&& oid == id
            },
            (ast::ViewPathKind::ViewPathGlob(p, id), ViewPath::GlobImport(op, oid)) => {
                &&& op@ == path_text(p.idents@)
                &&& oid == id
            },
            (ast::ViewPathKind::ViewPathList(p, pl, id), ViewPath::ImportList(op, opl, oid)) => {
                &&& op@ == path_text(p.idents@)
                &&& pl.clean_ensures(cx, opl)
                &&& oid == id
            },
            _ => false,
        }
    }

    fn clean(&self, cx: &DocContext) -> (out: ViewPath) {
        match self {
            ast::ViewPathKind::ViewPathSimple(i, p, id) => ViewPath::SimpleImport(
                i.clean(cx),
                p.clean(cx),
                *id,
            ),
            ast::ViewPathKind::ViewPathGlob(p, id) => ViewPath::GlobImport(p.clean(cx), *id),
            ast::ViewPathKind::ViewPathList(p, pl, id) => ViewPath::ImportList(
                p.clean(cx),
                pl.clean(cx),
                *id,
            ),
        }
    }
}

pub enum ViewItemInner {
    ExternMod(String, Vec<Attribute>, NodeId),
    Import(Vec<ViewPath>),
}

impl Clean<ViewItemInner> for ast::ViewItemKind {
    open spec fn clean_requires(&self, cx: &DocContext) -> bool {
        match self {
            ast::ViewItemKind::ViewItemExternMod(_, mi, _) => mi.clean_requires(cx),
            ast::ViewItemKind::ViewItemUse(_) => true,
        }
    }

    open spec fn clean_ensures(&self, cx: &DocContext, out: ViewItemInner) -> bool {
        match (self, out) {
            (
                ast::ViewItemKind::ViewItemExternMod(i, mi, id),
                ViewItemInner::ExternMod(oi, omi, oid),
            ) => {
                &&& i.clean_ensures(cx, oi)
                &&& mi.clean_ensures(cx, omi)
                &&& oid == id
            },
            (ast::ViewItemKind::ViewItemUse(vp), ViewItemInner::Import(ovp)) => vp.clean_ensures(
                cx,
                ovp,
            ),
            _ => false,
        }
    }

    fn clean(&self, cx: &DocContext) -> (out: ViewItemInner) {
        match self {
            ast::ViewItemKind::ViewItemExternMod(i, mi, id) => ViewItemInner::ExternMod(
                i.clean(cx),
                mi.clean(cx),
                *id,
            ),
            ast::ViewItemKind::ViewItemUse(vp) => ViewItemInner::Import(vp.clean(cx)),
        }
    }
}

pub struct ViewItem {
    pub attrs: Vec<Attribute>,
    pub where_: String,
    pub vis: Visibility,
    pub inner: ViewItemInner,
}

impl Clean<ViewItem> for ast::ViewItem {
    open spec fn clean_requires(&self, cx: &DocContext) -> bool {
        self.attrs.clean_requires(cx) && self.node.clean_requires(cx)
    }

    open spec fn clean_ensures(&self, cx: &DocContext, out: ViewItem) -> bool {
        &&& self.attrs.clean_ensures(cx, out.attrs)
        &&& self.span.clean_ensures(cx, out.where_)
        &&& out.vis == self.vis
        &&& self.node.clean_ensures(cx, out.inner)
    }

    fn clean(&self, cx: &DocContext) -> (out: ViewItem) {
        ViewItem {
            attrs: self.attrs.clean(cx),
            where_: self.span.clean(cx),
            vis: self.vis,
            inner: self.node.clean(cx),
        }
    }
}

// ---------------------------------------------------------------------------
// Modules and the crate
// ---------------------------------------------------------------------------

pub struct Module {
    pub name: String,
    pub attrs: Vec<Attribute>,
    pub structs: Vec<Struct>,
    pub enums: Vec<Enum>,
    pub fns: Vec<Function>,
    pub mods: Vec<Module>,
    pub typedefs: Vec<Typedef>,
    pub statics: Vec<Static>,
    pub traits: Vec<Trait>,
    pub impls: Vec<Impl>,
    pub view_items: Vec<ViewItem>,
}

/// Every item of a module, and of the modules inside it, can be cleaned.
pub open spec fn module_cleanable(cx: &DocContext, m: doctree::Module) -> bool
    decreases m,
{
    &&& m.attrs.clean_requires(cx)
    &&& m.structs.clean_requires(cx)
    &&& m.enums.clean_requires(cx)
    &&& m.fns.clean_requires(cx)
    &&& forall|i: int| 0 <= i < m.mods@.len() ==> module_cleanable(cx, #[trigger] m.mods@[i])
    &&& m.typedefs.clean_requires(cx)
    &&& m.statics.clean_requires(cx)
    &&& m.traits.clean_requires(cx)
    &&& m.impls.clean_requires(cx)
    &&& m.view_items.clean_requires(cx)
}

/// `out` is the cleaned form of the module `m`: its name (empty for the
/// crate's root), its attributes, and each of its lists of items cleaned,
/// in order, down through the modules inside it.
pub open spec fn module_cleans_to(cx: &DocContext, m: doctree::Module, out: Module) -> bool
    decreases m,
{
    &&& out.name@ == opt_name(m.name)
    &&& m.attrs.clean_ensures(cx, out.attrs)
    &&& m.structs.clean_ensures(cx, out.structs)
    &&& m.enums.clean_ensures(cx, out.enums)
    &&& m.fns.clean_ensures(cx, out.fns)
    &&& out.mods@.len() == m.mods@.len()
    &&& forall|i: int|
        0 <= i < m.mods@.len() ==> module_cleans_to(cx, #[trigger] m.mods@[i], out.mods@[i])
    &&& m.typedefs.clean_ensures(cx, out.typedefs)
    &&& m.statics.clean_ensures(cx, out.statics)
    &&& m.traits.clean_ensures(cx, out.traits)
    &&& m.impls.clean_ensures(cx, out.impls)
    &&& m.view_items.clean_ensures(cx, out.view_items)
}

fn clean_module(cx: &DocContext, m: &doctree::Module) -> (out: Module)
    requires
        module_cleanable(cx, *m),
    ensures
        module_cleans_to(cx, *m, out),
    decreases m,
{
    let mut mods: Vec<Module> = Vec::new();
    let mut i: usize = 0;
    while i < m.mods.len()
        invariant
            i <= m.mods@.len(),
            mods@.len() == i,
            module_cleanable(cx, *m),
            forall|j: int| 0 <= j < i ==> module_cleans_to(cx, #[trigger] m.mods@[j], mods@[j]),
        decreases m.mods@.len() - i,
    {
        proof {
            broadcast use vstd::std_specs::vec::axiom_vec_decreases_to_view;

            assert(module_cleanable(cx, m.mods@[i as int]));
            assert(decreases_to!(*m => m.mods));
            assert(decreases_to!(m.mods => m.mods@));
            assert(decreases_to!(m.mods@ => m.mods@[i as int]));
        }
        let x = clean_module(cx, &m.mods[i]);
        mods.push(x);
        i = i + 1;
    }
    Module {
        name: clean_opt_name(cx, &m.name),
        attrs: m.attrs.clean(cx),
        structs: m.structs.clean(cx),
        enums: m.enums.clean(cx),
        fns: m.fns.clean(cx),
        mods,
        typedefs: m.typedefs.clean(cx),
        statics: m.statics.clean(cx),
        traits: m.traits.clean(cx),
        impls: m.impls.clean(cx),
        view_items: m.view_items.clean(cx),
    }
}

impl Clean<Module> for doctree::Module {
    open spec fn clean_requires(&self, cx: &DocContext) -> bool {
        module_cleanable(cx, *self)
    }

    open spec fn clean_ensures(&self, cx: &DocContext, out: Module) -> bool {
        module_cleans_to(cx, *self, out)
    }

    fn clean(&self, cx: &DocContext) -> (out: Module) {
        clean_module(cx, self)
    }
}

/// The documentation of a crate: its name, its attributes and its modules.
pub struct Crate {
    pub name: String,
    pub attrs: Vec<Attribute>,
    pub mods: Vec<Module>,
}

impl Clean<Crate> for doctree::RustdocVisitor {
    /// The crate names itself in `#[link(name = "..")]`, and its modules
    /// and attributes can be cleaned.
    open spec fn clean_requires(&self, cx: &DocContext) -> bool {
        &&& link_name(self.attrs@) is Some
        &&& self.mods.clean_requires(cx)
        &&& self.attrs.clean_requires(cx)
    }

    open spec fn clean_ensures(&self, cx: &DocContext, out: Crate) -> bool {
        &&& out.name@ == link_name(self.attrs@)->Some_0
        &&& self.mods.clean_ensures(cx, out.mods)
        &&& self.attrs.clean_ensures(cx, out.attrs)
    }

    fn clean(&self, cx: &DocContext) -> (out: Crate) {
        let name = match linkage_name(&self.attrs) {
            Some(x) => x,
            None => {
                proof {
                    assert(false);
                }
                String::new()
            },
        };
        Crate { name, mods: self.mods.clean(cx), attrs: self.attrs.clean(cx) }
    }
}

} // verus!
