//! The document tree: the items of a crate as the walk over its syntax tree
//! collects them, module by module.
use vstd::prelude::*;

use crate::ast;
use crate::ast::NodeId;

verus! {

/// The shape of a structure.
#[derive(Clone, Copy, Debug, PartialEq, Eq, Structural)]
pub enum StructType {
    /// A structure with named fields.
    Plain,
    /// A tuple structure with two or more fields.
    Tuple,
    /// A tuple structure with one field.
    Newtype,
    /// A tuple structure with no field.
    Unit,
}

/// The shape of a structure definition: a definition with a constructor is
/// a tuple structure, named by its number of fields.
pub open spec fn struct_type_of(sd: ast::StructDef) -> StructType {
    if sd.ctor_id is Some {
        if sd.fields@.len() == 0 {
            StructType::Unit
        } else if sd.fields@.len() == 1 {
            StructType::Newtype
        } else {
            StructType::Tuple
        }
    } else {
        StructType::Plain
    }
}

/// The shape of a structure definition.
pub fn struct_type_from_def(sd: &ast::StructDef) -> (r: StructType)
    ensures
        r == struct_type_of(*sd),
{
    if sd.ctor_id.is_some() {
        match sd.fields.len() {
            0 => StructType::Unit,
            1 => StructType::Newtype,
            _ => StructType::Tuple,
        }
    } else {
        StructType::Plain
    }
}

pub struct StructField {
    pub id: NodeId,
    pub type_: ast::Ty,
    pub attrs: Vec<ast::Attribute>,
    pub name: Option<ast::Ident>,
    pub visibility: Option<ast::Visibility>,
}

pub struct Struct {
    pub id: NodeId,
    pub struct_type: StructType,
    pub name: ast::Ident,
    pub generics: ast::Generics,
    pub attrs: Vec<ast::Attribute>,
    pub fields: Vec<StructField>,
    pub where_: ast::Span,
}

pub struct Variant {
    pub name: ast::Ident,
    pub attrs: Vec<ast::Attribute>,
    pub kind: ast::VariantKind,
    pub id: NodeId,
    pub visibility: ast::Visibility,
    pub where_: ast::Span,
}

pub struct Enum {
    pub variants: Vec<Variant>,
    pub generics: ast::Generics,
    pub attrs: Vec<ast::Attribute>,
    pub id: NodeId,
    pub where_: ast::Span,
    pub name: ast::Ident,
}

pub struct Function {
    pub decl: ast::FnDecl,
    pub attrs: Vec<ast::Attribute>,
    pub id: NodeId,
    pub name: ast::Ident,
    pub visibility: ast::Visibility,
    pub where_: ast::Span,
    pub generics: ast::Generics,
}

pub struct Typedef {
    pub ty: ast::Ty,
    pub gen: ast::Generics,
    pub name: ast::Ident,
    pub id: NodeId,
    pub attrs: Vec<ast::Attribute>,
    pub where_: ast::Span,
}

pub struct Static {
    pub type_: ast::Ty,
    pub mutability: ast::Mutability,
    pub expr: ast::Expr,
    pub name: ast::Ident,
    pub attrs: Vec<ast::Attribute>,
    pub where_: ast::Span,
}

pub struct Trait {
    pub name: ast::Ident,
    pub methods: Vec<ast::TraitMethod>,
    pub generics: ast::Generics,
    pub parents: Vec<ast::TraitRef>,
    pub attrs: Vec<ast::Attribute>,
    pub id: NodeId,
    pub where_: ast::Span,
}

pub struct Impl {
    pub generics: ast::Generics,
    pub trait_: Option<ast::TraitRef>,
    pub for_: ast::Ty,
    pub methods: Vec<Box<ast::Method>>,
    pub attrs: Vec<ast::Attribute>,
    pub where_: ast::Span,
}

pub struct Module {
    pub name: Option<ast::Ident>,
    pub attrs: Vec<ast::Attribute>,
    pub where_: ast::Span,
    pub structs: Vec<Struct>,
    pub enums: Vec<Enum>,
    pub fns: Vec<Function>,
    pub mods: Vec<Module>,
    pub typedefs: Vec<Typedef>,
    pub statics: Vec<Static>,
    pub traits: Vec<Trait>,
    pub impls: Vec<Impl>,
    pub view_items: Vec<ast::ViewItem>,
}

/// What the walk over a crate collects: the crate's attributes and its modules.
pub struct RustdocVisitor {
    pub attrs: Vec<ast::Attribute>,
    pub mods: Vec<Module>,
}

} // verus!
