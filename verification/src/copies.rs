//! Copies of the documentation model: what it means for two values to be
//! the same, and `Clone` for the types that the documentation copies.
use vstd::prelude::*;

use crate::attrs::{same_attribute, Attribute};
use crate::items::{Impl, Method, Trait, TraitMethod, TyMethod};
use crate::types::{
    Argument, BareFunctionDecl, ClosureDecl, FnDecl, Generics, Lifetime, SelfTy, TraitRef, TyParam,
    TyParamBound, Type,
};

verus! {

// ---------------------------------------------------------------------------
// Sameness
// ---------------------------------------------------------------------------

/// Two lists of attributes are the same, element by element.
pub open spec fn same_attributes(a: Seq<Attribute>, b: Seq<Attribute>) -> bool {
    &&& a.len() == b.len()
    &&& forall|i: int| 0 <= i < a.len() ==> same_attribute(#[trigger] a[i], b[i])
}

pub open spec fn same_lifetime(a: Lifetime, b: Lifetime) -> bool {
    a.0@ == b.0@
}

pub open spec fn same_lifetimes(a: Seq<Lifetime>, b: Seq<Lifetime>) -> bool {
    &&& a.len() == b.len()
    &&& forall|i: int| 0 <= i < a.len() ==> same_lifetime(#[trigger] a[i], b[i])
}

pub open spec fn same_opt_lifetime(a: Option<Lifetime>, b: Option<Lifetime>) -> bool {
    match (a, b) {
        (None, None) => true,
        (Some(x), Some(y)) => same_lifetime(x, y),
        _ => false,
    }
}

pub open spec fn same_trait_ref(a: TraitRef, b: TraitRef) -> bool {
    a.path@ == b.path@ && a.id == b.id
}

pub open spec fn same_bound(a: TyParamBound, b: TyParamBound) -> bool {
    match (a, b) {
        (TyParamBound::RegionBound, TyParamBound::RegionBound) => true,
        (TyParamBound::TraitBound(x), TyParamBound::TraitBound(y)) => same_trait_ref(x, y),
        _ => false,
    }
}

pub open spec fn same_bounds(a: Seq<TyParamBound>, b: Seq<TyParamBound>) -> bool {
    &&& a.len() == b.len()
    &&& forall|i: int| 0 <= i < a.len() ==> same_bound(#[trigger] a[i], b[i])
}

pub open spec fn same_ty_param(a: TyParam, b: TyParam) -> bool {
    a.name@ == b.name@ && a.node == b.node && same_bounds(a.bounds@, b.bounds@)
}

pub open spec fn same_generics(a: Generics, b: Generics) -> bool {
    &&& same_lifetimes(a.lifetimes@, b.lifetimes@)
    &&& a.type_params@.len() == b.type_params@.len()
    &&& forall|i: int|
        0 <= i < a.type_params@.len() ==> same_ty_param(
            #[trigger] a.type_params@[i],
            b.type_params@[i],
        )
}

pub open spec fn same_self_ty(a: SelfTy, b: SelfTy) -> bool {
    match (a, b) {
        (SelfTy::SelfStatic, SelfTy::SelfStatic) => true,
        (SelfTy::SelfValue, SelfTy::SelfValue) => true,
        (SelfTy::SelfOwned, SelfTy::SelfOwned) => true,
        (SelfTy::SelfBorrowed(l1, m1), SelfTy::SelfBorrowed(l2, m2)) => same_opt_lifetime(l1, l2)
            && m1 == m2,
        (SelfTy::SelfManaged(m1), SelfTy::SelfManaged(m2)) => m1 == m2,
        _ => false,
    }
}

/// Two types are the same: the same shape, with the same nodes, names,
/// declarations and pointees.
pub open spec fn same_type(a: Type, b: Type) -> bool
    decreases a,
{
    match (a, b) {
        (Type::Unresolved(x), Type::Unresolved(y)) => x == y,
        (Type::Resolved(x), Type::Resolved(y)) => x == y,
        (Type::External(p1, k1), Type::External(p2, k2)) => p1@ == p2@ && k1@ == k2@,
        (Type::Generic(x), Type::Generic(y)) => x == y,
        (Type::Self_(x), Type::Self_(y)) => x == y,
        (Type::Primitive(x), Type::Primitive(y)) => x == y,
        (Type::Closure(x), Type::Closure(y)) => same_closure(*x, *y),
        (Type::BareFunction(x), Type::BareFunction(y)) => same_bare_fn(*x, *y),
        (Type::Tuple(x), Type::Tuple(y)) => {
            &&& x@.len() == y@.len()
            &&& forall|i: int| 0 <= i < x@.len() ==> same_type(#[trigger] x@[i], y@[i])
        },
        (Type::Vector(x), Type::Vector(y)) => same_type(*x, *y),
        (Type::String, Type::String) => true,
        (Type::Bool, Type::Bool) => true,
        (Type::Unit, Type::Unit) => true,
        (Type::Bottom, Type::Bottom) => true,
        (Type::Unique(x), Type::Unique(y)) => same_type(*x, *y),
        (Type::Managed(x), Type::Managed(y)) => same_type(*x, *y),
        (Type::RawPointer(x), Type::RawPointer(y)) => same_type(*x, *y),
        (Type::BorrowedRef(x), Type::BorrowedRef(y)) => same_type(*x, *y),
        _ => false,
    }
}

pub open spec fn same_fn_decl(a: FnDecl, b: FnDecl) -> bool
    decreases a,
{
    &&& a.inputs@.len() == b.inputs@.len()
    &&& forall|i: int| 0 <= i < a.inputs@.len() ==> same_argument(#[trigger] a.inputs@[i], b.inputs@[i])
    &&& same_type(a.output, b.output)
    &&& a.cf == b.cf
    &&& same_attributes(a.attrs@, b.attrs@)
}

pub open spec fn same_argument(a: Argument, b: Argument) -> bool
    decreases a,
{
    same_type(a.ty, b.ty) && a.name@ == b.name@ && a.id == b.id
}

pub open spec fn same_closure(a: ClosureDecl, b: ClosureDecl) -> bool
    decreases a,
{
    &&& a.sigil == b.sigil
    &&& same_opt_lifetime(a.region, b.region)
    &&& same_lifetimes(a.lifetimes@, b.lifetimes@)
    &&& same_fn_decl(a.decl, b.decl)
    &&& a.onceness == b.onceness
    &&& a.purity == b.purity
    &&& same_bounds(a.bounds@, b.bounds@)
}

pub open spec fn same_bare_fn(a: BareFunctionDecl, b: BareFunctionDecl) -> bool
    decreases a,
{
    &&& a.purity == b.purity
    &&& same_generics(a.generics, b.generics)
    &&& same_fn_decl(a.decl, b.decl)
    &&& a.abi@ == b.abi@
}

pub open spec fn same_method(a: Method, b: Method) -> bool {
    &&& a.name@ == b.name@
    &&& same_attributes(a.attrs@, b.attrs@)
    &&& same_generics(a.generics, b.generics)
    &&& same_self_ty(a.self_, b.self_)
    &&& a.purity == b.purity
    &&& same_fn_decl(a.decl, b.decl)
    &&& a.where_@ == b.where_@
    &&& a.id == b.id
    &&& a.vis == b.vis
}

pub open spec fn same_ty_method(a: TyMethod, b: TyMethod) -> bool {
    &&& a.name@ == b.name@
    &&& same_attributes(a.attrs@, b.attrs@)
    &&& a.purity == b.purity
    &&& same_fn_decl(a.decl, b.decl)
    &&& same_generics(a.generics, b.generics)
    &&& a.id == b.id
    &&& same_self_ty(a.self_, b.self_)
    &&& a.where_@ == b.where_@
}

pub open spec fn same_trait_method(a: TraitMethod, b: TraitMethod) -> bool {
    match (a, b) {
        (TraitMethod::Required(x), TraitMethod::Required(y)) => same_ty_method(x, y),
        (TraitMethod::Provided(x), TraitMethod::Provided(y)) => same_method(x, y),
        _ => false,
    }
}

pub open spec fn same_trait(a: Trait, b: Trait) -> bool {
    &&& a.name@ == b.name@
    &&& a.methods@.len() == b.methods@.len()
    &&& forall|i: int|
        0 <= i < a.methods@.len() ==> same_trait_method(#[trigger] a.methods@[i], b.methods@[i])
    &&& same_generics(a.generics, b.generics)
    &&& a.where_@ == b.where_@
    &&& same_attributes(a.attrs@, b.attrs@)
    &&& a.parents@.len() == b.parents@.len()
    &&& forall|i: int|
        0 <= i < a.parents@.len() ==> same_trait_ref(#[trigger] a.parents@[i], b.parents@[i])
    &&& a.id == b.id
}

pub open spec fn same_impl(a: Impl, b: Impl) -> bool {
    &&& same_generics(a.generics, b.generics)
    &&& match (a.trait_, b.trait_) {
        (None, None) => true,
        (Some(x), Some(y)) => same_trait_ref(x, y),
        _ => false,
    }
    &&& same_type(a.for_, b.for_)
    &&& a.methods@.len() == b.methods@.len()
    &&& forall|i: int| 0 <= i < a.methods@.len() ==> same_method(#[trigger] a.methods@[i], b.methods@[i])
    &&& same_attributes(a.attrs@, b.attrs@)
    &&& a.where_@ == b.where_@
}

/// Every type is the same as itself.
pub proof fn lemma_same_type_reflexive(t: Type)
    ensures
        same_type(t, t),
    decreases t,
{
    match t {
        Type::Closure(x) => {
            lemma_same_closure_reflexive(*x);
        },
        Type::BareFunction(x) => {
            lemma_same_bare_fn_reflexive(*x);
        },
        Type::Tuple(x) => {
            assert forall|i: int| 0 <= i < x@.len() implies same_type(#[trigger] x@[i], x@[i]) by {
                lemma_same_type_reflexive(x@[i]);
            }
        },
        Type::Vector(x) => lemma_same_type_reflexive(*x),
        Type::Unique(x) => lemma_same_type_reflexive(*x),
        Type::Managed(x) => lemma_same_type_reflexive(*x),
        Type::RawPointer(x) => lemma_same_type_reflexive(*x),
        Type::BorrowedRef(x) => lemma_same_type_reflexive(*x),
        Type::Primitive(p) => {},
        _ => {},
    }
    assert(same_type(t, t));
}

/// Every bare function declaration is the same as itself.
pub proof fn lemma_same_bare_fn_reflexive(b: BareFunctionDecl)
    ensures
        same_bare_fn(b, b),
    decreases b,
{
    lemma_same_fn_decl_reflexive(b.decl);
    lemma_same_generics_reflexive(b.generics);
}

/// Every list of generics is the same as itself.
pub proof fn lemma_same_generics_reflexive(g: Generics)
    ensures
        same_generics(g, g),
{
    assert forall|i: int| 0 <= i < g.type_params@.len() implies same_ty_param(
        #[trigger] g.type_params@[i],
        g.type_params@[i],
    ) by {
        lemma_same_bounds_reflexive(g.type_params@[i].bounds@);
    }
}

/// Every list of bounds is the same as itself.
pub proof fn lemma_same_bounds_reflexive(b: Seq<TyParamBound>)
    ensures
        same_bounds(b, b),
{
    assert forall|i: int| 0 <= i < b.len() implies same_bound(#[trigger] b[i], b[i]) by {
        match b[i] {
            TyParamBound::RegionBound => {},
            TyParamBound::TraitBound(_) => {},
        }
    }
}

/// Every declaration is the same as itself.
pub proof fn lemma_same_fn_decl_reflexive(d: FnDecl)
    ensures
        same_fn_decl(d, d),
    decreases d,
{
    assert forall|i: int| 0 <= i < d.inputs@.len() implies same_argument(
        #[trigger] d.inputs@[i],
        d.inputs@[i],
    ) by {
        lemma_same_type_reflexive(d.inputs@[i].ty);
    }
    lemma_same_type_reflexive(d.output);
    assert forall|i: int| 0 <= i < d.attrs@.len() implies same_attribute(
        #[trigger] d.attrs@[i],
        d.attrs@[i],
    ) by {
        lemma_same_attribute_reflexive(d.attrs@[i]);
    }
}

/// Every closure declaration is the same as itself.
pub proof fn lemma_same_closure_reflexive(c: ClosureDecl)
    ensures
        same_closure(c, c),
    decreases c,
{
    lemma_same_fn_decl_reflexive(c.decl);
    lemma_same_bounds_reflexive(c.bounds@);
}

/// Every attribute is the same as itself.
pub proof fn lemma_same_attribute_reflexive(a: Attribute)
    ensures
        same_attribute(a, a),
    decreases a,
{
    match a {
        Attribute::List(_, l) => {
            assert forall|i: int| 0 <= i < l@.len() implies same_attribute(#[trigger] l@[i], l@[i]) by {
                lemma_same_attribute_reflexive(l@[i]);
            }
        },
        _ => {},
    }
}

// ---------------------------------------------------------------------------
// Copies
// ---------------------------------------------------------------------------

fn copy_attributes(a: &Vec<Attribute>) -> (r: Vec<Attribute>)
    ensures
        same_attributes(a@, r@),
{
    let mut r: Vec<Attribute> = Vec::new();
    let mut i: usize = 0;
    while i < a.len()
        invariant
            i <= a@.len(),
            r@.len() == i,
            forall|j: int| 0 <= j < i ==> same_attribute(#[trigger] a@[j], r@[j]),
        decreases a@.len() - i,
    {
        r.push(a[i].clone());
        i = i + 1;
    }
    r
}

impl Clone for Lifetime {
    fn clone(&self) -> (r: Self)
        ensures
            same_lifetime(*self, r),
    {
        Lifetime(self.0.clone())
    }
}

fn copy_lifetimes(a: &Vec<Lifetime>) -> (r: Vec<Lifetime>)
    ensures
        same_lifetimes(a@, r@),
{
    let mut r: Vec<Lifetime> = Vec::new();
    let mut i: usize = 0;
    while i < a.len()
        invariant
            i <= a@.len(),
            r@.len() == i,
            forall|j: int| 0 <= j < i ==> same_lifetime(#[trigger] a@[j], r@[j]),
        decreases a@.len() - i,
    {
        r.push(a[i].clone());
        i = i + 1;
    }
    r
}

fn copy_opt_lifetime(a: &Option<Lifetime>) -> (r: Option<Lifetime>)
    ensures
        same_opt_lifetime(*a, r),
{
    match a {
        Some(l) => Some(l.clone()),
        None => None,
    }
}

impl Clone for TraitRef {
    fn clone(&self) -> (r: Self)
        ensures
            same_trait_ref(*self, r),
    {
        TraitRef { path: self.path.clone(), id: self.id }
    }
}

impl Clone for TyParamBound {
    fn clone(&self) -> (r: Self)
        ensures
            same_bound(*self, r),
    {
        match self {
            TyParamBound::RegionBound => TyParamBound::RegionBound,
            TyParamBound::TraitBound(t) => TyParamBound::TraitBound(t.clone()),
        }
    }
}

fn copy_bounds(a: &Vec<TyParamBound>) -> (r: Vec<TyParamBound>)
    ensures
        same_bounds(a@, r@),
{
    let mut r: Vec<TyParamBound> = Vec::new();
    let mut i: usize = 0;
    while i < a.len()
        invariant
            i <= a@.len(),
            r@.len() == i,
            forall|j: int| 0 <= j < i ==> same_bound(#[trigger] a@[j], r@[j]),
        decreases a@.len() - i,
    {
        r.push(a[i].clone());
        i = i + 1;
    }
    r
}

impl Clone for TyParam {
    fn clone(&self) -> (r: Self)
        ensures
            same_ty_param(*self, r),
    {
        TyParam { name: self.name.clone(), node: self.node, bounds: copy_bounds(&self.bounds) }
    }
}

impl Clone for Generics {
    fn clone(&self) -> (r: Self)
        ensures
            same_generics(*self, r),
    {
        let mut type_params: Vec<TyParam> = Vec::new();
        let mut i: usize = 0;
        while i < self.type_params.len()
            invariant
                i <= self.type_params@.len(),
                type_params@.len() == i,
                forall|j: int|
                    0 <= j < i ==> same_ty_param(#[trigger] self.type_params@[j], type_params@[j]),
            decreases self.type_params@.len() - i,
        {
            type_params.push(self.type_params[i].clone());
            i = i + 1;
        }
        Generics { lifetimes: copy_lifetimes(&self.lifetimes), type_params }
    }
}

impl Clone for SelfTy {
    fn clone(&self) -> (r: Self)
        ensures
            same_self_ty(*self, r),
    {
        match self {
            SelfTy::SelfStatic => SelfTy::SelfStatic,
            SelfTy::SelfValue => SelfTy::SelfValue,
            SelfTy::SelfOwned => SelfTy::SelfOwned,
            SelfTy::SelfBorrowed(l, m) => SelfTy::SelfBorrowed(copy_opt_lifetime(l), *m),
            SelfTy::SelfManaged(m) => SelfTy::SelfManaged(*m),
        }
    }
}

fn copy_type(a: &Type) -> (r: Type)
    ensures
        same_type(*a, r),
    decreases a,
{
    match a {
        Type::Unresolved(x) => Type::Unresolved(*x),
        Type::Resolved(x) => Type::Resolved(*x),
        Type::External(p, k) => Type::External(p.clone(), k.clone()),
        Type::Generic(x) => Type::Generic(*x),
        Type::Self_(x) => Type::Self_(*x),
        Type::Primitive(x) => Type::Primitive(*x),
        Type::Closure(x) => Type::Closure(Box::new(copy_closure(&**x))),
        Type::BareFunction(x) => Type::BareFunction(Box::new(copy_bare_fn(&**x))),
        Type::Tuple(x) => {
            let mut v: Vec<Type> = Vec::new();
            let mut i: usize = 0;
            while i < x.len()
                invariant
                    i <= x@.len(),
                    v@.len() == i,
                    *a == Type::Tuple(*x),
                    forall|j: int| 0 <= j < i ==> same_type(#[trigger] x@[j], v@[j]),
                decreases x@.len() - i,
            {
                proof {
                    broadcast use vstd::std_specs::vec::axiom_vec_decreases_to_view;

                    assert(decreases_to!(*a => a->Tuple_0));
                    assert(decreases_to!(*x => x@));
                    assert(decreases_to!(x@ => x@[i as int]));
                }
                let t = copy_type(&x[i]);
                v.push(t);
                i = i + 1;
            }
            Type::Tuple(v)
        },
        Type::Vector(x) => Type::Vector(Box::new(copy_type(&**x))),
        Type::String => Type::String,
        Type::Bool => Type::Bool,
        Type::Unit => Type::Unit,
        Type::Bottom => Type::Bottom,
        Type::Unique(x) => Type::Unique(Box::new(copy_type(&**x))),
        Type::Managed(x) => Type::Managed(Box::new(copy_type(&**x))),
        Type::RawPointer(x) => Type::RawPointer(Box::new(copy_type(&**x))),
        Type::BorrowedRef(x) => Type::BorrowedRef(Box::new(copy_type(&**x))),
    }
}

fn copy_fn_decl(a: &FnDecl) -> (r: FnDecl)
    ensures
        same_fn_decl(*a, r),
    decreases a,
{
    let mut inputs: Vec<Argument> = Vec::new();
    let mut i: usize = 0;
    while i < a.inputs.len()
        invariant
            i <= a.inputs@.len(),
            inputs@.len() == i,
            forall|j: int| 0 <= j < i ==> same_argument(#[trigger] a.inputs@[j], inputs@[j]),
        decreases a.inputs@.len() - i,
    {
        proof {
            broadcast use vstd::std_specs::vec::axiom_vec_decreases_to_view;

            assert(decreases_to!(*a => a.inputs));
            assert(decreases_to!(a.inputs => a.inputs@));
            assert(decreases_to!(a.inputs@ => a.inputs@[i as int]));
        }
        let x = copy_argument(&a.inputs[i]);
        inputs.push(x);
        i = i + 1;
    }
    FnDecl {
        inputs,
        output: copy_type(&a.output),
        cf: a.cf,
        attrs: copy_attributes(&a.attrs),
    }
}

fn copy_argument(a: &Argument) -> (r: Argument)
    ensures
        same_argument(*a, r),
    decreases a,
{
    Argument { ty: copy_type(&a.ty), name: a.name.clone(), id: a.id }
}

fn copy_closure(a: &ClosureDecl) -> (r: ClosureDecl)
    ensures
        same_closure(*a, r),
    decreases a,
{
    ClosureDecl {
        sigil: a.sigil,
        region: copy_opt_lifetime(&a.region),
        lifetimes: copy_lifetimes(&a.lifetimes),
        decl: copy_fn_decl(&a.decl),
        onceness: a.onceness,
        purity: a.purity,
        bounds: copy_bounds(&a.bounds),
    }
}

fn copy_bare_fn(a: &BareFunctionDecl) -> (r: BareFunctionDecl)
    ensures
        same_bare_fn(*a, r),
    decreases a,
{
    BareFunctionDecl {
        purity: a.purity,
        generics: a.generics.clone(),
        decl: copy_fn_decl(&a.decl),
        abi: a.abi.clone(),
    }
}

impl Clone for Type {
    fn clone(&self) -> (r: Self)
        ensures
            same_type(*self, r),
    {
        copy_type(self)
    }
}

impl Clone for FnDecl {
    fn clone(&self) -> (r: Self)
        ensures
            same_fn_decl(*self, r),
    {
        copy_fn_decl(self)
    }
}

impl Clone for Argument {
    fn clone(&self) -> (r: Self)
        ensures
            same_argument(*self, r),
    {
        copy_argument(self)
    }
}

impl Clone for ClosureDecl {
    fn clone(&self) -> (r: Self)
        ensures
            same_closure(*self, r),
    {
        copy_closure(self)
    }
}

impl Clone for BareFunctionDecl {
    fn clone(&self) -> (r: Self)
        ensures
            same_bare_fn(*self, r),
    {
        copy_bare_fn(self)
    }
}

impl Clone for Method {
    fn clone(&self) -> (r: Self)
        ensures
            same_method(*self, r),
    {
        Method {
            name: self.name.clone(),
            attrs: copy_attributes(&self.attrs),
            generics: self.generics.clone(),
            self_: self.self_.clone(),
            purity: self.purity,
            decl: self.decl.clone(),
            where_: self.where_.clone(),
            id: self.id,
            vis: self.vis,
        }
    }
}

impl Clone for TyMethod {
    fn clone(&self) -> (r: Self)
        ensures
            same_ty_method(*self, r),
    {
        TyMethod {
            name: self.name.clone(),
            attrs: copy_attributes(&self.attrs),
            purity: self.purity,
            decl: self.decl.clone(),
            generics: self.generics.clone(),
            id: self.id,
            self_: self.self_.clone(),
            where_: self.where_.clone(),
        }
    }
}

impl Clone for TraitMethod {
    fn clone(&self) -> (r: Self)
        ensures
            same_trait_method(*self, r),
    {
        match self {
            TraitMethod::Required(m) => TraitMethod::Required(m.clone()),
            TraitMethod::Provided(m) => TraitMethod::Provided(m.clone()),
        }
    }
}

impl Clone for Trait {
    fn clone(&self) -> (r: Self)
        ensures
            same_trait(*self, r),
    {
        let mut methods: Vec<TraitMethod> = Vec::new();
        let mut i: usize = 0;
        while i < self.methods.len()
            invariant
                i <= self.methods@.len(),
                methods@.len() == i,
                forall|j: int| 0 <= j < i ==> same_trait_method(#[trigger] self.methods@[j], methods@[j]),
            decreases self.methods@.len() - i,
        {
            methods.push(self.methods[i].clone());
            i = i + 1;
        }
        let mut parents: Vec<TraitRef> = Vec::new();
        let mut i: usize = 0;
        while i < self.parents.len()
            invariant
                i <= self.parents@.len(),
                parents@.len() == i,
                forall|j: int| 0 <= j < i ==> same_trait_ref(#[trigger] self.parents@[j], parents@[j]),
            decreases self.parents@.len() - i,
        {
            parents.push(self.parents[i].clone());
            i = i + 1;
        }
        Trait {
            name: self.name.clone(),
            methods,
            generics: self.generics.clone(),
            where_: self.where_.clone(),
            attrs: copy_attributes(&self.attrs),
            parents,
            id: self.id,
        }
    }
}

impl Clone for Impl {
    fn clone(&self) -> (r: Self)
        ensures
            same_impl(*self, r),
    {
        let mut methods: Vec<Method> = Vec::new();
        let mut i: usize = 0;
        while i < self.methods.len()
            invariant
                i <= self.methods@.len(),
                methods@.len() == i,
                forall|j: int| 0 <= j < i ==> same_method(#[trigger] self.methods@[j], methods@[j]),
            decreases self.methods@.len() - i,
        {
            methods.push(self.methods[i].clone());
            i = i + 1;
        }
        Impl {
            generics: self.generics.clone(),
            trait_: match &self.trait_ {
                Some(t) => Some(t.clone()),
                None => None,
            },
            for_: self.for_.clone(),
            methods,
            attrs: copy_attributes(&self.attrs),
            where_: self.where_.clone(),
        }
    }
}

} // verus!
