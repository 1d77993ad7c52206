//! The `Clean` conversion from the syntax tree to the documentation model,
//! and its lifting over lists, boxes, options and spanned nodes.
use vstd::prelude::*;

use crate::ast;
use crate::context::DocContext;

verus! {

/// Conversion of a node of the syntax tree (or of the document tree) into
/// its form in the documentation model. The context holds what the
/// resolver and the crate store know.
pub trait Clean<T>: Sized {
    /// The inputs on which the conversion is defined.
    spec fn clean_requires(&self, cx: &DocContext) -> bool;

    /// `out` is the form of `self` in the documentation model.
    spec fn clean_ensures(&self, cx: &DocContext, out: T) -> bool;

    fn clean(&self, cx: &DocContext) -> (out: T)
        requires
            self.clean_requires(cx),
        ensures
            self.clean_ensures(cx, out),
    ;
}

/// Every element of a list is cleaned, in order.
impl<U, T: Clean<U>> Clean<Vec<U>> for Vec<T> {
    open spec fn clean_requires(&self, cx: &DocContext) -> bool {
        forall|i: int| 0 <= i < self@.len() ==> #[trigger] self@[i].clean_requires(cx)
    }

    open spec fn clean_ensures(&self, cx: &DocContext, out: Vec<U>) -> bool {
        &&& out@.len() == self@.len()
        &&& forall|i: int| 0 <= i < self@.len() ==> #[trigger] self@[i].clean_ensures(cx, out@[i])
    }

    fn clean(&self, cx: &DocContext) -> (out: Vec<U>) {
        let mut out: Vec<U> = Vec::new();
        let mut i: usize = 0;
        while i < self.len()
            invariant
                i <= self@.len(),
                out@.len() == i,
                forall|j: int| 0 <= j < self@.len() ==> #[trigger] self@[j].clean_requires(cx),
                forall|j: int| 0 <= j < i ==> #[trigger] self@[j].clean_ensures(cx, out@[j]),
            decreases self@.len() - i,
        {
            let x = self[i].clean(cx);
            out.push(x);
            i = i + 1;
        }
        out
    }
}

/// A boxed node is cleaned as the node itself.
impl<U, T: Clean<U>> Clean<U> for Box<T> {
    open spec fn clean_requires(&self, cx: &DocContext) -> bool {
        (**self).clean_requires(cx)
    }

    open spec fn clean_ensures(&self, cx: &DocContext, out: U) -> bool {
        (**self).clean_ensures(cx, out)
    }

    fn clean(&self, cx: &DocContext) -> (out: U) {
        (**self).clean(cx)
    }
}

/// An absent node stays absent; a present one is cleaned.
impl<U, T: Clean<U>> Clean<Option<U>> for Option<T> {
    open spec fn clean_requires(&self, cx: &DocContext) -> bool {
        match self {
            Some(v) => v.clean_requires(cx),
            None => true,
        }
    }

    open spec fn clean_ensures(&self, cx: &DocContext, out: Option<U>) -> bool {
        match (self, out) {
            (None, None) => true,
            (Some(v), Some(o)) => v.clean_ensures(cx, o),
            _ => false,
        }
    }

    fn clean(&self, cx: &DocContext) -> (out: Option<U>) {
        match self {
            None => None,
            Some(v) => Some(v.clean(cx)),
        }
    }
}

/// A spanned node is cleaned as its node; the span is dropped.
impl<U, T: Clean<U>> Clean<U> for ast::Spanned<T> {
    open spec fn clean_requires(&self, cx: &DocContext) -> bool {
        self.node.clean_requires(cx)
    }

    open spec fn clean_ensures(&self, cx: &DocContext, out: U) -> bool {
        self.node.clean_ensures(cx, out)
    }

    fn clean(&self, cx: &DocContext) -> (out: U) {
        self.node.clean(cx)
    }
}

/// An optional list is cleaned to a list: the empty one to the empty list.
impl<U, T: Clean<U>> Clean<Vec<U>> for ast::OptVec<T> {
    open spec fn clean_requires(&self, cx: &DocContext) -> bool {
        match self {
            ast::OptVec::Empty => true,
            ast::OptVec::Vec(v) => v.clean_requires(cx),
        }
    }

    open spec fn clean_ensures(&self, cx: &DocContext, out: Vec<U>) -> bool {
        match self {
            ast::OptVec::Empty => out@.len() == 0,
            ast::OptVec::Vec(v) => v.clean_ensures(cx, out),
        }
    }

    fn clean(&self, cx: &DocContext) -> (out: Vec<U>) {
        match self {
            ast::OptVec::Empty => Vec::new(),
            ast::OptVec::Vec(v) => v.clean(cx),
        }
    }
}

} // verus!
