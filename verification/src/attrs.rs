//! Attributes: their cleaned form, the rendering of literals, the merging
//! of documentation comments, and the crate's link name.
use vstd::prelude::*;

use crate::ast;
use crate::clean::Clean;
use crate::context::DocContext;
use crate::text::{
    clean_comment_body, comment_body, is_white_space, comment_tags_removable, decimal, i64_to_string, push_char,
    remove_comment_tags, signed_decimal, trim, decimal_value, signed_decimal_value,
    lemma_decimal_round_trip, lemma_signed_decimal_round_trip, trim_str, u64_to_string, without_comment_tags,
};

verus! {

/// An attribute as the documentation shows it.
pub enum Attribute {
    Word(String),
    List(String, Vec<Attribute>),
    NameValue(String, String),
}

/// Two attributes are the same: the same shape, names and values.
pub open spec fn same_attribute(a: Attribute, b: Attribute) -> bool
    decreases a,
{
    match (a, b) {
        (Attribute::Word(x), Attribute::Word(y)) => x@ == y@,
        (Attribute::NameValue(k1, v1), Attribute::NameValue(k2, v2)) => k1@ == k2@ && v1@ == v2@,
        (Attribute::List(n1, l1), Attribute::List(n2, l2)) => {
            &&& n1@ == n2@
            &&& l1@.len() == l2@.len()
            &&& forall|i: int| 0 <= i < l1@.len() ==> same_attribute(#[trigger] l1@[i], l2@[i])
        },
        _ => false,
    }
}

fn copy_attribute(a: &Attribute) -> (r: Attribute)
    ensures
        same_attribute(*a, r),
    decreases a,
{
    match a {
        Attribute::Word(w) => Attribute::Word(w.clone()),
        Attribute::NameValue(k, v) => Attribute::NameValue(k.clone(), v.clone()),
        Attribute::List(n, l) => {
            let mut v: Vec<Attribute> = Vec::new();
            let mut i: usize = 0;
            while i < l.len()
                invariant
                    i <= l@.len(),
                    v@.len() == i,
                    forall|j: int| 0 <= j < i ==> same_attribute(#[trigger] l@[j], v@[j]),
                    *a == Attribute::List(*n, *l),
                decreases l@.len() - i,
            {
                proof {
                    broadcast use vstd::std_specs::vec::axiom_vec_decreases_to_view;

                    assert(decreases_to!(*a => a->List_1));
                    assert(decreases_to!(*l => l@));
                    assert(decreases_to!(l@ => l@[i as int]));
                }
                let x = copy_attribute(&l[i]);
                v.push(x);
                i = i + 1;
            }
            Attribute::List(n.clone(), v)
        },
    }
}

impl Clone for Attribute {
    fn clone(&self) -> (r: Self)
        ensures
            same_attribute(*self, r),
    {
        copy_attribute(self)
    }
}

// ---------------------------------------------------------------------------
// Literals
// ---------------------------------------------------------------------------

/// The text of a literal: strings and floats as written, integers in
/// decimal, a character by the decimal number of its code between quotes,
/// booleans as `true` or `false`, and nil as the empty text.
pub open spec fn lit_text(l: ast::LitKind) -> Seq<char> {
    match l {
        ast::LitKind::LitStr(s) => s@,
        ast::LitKind::LitInt(ch, ast::IntTy::TyChar) => seq!['\''] + signed_decimal(ch as int) + seq![
            '\'',
        ],
        ast::LitKind::LitInt(i, _) => signed_decimal(i as int),
        ast::LitKind::LitUint(u, _) => decimal(u as nat),
        ast::LitKind::LitIntUnsuffixed(i) => signed_decimal(i as int),
        ast::LitKind::LitFloat(f, _) => f@,
        ast::LitKind::LitFloatUnsuffixed(f) => f@,
        ast::LitKind::LitBool(b) => if b {
            "true"@
        } else {
            "false"@
        },
        ast::LitKind::LitNil => Seq::empty(),
    }
}

/// An integer literal's text reads back as its value: the suffix is
/// dropped and the number written in decimal, so parsing the text gives the
/// literal's value again.
pub proof fn lemma_integer_literal_reads_back(l: ast::LitKind)
    ensures
        l is LitInt && l->LitInt_1 != ast::IntTy::TyChar ==> signed_decimal_value(lit_text(l))
            == l->LitInt_0,
        l matches ast::LitKind::LitIntUnsuffixed(i) ==> signed_decimal_value(lit_text(l)) == i,
        l matches ast::LitKind::LitUint(u, _) ==> decimal_value(lit_text(l)) == u,
{
    match l {
        ast::LitKind::LitInt(i, _) => lemma_signed_decimal_round_trip(i as int, i as int),
        ast::LitKind::LitIntUnsuffixed(i) => lemma_signed_decimal_round_trip(i as int, i as int),
        ast::LitKind::LitUint(u, _) => lemma_decimal_round_trip(u as nat),
        _ => {},
    }
}

/// Renders a literal as text.
pub fn lit_to_str(lit: &ast::Lit) -> (r: String)
    ensures
        r@ == lit_text(lit.node),
{
    match &lit.node {
        ast::LitKind::LitStr(st) => st.clone(),
        ast::LitKind::LitInt(ch, ast::IntTy::TyChar) => {
            let mut r = String::new();
            push_char(&mut r, '\'');
            let digits = i64_to_string(*ch);
            r.append(digits.as_str());
            push_char(&mut r, '\'');
            assert(r@ =~= seq!['\''] + signed_decimal(*ch as int) + seq!['\'']);
            r
        },
        ast::LitKind::LitInt(i, _) => i64_to_string(*i),
        ast::LitKind::LitUint(u, _) => u64_to_string(*u),
        ast::LitKind::LitIntUnsuffixed(i) => i64_to_string(*i),
        ast::LitKind::LitFloat(f, _) => f.clone(),
        ast::LitKind::LitFloatUnsuffixed(f) => f.clone(),
        ast::LitKind::LitBool(b) => {
            proof {
                reveal_strlit("true");
                reveal_strlit("false");
            }
            if *b {
                String::from_str("true")
            } else {
                String::from_str("false")
            }
        },
        ast::LitKind::LitNil => String::new(),
    }
}

// ---------------------------------------------------------------------------
// Meta items
// ---------------------------------------------------------------------------

/// Every name and every rendered value in a meta item can have its comment
/// markers removed.
pub open spec fn meta_removable(m: ast::MetaItemKind) -> bool
    decreases m,
{
    match m {
        ast::MetaItemKind::MetaWord(s) => comment_tags_removable(s@),
        ast::MetaItemKind::MetaList(s, l) => {
            &&& comment_tags_removable(s@)
            &&& forall|i: int| 0 <= i < l@.len() ==> meta_removable(#[trigger] l@[i].node)
        },
        ast::MetaItemKind::MetaNameValue(s, v) => {
            &&& comment_tags_removable(s@)
            &&& comment_tags_removable(lit_text(v.node))
        },
    }
}

/// `a` is the cleaned form of `m`: the same shape, with the comment markers
/// removed from every name and every rendered value.
pub open spec fn meta_cleans_to(m: ast::MetaItemKind, a: Attribute) -> bool
    decreases m,
{
    match (m, a) {
        (ast::MetaItemKind::MetaWord(s), Attribute::Word(w)) => w@ == without_comment_tags(s@),
        (ast::MetaItemKind::MetaList(s, l), Attribute::List(n, v)) => {
            &&& n@ == without_comment_tags(s@)
            &&& v@.len() == l@.len()
            &&& forall|i: int| 0 <= i < l@.len() ==> meta_cleans_to(#[trigger] l@[i].node, v@[i])
        },
        (ast::MetaItemKind::MetaNameValue(s, lit), Attribute::NameValue(n, t)) => {
            &&& n@ == without_comment_tags(s@)
            &&& t@ == without_comment_tags(lit_text(lit.node))
        },
        _ => false,
    }
}

fn clean_meta(m: &ast::MetaItemKind) -> (a: Attribute)
    requires
        meta_removable(*m),
    ensures
        meta_cleans_to(*m, a),
    decreases m,
{
    match m {
        ast::MetaItemKind::MetaWord(s) => Attribute::Word(remove_comment_tags(s.as_str())),
        ast::MetaItemKind::MetaList(s, l) => {
            let name = remove_comment_tags(s.as_str());
            let mut items: Vec<Attribute> = Vec::new();
            let mut i: usize = 0;
            while i < l.len()
                invariant
                    i <= l@.len(),
                    items@.len() == i,
                    meta_removable(*m),
                    *m == ast::MetaItemKind::MetaList(*s, *l),
                    forall|j: int| 0 <= j < i ==> meta_cleans_to(#[trigger] l@[j].node, items@[j]),
                decreases l@.len() - i,
            {
                assert(meta_removable(l@[i as int].node));
                let x = clean_meta(&l[i].node);
                items.push(x);
                i = i + 1;
            }
            Attribute::List(name, items)
        },
        ast::MetaItemKind::MetaNameValue(s, v) => {
            let text = lit_to_str(v);
            Attribute::NameValue(remove_comment_tags(s.as_str()), remove_comment_tags(text.as_str()))
        },
    }
}

impl Clean<Attribute> for ast::MetaItemKind {
    open spec fn clean_requires(&self, cx: &DocContext) -> bool {
        meta_removable(*self)
    }

    open spec fn clean_ensures(&self, cx: &DocContext, out: Attribute) -> bool {
        meta_cleans_to(*self, out)
    }

    fn clean(&self, cx: &DocContext) -> (out: Attribute) {
        clean_meta(self)
    }
}

impl Clean<Attribute> for ast::AttributeKind {
    open spec fn clean_requires(&self, cx: &DocContext) -> bool {
        meta_removable(self.value.node)
    }

    open spec fn clean_ensures(&self, cx: &DocContext, out: Attribute) -> bool {
        meta_cleans_to(self.value.node, out)
    }

    fn clean(&self, cx: &DocContext) -> (out: Attribute) {
        self.value.clean(cx)
    }
}

// ---------------------------------------------------------------------------
// Documentation comments
// ---------------------------------------------------------------------------

/// `a` is a documentation attribute: `doc = ".."`.
pub open spec fn is_doc(a: Attribute) -> bool {
    a matches Attribute::NameValue(k, _) && k@ == "doc"@
}

/// The attributes that are not documentation, in order.
pub open spec fn without_docs(attrs: Seq<Attribute>) -> Seq<Attribute>
    decreases attrs.len(),
{
    if attrs.len() == 0 {
        Seq::empty()
    } else if is_doc(attrs.last()) {
        without_docs(attrs.drop_last())
    } else {
        without_docs(attrs.drop_last()).push(attrs.last())
    }
}

/// The bodies of the documentation attributes, in order, each followed by a
/// blank.
pub open spec fn doc_bodies(attrs: Seq<Attribute>) -> Seq<char>
    decreases attrs.len(),
{
    if attrs.len() == 0 {
        Seq::empty()
    } else if is_doc(attrs.last()) {
        doc_bodies(attrs.drop_last()) + comment_body(attrs.last()->NameValue_1@) + seq![' ']
    } else {
        doc_bodies(attrs.drop_last())
    }
}

/// The merged documentation of a list of attributes.
pub open spec fn merged_doc(attrs: Seq<Attribute>) -> Seq<char> {
    trim(doc_bodies(attrs))
}

/// No documentation attribute is left once they are removed.
pub proof fn lemma_without_docs_has_no_docs(attrs: Seq<Attribute>)
    ensures
        forall|i: int|
            0 <= i < without_docs(attrs).len() ==> !is_doc(#[trigger] without_docs(attrs)[i]),
    decreases attrs.len(),
{
    if attrs.len() > 0 {
        lemma_without_docs_has_no_docs(attrs.drop_last());
        let w = without_docs(attrs.drop_last());
        if !is_doc(attrs.last()) {
            assert forall|i: int| 0 <= i < w.len() + 1 implies !is_doc(
                #[trigger] w.push(attrs.last())[i],
            ) by {
                if i < w.len() {
                    assert(!is_doc(w[i]));
                }
            }
        }
    }
}

/// Removing the documentation from a list that holds none changes nothing.
pub proof fn lemma_without_docs_idempotent(attrs: Seq<Attribute>)
    ensures
        without_docs(without_docs(attrs)) == without_docs(attrs),
    decreases attrs.len(),
{
    if attrs.len() > 0 {
        lemma_without_docs_idempotent(attrs.drop_last());
        let w = without_docs(attrs.drop_last());
        if !is_doc(attrs.last()) {
            assert(w.push(attrs.last()).drop_last() =~= w);
        }
    }
}

/// Merging the documentation of an already merged list keeps the same
/// other attributes: those of the first list, in order.
pub proof fn lemma_collapse_again(attrs: Seq<Attribute>, doc: Attribute)
    requires
        is_doc(doc),
    ensures
        without_docs(without_docs(attrs).push(doc)) == without_docs(attrs),
{
    let w = without_docs(attrs);
    assert(w.push(doc).drop_last() =~= w);
    lemma_without_docs_idempotent(attrs);
}

fn is_doc_key(k: &String) -> (r: bool)
    ensures
        r == (k@ == "doc"@),
{
    let doc = String::from_str("doc");
    *k == doc
}

/// Merges the documentation attributes into one: the other attributes stay,
/// in order, and a single `doc` attribute follows them, holding the cleaned
/// bodies of all documentation attributes joined by blanks and trimmed.
pub fn collapse_docs(attrs: Vec<Attribute>) -> (r: Vec<Attribute>)
    ensures
        r@.len() >= 1,
        r@.drop_last() == without_docs(attrs@),
        r@.last() matches Attribute::NameValue(k, v) && k@ == "doc"@ && v@ == merged_doc(attrs@),
        forall|i: int| 0 <= i < r@.len() - 1 ==> !is_doc(#[trigger] r@[i]),
        is_doc(r@.last()),
        r@.last() matches Attribute::NameValue(_, v) && (v@.len() > 0 ==> !is_white_space(v@[0])
            && !is_white_space(v@.last())),
{
    proof {
        lemma_without_docs_has_no_docs(attrs@);
    }
    let mut docstr = String::new();
    let mut i: usize = 0;
    while i < attrs.len()
        invariant
            i <= attrs@.len(),
            docstr@ == doc_bodies(attrs@.take(i as int)),
        decreases attrs@.len() - i,
    {
        proof {
            assert(attrs@.take(i + 1).drop_last() =~= attrs@.take(i as int));
        }
        match &attrs[i] {
            Attribute::NameValue(k, s) => {
                if is_doc_key(k) {
                    let body = clean_comment_body(s.clone());
                    docstr.append(body.as_str());
                    push_char(&mut docstr, ' ');
                    assert(docstr@ =~= doc_bodies(attrs@.take(i + 1)));
                }
            },
            _ => {},
        }
        i = i + 1;
    }
    assert(attrs@.take(attrs@.len() as int) =~= attrs@);
    let ghost all = attrs@;
    let mut kept: Vec<Attribute> = Vec::new();
    for a in it: attrs.into_iter()
        invariant
            it.seq() == all,
            kept@ == without_docs(all.take(it.index() as int)),
    {
        proof {
            assert(all.take(it.index() + 1).drop_last() =~= all.take(it.index() as int));
        }
        let doc = match &a {
            Attribute::NameValue(k, _) => is_doc_key(k),
            _ => false,
        };
        if !doc {
            kept.push(a);
        }
    }
    assert(all.take(all.len() as int) =~= all);
    let doc_key = String::from_str("doc");
    proof {
        reveal_strlit("doc");
    }
    let merged = trim_str(docstr.as_str());
    let ghost before = kept@;
    kept.push(Attribute::NameValue(doc_key, merged));
    assert(kept@.drop_last() =~= before);
    kept
}

/// The attribute's cleaned form is a documentation attribute.
pub open spec fn ast_is_doc(a: ast::Attribute) -> bool {
    a.node.value.node matches ast::MetaItemKind::MetaNameValue(k, _) && without_comment_tags(k@)
        == "doc"@
}

/// The attributes whose cleaned forms are not documentation, in order.
pub open spec fn ast_without_docs(attrs: Seq<ast::Attribute>) -> Seq<ast::Attribute>
    decreases attrs.len(),
{
    if attrs.len() == 0 {
        Seq::empty()
    } else if ast_is_doc(attrs.last()) {
        ast_without_docs(attrs.drop_last())
    } else {
        ast_without_docs(attrs.drop_last()).push(attrs.last())
    }
}

/// The bodies of the cleaned documentation attributes, in order, each
/// followed by a blank.
pub open spec fn ast_doc_bodies(attrs: Seq<ast::Attribute>) -> Seq<char>
    decreases attrs.len(),
{
    if attrs.len() == 0 {
        Seq::empty()
    } else if ast_is_doc(attrs.last()) {
        ast_doc_bodies(attrs.drop_last()) + comment_body(
            without_comment_tags(lit_text(attrs.last().node.value.node->MetaNameValue_1.node)),
        ) + seq![' ']
    } else {
        ast_doc_bodies(attrs.drop_last())
    }
}

/// `out` holds the cleaned forms of `attrs`, in order.
pub open spec fn cleaned_attrs(attrs: Seq<ast::Attribute>, out: Seq<Attribute>) -> bool {
    &&& out.len() == attrs.len()
    &&& forall|i: int| 0 <= i < attrs.len() ==> meta_cleans_to(#[trigger] attrs[i].node.value.node, out[i])
}

/// `out` is the cleaned form of `attrs` with the documentation merged: the
/// cleaned forms of the other attributes, in order, then one `doc`
/// attribute with the merged bodies.
pub open spec fn docs_collapsed(attrs: Seq<ast::Attribute>, out: Seq<Attribute>) -> bool {
    &&& out.len() >= 1
    &&& cleaned_attrs(ast_without_docs(attrs), out.drop_last())
    &&& out.last() matches Attribute::NameValue(k, v) && k@ == "doc"@ && v@ == trim(
        ast_doc_bodies(attrs),
    )
}

proof fn lemma_collapse_cleaned(attrs: Seq<ast::Attribute>, c: Seq<Attribute>)
    requires
        cleaned_attrs(attrs, c),
    ensures
        cleaned_attrs(ast_without_docs(attrs), without_docs(c)),
        doc_bodies(c) == ast_doc_bodies(attrs),
    decreases attrs.len(),
{
    if attrs.len() > 0 {
        let n = attrs.len() - 1;
        assert(cleaned_attrs(attrs.drop_last(), c.drop_last())) by {
            assert forall|i: int| 0 <= i < n implies meta_cleans_to(
                #[trigger] attrs.drop_last()[i].node.value.node,
                c.drop_last()[i],
            ) by {
                assert(meta_cleans_to(attrs[i].node.value.node, c[i]));
            }
        }
        lemma_collapse_cleaned(attrs.drop_last(), c.drop_last());
        assert(meta_cleans_to(attrs[n].node.value.node, c[n]));
        assert(ast_is_doc(attrs.last()) == is_doc(c.last()));
        let w = ast_without_docs(attrs.drop_last());
        let cw = without_docs(c.drop_last());
        if !ast_is_doc(attrs.last()) {
            assert forall|i: int| 0 <= i < w.len() + 1 implies meta_cleans_to(
                #[trigger] w.push(attrs.last())[i].node.value.node,
                cw.push(c.last())[i],
            ) by {
                if i < w.len() {
                    assert(meta_cleans_to(w[i].node.value.node, cw[i]));
                }
            }
        }
    }
}

/// Cleans a list of attributes and merges its documentation.
pub fn clean_and_collapse(cx: &DocContext, attrs: &Vec<ast::Attribute>) -> (r: Vec<Attribute>)
    requires
        attrs.clean_requires(cx),
    ensures
        docs_collapsed(attrs@, r@),
{
    let c = attrs.clean(cx);
    proof {
        assert(cleaned_attrs(attrs@, c@)) by {
            assert forall|i: int| 0 <= i < attrs@.len() implies meta_cleans_to(
                #[trigger] attrs@[i].node.value.node,
                c@[i],
            ) by {
                assert(attrs@[i].clean_ensures(cx, c@[i]));
            }
        }
        lemma_collapse_cleaned(attrs@, c@);
    }
    collapse_docs(c)
}

// ---------------------------------------------------------------------------
// The crate's link name
// ---------------------------------------------------------------------------

/// The name of a meta item.
pub open spec fn meta_name(m: ast::MetaItemKind) -> Seq<char> {
    match m {
        ast::MetaItemKind::MetaWord(n) => n@,
        ast::MetaItemKind::MetaList(n, _) => n@,
        ast::MetaItemKind::MetaNameValue(n, _) => n@,
    }
}

/// The string value of a meta item: that of `name = "text"`.
pub open spec fn value_str(m: ast::MetaItemKind) -> Option<Seq<char>> {
    match m {
        ast::MetaItemKind::MetaNameValue(_, l) => match l.node {
            ast::LitKind::LitStr(s) => Some(s@),
            _ => None,
        },
        _ => None,
    }
}

/// The items of the `link(..)` attributes, in order.
pub open spec fn linkage_metas(attrs: Seq<ast::Attribute>) -> Seq<ast::MetaItem>
    decreases attrs.len(),
{
    if attrs.len() == 0 {
        Seq::empty()
    } else {
        linkage_metas(attrs.drop_last()) + match attrs.last().node.value.node {
            ast::MetaItemKind::MetaList(n, items) => if n@ == "link"@ {
                items@
            } else {
                Seq::empty()
            },
            _ => Seq::empty(),
        }
    }
}

/// The string value of the last item named `name`, if that item has one.
pub open spec fn last_value_str_by_name(items: Seq<ast::MetaItem>, name: Seq<char>) -> Option<
    Seq<char>,
>
    decreases items.len(),
{
    if items.len() == 0 {
        None
    } else if meta_name(items.last().node) == name {
        value_str(items.last().node)
    } else {
        last_value_str_by_name(items.drop_last(), name)
    }
}

/// The name the crate gives itself in `#[link(name = "..")]`.
pub open spec fn link_name(attrs: Seq<ast::Attribute>) -> Option<Seq<char>> {
    last_value_str_by_name(linkage_metas(attrs), "name"@)
}

fn is_key(k: &String, key: &str) -> (r: bool)
    ensures
        r == (k@ == key@),
{
    let key = String::from_str(key);
    *k == key
}

/// Finds the crate's link name: the value of the last `name` item among the
/// items of its `link(..)` attributes, if that value is a string.
pub fn linkage_name(attrs: &Vec<ast::Attribute>) -> (r: Option<String>)
    ensures
        match (r, link_name(attrs@)) {
            (Some(s), Some(t)) => s@ == t,
            (None, None) => true,
            _ => false,
        },
{
    proof {
        reveal_strlit("link");
        reveal_strlit("name");
    }
    let mut found: Option<String> = None;
    let mut i: usize = 0;
    while i < attrs.len()
        invariant
            i <= attrs@.len(),
            match (found, last_value_str_by_name(linkage_metas(attrs@.take(i as int)), "name"@)) {
                (Some(s), Some(t)) => s@ == t,
                (None, None) => true,
                _ => false,
            },
        decreases attrs@.len() - i,
    {
        let ghost before = linkage_metas(attrs@.take(i as int));
        proof {
            assert(attrs@.take(i + 1).drop_last() =~= attrs@.take(i as int));
        }
        match &attrs[i].node.value.node {
            ast::MetaItemKind::MetaList(n, items) => {
                if is_key(n, "link") {
                    let mut j: usize = 0;
                    while j < items.len()
                        invariant
                            j <= items@.len(),
                            match (
                                found,
                                last_value_str_by_name(before + items@.take(j as int), "name"@),
                            ) {
                                (Some(s), Some(t)) => s@ == t,
                                (None, None) => true,
                                _ => false,
                            },
                        decreases items@.len() - j,
                    {
                        proof {
                            assert((before + items@.take(j + 1)).drop_last() =~= before
                                + items@.take(j as int));
                            assert((before + items@.take(j + 1)).last() == items@[j as int]);
                        }
                        let item = &items[j];
                        let named = match &item.node {
                            ast::MetaItemKind::MetaWord(k) => is_key(k, "name"),
                            ast::MetaItemKind::MetaList(k, _) => is_key(k, "name"),
                            ast::MetaItemKind::MetaNameValue(k, _) => is_key(k, "name"),
                        };
                        if named {
                            found =
                            match &item.node {
                                ast::MetaItemKind::MetaNameValue(_, l) => match &l.node {
                                    ast::LitKind::LitStr(s) => Some(s.clone()),
                                    _ => None,
                                },
                                _ => None,
                            };
                        }
                        j = j + 1;
                    }
                    assert(items@.take(items@.len() as int) =~= items@);
                    assert(linkage_metas(attrs@.take(i + 1)) =~= before + items@);
                } else {
                    assert(linkage_metas(attrs@.take(i + 1)) =~= before);
                }
            },
            _ => {
                assert(linkage_metas(attrs@.take(i + 1)) =~= before);
            },
        }
        i = i + 1;
    }
    assert(attrs@.take(attrs@.len() as int) =~= attrs@);
    found
}

} // verus!
