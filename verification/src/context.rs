//! What the cleaning learns from the compiler: the definition each path
//! resolves to, and the items that the external crates export.
use std::collections::HashMap;
use vstd::prelude::*;

use crate::ast::{CrateNum, DefId, NodeId, PrimTy, Purity};

verus! {

broadcast use vstd::std_specs::hash::group_hash_axioms;

/// What a path resolves to.
#[derive(Clone, Copy, Debug, PartialEq, Eq, Structural)]
pub enum Def {
    DefFn(DefId, Purity),
    DefSelf(NodeId, bool),
    DefSelfTy(NodeId),
    DefMod(DefId),
    DefTy(DefId),
    DefTrait(DefId),
    DefPrimTy(PrimTy),
    DefTyParam(DefId, usize),
    DefStruct(DefId),
    DefTyparamBinder(NodeId),
    /// Any other definition (a local, an argument, a variant, a static, ...).
    DefOther,
}

/// What an exported path of an external crate names.
#[derive(Clone, Copy, Debug, PartialEq, Eq, Structural)]
pub enum DefLike {
    DlDef(Def),
    DlImpl(DefId),
    DlField,
}

/// One exported path of an external crate, with what it names.
pub struct PathEntry {
    pub path: String,
    pub def: DefLike,
}

/// What the crate store holds of an external crate: its name and the paths
/// it exports, in the order the metadata lists them.
pub struct CrateData {
    pub name: String,
    pub paths: Vec<PathEntry>,
}

/// The context of a documentation run: the resolver's map from path nodes
/// to definitions, and the crate store.
pub struct DocContext {
    pub def_map: HashMap<NodeId, Def>,
    pub crates: HashMap<CrateNum, CrateData>,
}

/// The definition that an exported item names, for the kinds of definition
/// that can name an exported item: functions, types, traits, structures
/// and modules.
pub open spec fn def_target(d: Def) -> Option<DefId> {
    match d {
        Def::DefFn(i, _) => Some(i),
        Def::DefTy(i) => Some(i),
        Def::DefTrait(i) => Some(i),
        Def::DefStruct(i) => Some(i),
        Def::DefMod(i) => Some(i),
        _ => None,
    }
}

/// An exported path names the node `node`.
pub open spec fn entry_names(e: PathEntry, node: NodeId) -> bool {
    match e.def {
        DefLike::DlDef(d) => match def_target(d) {
            Some(i) => i.node == node,
            None => false,
        },
        _ => false,
    }
}

/// The last exported path, among `entries`, that names `node`.
pub open spec fn last_entry_naming(entries: Seq<PathEntry>, node: NodeId) -> Option<int>
    decreases entries.len(),
{
    if entries.len() == 0 {
        None
    } else if entry_names(entries.last(), node) {
        Some(entries.len() - 1)
    } else {
        last_entry_naming(entries.drop_last(), node)
    }
}

/// No exported path names `node` as a module (a module cannot stand for a type).
pub open spec fn no_module_named(entries: Seq<PathEntry>, node: NodeId) -> bool {
    forall|k: int|
        0 <= k < entries.len() ==> !(#[trigger] entries[k].def matches DefLike::DlDef(
            Def::DefMod(i),
        ) && i.node == node)
}

/// The kind of item a definition is reported as.
pub open spec fn kind_name(d: Def) -> Seq<char> {
    match d {
        Def::DefFn(..) => "fn"@,
        Def::DefTy(..) => "enum"@,
        Def::DefTrait(..) => "trait"@,
        Def::DefStruct(..) => "struct"@,
        _ => Seq::empty(),
    }
}

/// The path and the kind that the exported paths give for `node`: those of
/// the last path that names it, or two empty strings if none does.
pub open spec fn external_path_and_kind(entries: Seq<PathEntry>, node: NodeId) -> (
    Seq<char>,
    Seq<char>,
) {
    match last_entry_naming(entries, node) {
        Some(k) => (entries[k].path@, kind_name(entries[k].def->DlDef_0)),
        None => (Seq::empty(), Seq::empty()),
    }
}

proof fn lemma_last_entry_naming_push(entries: Seq<PathEntry>, e: PathEntry, node: NodeId)
    ensures
        last_entry_naming(entries.push(e), node) == if entry_names(e, node) {
            Some(entries.len() as int)
        } else {
            last_entry_naming(entries, node)
        },
{
    assert(entries.push(e).drop_last() =~= entries);
}

proof fn lemma_last_entry_naming_bounds(entries: Seq<PathEntry>, node: NodeId)
    ensures
        last_entry_naming(entries, node) matches Some(k) ==> 0 <= k < entries.len() && entry_names(
            entries[k],
            node,
        ),
    decreases entries.len(),
{
    if entries.len() > 0 && !entry_names(entries.last(), node) {
        lemma_last_entry_naming_bounds(entries.drop_last(), node);
    }
}

/// The exported path for a node is the last one that names it, and there is
/// none when no path names it.
pub proof fn lemma_last_entry_naming_is_last(entries: Seq<PathEntry>, node: NodeId, k: int)
    ensures
        (0 <= k < entries.len() && entry_names(entries[k], node) && forall|l: int|
            k < l < entries.len() ==> !entry_names(#[trigger] entries[l], node))
            ==> last_entry_naming(entries, node) == Some(k),
        (forall|l: int| 0 <= l < entries.len() ==> !entry_names(#[trigger] entries[l], node))
            ==> last_entry_naming(entries, node) is None,
    decreases entries.len(),
{
    if entries.len() > 0 {
        let t = entries.drop_last();
        lemma_last_entry_naming_is_last(t, node, k);
        if !entry_names(entries.last(), node) {
            if 0 <= k < entries.len() && entry_names(entries[k], node) && forall|l: int|
                k < l < entries.len() ==> !entry_names(#[trigger] entries[l], node) {
                assert(k != entries.len() - 1);
                assert(t[k] == entries[k]);
                assert forall|l: int| k < l < t.len() implies !entry_names(#[trigger] t[l], node) by {
                    assert(t[l] == entries[l]);
                }
            }
            if forall|l: int| 0 <= l < entries.len() ==> !entry_names(#[trigger] entries[l], node) {
                assert forall|l: int| 0 <= l < t.len() implies !entry_names(#[trigger] t[l], node) by {
                    assert(t[l] == entries[l]);
                }
            }
        } else {
            assert(entries[entries.len() - 1] == entries.last());
        }
    }
}

fn kind_string(d: Def) -> (r: String)
    requires
        d matches Def::DefFn(..) || d matches Def::DefTy(..) || d matches Def::DefTrait(..)
            || d matches Def::DefStruct(..),
    ensures
        r@ == kind_name(d),
{
    match d {
        Def::DefFn(..) => {
            proof {
                reveal_strlit("fn");
            }
            String::from_str("fn")
        },
        Def::DefTy(..) => {
            proof {
                reveal_strlit("enum");
            }
            String::from_str("enum")
        },
        Def::DefTrait(..) => {
            proof {
                reveal_strlit("trait");
            }
            String::from_str("trait")
        },
        _ => {
            proof {
                reveal_strlit("struct");
            }
            String::from_str("struct")
        },
    }
}

/// Looks through the paths an external crate exports for the one that
/// names `node`: the last such path and the kind of its definition.
pub fn find_external_path(entries: &Vec<PathEntry>, node: NodeId) -> (r: (String, String))
    requires
        no_module_named(entries@, node),
    ensures
        r.0@ == external_path_and_kind(entries@, node).0,
        r.1@ == external_path_and_kind(entries@, node).1,
{
    let mut path = String::new();
    let mut kind = String::new();
    let mut i: usize = 0;
    while i < entries.len()
        invariant
            i <= entries@.len(),
            no_module_named(entries@, node),
            path@ == external_path_and_kind(entries@.take(i as int), node).0,
            kind@ == external_path_and_kind(entries@.take(i as int), node).1,
        decreases entries@.len() - i,
    {
        let e = &entries[i];
        proof {
            assert(entries@.take(i + 1) =~= entries@.take(i as int).push(entries@[i as int]));
            lemma_last_entry_naming_push(entries@.take(i as int), entries@[i as int], node);
            lemma_last_entry_naming_bounds(entries@.take(i as int), node);
        }
        match e.def {
            DefLike::DlDef(di) => {
                let target = match di {
                    Def::DefFn(t, _) => Some(t),
                    Def::DefTy(t) => Some(t),
                    Def::DefTrait(t) => Some(t),
                    Def::DefStruct(t) => Some(t),
                    Def::DefMod(t) => Some(t),
                    _ => None,
                };
                match target {
                    Some(t) => {
                        if t.node == node {
                            assert(!(di matches Def::DefMod(_))) by {
                                assert(entries@[i as int].def == DefLike::DlDef(di));
                            }
                            path = e.path.clone();
                            kind = kind_string(di);
                        }
                    },
                    None => {},
                }
            },
            _ => {},
        }
        i = i + 1;
    }
    assert(entries@.take(entries@.len() as int) =~= entries@);
    (path, kind)
}

} // verus!
