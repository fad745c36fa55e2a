//! The in-memory directory tree, the skip policy, the renamer, and the
//! flattening traversal over it.

use vstd::prelude::*;

use crate::prefix::sep;
use crate::prefix::spec_new_prefix;
use crate::text::leading_char;
use crate::text::lower_of;
use crate::text::to_lower;

verus! {

/// The kind of one directory entry: a regular file, a directory, or anything
/// else (special files, and entries whose metadata could not be read); the
/// last two kinds are leaves that are still offered to the renamer.
#[derive(PartialEq, Eq, Structural, Clone, Copy, Debug)]
pub enum EntryKind {
    File,
    Directory,
    Other,
}

/// One node of an in-memory directory tree: a named entry together with the
/// entries below it (empty unless the entry is a directory).
pub struct Node {
    pub name: String,
    pub kind: EntryKind,
    pub entries: Vec<Node>,
}

/// The mathematical shape of a `Node`: its name as a character sequence, its
/// kind, and the shapes of the entries below it.
#[verifier::ext_equal]
pub struct NodeView {
    pub name: Seq<char>,
    pub kind: EntryKind,
    pub entries: Seq<NodeView>,
}

/// The shape of a node: each entry of the tree keeps its place, and every
/// name becomes its character sequence.
pub open spec fn node_view(n: Node) -> NodeView
    decreases n,
{
    NodeView {
        name: n.name@,
        kind: n.kind,
        entries: Seq::new(
            n.entries@.len(),
            |i: int|
                if 0 <= i < n.entries@.len() {
                    node_view(n.entries@[i])
                } else {
                    NodeView { name: Seq::empty(), kind: EntryKind::Other, entries: Seq::empty() }
                },
        ),
    }
}

impl View for Node {
    type V = NodeView;

    open spec fn view(&self) -> NodeView {
        node_view(*self)
    }
}

impl NodeView {
    /// A well-formed tree: every entry, the root included, has a non-empty
    /// name.
    pub open spec fn wf(self) -> bool
        decreases self,
    {
        &&& self.name.len() > 0
        &&& forall|i: int|
            0 <= i < self.entries.len() ==> (#[trigger] self.entries[i]).wf()
    }
}

/// The skip policy: only a directory is descended into, and not when its
/// name starts with `'.'` or `'_'`.
pub open spec fn spec_should_traverse(n: NodeView) -> bool {
    &&& n.kind == EntryKind::Directory
    &&& n.name.len() > 0
    &&& n.name[0] != '.'
    &&& n.name[0] != '_'
}

/// Decides whether the traversal descends into `entry`: it does exactly when
/// the entry is a directory whose name starts with neither `'.'` nor `'_'`.
pub fn should_traverse(entry: &Node) -> (r: bool)
    requires
        entry@.name.len() > 0,
    ensures
        r == spec_should_traverse(entry@),
{
    match entry.kind {
        EntryKind::Directory => {
            let c = leading_char(entry.name.as_str());
            c != '.' && c != '_'
        },
        _ => false,
    }
}

/// The name the renamer writes: the prefix, the separator, and the entry's
/// own name, the whole join lower-cased in one step.
pub open spec fn spec_flat_name(name: Seq<char>, prefix: Seq<char>) -> Seq<char> {
    lower_of(prefix + sep() + name)
}

/// What the renamer leaves of an entry: a name starting with `'.'` is kept,
/// any other name is replaced by its flattened form.
pub open spec fn spec_rename(n: NodeView, prefix: Seq<char>) -> NodeView {
    if n.name.len() > 0 && n.name[0] == '.' {
        n
    } else {
        NodeView { name: spec_flat_name(n.name, prefix), kind: n.kind, entries: n.entries }
    }
}

/// Computes the renamed form of a file name, or `None` when the name starts
/// with `'.'` and the file is therefore left alone. A renamed name is always
/// longer than the name it replaces: the prefix and the separator are
/// prepended to it.
pub fn rename_target(name: &str, prefix: &str) -> (r: Option<String>)
    requires
        name@.len() > 0,
    ensures
        match r {
            Some(t) => {
                &&& name@[0] != '.'
                &&& t@ == spec_flat_name(name@, prefix@)
                &&& t@.len() >= prefix@.len() + sep().len() + name@.len()
            },
            None => name@[0] == '.',
        },
{
    if leading_char(name) == '.' {
        None
    } else {
        let mut joined = String::from_str(prefix);
        joined.append(" - ");
        joined.append(name);
        proof {
            reveal_strlit(" - ");
            assert(" - "@ =~= sep());
        }
        Some(to_lower(joined.as_str()))
    }
}

/// Renames an entry in place with the given prefix; an entry whose name
/// starts with `'.'` is not touched. Renaming is never a no-op: an entry it
/// touches ends up with a strictly longer name, so renaming it again under
/// the same prefix changes the name once more.
pub fn rename(entry: &mut Node, prefix: &str)
    requires
        old(entry)@.name.len() > 0,
    ensures
        final(entry)@ == spec_rename(old(entry)@, prefix@),
        old(entry)@.name[0] != '.' ==> final(entry)@.name.len() > old(entry)@.name.len(),
        old(entry)@.name[0] != '.' ==> final(entry)@.name != old(entry)@.name,
{
    let target = rename_target(entry.name.as_str(), prefix);
    if let Some(t) = target {
        entry.name = t;
        proof {
            assert(final(entry)@ =~= spec_rename(old(entry)@, prefix@));
        }
    }
}

/// What flattening leaves of a directory node: the node itself keeps its
/// name, and each entry below it is either flattened in turn (when the skip
/// policy descends into it) or offered to the renamer, both under the prefix
/// extended with this directory's name.
pub open spec fn spec_flatten(n: NodeView, prev_prefix: Seq<char>) -> NodeView
    decreases n,
{
    let prefix = spec_new_prefix(prev_prefix, n.name);
    NodeView {
        name: n.name,
        kind: n.kind,
        entries: Seq::new(
            n.entries.len(),
            |i: int|
                if 0 <= i < n.entries.len() {
                    if spec_should_traverse(n.entries[i]) {
                        spec_flatten(n.entries[i], prefix)
                    } else {
                        spec_rename(n.entries[i], prefix)
                    }
                } else {
                    n.entries[i]
                },
        ),
    }
}

#[verifier::loop_isolation(false)]
fn flatten_node(node: Node, prev_prefix: &str) -> (r: Node)
    requires
        node@.wf(),
    ensures
        r@ == spec_flatten(node@, prev_prefix@),
        forall|i: int|
            (0 <= i < node@.entries.len() && !spec_should_traverse(#[trigger] node@.entries[i])
                && node@.entries[i].name[0] != '.') ==> r@.entries[i].name.len()
                > node@.entries[i].name.len(),
    decreases node,
{
    let ghost node0 = node;
    let Node { name, kind, mut entries } = node;
    let prefix = crate::prefix::new_prefix(prev_prefix, name.as_str());
    let mut done: Vec<Node> = Vec::new();
    let ghost total: nat = entries@.len();
    while entries.len() > 0
        invariant
            prefix@ == spec_new_prefix(prev_prefix@, node0@.name),
            done@.len() + entries@.len() == total,
            total == node0@.entries.len(),
            forall|j: int|
                0 <= j < entries@.len() ==> #[trigger] entries@[j] == node0.entries@[done@.len() + j],
            forall|j: int|
                0 <= j < done@.len() ==> node_view(#[trigger] done@[j]) == (
                if spec_should_traverse(node0@.entries[j]) {
                    spec_flatten(node0@.entries[j], prefix@)
                } else {
                    spec_rename(node0@.entries[j], prefix@)
                }),
            forall|j: int|
                (0 <= j < done@.len() && !spec_should_traverse(node0@.entries[j])
                    && node0@.entries[j].name[0] != '.') ==> node_view(
                    #[trigger] done@[j],
                ).name.len() > node0@.entries[j].name.len(),
            node0@.wf(),
        decreases entries@.len(),
    {
        let mut child = entries.remove(0);
        proof {
            assert(node_view(child) == node0@.entries[done@.len() as int]);
            assert(node0@.entries[done@.len() as int].wf());
        }
        if should_traverse(&child) {
            proof {
                assert(decreases_to!(node0.entries => child));
            }
            child = flatten_node(child, prefix.as_str());
        } else {
            rename(&mut child, prefix.as_str());
        }
        done.push(child);
    }
    let r = Node { name, kind, entries: done };
    proof {
        let result = spec_flatten(node0@, prev_prefix@);
        assert forall|i: int| 0 <= i < total implies r@.entries[i] == result.entries[i] by {
            assert(r@.entries[i] == node_view(done@[i]));
        }
        assert(r@.entries =~= result.entries);
        assert(r@ =~= result);
    }
    r
}

/// A leaf entry whose own name starts with `'.'` is never renamed:
/// flattening its parent directory leaves that entry exactly as it was,
/// whatever the accumulated prefix.
pub proof fn lemma_flatten_keeps_dotfiles(n: NodeView, prev_prefix: Seq<char>, i: int)
    requires
        0 <= i < n.entries.len(),
        n.entries[i].name.len() > 0,
        n.entries[i].name[0] == '.',
    ensures
        spec_flatten(n, prev_prefix).entries[i] == n.entries[i],
{
}

/// "Flattens" a directory: every file below it, except those in
/// skipped-over directories and those whose own name starts with `'.'`, is
/// renamed in place to carry the lower-cased chain of directory names
/// leading to it, starting with `prev_prefix` extended by the directory's
/// own name. Flattening is not a no-op on the entries it renames: each one
/// ends up with a strictly longer name, so a second run over the result
/// renames them again.
pub fn flatten(directory: &mut Node, prev_prefix: &str)
    requires
        old(directory)@.wf(),
        old(directory).kind == EntryKind::Directory,
    ensures
        final(directory)@ == spec_flatten(old(directory)@, prev_prefix@),
        forall|i: int|
            (0 <= i < old(directory)@.entries.len() && !spec_should_traverse(
                #[trigger] old(directory)@.entries[i],
            ) && old(directory)@.entries[i].name[0] != '.')
                ==> final(directory)@.entries[i].name.len()
                > old(directory)@.entries[i].name.len(),
{
    let mut node = Node { name: String::new(), kind: EntryKind::Other, entries: Vec::new() };
    core::mem::swap(directory, &mut node);
    *directory = flatten_node(node, prev_prefix);
}

} // verus!
