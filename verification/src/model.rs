//! A mathematical model of the backup tree, and the laws the planned
//! filesystem work obeys on it.
//!
//! The tree is a map from absolute paths to entries; the three mutations the
//! driver ever performs (write a file's full content, create a directory,
//! rename an entry) are modelled exactly, and the laws below say what a
//! processing cycle leaves behind.

use vstd::prelude::*;
use crate::paths::{disambiguated, has_ext, lemma_disambiguated_is_fresh, lies_under, mapped_path};

verus! {

/// One entry of the modelled backup tree.
pub enum Node {
    DirNode,
    FileNode(Seq<u8>),
}

/// Writing a file replaces whatever the tree held at `p` with the full new
/// content: a full replace, never a partial update.
pub open spec fn write_file(t: Map<Seq<char>, Node>, p: Seq<char>, content: Seq<u8>) -> Map<
    Seq<char>,
    Node,
> {
    t.insert(p, Node::FileNode(content))
}

/// Creating a directory is idempotent: present or not, `p` is a directory
/// afterwards.
pub open spec fn make_dir(t: Map<Seq<char>, Node>, p: Seq<char>) -> Map<Seq<char>, Node> {
    t.insert(p, Node::DirNode)
}

/// Renaming moves the entry at `src` to `dst`, carrying its content; a rename
/// of a missing entry fails and leaves the tree unchanged.
pub open spec fn move_entry(t: Map<Seq<char>, Node>, src: Seq<char>, dst: Seq<char>) -> Map<
    Seq<char>,
    Node,
> {
    if t.dom().contains(src) {
        t.remove(src).insert(dst, t[src])
    } else {
        t
    }
}

/// Mirroring a file written under the watch root leaves the backup tree
/// holding exactly the written bytes at the mapped path.
pub proof fn lemma_mirror_file_content(
    t: Map<Seq<char>, Node>,
    p: Seq<char>,
    watch_root: Seq<char>,
    backup_root: Seq<char>,
    content: Seq<u8>,
)
    requires
        lies_under(p, watch_root),
    ensures
        write_file(t, mapped_path(p, watch_root, backup_root), content).dom().contains(
            mapped_path(p, watch_root, backup_root),
        ),
        write_file(t, mapped_path(p, watch_root, backup_root), content)[mapped_path(
            p,
            watch_root,
            backup_root,
        )] == Node::FileNode(content),
{
}

/// Mirroring a directory created under the watch root leaves a directory at
/// the mapped path of the backup tree.
pub proof fn lemma_mirror_dir_present(
    t: Map<Seq<char>, Node>,
    p: Seq<char>,
    watch_root: Seq<char>,
    backup_root: Seq<char>,
)
    requires
        lies_under(p, watch_root),
    ensures
        make_dir(t, mapped_path(p, watch_root, backup_root)).dom().contains(
            mapped_path(p, watch_root, backup_root),
        ),
        make_dir(t, mapped_path(p, watch_root, backup_root))[mapped_path(
            p,
            watch_root,
            backup_root,
        )] is DirNode,
{
}

/// Mirroring the same unchanged content twice leaves the backup tree exactly
/// as one application does.
pub proof fn lemma_mirror_idempotent(t: Map<Seq<char>, Node>, p: Seq<char>, content: Seq<u8>)
    ensures
        write_file(write_file(t, p, content), p, content) == write_file(t, p, content),
{
    assert(write_file(write_file(t, p, content), p, content) =~= write_file(t, p, content));
}

/// Moving a backup entry into the trash removes it from its live place and
/// leaves its content at the trash destination.
pub proof fn lemma_trash_move(t: Map<Seq<char>, Node>, src: Seq<char>, dst: Seq<char>)
    requires
        t.dom().contains(src),
        src != dst,
    ensures
        !move_entry(t, src, dst).dom().contains(src),
        move_entry(t, src, dst).dom().contains(dst),
        move_entry(t, src, dst)[dst] == t[src],
{
}

/// A removal that collides with an existing trash entry never overwrites it:
/// the newcomer takes a timestamped name, and afterwards both entries coexist
/// under distinct names, each with its own content.
pub proof fn lemma_collision_keeps_both(
    t: Map<Seq<char>, Node>,
    src: Seq<char>,
    dest: Seq<char>,
    millis: nat,
)
    requires
        has_ext(dest),
        t.dom().contains(src),
        t.dom().contains(dest),
        src != dest,
        src != disambiguated(dest, millis),
        !t.dom().contains(disambiguated(dest, millis)),
    ensures
        disambiguated(dest, millis) != dest,
        move_entry(t, src, disambiguated(dest, millis)).dom().contains(dest),
        move_entry(t, src, disambiguated(dest, millis))[dest] == t[dest],
        move_entry(t, src, disambiguated(dest, millis)).dom().contains(disambiguated(dest, millis)),
        move_entry(t, src, disambiguated(dest, millis))[disambiguated(dest, millis)] == t[src],
{
    lemma_disambiguated_is_fresh(dest, millis);
}

} // verus!
