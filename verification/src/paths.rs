//! Path translation between the watched tree, the backup tree and the trash
//! tree, together with collision-safe trash naming.
//!
//! Paths are plain strings of `/`-separated segments. A watched path is
//! translated to its backup counterpart by stripping the watch-root prefix at
//! a segment boundary and grafting the remainder onto the backup root; a raw
//! substring replacement would misfire when the watch-root string recurs
//! inside a file name.

use vstd::prelude::*;
use crate::text::{last_index_of, lemma_last_index_of, lemma_dec_digits_len, dec_digits, rfind_char, push_dec};
use crate::events::BackupError;

verus! {

/// `p` lies under `root`: it is `root` itself or continues it at a path
/// segment boundary.
pub open spec fn lies_under(p: Seq<char>, root: Seq<char>) -> bool {
    &&& p.len() >= root.len()
    &&& p.subrange(0, root.len() as int) == root
    &&& (p.len() == root.len() || p[root.len() as int] == '/')
}

/// The backup counterpart of `p`: the watch-root prefix replaced by the
/// backup root, the relative remainder kept as it is.
pub open spec fn mapped_path(p: Seq<char>, watch_root: Seq<char>, backup_root: Seq<char>) -> Seq<char> {
    backup_root + p.subrange(watch_root.len() as int, p.len() as int)
}

/// The final path segment of `p`: everything after the last `/`, the whole of
/// `p` when it has no `/`, empty when `p` ends in `/`.
pub open spec fn basename_of(p: Seq<char>) -> Seq<char> {
    p.subrange(last_index_of(p, '/') + 1, p.len() as int)
}

/// `root` and `name` joined with a single separator.
pub open spec fn joined(root: Seq<char>, name: Seq<char>) -> Seq<char> {
    root + seq!['/'] + name
}

/// The trash tree sits in a fixed subdirectory of the backup root.
pub open spec fn trash_root_of(backup_root: Seq<char>) -> Seq<char> {
    backup_root + seq!['/', '.', 't', 'r', 'a', 's', 'h']
}

/// `p` names a file with an extension: its final segment has a `.` after its
/// first character. The part after the last such `.` is the extension.
pub open spec fn has_ext(p: Seq<char>) -> bool {
    last_index_of(p, '.') >= last_index_of(p, '/') + 2
}

/// The collision-safe variant of `p`: ` (<millis>)` spliced in between stem
/// and extension, using the clock reading taken at the collision.
pub open spec fn disambiguated(p: Seq<char>, millis: nat) -> Seq<char> {
    let d = last_index_of(p, '.');
    p.subrange(0, d) + seq![' ', '('] + dec_digits(millis) + seq![')', '.'] + p.subrange(
        d + 1,
        p.len() as int,
    )
}

/// A disambiguated name is never the name it disambiguates: it is strictly
/// longer, so a colliding trash entry is never overwritten.
pub proof fn lemma_disambiguated_is_fresh(p: Seq<char>, millis: nat)
    requires
        has_ext(p),
    ensures
        disambiguated(p, millis) != p,
        disambiguated(p, millis).len() > p.len(),
{
    lemma_last_index_of(p, '.');
    lemma_last_index_of(p, '/');
    lemma_dec_digits_len(millis);
}

/// Maps a path under the watch root to its backup counterpart; rejects a path
/// that does not lie under the watch root.
pub fn map_path(path: &str, watch_root: &str, backup_root: &str) -> (r: Result<String, BackupError>)
    ensures
        r is Ok <==> lies_under(path@, watch_root@),
        r is Ok ==> r->Ok_0@ == mapped_path(path@, watch_root@, backup_root@),
        r is Err ==> r->Err_0 == BackupError::OutOfScope,
{
    let n = path.unicode_len();
    let w = watch_root.unicode_len();
    if n < w {
        return Err(BackupError::OutOfScope);
    }
    let mut i: usize = 0;
    while i < w
        invariant
            0 <= i <= w <= n,
            n == path@.len(),
            w == watch_root@.len(),
            forall|j: int| 0 <= j < i ==> path@[j] == watch_root@[j],
        decreases w - i,
    {
        if path.get_char(i) != watch_root.get_char(i) {
            proof {
                assert(path@.subrange(0, w as int)[i as int] == path@[i as int]);
            }
            return Err(BackupError::OutOfScope);
        }
        i = i + 1;
    }
    proof {
        assert(path@.subrange(0, w as int) =~= watch_root@);
    }
    if n > w && path.get_char(w) != '/' {
        return Err(BackupError::OutOfScope);
    }
    let suffix = path.substring_char(w, n);
    let mut out = backup_root.to_owned();
    out.append(suffix);
    Ok(out)
}

/// The final path segment of `path`.
pub fn basename<'a>(path: &'a str) -> (r: &'a str)
    ensures
        r@ == basename_of(path@),
{
    let n = path.unicode_len();
    match rfind_char(path, '/') {
        Some(i) => path.substring_char(i + 1, n),
        None => path.substring_char(0, n),
    }
}

/// `root` and `name` joined with a single separator.
pub fn join_under(root: &str, name: &str) -> (r: String)
    ensures
        r@ == joined(root@, name@),
{
    let mut out = root.to_owned();
    out.append("/");
    out.append(name);
    proof {
        reveal_strlit("/");
        assert(out@ =~= joined(root@, name@));
    }
    out
}

/// The path of the trash tree under `backup_root`.
pub fn trash_root_path(backup_root: &str) -> (r: String)
    ensures
        r@ == trash_root_of(backup_root@),
{
    let mut out = backup_root.to_owned();
    out.append("/.trash");
    proof {
        reveal_strlit("/.trash");
        assert(out@ =~= trash_root_of(backup_root@));
    }
    out
}

/// Splices ` (<millis>)` in between the stem and the extension of `p`.
pub fn disambiguate(p: &str, millis: u64) -> (r: String)
    requires
        has_ext(p@),
    ensures
        r@ == disambiguated(p@, millis as nat),
{
    let n = p.unicode_len();
    proof {
        lemma_last_index_of(p@, '.');
        lemma_last_index_of(p@, '/');
    }
    let d = match rfind_char(p, '.') {
        Some(d) => d,
        // Cannot happen: a name with an extension holds a dot.
        None => 0,
    };
    let stem = p.substring_char(0, d);
    let ext = p.substring_char(d + 1, n);
    let mut out = stem.to_owned();
    out.append(" (");
    push_dec(millis, &mut out);
    out.append(").");
    out.append(ext);
    proof {
        reveal_strlit(" (");
        reveal_strlit(").");
        assert(out@ =~= disambiguated(p@, millis as nat));
    }
    out
}

} // verus!
