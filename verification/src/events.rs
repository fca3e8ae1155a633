//! Change events and the decisions taken on them.
//!
//! The notification source (an external collaborator) delivers a stream of
//! change events. The dispatcher decision is pure: given an event and the
//! current state of the affected path, it says which filesystem work the
//! driver must perform. The driver probes the filesystem and executes moves
//! and copies; every decision in between is made here.

use vstd::prelude::*;
use crate::paths::{
    basename, basename_of, disambiguate, disambiguated, has_ext, join_under, joined, lies_under,
    map_path, mapped_path, trash_root_of, trash_root_path,
};

verus! {

/// The kind of a filesystem change notification.
#[derive(Clone, Copy, PartialEq, Eq, Structural, Debug)]
pub enum EventKind {
    Create,
    Modify,
    Remove,
    Other,
}

/// One change notification: a kind and the affected absolute paths, of which
/// the first is the one acted on.
pub struct ChangeEvent {
    pub kind: EventKind,
    pub paths: Vec<String>,
}

/// What the affected path currently is on disk.
#[derive(Clone, Copy, PartialEq, Eq, Structural, Debug)]
pub enum PathState {
    MissingPath,
    FilePath,
    DirPath,
}

/// A recoverable per-event failure; none of these stops the event loop.
#[derive(Clone, Copy, PartialEq, Eq, Structural, Debug)]
pub enum BackupError {
    /// The event carried no path at all.
    EmptyPaths,
    /// The affected path does not lie under the watch root.
    OutOfScope,
    /// The affected path has no final segment to look the backup copy up by.
    NoFileName,
    /// A colliding trash entry cannot be renamed: the name has no extension.
    NoExtension,
}

/// The filesystem work one event resolves to.
pub enum Dispatch {
    /// Copy the file's full byte content over its backup counterpart.
    MirrorFile { source: String, target: String },
    /// Create the mirrored directory and its missing ancestors.
    MirrorDir { target: String },
    /// The entry disappeared: move its backup copy into the trash tree.
    ResolveTrash { path: String },
    /// Log only; no tree mutation.
    LogOnly,
}

/// A planned move of a backup entry into the trash tree.
pub struct TrashMove {
    pub source: String,
    pub dest: String,
}

/// Checks the command-line arguments of the daemon: the watch root and the
/// backup root must both be present. Missing either one is a configuration
/// error, answered with a usage message.
pub fn parse_config(args: &Vec<String>) -> (r: Result<(String, String), String>)
    ensures
        args@.len() <= 1 ==> (r matches Err(m) && m@ == (
        "
Missing watch path and backup directory path arguments.
Example: watch YOUR_DIRECTOR_PATH YOUR_BACKUP_PATH
        ")@),
        args@.len() == 2 ==> (r matches Err(m) && m@ == (
        "
Missing backup directory path
Example: watch YOUR_DIRECTOR_PATH YOUR_BACKUP_PATH
        ")@),
        args@.len() >= 3 ==> (r matches Ok(roots) && roots.0@ == args@[1]@ && roots.1@
            == args@[2]@),
{
    if args.len() <= 1 {
        Err(String::from_str(
            "
Missing watch path and backup directory path arguments.
Example: watch YOUR_DIRECTOR_PATH YOUR_BACKUP_PATH
        ",
        ))
    } else if args.len() == 2 {
        Err(String::from_str(
            "
Missing backup directory path
Example: watch YOUR_DIRECTOR_PATH YOUR_BACKUP_PATH
        ",
        ))
    } else {
        Ok((args[1].clone(), args[2].clone()))
    }
}

/// Routes one event: a modification of a path still present mirrors it, a
/// modification of a vanished path is treated as a removal, a removal goes to
/// the trash resolver, and anything else is only logged. An event without a
/// path is rejected rather than indexed blindly.
pub fn plan_event(
    event: &ChangeEvent,
    state: PathState,
    watch_root: &str,
    backup_root: &str,
) -> (r: Result<Dispatch, BackupError>)
    ensures
        event.paths@.len() == 0 ==> r == Err::<Dispatch, BackupError>(BackupError::EmptyPaths),
        event.paths@.len() > 0 ==> {
            let p = event.paths@[0]@;
            match event.kind {
                EventKind::Modify => {
                    if state is MissingPath {
                        r matches Ok(d) && (d matches Dispatch::ResolveTrash { path } && path@
                            == p)
                    } else if !lies_under(p, watch_root@) {
                        r == Err::<Dispatch, BackupError>(BackupError::OutOfScope)
                    } else if state is FilePath {
                        r matches Ok(d) && (d matches Dispatch::MirrorFile { source, target }
                            && source@ == p && target@ == mapped_path(p, watch_root@, backup_root@))
                    } else {
                        r matches Ok(d) && (d matches Dispatch::MirrorDir { target } && target@
                            == mapped_path(p, watch_root@, backup_root@))
                    }
                },
                EventKind::Remove => r matches Ok(d) && (d matches Dispatch::ResolveTrash { path }
                    && path@ == p),
                _ => r matches Ok(d) && d is LogOnly,
            }
        },
{
    if event.paths.len() == 0 {
        return Err(BackupError::EmptyPaths);
    }
    let path = &event.paths[0];
    match event.kind {
        EventKind::Modify => {
            match state {
                PathState::MissingPath => Ok(Dispatch::ResolveTrash { path: path.clone() }),
                PathState::FilePath => {
                    let target = map_path(path.as_str(), watch_root, backup_root)?;
                    Ok(Dispatch::MirrorFile { source: path.clone(), target })
                },
                PathState::DirPath => {
                    let target = map_path(path.as_str(), watch_root, backup_root)?;
                    Ok(Dispatch::MirrorDir { target })
                },
            }
        },
        EventKind::Remove => Ok(Dispatch::ResolveTrash { path: path.clone() }),
        EventKind::Create => Ok(Dispatch::LogOnly),
        EventKind::Other => Ok(Dispatch::LogOnly),
    }
}

/// Resolves a removal: the backup copy, looked up flat by the removed entry's
/// final segment, moves into the trash tree. A directory or a first removal
/// keeps its own name; a colliding file removal takes a timestamped name, so
/// an existing trash entry is never overwritten. A name that a renamed entry
/// would need an extension for, but has none, is rejected.
pub fn trash_plan(
    path: &str,
    backup_root: &str,
    source_is_dir: bool,
    dest_exists: bool,
    millis: u64,
) -> (r: Result<TrashMove, BackupError>)
    ensures
        ({
            let name = basename_of(path@);
            let source = joined(backup_root@, name);
            let dest = joined(trash_root_of(backup_root@), name);
            &&& (name.len() == 0 ==> r == Err::<TrashMove, BackupError>(BackupError::NoFileName))
            &&& (name.len() > 0 && (source_is_dir || !dest_exists) ==> (r matches Ok(m)
                && m.source@ == source && m.dest@ == dest))
            &&& (name.len() > 0 && !source_is_dir && dest_exists ==> {
                if has_ext(dest) {
                    r matches Ok(m) && m.source@ == source && m.dest@ == disambiguated(
                        dest,
                        millis as nat,
                    )
                } else {
                    r == Err::<TrashMove, BackupError>(BackupError::NoExtension)
                }
            })
        }),
{
    let name = basename(path);
    if name.unicode_len() == 0 {
        return Err(BackupError::NoFileName);
    }
    let source = join_under(backup_root, name);
    let trash_root = trash_root_path(backup_root);
    let dest = join_under(trash_root.as_str(), name);
    if source_is_dir || !dest_exists {
        return Ok(TrashMove { source, dest });
    }
    let d = crate::text::rfind_char(dest.as_str(), '.');
    let s = crate::text::rfind_char(dest.as_str(), '/');
    let extension_ok = match (d, s) {
        (Some(di), Some(si)) => di >= 2 && di - 2 >= si,
        (Some(di), None) => di >= 1,
        (None, _) => false,
    };
    if !extension_ok {
        return Err(BackupError::NoExtension);
    }
    let renamed = disambiguate(dest.as_str(), millis);
    Ok(TrashMove { source, dest: renamed })
}

} // verus!
