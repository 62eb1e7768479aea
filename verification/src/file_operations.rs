//! The four handlers of the mirror: create, copy, rename and remove.
//!
//! A handler never touches the file system. It is given what was seen of
//! the file system for one path and answers with a plan: the one operation
//! that the caller is to perform on the target tree. When the operation has
//! run, `complete` brings the store up to date and says what goes to the
//! log.

use crate::file_store::inserted;
use crate::file_store::promoted;
use crate::file_store::value_of;
use crate::file_store::without;
use crate::file_store::FileStore;
use crate::fingerprint::blake3_hash;
use crate::fingerprint::same_fingerprint;
use crate::fingerprint::spec_fingerprint;
use crate::path::spec_ends_with_tilde;
use crate::path::spec_join;
use crate::path::spec_parent;
use crate::pattern::covers;
use crate::pattern::spec_covers;
use crate::path::spec_strip_prefix;
use crate::path::ComponentView;
use crate::path::SyncPath;
use crate::utils::path_views;
use crate::utils::spec_copy_file;
use crate::utils::spec_create_dirs;
use crate::utils::spec_timing;
use crate::utils::spec_verbatim;
use crate::utils::Fingerprint;
use crate::utils::IoStatus;
use crate::utils::LogRecord;
use crate::utils::PathMetadata;
use crate::utils::PathType;
use crate::utils::Utils;
use crate::utils::Verb;
use vstd::prelude::*;

verus! {

/// What a look at a path of the file system found there.
#[derive(Debug, PartialEq, Eq, Clone, Copy, Structural)]
pub enum EntryKind {
    /// Nothing.
    Absent,
    /// A regular file.
    File,
    /// A directory.
    Dir,
    /// Something that is neither.
    Other,
}

/// What was seen of the file system for one path, before its handler runs.
#[derive(Debug, PartialEq, Eq, Clone, Copy, Structural)]
pub struct Observation {
    /// What stands at the path in the watched tree.
    pub source: EntryKind,
    /// What stands at the path's destination in the target tree.
    pub destination: EntryKind,
    /// Whether the directory that is to hold the destination exists. Where
    /// the destination has no such directory, this is `true`.
    pub parent_exists: bool,
}

/// The operation that a handler asks for on the target tree.
#[derive(Debug, PartialEq, Eq, Clone, Copy, Structural)]
pub enum Action {
    /// Nothing is to be done.
    Nothing,
    /// Create an empty file at the destination.
    CreateFile,
    /// Create the destination directory and those that lead to it.
    CreateDir,
    /// Copy the source file over the destination.
    CopyFile,
    /// Remove the file at the destination.
    RemoveFile,
    /// Remove the directory at the destination and all below it.
    RemoveDir,
    /// Move the pending rename's destination to this destination.
    Rename,
}

/// What a handler decided for one path.
#[derive(Debug, PartialEq, Eq, Clone, Copy)]
pub struct Plan {
    /// Whether the directories leading to the destination are to be made
    /// before the operation.
    pub ensure_parent: bool,
    /// The operation.
    pub action: Action,
    /// What the path is, where the operation depends on it.
    pub kind: Option<PathType>,
    /// The fingerprint that the store takes up when a copy succeeds.
    pub fingerprint: Option<Fingerprint>,
    /// A line for the log that the decision itself calls for.
    pub note: Option<LogRecord>,
}

/// How the operations of a plan ended.
#[derive(Debug, PartialEq, Eq, Clone, Copy, Structural)]
pub struct Outcome {
    /// How making the leading directories ended; read only where the plan
    /// asked for them.
    pub parent: IoStatus,
    /// How the operation ended; read only where the plan asked for one.
    pub action: IoStatus,
}

/// The log lines for the operations of a plan.
#[derive(Debug, PartialEq, Eq, Clone, Copy, Structural)]
pub struct Report {
    /// The line for the leading directories.
    pub parent: Option<LogRecord>,
    /// The line for the operation.
    pub action: Option<LogRecord>,
}

/// The first half of a rename: the path that was renamed away.
#[derive(Debug)]
pub struct PendingRename {
    /// Its key in the store.
    pub key: SyncPath,
    /// Its place in the target tree.
    pub destination: SyncPath,
}

impl View for PendingRename {
    type V = (Seq<ComponentView>, Seq<ComponentView>);

    open spec fn view(&self) -> (Seq<ComponentView>, Seq<ComponentView>) {
        (self.key@, self.destination@)
    }
}

/// A path of the watched tree with its place in the target tree.
#[derive(Debug)]
pub struct Target {
    /// The verbatim path in the watched tree: the key in the store.
    pub key: SyncPath,
    /// The path relative to the watched root.
    pub relative: SyncPath,
    /// The path in the target tree.
    pub destination: SyncPath,
    /// The directory that is to hold the destination, if it has one.
    pub parent: Option<SyncPath>,
    /// The key of the directory that holds the path, if it has one.
    pub parent_key: Option<SyncPath>,
}

/// The view of a path that may be missing.
pub open spec fn optional_view(path: Option<SyncPath>) -> Option<Seq<ComponentView>> {
    match path {
        Some(p) => Some(p@),
        None => None,
    }
}

/// The view of a pending rename that may be missing.
pub open spec fn pending_view(pending: Option<PendingRename>) -> Option<
    (Seq<ComponentView>, Seq<ComponentView>),
> {
    match pending {
        Some(p) => Some(p@),
        None => None,
    }
}

/// What the filters make of a path.
#[derive(Debug, PartialEq, Eq, Clone, Copy, Structural)]
pub enum Screening {
    /// The path is covered by an excluded path.
    Excluded,
    /// The path does not lie below the watched root.
    Outside,
    /// The path is an editor's temporary file, and those are left alone.
    Temporary,
    /// The path is to be handled.
    Admitted,
}

/// A path after the filters.
#[derive(Debug)]
pub enum Admission {
    /// The path is covered by an excluded path: it is dropped.
    Excluded,
    /// The path does not lie below the watched root, which no notification
    /// of the watched tree can bring about.
    Outside,
    /// The path is an editor's temporary file: it is dropped.
    Temporary,
    /// The path is to be handled.
    Admitted(Target),
}

/// `path` is covered by one of the excluded paths: it lies at or below
/// it, or at or below a path that matches it where it holds wildcards.
pub open spec fn spec_is_excluded(
    excluded: Seq<Seq<ComponentView>>,
    path: Seq<ComponentView>,
) -> bool {
    exists|i: int| 0 <= i < excluded.len() && spec_covers(#[trigger] excluded[i], path)
}

impl Utils {
    /// What the filters make of a raw path: exclusion comes first, then
    /// the watched root, then the tilde.
    pub open spec fn spec_screening(&self, path: Seq<ComponentView>) -> Screening {
        let key = spec_verbatim(path);
        if spec_is_excluded(self.spec_excluded_paths(), key) {
            Screening::Excluded
        } else {
            match spec_strip_prefix(key, self.spec_args().source_dir@) {
                None => Screening::Outside,
                Some(relative) => if self.spec_args().exclude_temporary_editor_files
                    && spec_ends_with_tilde(relative) {
                    Screening::Temporary
                } else {
                    Screening::Admitted
                },
            }
        }
    }

    /// `target` is the place of the raw path `path`.
    pub open spec fn spec_places(&self, path: Seq<ComponentView>, target: Target) -> bool {
        &&& target.key@ == spec_verbatim(path)
        &&& Some(target.relative@) == spec_strip_prefix(target.key@, self.spec_args().source_dir@)
        &&& target.destination@ == spec_join(self.spec_args().target_dir@, target.relative@)
        &&& optional_view(target.parent) == spec_parent(target.destination@)
        &&& optional_view(target.parent_key) == spec_parent(target.key@)
    }

    /// `admission` is what the filters make of the raw path `path`.
    pub open spec fn spec_admits(&self, path: Seq<ComponentView>, admission: Admission) -> bool {
        match admission {
            Admission::Excluded => self.spec_screening(path) == Screening::Excluded,
            Admission::Outside => self.spec_screening(path) == Screening::Outside,
            Admission::Temporary => self.spec_screening(path) == Screening::Temporary,
            Admission::Admitted(target) => self.spec_screening(path) == Screening::Admitted
                && self.spec_places(path, target),
        }
    }
}

/// Whether a verbatim path is covered by one of the excluded paths.
pub fn is_in_excluded_paths(utils: &Utils, path: &SyncPath) -> (res: bool)
    ensures
        res == spec_is_excluded(utils.spec_excluded_paths(), path@),
{
    let excluded = utils.excluded_paths();
    let mut i: usize = 0;
    while i < excluded.len()
        invariant
            i <= excluded.len(),
            path_views(excluded@) == utils.spec_excluded_paths(),
            forall|j: int| 0 <= j < i ==> !spec_covers(#[trigger] excluded@[j]@, path@),
        decreases excluded.len() - i,
    {
        if covers(&excluded[i], path) {
            assert(utils.spec_excluded_paths()[i as int] == excluded@[i as int]@);
            return true;
        }
        i += 1;
    }
    assert(!spec_is_excluded(utils.spec_excluded_paths(), path@)) by {
        assert forall|j: int| 0 <= j < utils.spec_excluded_paths().len() implies !spec_covers(
            #[trigger] utils.spec_excluded_paths()[j],
            path@,
        ) by {
            assert(utils.spec_excluded_paths()[j] == excluded@[j]@);
        }
    }
    false
}

/// The log line for a removal that failed with the given error code. A
/// failure that says the path is not there is not worth a line: the path
/// is gone, which is what was wanted.
pub open spec fn spec_remove_failure(code: Option<i32>, entry_type: PathType) -> Option<LogRecord> {
    if code == Some(2i32) || code == Some(3i32) {
        None
    } else {
        Some(LogRecord::RemoveFailed { kind: entry_type })
    }
}

/// The log line for a removal that failed with the given error code, if it
/// is worth one.
pub fn handle_remove_err(code: Option<i32>, entry_type: PathType) -> (res: Option<LogRecord>)
    ensures
        res == spec_remove_failure(code, entry_type),
{
    match code {
        Some(os_error_code) => {
            if os_error_code != 2 && os_error_code != 3 {
                Some(LogRecord::RemoveFailed { kind: entry_type })
            } else {
                None
            }
        },
        None => Some(LogRecord::RemoveFailed { kind: entry_type }),
    }
}

/// The plan that asks for nothing.
pub open spec fn plan_nothing() -> Plan {
    Plan { ensure_parent: false, action: Action::Nothing, kind: None, fingerprint: None, note: None }
}

/// The plan that only puts a line in the log.
pub open spec fn plan_note(note: LogRecord) -> Plan {
    Plan {
        ensure_parent: false,
        action: Action::Nothing,
        kind: None,
        fingerprint: None,
        note: Some(note),
    }
}

/// The plan that makes the destination a directory, unless it is one.
pub open spec fn plan_directory(observed: Observation) -> Plan {
    if observed.destination != EntryKind::Dir {
        Plan {
            ensure_parent: false,
            action: Action::CreateDir,
            kind: Some(PathType::Dir),
            fingerprint: None,
            note: None,
        }
    } else {
        plan_nothing()
    }
}

/// The plan that copies the source file, after the directories that lead
/// to the destination where they are missing.
pub open spec fn plan_transfer(observed: Observation, fingerprint: Option<Fingerprint>) -> Plan {
    Plan {
        ensure_parent: !observed.parent_exists,
        action: Action::CopyFile,
        kind: Some(PathType::File),
        fingerprint,
        note: None,
    }
}

/// The content read now is what the store has as mirrored.
pub open spec fn is_identical(entry: Option<PathMetadata>, fingerprint: Option<Fingerprint>) -> bool {
    entry matches Some(meta) && meta.path_type == PathType::File && fingerprint is Some
        && fingerprint == meta.hash
}

/// What a change of content calls for, given the store's entry for the
/// path, what was seen, and the fingerprint of what was read.
///
/// A known directory only has to exist at the destination. A known file is
/// copied unless what was read has the fingerprint on record; when nothing
/// could be read, the copy is tried all the same. A path not known yet is
/// copied if it is a file, and made if it is a directory.
pub open spec fn spec_copy_plan(
    entry: Option<PathMetadata>,
    observed: Observation,
    fingerprint: Option<Fingerprint>,
) -> Plan {
    match entry {
        Some(meta) => if meta.path_type == PathType::Dir {
            plan_directory(observed)
        } else if is_identical(entry, fingerprint) {
            plan_note(LogRecord::Identical)
        } else {
            plan_transfer(observed, fingerprint)
        },
        None => match observed.source {
            EntryKind::File => plan_transfer(observed, fingerprint),
            EntryKind::Dir => plan_directory(observed),
            _ => plan_nothing(),
        },
    }
}

/// The store after a change of content was planned: the path's entry is
/// the most recently used, and content found identical is confirmed at
/// `now`.
pub open spec fn spec_copy_entries(
    entries: Seq<(Seq<ComponentView>, PathMetadata)>,
    cap: nat,
    key: Seq<ComponentView>,
    fingerprint: Option<Fingerprint>,
    now: u64,
) -> Seq<(Seq<ComponentView>, PathMetadata)> {
    if is_identical(value_of(entries, key), fingerprint) {
        inserted(
            promoted(entries, key),
            cap,
            key,
            PathMetadata::spec_new(PathType::File, fingerprint, now),
        )
    } else {
        promoted(entries, key)
    }
}

/// What a creation calls for: nothing for a path that the store knows or
/// whose destination exists; else an empty file or a directory, after the
/// directories that lead to it where they are missing.
pub open spec fn spec_create_plan(entry: Option<PathMetadata>, observed: Observation) -> Plan {
    if entry is Some || observed.destination != EntryKind::Absent {
        plan_nothing()
    } else {
        match observed.source {
            EntryKind::File => Plan {
                ensure_parent: !observed.parent_exists,
                action: Action::CreateFile,
                kind: Some(PathType::File),
                fingerprint: None,
                note: None,
            },
            EntryKind::Dir => Plan {
                ensure_parent: !observed.parent_exists,
                action: Action::CreateDir,
                kind: Some(PathType::Dir),
                fingerprint: None,
                note: None,
            },
            _ => plan_nothing(),
        }
    }
}

/// What a removal calls for: the removal of what stands at the
/// destination. Nothing there is no matter; something that is neither a
/// file nor a directory is reported and left.
pub open spec fn spec_remove_plan(observed: Observation) -> Plan {
    match observed.destination {
        EntryKind::Absent => plan_nothing(),
        EntryKind::File => Plan {
            ensure_parent: false,
            action: Action::RemoveFile,
            kind: Some(PathType::File),
            fingerprint: None,
            note: None,
        },
        EntryKind::Dir => Plan {
            ensure_parent: false,
            action: Action::RemoveDir,
            kind: Some(PathType::Dir),
            fingerprint: None,
            note: None,
        },
        EntryKind::Other => plan_note(LogRecord::RemoveUnsupported),
    }
}

/// The half of a rename that a notification reports.
#[derive(Debug, PartialEq, Eq, Clone, Copy, Structural)]
pub enum RenameRole {
    /// The path was renamed away.
    From,
    /// The path is what something was renamed to.
    To,
}

/// The type of a path that was seen as a file or a directory.
pub open spec fn spec_path_type(kind: EntryKind) -> Option<PathType> {
    match kind {
        EntryKind::File => Some(PathType::File),
        EntryKind::Dir => Some(PathType::Dir),
        _ => None,
    }
}

/// What one half of a rename calls for. The first half asks for nothing:
/// it is only remembered. The second half asks for the move when a first
/// half is pending, and for a line in the log when none is.
pub open spec fn spec_rename_plan(role: RenameRole, pending: bool, observed: Observation) -> Plan {
    match role {
        RenameRole::From => plan_nothing(),
        RenameRole::To => if pending {
            Plan {
                ensure_parent: false,
                action: Action::Rename,
                kind: spec_path_type(observed.source),
                fingerprint: None,
                note: None,
            }
        } else {
            plan_note(LogRecord::RenameUnpaired)
        },
    }
}

/// The pending rename after one half of a rename was planned: the first
/// half takes the slot, whatever it held; the second half empties it.
pub open spec fn spec_rename_pending(
    role: RenameRole,
    key: Seq<ComponentView>,
    destination: Seq<ComponentView>,
) -> Option<(Seq<ComponentView>, Seq<ComponentView>)> {
    match role {
        RenameRole::From => Some((key, destination)),
        RenameRole::To => None,
    }
}

/// The store after `kind` and `fingerprint` were written for `key` at
/// `now`.
pub open spec fn spec_written(
    entries: Seq<(Seq<ComponentView>, PathMetadata)>,
    cap: nat,
    key: Seq<ComponentView>,
    kind: PathType,
    fingerprint: Option<Fingerprint>,
    now: u64,
) -> Seq<(Seq<ComponentView>, PathMetadata)> {
    inserted(entries, cap, key, PathMetadata::spec_new(kind, fingerprint, now))
}

/// The store after the directories leading to a destination were made:
/// where that succeeded, the directory that holds the path is on record.
pub open spec fn spec_parent_recorded(
    entries: Seq<(Seq<ComponentView>, PathMetadata)>,
    cap: nat,
    parent_key: Option<Seq<ComponentView>>,
    status: IoStatus,
    now: u64,
) -> Seq<(Seq<ComponentView>, PathMetadata)> {
    match parent_key {
        Some(key) => if status == IoStatus::Done {
            spec_written(entries, cap, key, PathType::Dir, None, now)
        } else {
            entries
        },
        None => entries,
    }
}

/// The store after a rename succeeded: the entry moves from the old key
/// to the new one with its fingerprint, confirmed at `now`; where there was
/// none, one is made up from the path's type.
pub open spec fn spec_moved(
    entries: Seq<(Seq<ComponentView>, PathMetadata)>,
    cap: nat,
    old_key: Seq<ComponentView>,
    key: Seq<ComponentView>,
    kind: PathType,
    now: u64,
) -> Seq<(Seq<ComponentView>, PathMetadata)> {
    let moved = match value_of(entries, old_key) {
        Some(meta) => PathMetadata::spec_new(meta.path_type, meta.hash, now),
        None => PathMetadata::spec_new(kind, None, now),
    };
    inserted(without(entries, old_key), cap, key, moved)
}

/// The store after the operation of a plan ended.
pub open spec fn spec_action_recorded(
    entries: Seq<(Seq<ComponentView>, PathMetadata)>,
    cap: nat,
    key: Seq<ComponentView>,
    plan: Plan,
    renamed_from: Option<(Seq<ComponentView>, Seq<ComponentView>)>,
    status: IoStatus,
    now: u64,
) -> Seq<(Seq<ComponentView>, PathMetadata)> {
    if status != IoStatus::Done {
        entries
    } else {
        match plan.action {
            Action::CreateFile => spec_written(entries, cap, key, PathType::File, None, now),
            Action::CreateDir => spec_written(entries, cap, key, PathType::Dir, None, now),
            Action::CopyFile => spec_written(
                entries,
                cap,
                key,
                PathType::File,
                plan.fingerprint,
                now,
            ),
            Action::Rename => match (renamed_from, plan.kind) {
                (Some(from), Some(kind)) => spec_moved(entries, cap, from.0, key, kind, now),
                _ => entries,
            },
            _ => entries,
        }
    }
}

/// The store after the operations of a plan ended.
pub open spec fn spec_completed(
    entries: Seq<(Seq<ComponentView>, PathMetadata)>,
    cap: nat,
    key: Seq<ComponentView>,
    parent_key: Option<Seq<ComponentView>>,
    plan: Plan,
    renamed_from: Option<(Seq<ComponentView>, Seq<ComponentView>)>,
    outcome: Outcome,
    now: u64,
) -> Seq<(Seq<ComponentView>, PathMetadata)> {
    let prepared = if plan.ensure_parent {
        spec_parent_recorded(entries, cap, parent_key, outcome.parent, now)
    } else {
        entries
    };
    spec_action_recorded(prepared, cap, key, plan, renamed_from, outcome.action, now)
}

/// The log line for the directories leading to a destination.
pub open spec fn spec_parent_report(
    statistics: bool,
    plan: Plan,
    outcome: Outcome,
    elapsed_micros: u64,
) -> Option<LogRecord> {
    if plan.ensure_parent {
        match spec_create_dirs(statistics, outcome.parent, elapsed_micros, true) {
            Ok(line) => line,
            Err(line) => Some(line),
        }
    } else {
        None
    }
}

/// The log line for the operation of a plan.
pub open spec fn spec_action_report(
    statistics: bool,
    plan: Plan,
    outcome: Outcome,
    elapsed_micros: u64,
) -> Option<LogRecord> {
    let timing = spec_timing(statistics, elapsed_micros);
    match plan.action {
        Action::Nothing => None,
        Action::CreateFile => match outcome.action {
            IoStatus::Done => Some(
                LogRecord::Action { verb: Verb::Created, kind: PathType::File, timing },
            ),
            IoStatus::Failed { .. } => Some(LogRecord::CreateFailed),
        },
        Action::CreateDir => match spec_create_dirs(
            statistics,
            outcome.action,
            elapsed_micros,
            false,
        ) {
            Ok(line) => line,
            Err(line) => Some(line),
        },
        Action::CopyFile => match spec_copy_file(statistics, outcome.action, elapsed_micros) {
            Ok(line) => Some(line),
            Err(line) => Some(line),
        },
        Action::RemoveFile => match outcome.action {
            IoStatus::Done => Some(
                LogRecord::Action { verb: Verb::Deleted, kind: PathType::File, timing },
            ),
            IoStatus::Failed { code } => spec_remove_failure(code, PathType::File),
        },
        Action::RemoveDir => match outcome.action {
            IoStatus::Done => Some(
                LogRecord::Action { verb: Verb::Deleted, kind: PathType::Dir, timing },
            ),
            IoStatus::Failed { code } => spec_remove_failure(code, PathType::Dir),
        },
        Action::Rename => match outcome.action {
            IoStatus::Done => match plan.kind {
                Some(kind) => Some(LogRecord::Action { verb: Verb::Renamed, kind, timing }),
                None => Some(LogRecord::RenameUnsupported),
            },
            IoStatus::Failed { .. } => None,
        },
    }
}

/// The log lines for the operations of a plan.
pub open spec fn spec_report(
    statistics: bool,
    plan: Plan,
    outcome: Outcome,
    elapsed_micros: u64,
) -> Report {
    Report {
        parent: spec_parent_report(statistics, plan, outcome, elapsed_micros),
        action: spec_action_report(statistics, plan, outcome, elapsed_micros),
    }
}


/// The handlers.
pub struct FileOperationsManager;

impl FileOperationsManager {
    /// Runs a raw path through the filters and, where it passes, finds its
    /// place in the target tree.
    pub fn locate(utils: &Utils, src_path: &SyncPath) -> (res: Admission)
        ensures
            utils.spec_admits(src_path@, res),
    {
        let v_path = Utils::path_to_verbatim(src_path);
        if is_in_excluded_paths(utils, &v_path) {
            return Admission::Excluded;
        }
        let relative = match v_path.strip_prefix(&utils.args().source_dir) {
            Some(relative) => relative,
            None => {
                return Admission::Outside;
            },
        };
        if utils.args().exclude_temporary_editor_files && relative.ends_with_tilde() {
            return Admission::Temporary;
        }
        let destination = utils.get_destination_path(&relative);
        let parent = destination.parent();
        let parent_key = v_path.parent();
        Admission::Admitted(Target { key: v_path, relative, destination, parent, parent_key })
    }

    /// Handles a change of content, given the bytes that a read of the
    /// source returned, if it returned any. The bytes are fingerprinted and
    /// the rest is [`FileOperationsManager::copy_fingerprinted`].
    pub fn copy(
        file_store: &mut FileStore,
        target: &Target,
        observed: &Observation,
        content: &Option<Vec<u8>>,
        now: u64,
    ) -> (plan: Plan)
        ensures
            plan == spec_copy_plan(
                old(file_store).lookup(target.key@),
                *observed,
                spec_fingerprint(content_view(*content)),
            ),
            final(file_store).entries() == spec_copy_entries(
                old(file_store).entries(),
                old(file_store).capacity(),
                target.key@,
                spec_fingerprint(content_view(*content)),
                now,
            ),
            final(file_store).capacity() == old(file_store).capacity(),
    {
        let fingerprint = match content {
            Some(bytes) => Some(blake3_hash(bytes.as_slice())),
            None => None,
        };
        Self::copy_fingerprinted(file_store, target, observed, fingerprint, now)
    }

    /// Handles a change of content, given the fingerprint of what a read of
    /// the source returned, if it returned anything.
    pub fn copy_fingerprinted(
        file_store: &mut FileStore,
        target: &Target,
        observed: &Observation,
        fingerprint: Option<Fingerprint>,
        now: u64,
    ) -> (plan: Plan)
        ensures
            plan == spec_copy_plan(old(file_store).lookup(target.key@), *observed, fingerprint),
            final(file_store).entries() == spec_copy_entries(
                old(file_store).entries(),
                old(file_store).capacity(),
                target.key@,
                fingerprint,
                now,
            ),
            final(file_store).capacity() == old(file_store).capacity(),
    {
        let entry = file_store.read(&target.key);
        match entry {
            Some(meta) => match meta.path_type {
                PathType::Dir => Self::ensure_directory(observed),
                PathType::File => {
                    if fingerprint.is_some() && same_fingerprint(&fingerprint, &meta.hash) {
                        Self::write_in_file_store(
                            file_store,
                            target.key.clone(),
                            PathType::File,
                            fingerprint,
                            now,
                        );
                        Plan {
                            ensure_parent: false,
                            action: Action::Nothing,
                            kind: None,
                            fingerprint: None,
                            note: Some(LogRecord::Identical),
                        }
                    } else {
                        Self::transfer(observed, fingerprint)
                    }
                },
            },
            None => match observed.source {
                EntryKind::File => Self::transfer(observed, fingerprint),
                EntryKind::Dir => Self::ensure_directory(observed),
                _ => Self::nothing(),
            },
        }
    }

    /// Handles a removal: the path is forgotten, and what stands at its
    /// destination is to be removed.
    pub fn remove(file_store: &mut FileStore, target: &Target, observed: &Observation) -> (plan:
        Plan)
        ensures
            plan == spec_remove_plan(*observed),
            final(file_store).entries() == without(old(file_store).entries(), target.key@),
            final(file_store).capacity() == old(file_store).capacity(),
    {
        file_store.delete(&target.key);
        match observed.destination {
            EntryKind::Absent => Self::nothing(),
            EntryKind::File => Plan {
                ensure_parent: false,
                action: Action::RemoveFile,
                kind: Some(PathType::File),
                fingerprint: None,
                note: None,
            },
            EntryKind::Dir => Plan {
                ensure_parent: false,
                action: Action::RemoveDir,
                kind: Some(PathType::Dir),
                fingerprint: None,
                note: None,
            },
            EntryKind::Other => Plan {
                ensure_parent: false,
                action: Action::Nothing,
                kind: None,
                fingerprint: None,
                note: Some(LogRecord::RemoveUnsupported),
            },
        }
    }

    /// Handles one half of a rename. The first half is remembered in
    /// `rename_from`, over whatever was pending. The second half takes what
    /// is pending out of `rename_from` and hands it back with the plan for
    /// the move; with nothing pending it only asks for a line in the log.
    /// The store is not touched before the move has succeeded.
    pub fn rename(
        target: &Target,
        role: RenameRole,
        observed: &Observation,
        rename_from: &mut Option<PendingRename>,
    ) -> (res: (Plan, Option<PendingRename>))
        ensures
            res.0 == spec_rename_plan(role, *old(rename_from) is Some, *observed),
            pending_view(*final(rename_from)) == spec_rename_pending(
                role,
                target.key@,
                target.destination@,
            ),
            pending_view(res.1) == (match role {
                RenameRole::From => None,
                RenameRole::To => pending_view(*old(rename_from)),
            }),
    {
        match role {
            RenameRole::From => {
                *rename_from = Some(
                    PendingRename {
                        key: target.key.clone(),
                        destination: target.destination.clone(),
                    },
                );
                (Self::nothing(), None)
            },
            RenameRole::To => {
                let pending = rename_from.take();
                match pending {
                    Some(from) => {
                        let kind = match observed.source {
                            EntryKind::File => Some(PathType::File),
                            EntryKind::Dir => Some(PathType::Dir),
                            _ => None,
                        };
                        (
                            Plan {
                                ensure_parent: false,
                                action: Action::Rename,
                                kind,
                                fingerprint: None,
                                note: None,
                            },
                            Some(from),
                        )
                    },
                    None => (
                        Plan {
                            ensure_parent: false,
                            action: Action::Nothing,
                            kind: None,
                            fingerprint: None,
                            note: Some(LogRecord::RenameUnpaired),
                        },
                        None,
                    ),
                }
            },
        }
    }

    /// Handles a creation.
    pub fn create(file_store: &mut FileStore, target: &Target, observed: &Observation) -> (plan:
        Plan)
        ensures
            plan == spec_create_plan(old(file_store).lookup(target.key@), *observed),
            final(file_store).entries() == promoted(old(file_store).entries(), target.key@),
            final(file_store).capacity() == old(file_store).capacity(),
    {
        if file_store.read(&target.key).is_some() {
            return Self::nothing();
        }
        if observed.destination != EntryKind::Absent {
            return Self::nothing();
        }
        match observed.source {
            EntryKind::File => Plan {
                ensure_parent: !observed.parent_exists,
                action: Action::CreateFile,
                kind: Some(PathType::File),
                fingerprint: None,
                note: None,
            },
            EntryKind::Dir => Plan {
                ensure_parent: !observed.parent_exists,
                action: Action::CreateDir,
                kind: Some(PathType::Dir),
                fingerprint: None,
                note: None,
            },
            _ => Self::nothing(),
        }
    }

    /// Brings the store up to date when the operations of a plan have run,
    /// and says what goes to the log.
    pub fn complete(
        file_store: &mut FileStore,
        utils: &Utils,
        target: &Target,
        plan: &Plan,
        renamed_from: &Option<PendingRename>,
        outcome: &Outcome,
        now: u64,
        elapsed_micros: u64,
    ) -> (report: Report)
        ensures
            report == spec_report(utils.spec_args().statistics, *plan, *outcome, elapsed_micros),
            final(file_store).entries() == spec_completed(
                old(file_store).entries(),
                old(file_store).capacity(),
                target.key@,
                optional_view(target.parent_key),
                *plan,
                pending_view(*renamed_from),
                *outcome,
                now,
            ),
            final(file_store).capacity() == old(file_store).capacity(),
    {
        let parent = if plan.ensure_parent {
            Self::create_depends_dirs(file_store, utils, target, outcome.parent, now, elapsed_micros)
        } else {
            None
        };
        let action = match plan.action {
            Action::Nothing => None,
            Action::CreateFile => match outcome.action {
                IoStatus::Done => {
                    Self::write_in_file_store(
                        file_store,
                        target.key.clone(),
                        PathType::File,
                        None,
                        now,
                    );
                    Some(utils.print_action(Verb::Created, PathType::File, elapsed_micros))
                },
                IoStatus::Failed { .. } => Some(LogRecord::CreateFailed),
            },
            Action::CreateDir => match utils.create_dirs(outcome.action, elapsed_micros, false) {
                Ok(line) => {
                    Self::write_in_file_store(
                        file_store,
                        target.key.clone(),
                        PathType::Dir,
                        None,
                        now,
                    );
                    line
                },
                Err(line) => Some(line),
            },
            Action::CopyFile => match utils.copy_file(outcome.action, elapsed_micros) {
                Ok(line) => {
                    Self::write_in_file_store(
                        file_store,
                        target.key.clone(),
                        PathType::File,
                        plan.fingerprint,
                        now,
                    );
                    Some(line)
                },
                Err(line) => Some(line),
            },
            Action::RemoveFile => match outcome.action {
                IoStatus::Done => Some(
                    utils.print_action(Verb::Deleted, PathType::File, elapsed_micros),
                ),
                IoStatus::Failed { code } => handle_remove_err(code, PathType::File),
            },
            Action::RemoveDir => match outcome.action {
                IoStatus::Done => Some(
                    utils.print_action(Verb::Deleted, PathType::Dir, elapsed_micros),
                ),
                IoStatus::Failed { code } => handle_remove_err(code, PathType::Dir),
            },
            Action::Rename => match outcome.action {
                IoStatus::Done => match plan.kind {
                    Some(kind) => {
                        match renamed_from {
                            Some(from) => {
                                Self::move_entry(file_store, &from.key, target, kind, now);
                            },
                            None => {},
                        }
                        Some(utils.print_action(Verb::Renamed, kind, elapsed_micros))
                    },
                    None => Some(LogRecord::RenameUnsupported),
                },
                IoStatus::Failed { .. } => None,
            },
        };
        Report { parent, action }
    }

    /// Moves the entry of a renamed path to its new key: the fingerprint
    /// stays, the time is `now`. Where the old key has no entry, one is made
    /// up from the path's type.
    fn move_entry(
        file_store: &mut FileStore,
        old_key: &SyncPath,
        target: &Target,
        kind: PathType,
        now: u64,
    )
        ensures
            final(file_store).entries() == spec_moved(
                old(file_store).entries(),
                old(file_store).capacity(),
                old_key@,
                target.key@,
                kind,
                now,
            ),
            final(file_store).capacity() == old(file_store).capacity(),
    {
        let previous = file_store.take(old_key);
        match previous {
            Some(meta) => {
                Self::write_in_file_store(
                    file_store,
                    target.key.clone(),
                    meta.path_type,
                    meta.hash,
                    now,
                );
            },
            None => {
                Self::write_in_file_store(file_store, target.key.clone(), kind, None, now);
            },
        }
    }

    /// Writes what is known of a path into the store, as its most recently
    /// used entry: its type, its fingerprint if it is a file, and `now` as
    /// the time of the last change.
    pub fn write_in_file_store(
        file_store: &mut FileStore,
        path: SyncPath,
        path_type: PathType,
        current_hash_opt: Option<Fingerprint>,
        now: u64,
    )
        ensures
            final(file_store).entries() == spec_written(
                old(file_store).entries(),
                old(file_store).capacity(),
                path@,
                path_type,
                current_hash_opt,
                now,
            ),
            final(file_store).capacity() == old(file_store).capacity(),
    {
        let metadata = PathMetadata::new(path_type, current_hash_opt, now);
        file_store.update(path, metadata);
    }

    /// Takes note of how making the directories that lead to a destination
    /// ended: where it succeeded, the directory that holds the path goes on
    /// record; where it failed, the failure goes to the log.
    pub fn create_depends_dirs(
        file_store: &mut FileStore,
        utils: &Utils,
        target: &Target,
        status: IoStatus,
        now: u64,
        elapsed_micros: u64,
    ) -> (line: Option<LogRecord>)
        ensures
            line == (match spec_create_dirs(
                utils.spec_args().statistics,
                status,
                elapsed_micros,
                true,
            ) {
                Ok(line) => line,
                Err(line) => Some(line),
            }),
            final(file_store).entries() == spec_parent_recorded(
                old(file_store).entries(),
                old(file_store).capacity(),
                optional_view(target.parent_key),
                status,
                now,
            ),
            final(file_store).capacity() == old(file_store).capacity(),
    {
        match utils.create_dirs(status, elapsed_micros, true) {
            Ok(line) => {
                match &target.parent_key {
                    Some(dirs) => {
                        Self::write_in_file_store(
                            file_store,
                            dirs.clone(),
                            PathType::Dir,
                            None,
                            now,
                        );
                    },
                    None => {},
                }
                line
            },
            Err(line) => Some(line),
        }
    }

    fn nothing() -> (plan: Plan)
        ensures
            plan == plan_nothing(),
    {
        Plan {
            ensure_parent: false,
            action: Action::Nothing,
            kind: None,
            fingerprint: None,
            note: None,
        }
    }

    fn ensure_directory(observed: &Observation) -> (plan: Plan)
        ensures
            plan == plan_directory(*observed),
    {
        if observed.destination != EntryKind::Dir {
            Plan {
                ensure_parent: false,
                action: Action::CreateDir,
                kind: Some(PathType::Dir),
                fingerprint: None,
                note: None,
            }
        } else {
            Self::nothing()
        }
    }

    fn transfer(observed: &Observation, fingerprint: Option<Fingerprint>) -> (plan: Plan)
        ensures
            plan == plan_transfer(*observed, fingerprint),
    {
        Plan {
            ensure_parent: !observed.parent_exists,
            action: Action::CopyFile,
            kind: Some(PathType::File),
            fingerprint,
            note: None,
        }
    }
}

/// The bytes that a read returned, if it returned any.
pub open spec fn content_view(content: Option<Vec<u8>>) -> Option<Seq<u8>> {
    match content {
        Some(bytes) => Some(bytes@),
        None => None,
    }
}

} // verus!
