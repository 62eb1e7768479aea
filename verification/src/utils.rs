//! Configuration, the metadata kept for each mirrored path, the records
//! that go to the log, and the mapping from the watched tree to the target
//! tree.

use crate::path::spec_join;
use crate::path::spec_parent;
use crate::path::Component;
use crate::path::ComponentView;
use crate::path::SyncPath;
use vstd::prelude::*;
use vstd::string::StrSliceExecFns;
use vstd::string::StringExecFns;

verus! {

/// What a path in the watched tree is.
#[derive(Debug, PartialEq, Eq, Clone, Copy, Structural)]
pub enum PathType {
    File,
    Dir,
}

/// A content fingerprint: the BLAKE3 digest of a file's bytes.
pub type Fingerprint = [u8; 32];

/// What the mirror remembers of one path of the watched tree.
#[derive(Debug, Clone, Copy, PartialEq, Eq)]
pub struct PathMetadata {
    /// File or directory.
    pub path_type: PathType,
    /// The fingerprint of the content last mirrored; directories have none.
    pub hash: Option<Fingerprint>,
    /// When the entry was last confirmed, in milliseconds since the epoch.
    pub last_change: u64,
}

impl PathMetadata {
    /// A directory carries no fingerprint.
    pub open spec fn wf(self) -> bool {
        self.path_type == PathType::Dir ==> self.hash is None
    }

    /// The metadata for a path of the given type, confirmed at `now`. A
    /// fingerprint offered for a directory is dropped.
    pub open spec fn spec_new(path_type: PathType, hash: Option<Fingerprint>, now: u64) -> Self {
        PathMetadata {
            path_type,
            hash: if path_type == PathType::File {
                hash
            } else {
                None
            },
            last_change: now,
        }
    }

    /// The metadata for a path of the given type, confirmed at `now`.
    pub fn new(path_type: PathType, hash: Option<Fingerprint>, now: u64) -> (res: Self)
        ensures
            res == Self::spec_new(path_type, hash, now),
            res.wf(),
    {
        match path_type {
            PathType::File => PathMetadata { path_type, hash, last_change: now },
            PathType::Dir => PathMetadata { path_type, hash: None, last_change: now },
        }
    }
}

/// The parsed command line.
#[derive(Debug)]
pub struct Args {
    /// Path of the directory to watch changes from.
    pub source_dir: SyncPath,
    /// Path of the directory to write changes to.
    pub target_dir: SyncPath,
    /// Files or directories of the watched tree to leave alone. A name may
    /// hold the wildcards `*` and `?`.
    pub exclude: Vec<SyncPath>,
    /// Leave alone files whose names end with a tilde.
    pub exclude_temporary_editor_files: bool,
    /// Ignore creation events.
    pub no_creation_events: bool,
    /// Leave alone `.git` and `.idea`, and files whose names end with a tilde.
    pub ide_mode: bool,
    /// Report the time spent on each operation.
    pub statistics: bool,
    /// Log at trace level.
    pub trace: bool,
}

/// What was done to a path.
#[derive(Debug, PartialEq, Eq, Clone, Copy, Structural)]
pub enum Verb {
    Created,
    Copied,
    Deleted,
    Renamed,
}

/// The time an operation took, as the log shows it.
#[derive(Debug, PartialEq, Eq, Clone, Copy, Structural)]
pub enum Timing {
    /// Statistics are off: no time is shown.
    Untimed,
    /// Whole milliseconds, for a millisecond or more.
    Millis(u64),
    /// Microseconds, below a millisecond.
    Micros(u64),
}

/// How an operation on the file system ended.
#[derive(Debug, PartialEq, Eq, Clone, Copy, Structural)]
pub enum IoStatus {
    /// It succeeded.
    Done,
    /// It failed, with the operating system's error code if there was one.
    Failed { code: Option<i32> },
}

/// One line for the log. The path it speaks of is the one being handled.
#[derive(Debug, PartialEq, Eq, Clone, Copy, Structural)]
pub enum LogRecord {
    /// An operation succeeded.
    Action { verb: Verb, kind: PathType, timing: Timing },
    /// The file was not copied: its content is what was mirrored last.
    Identical,
    /// The copy failed, or the directory standing for it could not be made.
    CopyFailed,
    /// The directories leading to the destination could not be made.
    CreateDirsFailed,
    /// The empty file could not be created.
    CreateFailed,
    /// The destination could not be removed.
    RemoveFailed { kind: PathType },
    /// The path to remove is neither a file nor a directory.
    RemoveUnsupported,
    /// The renamed path is neither a file nor a directory.
    RenameUnsupported,
    /// A rename arrived with no source to pair it with.
    RenameUnpaired,
    /// The notification is of a kind that the mirror does not know.
    UnknownEvent,
}

/// The severity of a log line.
#[derive(Debug, PartialEq, Eq, Clone, Copy, Structural)]
pub enum Level {
    Info,
    Warn,
    Error,
}

impl LogRecord {
    /// The severity the record is logged at.
    pub open spec fn spec_level(self) -> Level {
        match self {
            LogRecord::Action { .. } => Level::Info,
            LogRecord::Identical => Level::Info,
            LogRecord::RenameUnpaired => Level::Warn,
            LogRecord::UnknownEvent => Level::Warn,
            _ => Level::Error,
        }
    }

    /// The severity the record is logged at.
    pub fn level(&self) -> (res: Level)
        ensures
            res == self.spec_level(),
    {
        match self {
            LogRecord::Action { .. } => Level::Info,
            LogRecord::Identical => Level::Info,
            LogRecord::RenameUnpaired => Level::Warn,
            LogRecord::UnknownEvent => Level::Warn,
            _ => Level::Error,
        }
    }
}

/// The name that marks a path as verbatim when it has no drive letter.
pub open spec fn verbatim_mark() -> Seq<char> {
    seq!['\\', '\\', '?', '\\']
}

/// The verbatim form of a path. A drive letter becomes a verbatim drive
/// letter followed by the root; a path that starts at the root, or with any
/// other prefix, is verbatim already; a relative path is put below the
/// verbatim mark.
pub open spec fn spec_verbatim(path: Seq<ComponentView>) -> Seq<ComponentView> {
    if path.len() == 0 {
        path
    } else {
        match path[0] {
            ComponentView::Disk(letter) => spec_join(
                seq![ComponentView::VerbatimDisk(letter), ComponentView::RootDir],
                path.skip(1),
            ),
            ComponentView::VerbatimDisk(_) => path,
            ComponentView::OtherPrefix(_) => path,
            ComponentView::RootDir => path,
            ComponentView::CurDir => seq![ComponentView::Normal(verbatim_mark())] + path.skip(1),
            _ => seq![ComponentView::Normal(verbatim_mark())] + path,
        }
    }
}

/// The text without the verbatim mark in front, if it has one.
pub open spec fn spec_fmt_path(text: Seq<char>) -> Seq<char> {
    if verbatim_mark().is_prefix_of(text) {
        text.skip(4)
    } else {
        text
    }
}

/// The time shown for an operation that took `elapsed_micros`.
pub open spec fn spec_timing(statistics: bool, elapsed_micros: u64) -> Timing {
    if !statistics {
        Timing::Untimed
    } else if elapsed_micros >= 1000 {
        Timing::Millis((elapsed_micros / 1000) as u64)
    } else {
        Timing::Micros(elapsed_micros)
    }
}

/// The views of the paths that a vector holds.
pub open spec fn path_views(paths: Seq<SyncPath>) -> Seq<Seq<ComponentView>> {
    paths.map_values(|p: SyncPath| p@)
}

/// The configuration that every component works from: the command line and
/// the paths that are left alone.
pub struct Utils {
    args: Args,
    excluded_paths: Vec<SyncPath>,
}

impl Utils {
    /// The command line in force.
    pub closed spec fn spec_args(&self) -> Args {
        self.args
    }

    /// The paths that are left alone, with everything below them. Where a
    /// name holds wildcards, every path that matches is left alone.
    pub closed spec fn spec_excluded_paths(&self) -> Seq<Seq<ComponentView>> {
        path_views(self.excluded_paths@)
    }

    /// A configuration with the given command line and nothing excluded.
    pub fn new(args: Args) -> (res: Utils)
        ensures
            res.spec_args() == args,
            res.spec_excluded_paths() == Seq::<Seq<ComponentView>>::empty(),
    {
        let excluded_paths: Vec<SyncPath> = Vec::new();
        assert(path_views(excluded_paths@) =~= Seq::<Seq<ComponentView>>::empty());
        Utils { args, excluded_paths }
    }

    /// Puts a command line in force.
    pub fn set_args(&mut self, args: Args)
        ensures
            final(self).spec_args() == args,
            final(self).spec_excluded_paths() == old(self).spec_excluded_paths(),
    {
        self.args = args;
    }

    /// The command line in force.
    pub fn args(&self) -> (res: &Args)
        ensures
            *res == self.spec_args(),
    {
        &self.args
    }

    /// Sets the paths that are left alone.
    pub fn set_excluded_paths(&mut self, excluded_paths: Vec<SyncPath>)
        ensures
            final(self).spec_excluded_paths() == path_views(excluded_paths@),
            final(self).spec_args() == old(self).spec_args(),
    {
        self.excluded_paths = excluded_paths;
    }

    /// The paths that are left alone.
    pub fn excluded_paths(&self) -> (res: &Vec<SyncPath>)
        ensures
            path_views(res@) == self.spec_excluded_paths(),
    {
        &self.excluded_paths
    }

    /// The text of a path as it is shown: without the verbatim mark.
    pub fn fmt_path(path_str: &str) -> (res: String)
        ensures
            res@ == spec_fmt_path(path_str@),
    {
        let n = path_str.unicode_len();
        if n >= 4 && path_str.get_char(0) == '\\' && path_str.get_char(1) == '\\'
            && path_str.get_char(2) == '?' && path_str.get_char(3) == '\\' {
            assert(verbatim_mark() =~= path_str@.subrange(0, 4));
            assert(path_str@.subrange(4, n as int) =~= path_str@.skip(4));
            String::from_str(path_str.substring_char(4, n))
        } else {
            assert(!verbatim_mark().is_prefix_of(path_str@)) by {
                if verbatim_mark().is_prefix_of(path_str@) {
                    let head = path_str@.subrange(0, 4);
                    assert(head[0] == '\\' && head[1] == '\\' && head[2] == '?' && head[3] == '\\');
                }
            }
            String::from_str(path_str)
        }
    }

    /// The verbatim form of a path, in which a path compares equal to
    /// itself however it was written.
    pub fn path_to_verbatim(path: &SyncPath) -> (res: SyncPath)
        ensures
            res@ == spec_verbatim(path@),
    {
        if path.len() == 0 {
            return path.clone();
        }
        match &path.components[0] {
            Component::Disk(letter) => {
                let mut new_prefix = SyncPath::new();
                new_prefix.push(Component::VerbatimDisk(*letter));
                new_prefix.push(Component::RootDir);
                assert(new_prefix@ =~= seq![
                    ComponentView::VerbatimDisk(*letter),
                    ComponentView::RootDir,
                ]);
                new_prefix.join(&path.skip(1))
            },
            Component::VerbatimDisk(_) => path.clone(),
            Component::OtherPrefix(_) => path.clone(),
            Component::RootDir => path.clone(),
            Component::CurDir => Self::verbatim_mark_path().join_plain(&path.skip(1)),
            _ => Self::verbatim_mark_path().join_plain(path),
        }
    }

    /// The path that holds the verbatim mark alone.
    fn verbatim_mark_path() -> (res: SyncPath)
        ensures
            res@ == seq![ComponentView::Normal(verbatim_mark())],
    {
        let mark = String::from_str("\\\\?\\");
        proof {
            reveal_strlit("\\\\?\\");
            assert(mark@ =~= verbatim_mark());
        }
        let mut res = SyncPath::new();
        res.push(Component::Normal(mark));
        assert(res@ =~= seq![ComponentView::Normal(verbatim_mark())]);
        res
    }

    /// Where a path of the watched tree lands in the target tree, and the
    /// directory that must exist for it.
    pub fn get_destination_path_and_dirs(&self, relative_path: &SyncPath) -> (res: (
        SyncPath,
        SyncPath,
    ))
        requires
            spec_parent(spec_join(self.spec_args().target_dir@, relative_path@)) is Some,
        ensures
            res.0@ == spec_join(self.spec_args().target_dir@, relative_path@),
            Some(res.1@) == spec_parent(res.0@),
    {
        let dest_path = self.get_destination_path(relative_path);
        let dirs = dest_path.parent().unwrap();
        (dest_path, dirs)
    }

    /// Where a path of the watched tree lands in the target tree.
    pub fn get_destination_path(&self, relative_path: &SyncPath) -> (res: SyncPath)
        ensures
            res@ == spec_join(self.spec_args().target_dir@, relative_path@),
    {
        self.args.target_dir.join(relative_path)
    }

    /// The log line for an operation that succeeded.
    pub fn print_action(&self, action_verb: Verb, type_path: PathType, elapsed_micros: u64) -> (res:
        LogRecord)
        ensures
            res == (LogRecord::Action {
                verb: action_verb,
                kind: type_path,
                timing: spec_timing(self.spec_args().statistics, elapsed_micros),
            }),
    {
        let timing = if !self.args.statistics {
            Timing::Untimed
        } else if elapsed_micros >= 1000 {
            Timing::Millis(elapsed_micros / 1000)
        } else {
            Timing::Micros(elapsed_micros)
        };
        LogRecord::Action { verb: action_verb, kind: type_path, timing }
    }

    /// The log line for a copy that ended with `status`: `Ok` with the line
    /// for a success, `Err` with the line for a failure.
    pub fn copy_file(&self, status: IoStatus, elapsed_micros: u64) -> (res: Result<
        LogRecord,
        LogRecord,
    >)
        ensures
            res == spec_copy_file(self.spec_args().statistics, status, elapsed_micros),
    {
        match status {
            IoStatus::Done => Ok(self.print_action(Verb::Copied, PathType::File, elapsed_micros)),
            IoStatus::Failed { .. } => Err(LogRecord::CopyFailed),
        }
    }

    /// The log line for a directory creation that ended with `status`.
    /// Directories made on the way to a destination (`dependency`) are
    /// reported only when they fail.
    pub fn create_dirs(&self, status: IoStatus, elapsed_micros: u64, dependency: bool) -> (res:
        Result<Option<LogRecord>, LogRecord>)
        ensures
            res == spec_create_dirs(self.spec_args().statistics, status, elapsed_micros, dependency),
    {
        match status {
            IoStatus::Done => {
                if dependency {
                    Ok(None)
                } else {
                    Ok(Some(self.print_action(Verb::Created, PathType::Dir, elapsed_micros)))
                }
            },
            IoStatus::Failed { .. } => {
                if dependency {
                    Err(LogRecord::CreateDirsFailed)
                } else {
                    Err(LogRecord::CopyFailed)
                }
            },
        }
    }
}

/// What [`Utils::copy_file`] reports.
pub open spec fn spec_copy_file(statistics: bool, status: IoStatus, elapsed_micros: u64) -> Result<
    LogRecord,
    LogRecord,
> {
    match status {
        IoStatus::Done => Ok(
            LogRecord::Action {
                verb: Verb::Copied,
                kind: PathType::File,
                timing: spec_timing(statistics, elapsed_micros),
            },
        ),
        IoStatus::Failed { .. } => Err(LogRecord::CopyFailed),
    }
}

/// What [`Utils::create_dirs`] reports.
pub open spec fn spec_create_dirs(
    statistics: bool,
    status: IoStatus,
    elapsed_micros: u64,
    dependency: bool,
) -> Result<Option<LogRecord>, LogRecord> {
    match status {
        IoStatus::Done => if dependency {
            Ok(None)
        } else {
            Ok(
                Some(
                    LogRecord::Action {
                        verb: Verb::Created,
                        kind: PathType::Dir,
                        timing: spec_timing(statistics, elapsed_micros),
                    },
                ),
            )
        },
        IoStatus::Failed { .. } => if dependency {
            Err(LogRecord::CreateDirsFailed)
        } else {
            Err(LogRecord::CopyFailed)
        },
    }
}

} // verus!
