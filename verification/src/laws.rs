//! What holds of the mirror as a whole, stated over the functions that its
//! handlers are specified with.

use crate::event_handler::spec_plan;
use crate::event_handler::spec_planned_entries;
use crate::event_handler::spec_planned_pending;
use crate::event_handler::spec_taken_pending;
use crate::event_handler::Route;
use crate::file_operations::is_identical;
use crate::file_operations::plan_nothing;
use crate::file_operations::spec_completed;
use crate::file_operations::spec_copy_entries;
use crate::file_operations::spec_copy_plan;
use crate::file_operations::spec_is_excluded;
use crate::file_operations::spec_parent_recorded;
use crate::file_operations::spec_path_type;
use crate::file_operations::spec_report;
use crate::file_operations::Action;
use crate::file_operations::Admission;
use crate::file_operations::EntryKind;
use crate::file_operations::Observation;
use crate::file_operations::Outcome;
use crate::file_operations::Plan;
use crate::file_operations::Report;
use crate::file_operations::Screening;
use crate::file_store::evicted_key;
use crate::file_store::index_of_key;
use crate::file_store::inserted;
use crate::file_store::lemma_inserted;
use crate::file_store::lemma_inserted_wf;
use crate::file_store::lemma_promoted_wf;
use crate::file_store::lemma_without;
use crate::file_store::lemma_without_wf;
use crate::file_store::promoted;
use crate::file_store::store_wf;
use crate::file_store::value_of;
use crate::file_store::without;
use crate::fingerprint::blake3_digest;
use crate::path::spec_join;
use crate::path::spec_starts_with;
use crate::path::spec_strip_prefix;
use crate::path::ComponentView;
use crate::pattern::lemma_starts_with_covers;
use crate::pattern::spec_component_matches;
use crate::pattern::spec_covers;
use crate::utils::spec_verbatim;
use crate::utils::verbatim_mark;
use crate::utils::Fingerprint;
use crate::utils::IoStatus;
use crate::utils::LogRecord;
use crate::utils::PathMetadata;
use crate::utils::PathType;
use crate::utils::Utils;
use vstd::prelude::*;

verus! {

/// The number of copies that a plan asks for.
pub open spec fn copies(plan: Plan) -> nat {
    if plan.action == Action::CopyFile {
        1
    } else {
        0
    }
}

/// The path is a file: the store knows it as one, or does not know it and
/// a file was seen there.
pub open spec fn is_file(entry: Option<PathMetadata>, observed: Observation) -> bool {
    match entry {
        Some(meta) => meta.path_type == PathType::File,
        None => observed.source == EntryKind::File,
    }
}

/// Planning keeps the store well-formed, whatever the route.
pub proof fn law_planning_keeps_store(
    route: Route,
    entries: Seq<(Seq<ComponentView>, PathMetadata)>,
    cap: nat,
    key: Seq<ComponentView>,
    fingerprint: Option<Fingerprint>,
    now: u64,
)
    requires
        store_wf(entries, cap),
    ensures
        store_wf(spec_planned_entries(route, entries, cap, key, fingerprint, now), cap),
{
    lemma_promoted_wf(entries, cap, key);
    lemma_without_wf(entries, cap, key);
    lemma_inserted_wf(
        promoted(entries, key),
        cap,
        key,
        PathMetadata::spec_new(PathType::File, fingerprint, now),
    );
}

/// Completing a plan keeps the store well-formed, however its operations
/// ended.
pub proof fn law_completion_keeps_store(
    entries: Seq<(Seq<ComponentView>, PathMetadata)>,
    cap: nat,
    key: Seq<ComponentView>,
    parent_key: Option<Seq<ComponentView>>,
    plan: Plan,
    renamed_from: Option<(Seq<ComponentView>, Seq<ComponentView>)>,
    outcome: Outcome,
    now: u64,
)
    requires
        store_wf(entries, cap),
    ensures
        store_wf(
            spec_completed(entries, cap, key, parent_key, plan, renamed_from, outcome, now),
            cap,
        ),
{
    let prepared = if plan.ensure_parent {
        spec_parent_recorded(entries, cap, parent_key, outcome.parent, now)
    } else {
        entries
    };
    if parent_key is Some {
        lemma_inserted_wf(
            entries,
            cap,
            parent_key->0,
            PathMetadata::spec_new(PathType::Dir, None, now),
        );
    }
    assert(store_wf(prepared, cap));
    lemma_inserted_wf(prepared, cap, key, PathMetadata::spec_new(PathType::File, None, now));
    lemma_inserted_wf(prepared, cap, key, PathMetadata::spec_new(PathType::Dir, None, now));
    lemma_inserted_wf(
        prepared,
        cap,
        key,
        PathMetadata::spec_new(PathType::File, plan.fingerprint, now),
    );
    if renamed_from is Some && plan.kind is Some {
        let source = renamed_from->0;
        let old_key = source.0;
        lemma_without_wf(prepared, cap, old_key);
        let moved = match value_of(prepared, old_key) {
            Some(meta) => PathMetadata::spec_new(meta.path_type, meta.hash, now),
            None => PathMetadata::spec_new(plan.kind->0, None, now),
        };
        lemma_inserted_wf(without(prepared, old_key), cap, key, moved);
    }
}

/// One round of the copy handler on a file whose content has the
/// fingerprint `fingerprint`: where the copy that it asks for succeeds, the
/// store has the fingerprint on record afterwards, and a copy was asked for
/// exactly when the store did not have it before.
pub proof fn law_copy_records_fingerprint(
    entries: Seq<(Seq<ComponentView>, PathMetadata)>,
    cap: nat,
    key: Seq<ComponentView>,
    parent_key: Option<Seq<ComponentView>>,
    observed: Observation,
    fingerprint: Fingerprint,
    outcome: Outcome,
    now: u64,
    done_at: u64,
)
    requires
        store_wf(entries, cap),
        is_file(value_of(entries, key), observed),
        outcome.action == IoStatus::Done,
    ensures
        ({
            let plan = spec_copy_plan(value_of(entries, key), observed, Some(fingerprint));
            let planned = spec_copy_entries(entries, cap, key, Some(fingerprint), now);
            let done = spec_completed(planned, cap, key, parent_key, plan, None, outcome, done_at);
            &&& store_wf(done, cap)
            &&& value_of(done, key) matches Some(meta) && meta.path_type == PathType::File
                && meta.hash == Some(fingerprint)
            &&& copies(plan) == (if is_identical(value_of(entries, key), Some(fingerprint)) {
                0nat
            } else {
                1nat
            })
            &&& is_identical(value_of(entries, key), Some(fingerprint)) ==> plan.note == Some(
                LogRecord::Identical,
            )
        }),
{
    let entry = value_of(entries, key);
    let plan = spec_copy_plan(entry, observed, Some(fingerprint));
    let planned = spec_copy_entries(entries, cap, key, Some(fingerprint), now);
    let done = spec_completed(planned, cap, key, parent_key, plan, None, outcome, done_at);
    law_planning_keeps_store(Route::Copy, entries, cap, key, Some(fingerprint), now);
    law_completion_keeps_store(planned, cap, key, parent_key, plan, None, outcome, done_at);
    lemma_promoted_wf(entries, cap, key);
    if is_identical(entry, Some(fingerprint)) {
        lemma_inserted(
            promoted(entries, key),
            cap,
            key,
            PathMetadata::spec_new(PathType::File, Some(fingerprint), now),
            key,
        );
        assert(done == planned);
    } else {
        assert(plan.action == Action::CopyFile);
        let prepared = if plan.ensure_parent {
            spec_parent_recorded(
                planned,
                cap,
                parent_key,
                outcome.parent,
                done_at,
            )
        } else {
            planned
        };
        if parent_key is Some {
            lemma_inserted_wf(
                planned,
                cap,
                parent_key->0,
                PathMetadata::spec_new(PathType::Dir, None, done_at),
            );
        }
        lemma_inserted(
            prepared,
            cap,
            key,
            PathMetadata::spec_new(PathType::File, Some(fingerprint), done_at),
            key,
        );
    }
}

/// Copying is idempotent. When the copy handler runs twice on a file
/// whose content does not change in between, and the copy that the first
/// run asks for succeeds, the second run asks for no copy and reports the
/// content as identical. Over both runs one copy is made, or none if the
/// store had the content on record already.
pub proof fn law_copy_is_idempotent(
    entries: Seq<(Seq<ComponentView>, PathMetadata)>,
    cap: nat,
    key: Seq<ComponentView>,
    parent_key: Option<Seq<ComponentView>>,
    first_seen: Observation,
    second_seen: Observation,
    content: Seq<u8>,
    outcome: Outcome,
    first_at: u64,
    done_at: u64,
)
    requires
        store_wf(entries, cap),
        is_file(value_of(entries, key), first_seen),
        outcome.action == IoStatus::Done,
    ensures
        ({
            let fingerprint = Some(blake3_digest(content));
            let first = spec_copy_plan(value_of(entries, key), first_seen, fingerprint);
            let planned = spec_copy_entries(entries, cap, key, fingerprint, first_at);
            let done = spec_completed(planned, cap, key, parent_key, first, None, outcome, done_at);
            let second = spec_copy_plan(value_of(done, key), second_seen, fingerprint);
            &&& second.action == Action::Nothing
            &&& second.note == Some(LogRecord::Identical)
            &&& !second.ensure_parent
            &&& copies(first) + copies(second) == (if is_identical(
                value_of(entries, key),
                fingerprint,
            ) {
                0nat
            } else {
                1nat
            })
        }),
{
    law_copy_records_fingerprint(
        entries,
        cap,
        key,
        parent_key,
        first_seen,
        blake3_digest(content),
        outcome,
        first_at,
        done_at,
    );
}

/// Content that changes is copied. When a file holds `a` and then `b`,
/// whose fingerprints differ, and the copy handler runs after each write
/// with its copies succeeding, then both runs ask for a copy (the first
/// unless the store had `a` on record already) and the store has the
/// fingerprint of `a` after the first and that of `b` after the second.
pub proof fn law_changed_content_is_copied(
    entries: Seq<(Seq<ComponentView>, PathMetadata)>,
    cap: nat,
    key: Seq<ComponentView>,
    parent_key: Option<Seq<ComponentView>>,
    first_seen: Observation,
    second_seen: Observation,
    a: Seq<u8>,
    b: Seq<u8>,
    first_outcome: Outcome,
    second_outcome: Outcome,
    times: (u64, u64, u64, u64),
)
    requires
        store_wf(entries, cap),
        is_file(value_of(entries, key), first_seen),
        blake3_digest(a) != blake3_digest(b),
        first_outcome.action == IoStatus::Done,
        second_outcome.action == IoStatus::Done,
    ensures
        ({
            let first = spec_copy_plan(value_of(entries, key), first_seen, Some(blake3_digest(a)));
            let planned = spec_copy_entries(entries, cap, key, Some(blake3_digest(a)), times.0);
            let done = spec_completed(
                planned,
                cap,
                key,
                parent_key,
                first,
                None,
                first_outcome,
                times.1,
            );
            let second = spec_copy_plan(value_of(done, key), second_seen, Some(blake3_digest(b)));
            let replanned = spec_copy_entries(done, cap, key, Some(blake3_digest(b)), times.2);
            let redone = spec_completed(
                replanned,
                cap,
                key,
                parent_key,
                second,
                None,
                second_outcome,
                times.3,
            );
            &&& value_of(done, key) matches Some(meta) && meta.hash == Some(blake3_digest(a))
            &&& value_of(redone, key) matches Some(meta) && meta.hash == Some(blake3_digest(b))
            &&& second.action == Action::CopyFile
            &&& second.fingerprint == Some(blake3_digest(b))
            &&& !is_identical(value_of(entries, key), Some(blake3_digest(a))) ==> first.action
                == Action::CopyFile && copies(first) + copies(second) == 2
        }),
{
    let first = spec_copy_plan(value_of(entries, key), first_seen, Some(blake3_digest(a)));
    let planned = spec_copy_entries(entries, cap, key, Some(blake3_digest(a)), times.0);
    let done = spec_completed(planned, cap, key, parent_key, first, None, first_outcome, times.1);
    law_copy_records_fingerprint(
        entries,
        cap,
        key,
        parent_key,
        first_seen,
        blake3_digest(a),
        first_outcome,
        times.0,
        times.1,
    );
    law_copy_records_fingerprint(
        done,
        cap,
        key,
        parent_key,
        second_seen,
        blake3_digest(b),
        second_outcome,
        times.2,
        times.3,
    );
}

/// A rename is paired. When a path `P` is reported as renamed away and
/// then a path `Q` as renamed to, the second report asks for the move of
/// `P`'s destination to `Q`'s destination and leaves nothing pending.
/// When the move succeeds and `Q` is a file or a directory, the store has
/// no entry for `P` any more, and one for `Q`: with `P`'s fingerprint and
/// type if `P` had an entry, and with no fingerprint if it had none.
pub proof fn law_rename_is_paired(
    entries: Seq<(Seq<ComponentView>, PathMetadata)>,
    cap: nat,
    pending: Option<(Seq<ComponentView>, Seq<ComponentView>)>,
    from: (Seq<ComponentView>, Seq<ComponentView>),
    to: (Seq<ComponentView>, Seq<ComponentView>),
    to_parent_key: Option<Seq<ComponentView>>,
    from_seen: Observation,
    to_seen: Observation,
    outcome: Outcome,
    now: u64,
)
    requires
        store_wf(entries, cap),
        from.0 != to.0,
        spec_path_type(to_seen.source) is Some,
        outcome.action == IoStatus::Done,
    ensures
        ({
            let first = spec_plan(
                Route::RenameFrom,
                value_of(entries, from.0),
                pending is Some,
                from_seen,
                None,
            );
            let waiting = spec_planned_pending(Route::RenameFrom, pending, from.0, from.1);
            let second = spec_plan(
                Route::RenameTo,
                value_of(entries, to.0),
                waiting is Some,
                to_seen,
                None,
            );
            let taken = spec_taken_pending(Route::RenameTo, waiting);
            let done = spec_completed(entries, cap, to.0, to_parent_key, second, taken, outcome, now);
            &&& first == plan_nothing()
            &&& spec_planned_entries(Route::RenameFrom, entries, cap, from.0, None, now) == entries
            &&& spec_planned_entries(Route::RenameTo, entries, cap, to.0, None, now) == entries
            &&& second.action == Action::Rename
            &&& taken == Some(from)
            &&& spec_planned_pending(Route::RenameTo, waiting, to.0, to.1) is None
            &&& store_wf(done, cap)
            &&& value_of(done, from.0) is None
            &&& value_of(done, to.0) == Some(
                match value_of(entries, from.0) {
                    Some(meta) => PathMetadata {
                        path_type: meta.path_type,
                        hash: meta.hash,
                        last_change: now,
                    },
                    None => PathMetadata {
                        path_type: spec_path_type(to_seen.source)->0,
                        hash: None,
                        last_change: now,
                    },
                },
            )
        }),
{
    let waiting = spec_planned_pending(Route::RenameFrom, pending, from.0, from.1);
    let second = spec_plan(Route::RenameTo, value_of(entries, to.0), waiting is Some, to_seen, None);
    let taken = spec_taken_pending(Route::RenameTo, waiting);
    let done = spec_completed(entries, cap, to.0, to_parent_key, second, taken, outcome, now);
    law_completion_keeps_store(entries, cap, to.0, to_parent_key, second, taken, outcome, now);
    let rest = without(entries, from.0);
    let moved = match value_of(entries, from.0) {
        Some(meta) => PathMetadata::spec_new(meta.path_type, meta.hash, now),
        None => PathMetadata::spec_new(second.kind->0, None, now),
    };
    lemma_without_wf(entries, cap, from.0);
    lemma_without(entries, from.0, from.0);
    lemma_inserted(rest, cap, to.0, moved, from.0);
    assert(done == inserted(rest, cap, to.0, moved));
    if value_of(entries, from.0) is Some {
        let at = index_of_key(entries, from.0);
        assert(entries[at].1.wf());
    }
    // the entry pushed out, if any, is not the one that was taken out
    assert(value_of(done, from.0) is None) by {
        if evicted_key(rest, cap, to.0) != Some(from.0) {
            assert(value_of(done, from.0) == value_of(rest, from.0));
        }
    }
}

/// A rename that nothing precedes changes nothing. When a path is
/// reported as renamed to while no rename is pending, no operation is asked
/// for, the log gets a line that says so, the store and the pending rename
/// stay as they are, and completing the plan changes and reports nothing.
pub proof fn law_unpaired_rename_changes_nothing(
    entries: Seq<(Seq<ComponentView>, PathMetadata)>,
    cap: nat,
    key: Seq<ComponentView>,
    destination: Seq<ComponentView>,
    parent_key: Option<Seq<ComponentView>>,
    observed: Observation,
    fingerprint: Option<Fingerprint>,
    outcome: Outcome,
    statistics: bool,
    now: u64,
    elapsed_micros: u64,
)
    ensures
        ({
            let plan = spec_plan(Route::RenameTo, value_of(entries, key), false, observed, fingerprint);
            let taken = spec_taken_pending(Route::RenameTo, None);
            &&& plan.action == Action::Nothing
            &&& !plan.ensure_parent
            &&& plan.note == Some(LogRecord::RenameUnpaired)
            &&& taken is None
            &&& spec_planned_entries(Route::RenameTo, entries, cap, key, fingerprint, now)
                == entries
            &&& spec_planned_pending(Route::RenameTo, None, key, destination) is None
            &&& spec_completed(entries, cap, key, parent_key, plan, taken, outcome, now) == entries
            &&& spec_report(statistics, plan, outcome, elapsed_micros) == (Report {
                parent: None,
                action: None,
            })
        }),
{
}

/// The verbatim form keeps a path below the directories it is below: if
/// `path` lies at or below `dir`, then the verbatim form of `path` lies at
/// or below the verbatim form of `dir`. The one path left out is one that
/// holds a second prefix right after a drive letter, which no path parser
/// yields.
pub proof fn law_verbatim_keeps_subtree(path: Seq<ComponentView>, dir: Seq<ComponentView>)
    requires
        spec_starts_with(path, dir),
        path.len() > 1 ==> !path[1].is_prefix(),
    ensures
        spec_starts_with(spec_verbatim(path), spec_verbatim(dir)),
{
    if dir.len() > 0 {
        assert(dir[0] == path.subrange(0, dir.len() as int)[0]);
        assert(dir[0] == path[0]);
        let mark = seq![ComponentView::Normal(verbatim_mark())];
        match path[0] {
            ComponentView::Disk(letter) => {
                let head = seq![ComponentView::VerbatimDisk(letter), ComponentView::RootDir];
                let rest = path.skip(1);
                let short = dir.skip(1);
                assert(short =~= rest.subrange(0, short.len() as int)) by {
                    assert forall|i: int| 0 <= i < short.len() implies short[i] == rest[i] by {
                        assert(dir[i + 1] == path.subrange(0, dir.len() as int)[i + 1]);
                    }
                }
                if short.len() > 0 {
                    assert(short[0] == rest[0]);
                    if rest[0] is RootDir {
                        assert(head.take(1) + short =~= (head.take(1) + rest).subrange(
                            0,
                            1 + short.len() as int,
                        ));
                    } else {
                        assert(head + short =~= (head + rest).subrange(0, 2 + short.len() as int));
                    }
                } else {
                    assert(head + short =~= head);
                    if rest.len() > 0 && rest[0] is RootDir {
                        assert(head =~= (head.take(1) + rest).subrange(0, 2));
                    } else {
                        assert(rest.len() > 0 ==> rest[0] == path[1]);
                        assert(head =~= (head + rest).subrange(0, 2));
                    }
                }
            },
            ComponentView::CurDir => {
                let rest = path.skip(1);
                let short = dir.skip(1);
                assert(mark + short =~= (mark + rest).subrange(0, 1 + short.len() as int)) by {
                    assert forall|i: int| 0 <= i < short.len() implies short[i] == rest[i] by {
                        assert(dir[i + 1] == path.subrange(0, dir.len() as int)[i + 1]);
                    }
                }
            },
            ComponentView::ParentDir => {
                assert(mark + dir =~= (mark + path).subrange(0, 1 + dir.len() as int));
            },
            ComponentView::Normal(_) => {
                assert(mark + dir =~= (mark + path).subrange(0, 1 + dir.len() as int));
            },
            _ => {},
        }
    } else {
        assert(spec_verbatim(dir) =~= spec_verbatim(path).subrange(0, 0));
    }
}

/// The destination mirrors the path. A path below the watched root lands
/// below the target root at the same relative place: what is left of the
/// destination after the target root is what is left of the path after the
/// watched root. This holds of every path whose part below the watched
/// root starts with a name, as that of every notification does.
pub proof fn law_destination_mirrors_path(
    source_dir: Seq<ComponentView>,
    target_dir: Seq<ComponentView>,
    key: Seq<ComponentView>,
    relative: Seq<ComponentView>,
)
    requires
        spec_strip_prefix(key, source_dir) == Some(relative),
        relative.len() > 0 ==> relative[0].is_entry(),
    ensures
        key == source_dir + relative,
        spec_join(target_dir, relative) == target_dir + relative,
        spec_starts_with(spec_join(target_dir, relative), target_dir),
        spec_strip_prefix(spec_join(target_dir, relative), target_dir) == Some(relative),
{
    let destination = target_dir + relative;
    assert(key =~= source_dir + relative);
    assert(target_dir =~= destination.subrange(0, target_dir.len() as int));
    assert(destination.skip(target_dir.len() as int) =~= relative);
}

/// What is covered is dropped. A path whose verbatim form is covered by
/// an excluded path is dropped by the filters: it is screened as excluded,
/// and the admission that stands for it holds no target for a handler.
pub proof fn law_covered_path_is_dropped(
    utils: Utils,
    excluded: Seq<ComponentView>,
    path: Seq<ComponentView>,
    admission: Admission,
)
    requires
        utils.spec_excluded_paths().contains(excluded),
        spec_covers(excluded, spec_verbatim(path)),
        utils.spec_admits(path, admission),
    ensures
        utils.spec_screening(path) == Screening::Excluded,
        admission is Excluded,
{
    let at = choose|i: int|
        0 <= i < utils.spec_excluded_paths().len() && utils.spec_excluded_paths()[i] == excluded;
    assert(spec_covers(utils.spec_excluded_paths()[at], spec_verbatim(path)));
    assert(spec_is_excluded(utils.spec_excluded_paths(), spec_verbatim(path)));
}

/// What lies below a covered path is covered.
pub proof fn law_cover_reaches_down(
    pattern: Seq<ComponentView>,
    path: Seq<ComponentView>,
    below: Seq<ComponentView>,
)
    requires
        spec_covers(pattern, path),
        spec_starts_with(below, path),
    ensures
        spec_covers(pattern, below),
{
    assert forall|i: int| 0 <= i < pattern.len() implies spec_component_matches(
        #[trigger] pattern[i],
        below[i],
    ) by {
        assert(path[i] == below.subrange(0, path.len() as int)[i]);
    }
}

/// An excluded directory covers all below it. When the verbatim form of a
/// directory is among the excluded paths, every path that lies at or below
/// the directory is dropped by the filters. The one path left out is one
/// that holds a second prefix right after a drive letter, which no path
/// parser yields.
pub proof fn law_excluded_directory_covers_subtree(
    utils: Utils,
    dir: Seq<ComponentView>,
    path: Seq<ComponentView>,
    admission: Admission,
)
    requires
        utils.spec_excluded_paths().contains(spec_verbatim(dir)),
        spec_starts_with(path, dir),
        path.len() > 1 ==> !path[1].is_prefix(),
        utils.spec_admits(path, admission),
    ensures
        utils.spec_screening(path) == Screening::Excluded,
        admission is Excluded,
{
    law_verbatim_keeps_subtree(path, dir);
    lemma_starts_with_covers(spec_verbatim(path), spec_verbatim(dir));
    law_covered_path_is_dropped(utils, spec_verbatim(dir), path, admission);
}

/// A removal cleans up. The remove handler leaves the store without an
/// entry for the path and with every other entry as it was. Where the
/// store had no entry and nothing stands at the destination, nothing is
/// asked for, changed or reported at all.
pub proof fn law_remove_cleans_up(
    entries: Seq<(Seq<ComponentView>, PathMetadata)>,
    cap: nat,
    key: Seq<ComponentView>,
    other: Seq<ComponentView>,
    parent_key: Option<Seq<ComponentView>>,
    observed: Observation,
    outcome: Outcome,
    statistics: bool,
    now: u64,
    elapsed_micros: u64,
)
    requires
        store_wf(entries, cap),
    ensures
        ({
            let plan = spec_plan(Route::Remove, value_of(entries, key), false, observed, None);
            let after = spec_planned_entries(Route::Remove, entries, cap, key, None, now);
            let done = spec_completed(after, cap, key, parent_key, plan, None, outcome, now);
            &&& store_wf(done, cap)
            &&& done == after
            &&& value_of(done, key) is None
            &&& other != key ==> value_of(done, other) == value_of(entries, other)
            &&& value_of(entries, key) is None ==> done == entries
            &&& observed.destination == EntryKind::Absent ==> plan == plan_nothing()
                && spec_report(statistics, plan, outcome, elapsed_micros) == (Report {
                parent: None,
                action: None,
            })
        }),
{
    lemma_without(entries, key, other);
    lemma_without_wf(entries, cap, key);
}

} // verus!
