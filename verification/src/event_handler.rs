//! The entry point of the mirror: a notification is classified, its paths
//! are filtered, and each path that is left goes to its handler.

use crate::file_operations::pending_view;
use crate::file_operations::plan_nothing;
use crate::file_operations::spec_completed;
use crate::file_operations::spec_copy_entries;
use crate::file_operations::spec_copy_plan;
use crate::file_operations::spec_create_plan;
use crate::file_operations::spec_remove_plan;
use crate::file_operations::spec_rename_pending;
use crate::file_operations::spec_rename_plan;
use crate::file_operations::spec_report;
use crate::file_operations::optional_view;
use crate::file_operations::content_view;
use crate::file_operations::Action;
use crate::file_operations::Admission;
use crate::file_operations::EntryKind;
use crate::file_operations::FileOperationsManager;
use crate::file_operations::Observation;
use crate::file_operations::Outcome;
use crate::file_operations::PendingRename;
use crate::file_operations::Plan;
use crate::file_operations::RenameRole;
use crate::file_operations::Report;
use crate::file_operations::Target;
use crate::file_store::promoted;
use crate::file_store::without;
use crate::file_store::FileStore;
use crate::fingerprint::spec_fingerprint;
use crate::path::ComponentView;
use crate::path::SyncPath;
use crate::utils::Fingerprint;
use crate::utils::LogRecord;
use crate::utils::PathMetadata;
use crate::utils::Utils;
use vstd::prelude::*;

verus! {

/// Which half of a rename a notification reports, if it says.
#[derive(Debug, PartialEq, Eq, Clone, Copy, Structural)]
pub enum RenameMode {
    Any,
    To,
    From,
    Both,
    Other,
}

/// What kind of change a modification is.
#[derive(Debug, PartialEq, Eq, Clone, Copy, Structural)]
pub enum ModifyKind {
    Any,
    Data,
    Metadata,
    Name(RenameMode),
    Other,
}

/// What a notification reports.
#[derive(Debug, PartialEq, Eq, Clone, Copy, Structural)]
pub enum EventKind {
    Any,
    Access,
    Create,
    Modify(ModifyKind),
    Remove,
    Other,
}

/// A notification: what happened, and to which paths.
#[derive(Debug)]
pub struct Event {
    pub kind: EventKind,
    pub paths: Vec<SyncPath>,
}

/// The handler that a notification goes to.
#[derive(Debug, PartialEq, Eq, Clone, Copy, Structural)]
pub enum Route {
    /// The create handler.
    Create,
    /// The rename handler, for the path that was renamed away.
    RenameFrom,
    /// The rename handler, for the path that something was renamed to.
    RenameTo,
    /// The copy handler.
    Copy,
    /// The remove handler.
    Remove,
    /// No handler: the notification is of no interest.
    Ignored,
    /// No handler: the notification is of a kind that is not known.
    Unknown,
}

impl Route {
    /// The route leads to a handler.
    pub open spec fn is_handled(self) -> bool {
        self != Route::Ignored && self != Route::Unknown
    }
}

/// The route of a notification. Creations are ignored where the
/// configuration says so; a modification is a copy unless it is one half of
/// a rename; an access is ignored.
pub open spec fn spec_route(kind: EventKind, no_creation_events: bool) -> Route {
    match kind {
        EventKind::Create => if no_creation_events {
            Route::Ignored
        } else {
            Route::Create
        },
        EventKind::Modify(ModifyKind::Name(RenameMode::From)) => Route::RenameFrom,
        EventKind::Modify(ModifyKind::Name(RenameMode::To)) => Route::RenameTo,
        EventKind::Modify(_) => Route::Copy,
        EventKind::Remove => Route::Remove,
        EventKind::Access => Route::Ignored,
        _ => Route::Unknown,
    }
}

/// What became of a notification: its route, and each of its paths after
/// the filters, in their order.
#[derive(Debug)]
pub struct Dispatch {
    /// The handler that the paths go to.
    pub route: Route,
    /// The paths after the filters; empty where the route leads to no
    /// handler.
    pub admissions: Vec<Admission>,
    /// A line for the log, where the notification itself calls for one.
    pub note: Option<LogRecord>,
}

/// What a handler decided for one path, with the pending rename that the
/// decision took up.
#[derive(Debug)]
pub struct Ticket {
    /// The plan.
    pub plan: Plan,
    /// The path that is to be moved, where the plan is a rename.
    pub renamed_from: Option<PendingRename>,
}

/// What a route calls for on one path.
pub open spec fn spec_plan(
    route: Route,
    entry: Option<PathMetadata>,
    pending: bool,
    observed: Observation,
    fingerprint: Option<Fingerprint>,
) -> Plan {
    match route {
        Route::Create => spec_create_plan(entry, observed),
        Route::RenameFrom => spec_rename_plan(RenameRole::From, pending, observed),
        Route::RenameTo => spec_rename_plan(RenameRole::To, pending, observed),
        Route::Copy => spec_copy_plan(entry, observed, fingerprint),
        Route::Remove => spec_remove_plan(observed),
        _ => plan_nothing(),
    }
}

/// The store after a route was planned for one path.
pub open spec fn spec_planned_entries(
    route: Route,
    entries: Seq<(Seq<ComponentView>, PathMetadata)>,
    cap: nat,
    key: Seq<ComponentView>,
    fingerprint: Option<Fingerprint>,
    now: u64,
) -> Seq<(Seq<ComponentView>, PathMetadata)> {
    match route {
        Route::Create => promoted(entries, key),
        Route::Copy => spec_copy_entries(entries, cap, key, fingerprint, now),
        Route::Remove => without(entries, key),
        _ => entries,
    }
}

/// The pending rename after a route was planned for one path.
pub open spec fn spec_planned_pending(
    route: Route,
    pending: Option<(Seq<ComponentView>, Seq<ComponentView>)>,
    key: Seq<ComponentView>,
    destination: Seq<ComponentView>,
) -> Option<(Seq<ComponentView>, Seq<ComponentView>)> {
    match route {
        Route::RenameFrom => spec_rename_pending(RenameRole::From, key, destination),
        Route::RenameTo => spec_rename_pending(RenameRole::To, key, destination),
        _ => pending,
    }
}

/// The pending rename that a plan takes up.
pub open spec fn spec_taken_pending(
    route: Route,
    pending: Option<(Seq<ComponentView>, Seq<ComponentView>)>,
) -> Option<(Seq<ComponentView>, Seq<ComponentView>)> {
    if route == Route::RenameTo {
        pending
    } else {
        None
    }
}

/// The state of the mirror: the store, and the first half of a rename
/// that waits for its second half.
pub struct EventHandler {
    file_store: FileStore,
    rename_from: Option<PendingRename>,
}

impl EventHandler {
    /// The store.
    pub closed spec fn store(&self) -> FileStore {
        self.file_store
    }

    /// The pending rename: the key and the destination of the path that
    /// was renamed away.
    pub closed spec fn pending(&self) -> Option<(Seq<ComponentView>, Seq<ComponentView>)> {
        pending_view(self.rename_from)
    }

    /// A mirror with the given store and no rename pending.
    pub fn new(file_store: FileStore) -> (res: Self)
        ensures
            res.store() == file_store,
            res.pending() is None,
    {
        Self { file_store, rename_from: None }
    }

    /// What the store knows of a path, without counting as a use of it.
    pub fn known(&self, key: &SyncPath) -> (res: Option<PathMetadata>)
        ensures
            res == self.store().lookup(key@),
    {
        self.file_store.peek(key)
    }

    /// The number of paths that the store knows.
    pub fn len(&self) -> (res: usize)
        ensures
            res == self.store().entries().len(),
    {
        self.file_store.len()
    }

    /// Whether the first half of a rename waits for its second half.
    pub fn is_rename_pending(&self) -> (res: bool)
        ensures
            res == self.pending() is Some,
    {
        self.rename_from.is_some()
    }

    /// The route of a notification.
    pub fn route(utils: &Utils, kind: EventKind) -> (res: Route)
        ensures
            res == spec_route(kind, utils.spec_args().no_creation_events),
    {
        match kind {
            EventKind::Create => {
                if utils.args().no_creation_events {
                    Route::Ignored
                } else {
                    Route::Create
                }
            },
            EventKind::Modify(kind) => match kind {
                ModifyKind::Name(rename) => match rename {
                    RenameMode::From => Route::RenameFrom,
                    RenameMode::To => Route::RenameTo,
                    _ => Route::Copy,
                },
                _ => Route::Copy,
            },
            EventKind::Remove => Route::Remove,
            EventKind::Access => Route::Ignored,
            _ => Route::Unknown,
        }
    }

    /// Classifies a notification and runs its paths through the filters.
    /// Nothing is changed: what is to be done for each admitted path is
    /// decided by [`EventHandler::plan`].
    pub fn handle_event(&self, utils: &Utils, event: &Event) -> (res: Dispatch)
        ensures
            res.route == spec_route(event.kind, utils.spec_args().no_creation_events),
            res.note == (if res.route == Route::Unknown {
                Some(LogRecord::UnknownEvent)
            } else {
                None
            }),
            res.admissions@.len() == (if res.route.is_handled() {
                event.paths@.len()
            } else {
                0
            }),
            forall|i: int|
                0 <= i < res.admissions@.len() ==> utils.spec_admits(
                    #[trigger] event.paths@[i]@,
                    res.admissions@[i],
                ),
    {
        let route = Self::route(utils, event.kind);
        let mut admissions: Vec<Admission> = Vec::new();
        let note = match route {
            Route::Unknown => Some(LogRecord::UnknownEvent),
            _ => None,
        };
        match route {
            Route::Ignored => {},
            Route::Unknown => {},
            _ => {
                let mut i: usize = 0;
                while i < event.paths.len()
                    invariant
                        i <= event.paths.len(),
                        admissions@.len() == i,
                        forall|j: int|
                            0 <= j < i ==> utils.spec_admits(
                                #[trigger] event.paths@[j]@,
                                admissions@[j],
                            ),
                    decreases event.paths.len() - i,
                {
                    let admission = FileOperationsManager::locate(utils, &event.paths[i]);
                    admissions.push(admission);
                    i += 1;
                }
            },
        }
        Dispatch { route, admissions, note }
    }

    /// Whether the handler of a route wants the bytes of the source: a
    /// change of content to a regular file is decided by what the file
    /// holds.
    pub fn wants_content(route: Route, observed: &Observation) -> (res: bool)
        ensures
            res == (route == Route::Copy && observed.source == EntryKind::File),
    {
        route == Route::Copy && observed.source == EntryKind::File
    }

    /// Decides what is to be done for one admitted path, given what was
    /// seen of the file system and, for a change of content, the bytes that
    /// a read of the source returned.
    pub fn plan(
        &mut self,
        route: Route,
        target: &Target,
        observed: &Observation,
        content: &Option<Vec<u8>>,
        now: u64,
    ) -> (ticket: Ticket)
        ensures
            ticket.plan == spec_plan(
                route,
                old(self).store().lookup(target.key@),
                old(self).pending() is Some,
                *observed,
                spec_fingerprint(content_view(*content)),
            ),
            pending_view(ticket.renamed_from) == spec_taken_pending(route, old(self).pending()),
            final(self).store().entries() == spec_planned_entries(
                route,
                old(self).store().entries(),
                old(self).store().capacity(),
                target.key@,
                spec_fingerprint(content_view(*content)),
                now,
            ),
            final(self).store().capacity() == old(self).store().capacity(),
            final(self).pending() == spec_planned_pending(
                route,
                old(self).pending(),
                target.key@,
                target.destination@,
            ),
    {
        match route {
            Route::Create => Ticket { plan: self.create(target, observed), renamed_from: None },
            Route::RenameFrom => self.rename(target, RenameRole::From, observed),
            Route::RenameTo => self.rename(target, RenameRole::To, observed),
            Route::Copy => Ticket {
                plan: self.copy(target, observed, content, now),
                renamed_from: None,
            },
            Route::Remove => Ticket { plan: self.remove(target, observed), renamed_from: None },
            _ => Ticket {
                plan: Plan {
                    ensure_parent: false,
                    action: Action::Nothing,
                    kind: None,
                    fingerprint: None,
                    note: None,
                },
                renamed_from: None,
            },
        }
    }

    /// Brings the store up to date when the operations of a ticket have
    /// run, and says what goes to the log.
    pub fn complete(
        &mut self,
        utils: &Utils,
        target: &Target,
        ticket: &Ticket,
        outcome: &Outcome,
        now: u64,
        elapsed_micros: u64,
    ) -> (report: Report)
        ensures
            report == spec_report(
                utils.spec_args().statistics,
                ticket.plan,
                *outcome,
                elapsed_micros,
            ),
            final(self).store().entries() == spec_completed(
                old(self).store().entries(),
                old(self).store().capacity(),
                target.key@,
                optional_view(target.parent_key),
                ticket.plan,
                pending_view(ticket.renamed_from),
                *outcome,
                now,
            ),
            final(self).store().capacity() == old(self).store().capacity(),
            final(self).pending() == old(self).pending(),
    {
        FileOperationsManager::complete(
            &mut self.file_store,
            utils,
            target,
            &ticket.plan,
            &ticket.renamed_from,
            outcome,
            now,
            elapsed_micros,
        )
    }

    fn create(&mut self, target: &Target, observed: &Observation) -> (plan: Plan)
        ensures
            plan == spec_create_plan(old(self).store().lookup(target.key@), *observed),
            final(self).store().entries() == promoted(old(self).store().entries(), target.key@),
            final(self).store().capacity() == old(self).store().capacity(),
            final(self).pending() == old(self).pending(),
    {
        FileOperationsManager::create(&mut self.file_store, target, observed)
    }

    fn rename(&mut self, target: &Target, role: RenameRole, observed: &Observation) -> (ticket:
        Ticket)
        ensures
            ticket.plan == spec_rename_plan(role, old(self).pending() is Some, *observed),
            pending_view(ticket.renamed_from) == (match role {
                RenameRole::From => None,
                RenameRole::To => old(self).pending(),
            }),
            final(self).pending() == spec_rename_pending(role, target.key@, target.destination@),
            final(self).store() == old(self).store(),
    {
        let (plan, renamed_from) = FileOperationsManager::rename(
            target,
            role,
            observed,
            &mut self.rename_from,
        );
        Ticket { plan, renamed_from }
    }

    fn copy(
        &mut self,
        target: &Target,
        observed: &Observation,
        content: &Option<Vec<u8>>,
        now: u64,
    ) -> (plan: Plan)
        ensures
            plan == spec_copy_plan(
                old(self).store().lookup(target.key@),
                *observed,
                spec_fingerprint(content_view(*content)),
            ),
            final(self).store().entries() == spec_copy_entries(
                old(self).store().entries(),
                old(self).store().capacity(),
                target.key@,
                spec_fingerprint(content_view(*content)),
                now,
            ),
            final(self).store().capacity() == old(self).store().capacity(),
            final(self).pending() == old(self).pending(),
    {
        FileOperationsManager::copy(&mut self.file_store, target, observed, content, now)
    }

    fn remove(&mut self, target: &Target, observed: &Observation) -> (plan: Plan)
        ensures
            plan == spec_remove_plan(*observed),
            final(self).store().entries() == without(old(self).store().entries(), target.key@),
            final(self).store().capacity() == old(self).store().capacity(),
            final(self).pending() == old(self).pending(),
    {
        FileOperationsManager::remove(&mut self.file_store, target, observed)
    }
}

} // verus!
