//! The bookkeeping of the work in flight: which task is at work on which
//! path. A notification is noted under each of its paths before its task
//! starts, and struck off when the task is done, so that a later
//! notification can find the work that overlaps with it.

use crate::file_store::distinct_keys;
use crate::file_store::has_key;
use crate::file_store::index_of_key;
use crate::file_store::lemma_key_at;
use crate::file_store::value_of;
use crate::path::ComponentView;
use crate::path::SyncPath;
use vstd::prelude::*;

verus! {

/// The notes after `task` was noted under `key`: a key that is noted
/// already changes hands, a new key is added at the end.
pub open spec fn registered<K>(notes: Seq<(K, u64)>, key: K, task: u64) -> Seq<(K, u64)> {
    if has_key(notes, key) {
        notes.update(index_of_key(notes, key), (key, task))
    } else {
        notes.push((key, task))
    }
}

/// The notes after `task` was struck off: those of the other tasks, in
/// their order.
pub open spec fn struck_off<K>(notes: Seq<(K, u64)>, task: u64) -> Seq<(K, u64)>
    decreases notes.len(),
{
    if notes.len() == 0 {
        notes
    } else if notes.last().1 == task {
        struck_off(notes.drop_last(), task)
    } else {
        struck_off(notes.drop_last(), task).push(notes.last())
    }
}

/// Noting a task under a key makes it the key's task and leaves every
/// other key with the task it had.
pub proof fn lemma_registered<K>(notes: Seq<(K, u64)>, key: K, task: u64, other: K)
    requires
        distinct_keys(notes),
    ensures
        distinct_keys(registered(notes, key, task)),
        value_of(registered(notes, key, task), key) == Some(task),
        other != key ==> value_of(registered(notes, key, task), other) == value_of(notes, other),
{
    let after = registered(notes, key, task);
    if has_key(notes, key) {
        let at = index_of_key(notes, key);
        assert forall|i: int, j: int| 0 <= i < j < after.len() implies (#[trigger] after[i]).0 != (
        #[trigger] after[j]).0 by {
            assert(after[i].0 == notes[i].0);
            assert(after[j].0 == notes[j].0);
        }
        assert(after[at] == (key, task));
        lemma_key_at(after, at);
        if other != key {
            if has_key(notes, other) {
                let o = index_of_key(notes, other);
                assert(after[o] == notes[o]);
                lemma_key_at(after, o);
            } else if has_key(after, other) {
                let o = index_of_key(after, other);
                assert(notes[o].0 == other);
            }
        }
    } else {
        let at = notes.len() as int;
        assert forall|i: int, j: int| 0 <= i < j < after.len() implies (#[trigger] after[i]).0 != (
        #[trigger] after[j]).0 by {
            assert(after[i] == notes[i]);
            if j == at {
                assert(notes[i].0 != key);
            } else {
                assert(after[j] == notes[j]);
            }
        }
        assert(after[at] == (key, task));
        lemma_key_at(after, at);
        if other != key {
            if has_key(notes, other) {
                let o = index_of_key(notes, other);
                assert(after[o] == notes[o]);
                lemma_key_at(after, o);
            } else if has_key(after, other) {
                let o = index_of_key(after, other);
                assert(o != at);
                assert(notes[o] == after[o]);
            }
        }
    }
}

/// Striking a task off leaves no key with that task, and every other key
/// with the task it had.
pub proof fn lemma_struck_off<K>(notes: Seq<(K, u64)>, task: u64, key: K)
    requires
        distinct_keys(notes),
    ensures
        distinct_keys(struck_off(notes, task)),
        value_of(struck_off(notes, task), key) == (if value_of(notes, key) == Some(task) {
            None
        } else {
            value_of(notes, key)
        }),
    decreases notes.len(),
{
    let after = struck_off(notes, task);
    if notes.len() > 0 {
        let front = notes.drop_last();
        let rest = struck_off(front, task);
        let last = notes.last();
        assert(distinct_keys(front)) by {
            assert forall|i: int, j: int| 0 <= i < j < front.len() implies (#[trigger] front[i]).0
                != (#[trigger] front[j]).0 by {
                assert(front[i] == notes[i]);
                assert(front[j] == notes[j]);
            }
        }
        lemma_struck_off(front, task, key);
        lemma_struck_off(front, task, last.0);
        assert(!has_key(front, last.0)) by {
            if has_key(front, last.0) {
                let m = index_of_key(front, last.0);
                assert(front[m] == notes[m]);
                assert(notes[m].0 != notes[notes.len() - 1].0);
            }
        }
        assert(!has_key(rest, last.0));
        lemma_key_at(notes, notes.len() - 1);
        if last.1 != task {
            assert(after =~= rest.push(last));
            let at = rest.len() as int;
            assert forall|i: int, j: int| 0 <= i < j < after.len() implies (#[trigger] after[i]).0
                != (#[trigger] after[j]).0 by {
                assert(after[i] == rest[i]);
                if j == at {
                    assert(rest[i].0 != last.0);
                } else {
                    assert(after[j] == rest[j]);
                }
            }
            lemma_key_at(after, at);
        }
        if key != last.0 {
            assert(value_of(front, key) == value_of(notes, key)) by {
                if has_key(front, key) {
                    let m = index_of_key(front, key);
                    assert(front[m] == notes[m]);
                    lemma_key_at(notes, m);
                } else if has_key(notes, key) {
                    let m = index_of_key(notes, key);
                    assert(m != notes.len() - 1);
                    assert(front[m] == notes[m]);
                }
            }
            if last.1 != task {
                if has_key(rest, key) {
                    let m = index_of_key(rest, key);
                    assert(after[m] == rest[m]);
                    lemma_key_at(after, m);
                } else if has_key(after, key) {
                    let m = index_of_key(after, key);
                    assert(m != rest.len());
                    assert(after[m] == rest[m]);
                }
            }
        }
    }
}

/// The notes that a vector holds, each path by its view.
pub open spec fn note_views(notes: Seq<(SyncPath, u64)>) -> Seq<(Seq<ComponentView>, u64)> {
    notes.map_values(|note: (SyncPath, u64)| (note.0@, note.1))
}

/// The work in flight: for each path that some task is at work on, the
/// task.
pub struct InFlight {
    notes: Vec<(SyncPath, u64)>,
}

impl InFlight {
    #[verifier::type_invariant]
    spec fn inv(self) -> bool {
        distinct_keys(note_views(self.notes@))
    }

    /// The notes, in the order in which their paths were first noted.
    pub closed spec fn notes(&self) -> Seq<(Seq<ComponentView>, u64)> {
        note_views(self.notes@)
    }

    /// The task at work on a path.
    pub open spec fn spec_task_for(&self, path: Seq<ComponentView>) -> Option<u64> {
        value_of(self.notes(), path)
    }

    /// Nothing in flight.
    pub fn new() -> (res: Self)
        ensures
            res.notes() == Seq::<(Seq<ComponentView>, u64)>::empty(),
    {
        let notes: Vec<(SyncPath, u64)> = Vec::new();
        assert(note_views(notes@) =~= Seq::<(Seq<ComponentView>, u64)>::empty());
        InFlight { notes }
    }

    /// The number of paths with work in flight.
    pub fn len(&self) -> (res: usize)
        ensures
            res == self.notes().len(),
    {
        self.notes.len()
    }

    /// Where a path is noted.
    fn find(notes: &Vec<(SyncPath, u64)>, path: &SyncPath) -> (res: Option<usize>)
        requires
            distinct_keys(note_views(notes@)),
        ensures
            res is Some == has_key(note_views(notes@), path@),
            res matches Some(at) ==> at == index_of_key(note_views(notes@), path@) && at
                < notes@.len(),
    {
        let mut i: usize = 0;
        while i < notes.len()
            invariant
                i <= notes.len(),
                distinct_keys(note_views(notes@)),
                forall|j: int| 0 <= j < i ==> (#[trigger] note_views(notes@)[j]).0 != path@,
            decreases notes.len() - i,
        {
            if notes[i].0.same(path) {
                assert(note_views(notes@)[i as int].0 == path@);
                proof {
                    lemma_key_at(note_views(notes@), i as int);
                }
                return Some(i);
            }
            i += 1;
        }
        None
    }

    /// The task at work on a path, if there is one.
    pub fn task_for(&self, path: &SyncPath) -> (res: Option<u64>)
        ensures
            res == self.spec_task_for(path@),
    {
        proof {
            use_type_invariant(self);
        }
        match Self::find(&self.notes, path) {
            Some(at) => {
                assert(note_views(self.notes@)[at as int].1 == self.notes@[at as int].1);
                Some(self.notes[at].1)
            },
            None => None,
        }
    }

    /// Notes a task under a path, and hands back the task that was at work
    /// on the path before.
    pub fn register(&mut self, path: &SyncPath, task: u64) -> (res: Option<u64>)
        ensures
            res == old(self).spec_task_for(path@),
            final(self).notes() == registered(old(self).notes(), path@, task),
    {
        proof {
            use_type_invariant(&*self);
            lemma_registered(self.notes(), path@, task, path@);
        }
        let mut notes: Vec<(SyncPath, u64)> = Vec::new();
        assert(note_views(notes@) =~= Seq::<(Seq<ComponentView>, u64)>::empty());
        core::mem::swap(&mut self.notes, &mut notes);
        let ghost before = note_views(notes@);
        let res = match Self::find(&notes, path) {
            Some(at) => {
                assert(note_views(notes@)[at as int].1 == notes@[at as int].1);
                let previous = notes[at].1;
                notes.set(at, (path.clone(), task));
                assert(note_views(notes@) =~= before.update(at as int, (path@, task)));
                Some(previous)
            },
            None => {
                notes.push((path.clone(), task));
                assert(note_views(notes@) =~= before.push((path@, task)));
                None
            },
        };
        self.notes = notes;
        res
    }

    /// Strikes a task off: no path is noted with it any more.
    pub fn finish(&mut self, task: u64)
        ensures
            final(self).notes() == struck_off(old(self).notes(), task),
    {
        proof {
            use_type_invariant(&*self);
            lemma_struck_off(self.notes(), task, Seq::empty());
        }
        let mut notes: Vec<(SyncPath, u64)> = Vec::new();
        assert(note_views(notes@) =~= Seq::<(Seq<ComponentView>, u64)>::empty());
        core::mem::swap(&mut self.notes, &mut notes);
        let ghost before = note_views(notes@);
        let mut left: Vec<(SyncPath, u64)> = Vec::new();
        let mut i: usize = 0;
        assert(before.subrange(0, 0) =~= Seq::<(Seq<ComponentView>, u64)>::empty());
        assert(note_views(left@) =~= struck_off(before.subrange(0, 0), task));
        while i < notes.len()
            invariant
                i <= notes.len(),
                before == note_views(notes@),
                note_views(left@) == struck_off(before.subrange(0, i as int), task),
            decreases notes.len() - i,
        {
            let ghost so_far = note_views(left@);
            proof {
                let next = before.subrange(0, i as int + 1);
                assert(next.drop_last() =~= before.subrange(0, i as int));
                assert(next.last() == before[i as int]);
                assert(before[i as int].1 == notes@[i as int].1);
            }
            if notes[i].1 != task {
                left.push((notes[i].0.clone(), notes[i].1));
                assert(note_views(left@) =~= so_far.push(before[i as int]));
            }
            i += 1;
        }
        assert(before.subrange(0, notes@.len() as int) =~= before);
        self.notes = left;
    }
}

} // verus!
