//! Paths as sequences of components.
//!
//! A path is held the way a path parser hands it out: an optional prefix
//! (a drive letter, a verbatim drive letter, or some other volume prefix),
//! an optional root, and then names. Everything the mirror asks of a path
//! (is it below a directory, what is left after the watched root, where does
//! it land under the target root) is a statement about that sequence.

use vstd::prelude::*;
use vstd::string::StrSliceExecFns;

verus! {

/// One component of a path.
#[derive(Debug, PartialEq, Eq, Hash)]
pub enum Component {
    /// A drive letter prefix, such as `C:`.
    Disk(u8),
    /// A verbatim drive letter prefix, such as `\\?\C:`.
    VerbatimDisk(u8),
    /// Any other volume prefix, kept as the text it was written with.
    OtherPrefix(String),
    /// The root directory, which follows the prefix if there is one.
    RootDir,
    /// A reference to the current directory, `.`.
    CurDir,
    /// A reference to the parent directory, `..`.
    ParentDir,
    /// An ordinary name.
    Normal(String),
}

/// What a [`Component`] stands for in contracts.
pub enum ComponentView {
    Disk(u8),
    VerbatimDisk(u8),
    OtherPrefix(Seq<char>),
    RootDir,
    CurDir,
    ParentDir,
    Normal(Seq<char>),
}

impl ComponentView {
    /// A volume prefix of any form.
    pub open spec fn is_prefix(self) -> bool {
        self is Disk || self is VerbatimDisk || self is OtherPrefix
    }

    /// A component that names an entry below its parent.
    pub open spec fn is_entry(self) -> bool {
        self is Normal || self is CurDir || self is ParentDir
    }
}

impl View for Component {
    type V = ComponentView;

    open spec fn view(&self) -> ComponentView {
        match self {
            Component::Disk(letter) => ComponentView::Disk(*letter),
            Component::VerbatimDisk(letter) => ComponentView::VerbatimDisk(*letter),
            Component::OtherPrefix(text) => ComponentView::OtherPrefix(text@),
            Component::RootDir => ComponentView::RootDir,
            Component::CurDir => ComponentView::CurDir,
            Component::ParentDir => ComponentView::ParentDir,
            Component::Normal(name) => ComponentView::Normal(name@),
        }
    }
}

impl Clone for Component {
    fn clone(&self) -> (res: Self)
        ensures
            res@ == self@,
    {
        match self {
            Component::Disk(letter) => Component::Disk(*letter),
            Component::VerbatimDisk(letter) => Component::VerbatimDisk(*letter),
            Component::OtherPrefix(text) => Component::OtherPrefix(text.clone()),
            Component::RootDir => Component::RootDir,
            Component::CurDir => Component::CurDir,
            Component::ParentDir => Component::ParentDir,
            Component::Normal(name) => Component::Normal(name.clone()),
        }
    }
}

impl Component {
    /// Whether two components are the same component.
    pub fn same(&self, other: &Component) -> (res: bool)
        ensures
            res == (self@ == other@),
    {
        match self {
            Component::Disk(a) => match other {
                Component::Disk(b) => *a == *b,
                _ => false,
            },
            Component::VerbatimDisk(a) => match other {
                Component::VerbatimDisk(b) => *a == *b,
                _ => false,
            },
            Component::OtherPrefix(a) => match other {
                Component::OtherPrefix(b) => *a == *b,
                _ => false,
            },
            Component::RootDir => match other {
                Component::RootDir => true,
                _ => false,
            },
            Component::CurDir => match other {
                Component::CurDir => true,
                _ => false,
            },
            Component::ParentDir => match other {
                Component::ParentDir => true,
                _ => false,
            },
            Component::Normal(a) => match other {
                Component::Normal(b) => *a == *b,
                _ => false,
            },
        }
    }

    /// Whether the component is a volume prefix.
    pub fn is_prefix(&self) -> (res: bool)
        ensures
            res == self@.is_prefix(),
    {
        match self {
            Component::Disk(_) => true,
            Component::VerbatimDisk(_) => true,
            Component::OtherPrefix(_) => true,
            _ => false,
        }
    }

    /// Whether the component names an entry below its parent.
    pub fn is_entry(&self) -> (res: bool)
        ensures
            res == self@.is_entry(),
    {
        match self {
            Component::Normal(_) => true,
            Component::CurDir => true,
            Component::ParentDir => true,
            _ => false,
        }
    }
}

/// The components that a vector holds, each by its view.
pub open spec fn views(components: Seq<Component>) -> Seq<ComponentView> {
    components.map_values(|c: Component| c@)
}

/// `path` lies at or below `base`: `base`'s components open `path`.
pub open spec fn spec_starts_with(path: Seq<ComponentView>, base: Seq<ComponentView>) -> bool {
    base.is_prefix_of(path)
}

/// What is left of `path` after `base`, when `path` lies at or below it.
pub open spec fn spec_strip_prefix(path: Seq<ComponentView>, base: Seq<ComponentView>) -> Option<
    Seq<ComponentView>,
> {
    if spec_starts_with(path, base) {
        Some(path.skip(base.len() as int))
    } else {
        None
    }
}

/// The volume prefix that opens `path`, as a path of its own.
pub open spec fn spec_prefix_of(path: Seq<ComponentView>) -> Seq<ComponentView> {
    if path.len() > 0 && path[0].is_prefix() {
        path.take(1)
    } else {
        Seq::empty()
    }
}

/// `path` extended by `other`. A path with a prefix replaces `path`; a
/// rooted one keeps only `path`'s prefix; any other is appended.
pub open spec fn spec_join(path: Seq<ComponentView>, other: Seq<ComponentView>) -> Seq<
    ComponentView,
> {
    if other.len() > 0 && other[0].is_prefix() {
        other
    } else if other.len() > 0 && other[0] is RootDir {
        spec_prefix_of(path) + other
    } else {
        path + other
    }
}

/// The path without its last component, when that component names an entry.
pub open spec fn spec_parent(path: Seq<ComponentView>) -> Option<Seq<ComponentView>> {
    if path.len() > 0 && path.last().is_entry() {
        Some(path.drop_last())
    } else {
        None
    }
}

/// The text ends with a tilde.
pub open spec fn spec_tilde_name(name: Seq<char>) -> bool {
    name.len() > 0 && name.last() == '~'
}

/// The path's text ends with a tilde, the mark of an editor's temporary file.
pub open spec fn spec_ends_with_tilde(path: Seq<ComponentView>) -> bool {
    path.len() > 0 && (path.last() matches ComponentView::Normal(name) && spec_tilde_name(name))
}

/// A path: its components in order.
#[derive(Debug, PartialEq, Eq, Hash)]
pub struct SyncPath {
    pub components: Vec<Component>,
}

impl View for SyncPath {
    type V = Seq<ComponentView>;

    open spec fn view(&self) -> Seq<ComponentView> {
        views(self.components@)
    }
}

/// Appends copies of `source[from..to]` to `out`.
fn extend_with(out: &mut Vec<Component>, source: &Vec<Component>, from: usize, to: usize)
    requires
        from <= to <= source.len(),
    ensures
        views(final(out)@) == views(old(out)@) + views(source@).subrange(from as int, to as int),
{
    let mut i: usize = from;
    while i < to
        invariant
            from <= i <= to <= source.len(),
            views(out@) == views(old(out)@) + views(source@).subrange(from as int, i as int),
        decreases to - i,
    {
        let ghost before = out@;
        let c = source[i].clone();
        out.push(c);
        assert(views(out@) =~= views(before).push(c@));
        assert(views(source@).subrange(from as int, i as int + 1) =~= views(source@).subrange(
            from as int,
            i as int,
        ).push(source@[i as int]@));
        i += 1;
    }
}

impl Clone for SyncPath {
    fn clone(&self) -> (res: Self)
        ensures
            res@ == self@,
    {
        let mut components: Vec<Component> = Vec::new();
        extend_with(&mut components, &self.components, 0, self.components.len());
        assert(views(self.components@).subrange(0, self.components@.len() as int) =~= views(
            self.components@,
        ));
        SyncPath { components }
    }
}

impl SyncPath {
    /// The empty path.
    pub fn new() -> (res: Self)
        ensures
            res@ == Seq::<ComponentView>::empty(),
    {
        let components: Vec<Component> = Vec::new();
        assert(views(components@) =~= Seq::<ComponentView>::empty());
        SyncPath { components }
    }

    /// The number of components.
    pub fn len(&self) -> (res: usize)
        ensures
            res == self@.len(),
    {
        self.components.len()
    }

    /// Adds one component at the end.
    pub fn push(&mut self, component: Component)
        ensures
            final(self)@ == old(self)@.push(component@),
    {
        let ghost before = self.components@;
        self.components.push(component);
        assert(views(self.components@) =~= views(before).push(component@));
    }

    /// Whether two paths have the same components.
    pub fn same(&self, other: &SyncPath) -> (res: bool)
        ensures
            res == (self@ == other@),
    {
        if self.components.len() != other.components.len() {
            return false;
        }
        let res = self.starts_with(other);
        assert(res ==> self@ =~= other@);
        res
    }

    /// Whether the path lies at or below `base`. Only whole components
    /// count: `/a/bc` does not start with `/a/b`.
    pub fn starts_with(&self, base: &SyncPath) -> (res: bool)
        ensures
            res == spec_starts_with(self@, base@),
    {
        if base.components.len() > self.components.len() {
            return false;
        }
        let mut i: usize = 0;
        while i < base.components.len()
            invariant
                i <= base.components.len() <= self.components.len(),
                forall|j: int| 0 <= j < i ==> self@[j] == base@[j],
            decreases base.components.len() - i,
        {
            if !self.components[i].same(&base.components[i]) {
                assert(self@[i as int] != base@[i as int]);
                assert(self@.subrange(0, base@.len() as int)[i as int] == self@[i as int]);
                return false;
            }
            i += 1;
        }
        assert(base@ =~= self@.subrange(0, base@.len() as int));
        true
    }

    /// The path relative to `base`, or `None` when it does not lie at or
    /// below `base`.
    pub fn strip_prefix(&self, base: &SyncPath) -> (res: Option<SyncPath>)
        ensures
            res is Some == spec_starts_with(self@, base@),
            match res {
                Some(rest) => Some(rest@) == spec_strip_prefix(self@, base@),
                None => spec_strip_prefix(self@, base@) is None,
            },
    {
        if !self.starts_with(base) {
            return None;
        }
        Some(self.skip(base.components.len()))
    }

    /// The path without its first `count` components.
    pub fn skip(&self, count: usize) -> (res: SyncPath)
        requires
            count <= self@.len(),
        ensures
            res@ == self@.skip(count as int),
    {
        let mut components: Vec<Component> = Vec::new();
        extend_with(&mut components, &self.components, count, self.components.len());
        assert(views(components@) =~= self@.skip(count as int));
        SyncPath { components }
    }

    /// The path extended by `other`.
    pub fn join(&self, other: &SyncPath) -> (res: SyncPath)
        ensures
            res@ == spec_join(self@, other@),
    {
        let mut components: Vec<Component> = Vec::new();
        let other_len = other.components.len();
        if other_len > 0 && other.components[0].is_prefix() {
            // a prefix starts over
        } else if other_len > 0 && other.components[0].same(&Component::RootDir) {
            if self.components.len() > 0 && self.components[0].is_prefix() {
                extend_with(&mut components, &self.components, 0, 1);
            }
        } else {
            extend_with(&mut components, &self.components, 0, self.components.len());
        }
        let ghost head = views(components@);
        extend_with(&mut components, &other.components, 0, other_len);
        proof {
            assert(other@.subrange(0, other@.len() as int) =~= other@);
            assert(self@.subrange(0, self@.len() as int) =~= self@);
            assert(self@.len() > 0 ==> self@.subrange(0, 1) =~= self@.take(1));
            assert(Seq::<ComponentView>::empty() + other@ =~= other@);
            assert(views(components@) == head + other@);
        }
        SyncPath { components }
    }

    /// The path with `other` appended, whatever `other` starts with.
    pub fn join_plain(&self, other: &SyncPath) -> (res: SyncPath)
        ensures
            res@ == self@ + other@,
    {
        let mut components: Vec<Component> = Vec::new();
        extend_with(&mut components, &self.components, 0, self.components.len());
        extend_with(&mut components, &other.components, 0, other.components.len());
        proof {
            assert(other@.subrange(0, other@.len() as int) =~= other@);
            assert(self@.subrange(0, self@.len() as int) =~= self@);
            assert(Seq::<ComponentView>::empty() + self@ =~= self@);
        }
        SyncPath { components }
    }

    /// The path without its last component, or `None` when the path is
    /// empty or ends in a root or a prefix.
    pub fn parent(&self) -> (res: Option<SyncPath>)
        ensures
            match res {
                Some(dir) => Some(dir@) == spec_parent(self@),
                None => spec_parent(self@) is None,
            },
    {
        let n = self.components.len();
        if n == 0 || !self.components[n - 1].is_entry() {
            return None;
        }
        let mut components: Vec<Component> = Vec::new();
        extend_with(&mut components, &self.components, 0, n - 1);
        assert(views(components@) =~= self@.drop_last());
        Some(SyncPath { components })
    }

    /// Whether the path's text ends with a tilde.
    pub fn ends_with_tilde(&self) -> (res: bool)
        ensures
            res == spec_ends_with_tilde(self@),
    {
        let n = self.components.len();
        if n == 0 {
            return false;
        }
        match &self.components[n - 1] {
            Component::Normal(name) => {
                let chars = name.as_str().unicode_len();
                chars > 0 && name.as_str().get_char(chars - 1) == '~'
            },
            _ => false,
        }
    }
}

} // verus!
