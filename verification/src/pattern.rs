//! Wildcard patterns. An excluded path may hold wildcards in its names:
//! `*` stands for any run of characters, `?` for any one character. A name
//! without wildcards is a pattern that matches itself alone.

use crate::path::spec_starts_with;
use crate::path::Component;
use crate::path::ComponentView;
use crate::path::SyncPath;
use vstd::prelude::*;
use vstd::string::StrSliceExecFns;
use vstd::string::StringExecFns;

verus! {

/// `text` matches the wildcard pattern `pattern`.
pub open spec fn spec_wildcard_match(pattern: Seq<char>, text: Seq<char>) -> bool
    decreases pattern.len(), text.len(),
{
    if pattern.len() == 0 {
        text.len() == 0
    } else if pattern[0] == '*' {
        spec_wildcard_match(pattern.skip(1), text) || (text.len() > 0 && spec_wildcard_match(
            pattern,
            text.skip(1),
        ))
    } else {
        text.len() > 0 && (pattern[0] == '?' || pattern[0] == text[0]) && spec_wildcard_match(
            pattern.skip(1),
            text.skip(1),
        )
    }
}

/// What is left of `text` from `j` on matches what is left of `pattern`
/// from `i` on.
pub open spec fn spec_match_from(pattern: Seq<char>, text: Seq<char>, i: int, j: int) -> bool {
    spec_wildcard_match(pattern.skip(i), text.skip(j))
}

/// How a match from one place follows from the matches further on.
proof fn lemma_match_step(pattern: Seq<char>, text: Seq<char>, i: int, j: int)
    requires
        0 <= i <= pattern.len(),
        0 <= j <= text.len(),
    ensures
        i == pattern.len() ==> spec_match_from(pattern, text, i, j) == (j == text.len()),
        i < pattern.len() && pattern[i] == '*' ==> spec_match_from(pattern, text, i, j) == (
        spec_match_from(pattern, text, i + 1, j) || (j < text.len() && spec_match_from(
            pattern,
            text,
            i,
            j + 1,
        ))),
        i < pattern.len() && pattern[i] != '*' ==> spec_match_from(pattern, text, i, j) == (j
            < text.len() && (pattern[i] == '?' || pattern[i] == text[j]) && spec_match_from(
            pattern,
            text,
            i + 1,
            j + 1,
        )),
{
    if i < pattern.len() {
        assert(pattern.skip(i).skip(1) =~= pattern.skip(i + 1));
    }
    if j < text.len() {
        assert(text.skip(j).skip(1) =~= text.skip(j + 1));
    }
}

/// A text without wildcards matches itself, and so does one with them.
pub proof fn lemma_matches_itself(text: Seq<char>)
    ensures
        spec_wildcard_match(text, text),
    decreases text.len(),
{
    if text.len() > 0 {
        lemma_matches_itself(text.skip(1));
        if text[0] == '*' {
            // the star stands for nothing, then for itself
            assert(spec_wildcard_match(text, text.skip(1)));
        }
    }
}

/// The characters of a text.
fn chars_of(text: &str) -> (res: Vec<char>)
    ensures
        res@ == text@,
{
    let n = text.unicode_len();
    let mut res: Vec<char> = Vec::new();
    let mut i: usize = 0;
    while i < n
        invariant
            i <= n,
            n == text@.len(),
            res@ == text@.subrange(0, i as int),
        decreases n - i,
    {
        res.push(text.get_char(i));
        assert(res@ =~= text@.subrange(0, i as int + 1));
        i += 1;
    }
    assert(text@.subrange(0, n as int) =~= text@);
    res
}

/// Whether `text` matches the wildcard pattern `pattern`: `*` stands for
/// any run of characters, `?` for any one character, and every other
/// character for itself.
pub fn wildcard_match(pattern: &str, text: &str) -> (res: bool)
    ensures
        res == spec_wildcard_match(pattern@, text@),
{
    let pattern = chars_of(pattern);
    let text = chars_of(text);
    let m = pattern.len();
    let n = text.len();
    // `row[j]` says whether the text from `j` on matches the pattern from
    // `i` on; the row of the pattern's end comes first.
    let mut row: Vec<bool> = Vec::new();
    let mut j: usize = 0;
    loop
        invariant_except_break
            j <= n,
            row@.len() == j,
            forall|x: int| 0 <= x < j ==> row@[x] == false,
        ensures
            row@.len() == n + 1,
            forall|x: int| 0 <= x <= n ==> row@[x] == (x == n),
        decreases n - j,
    {
        row.push(j == n);
        if j == n {
            break ;
        }
        j += 1;
    }
    proof {
        assert forall|x: int| 0 <= x <= n implies row@[x] == spec_match_from(
            pattern@,
            text@,
            m as int,
            x,
        ) by {
            lemma_match_step(pattern@, text@, m as int, x);
        }
    }
    let mut i: usize = m;
    while i > 0
        invariant
            i <= m,
            m == pattern@.len(),
            n == text@.len(),
            row@.len() == n + 1,
            forall|x: int| 0 <= x <= n ==> row@[x] == spec_match_from(pattern@, text@, i as int, x),
        decreases i,
    {
        i -= 1;
        let star = pattern[i] == '*';
        let any = pattern[i] == '?';
        // the entry of the row below at `j + 1`, which the update of the
        // entry at `j + 1` has overwritten
        let mut diagonal: bool = false;
        let mut j: usize = n;
        loop
            invariant_except_break
                j <= n,
                forall|x: int| 0 <= x <= j ==> row@[x] == spec_match_from(
                    pattern@,
                    text@,
                    i as int + 1,
                    x,
                ),
                forall|x: int| j < x <= n ==> row@[x] == spec_match_from(pattern@, text@, i as int, x),
                j < n ==> diagonal == spec_match_from(pattern@, text@, i as int + 1, j as int + 1),
            invariant
                i < m,
                m == pattern@.len(),
                n == text@.len(),
                row@.len() == n + 1,
                star == (pattern@[i as int] == '*'),
                any == (pattern@[i as int] == '?'),
            ensures
                forall|x: int| 0 <= x <= n ==> row@[x] == spec_match_from(
                    pattern@,
                    text@,
                    i as int,
                    x,
                ),
            decreases j,
        {
            proof {
                lemma_match_step(pattern@, text@, i as int, j as int);
            }
            let below = row[j];
            let here = if star {
                below || (j < n && row[j + 1])
            } else {
                j < n && (any || pattern[i] == text[j]) && diagonal
            };
            row.set(j, here);
            diagonal = below;
            if j == 0 {
                break ;
            }
            j -= 1;
        }
    }
    proof {
        assert(pattern@.skip(0) =~= pattern@);
        assert(text@.skip(0) =~= text@);
    }
    row[0]
}

/// A component of a path matches a component of a pattern: a name by the
/// wildcards, everything else by being the same.
pub open spec fn spec_component_matches(pattern: ComponentView, component: ComponentView) -> bool {
    match (pattern, component) {
        (ComponentView::Normal(p), ComponentView::Normal(t)) => spec_wildcard_match(p, t),
        _ => pattern == component,
    }
}

/// A path is covered by a pattern: the pattern's components each match the
/// path's component at their place. What lies below a covered path is
/// covered.
pub open spec fn spec_covers(pattern: Seq<ComponentView>, path: Seq<ComponentView>) -> bool {
    pattern.len() <= path.len() && forall|i: int|
        0 <= i < pattern.len() ==> spec_component_matches(#[trigger] pattern[i], path[i])
}

/// A path covers all that lies at or below it, whatever its names hold.
pub proof fn lemma_starts_with_covers(path: Seq<ComponentView>, dir: Seq<ComponentView>)
    requires
        spec_starts_with(path, dir),
    ensures
        spec_covers(dir, path),
{
    assert forall|i: int| 0 <= i < dir.len() implies spec_component_matches(
        #[trigger] dir[i],
        path[i],
    ) by {
        assert(dir[i] == path.subrange(0, dir.len() as int)[i]);
        match dir[i] {
            ComponentView::Normal(name) => {
                lemma_matches_itself(name);
            },
            _ => {},
        }
    }
}

/// Whether a component of a path matches a component of a pattern.
pub fn component_matches(pattern: &Component, component: &Component) -> (res: bool)
    ensures
        res == spec_component_matches(pattern@, component@),
{
    match pattern {
        Component::Normal(p) => match component {
            Component::Normal(t) => wildcard_match(p.as_str(), t.as_str()),
            _ => false,
        },
        _ => pattern.same(component),
    }
}

/// Whether a path is covered by a pattern.
pub fn covers(pattern: &SyncPath, path: &SyncPath) -> (res: bool)
    ensures
        res == spec_covers(pattern@, path@),
{
    if pattern.components.len() > path.components.len() {
        return false;
    }
    let mut i: usize = 0;
    while i < pattern.components.len()
        invariant
            i <= pattern.components.len() <= path.components.len(),
            forall|j: int| 0 <= j < i ==> spec_component_matches(#[trigger] pattern@[j], path@[j]),
        decreases pattern.components.len() - i,
    {
        if !component_matches(&pattern.components[i], &path.components[i]) {
            assert(!spec_component_matches(pattern@[i as int], path@[i as int]));
            return false;
        }
        i += 1;
    }
    true
}

/// The parts of a text between its commas, and the part after the last
/// comma. Empty parts are dropped.
pub open spec fn spec_split_fold(text: Seq<char>) -> (Seq<Seq<char>>, Seq<char>)
    decreases text.len(),
{
    if text.len() == 0 {
        (Seq::empty(), Seq::empty())
    } else {
        let (done, current) = spec_split_fold(text.drop_last());
        if text.last() == ',' {
            (
                if current.len() > 0 {
                    done.push(current)
                } else {
                    done
                },
                Seq::empty(),
            )
        } else {
            (done, current.push(text.last()))
        }
    }
}

/// The patterns that a comma-separated list holds: the parts between the
/// commas, in their order, without the empty ones.
pub open spec fn spec_split_patterns(text: Seq<char>) -> Seq<Seq<char>> {
    let (done, current) = spec_split_fold(text);
    if current.len() > 0 {
        done.push(current)
    } else {
        done
    }
}

/// The texts that a vector holds, each by its view.
pub open spec fn text_views(texts: Seq<String>) -> Seq<Seq<char>> {
    texts.map_values(|text: String| text@)
}

/// The patterns that a comma-separated list holds.
pub fn split_patterns(text: &str) -> (res: Vec<String>)
    ensures
        text_views(res@) == spec_split_patterns(text@),
{
    let n = text.unicode_len();
    let mut res: Vec<String> = Vec::new();
    let mut start: usize = 0;
    let mut i: usize = 0;
    assert(text_views(res@) =~= Seq::<Seq<char>>::empty());
    assert(text@.subrange(0, 0) =~= Seq::<char>::empty());
    while i < n
        invariant
            start <= i <= n,
            n == text@.len(),
            spec_split_fold(text@.subrange(0, i as int)) == (
                text_views(res@),
                text@.subrange(start as int, i as int),
            ),
        decreases n - i,
    {
        let ghost before = text_views(res@);
        proof {
            let next = text@.subrange(0, i as int + 1);
            assert(next.drop_last() =~= text@.subrange(0, i as int));
            assert(next.last() == text@[i as int]);
        }
        if text.get_char(i) == ',' {
            if start < i {
                let part = String::from_str(text.substring_char(start, i));
                res.push(part);
                assert(text_views(res@) =~= before.push(text@.subrange(start as int, i as int)));
            }
            start = i + 1;
            assert(text@.subrange(start as int, i as int + 1) =~= Seq::<char>::empty());
        } else {
            assert(text@.subrange(start as int, i as int + 1) =~= text@.subrange(
                start as int,
                i as int,
            ).push(text@[i as int]));
        }
        i += 1;
    }
    assert(text@.subrange(0, n as int) =~= text@);
    if start < n {
        let ghost before = text_views(res@);
        let part = String::from_str(text.substring_char(start, n));
        res.push(part);
        assert(text_views(res@) =~= before.push(text@.subrange(start as int, n as int)));
    }
    res
}

} // verus!
