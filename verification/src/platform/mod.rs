//! What each desktop platform makes of the window system's answers: the
//! list of window titles, whether the target window is focused, and whether
//! the cursor is inside it.

pub mod linux;
pub mod macos;
pub mod unsupported;
pub mod windows;

use vstd::prelude::*;
use crate::geometry::{Point, Rect, spec_rect_contains};
use crate::text::{contains, is_substring};

verus! {

/// Window management and detection on one platform.
pub trait PlatformOps {
    /// The titles of the visible windows.
    fn get_windows() -> Result<Vec<String>, String>;

    /// Whether the focused window's title contains `target_title`.
    fn is_window_focused(target_title: &str) -> bool;

    /// Whether the cursor is inside a window whose title contains
    /// `target_title`.
    fn is_cursor_in_window(target_title: &str) -> bool;
}

/// What the window system reported about one window: its title, if it
/// could be read, and its bounds, if they could be read.
pub struct WindowProbe {
    pub title: Option<String>,
    pub bounds: Option<Rect>,
}

/// A window report as plain values.
pub struct ProbeView {
    pub title: Option<Seq<char>>,
    pub bounds: Option<Rect>,
}

impl View for WindowProbe {
    type V = ProbeView;

    open spec fn view(&self) -> ProbeView {
        ProbeView {
            title: match self.title {
                Some(t) => Some(t@),
                None => None,
            },
            bounds: self.bounds,
        }
    }
}

/// A title was read and contains `target`.
pub open spec fn spec_title_matches(title: Option<Seq<char>>, target: Seq<char>) -> bool {
    match title {
        Some(t) => is_substring(t, target),
        None => false,
    }
}

/// The reported window has a title containing `target` and bounds holding
/// `cursor`.
pub open spec fn spec_probe_hit(p: ProbeView, cursor: Point, target: Seq<char>) -> bool {
    &&& spec_title_matches(p.title, target)
    &&& match p.bounds {
        Some(b) => spec_rect_contains(b, cursor),
        None => false,
    }
}

/// Some reported window has a title containing `target` and bounds holding
/// `cursor`.
pub open spec fn spec_cursor_in_titled_window(
    windows: Seq<ProbeView>,
    cursor: Point,
    target: Seq<char>,
) -> bool {
    exists|i: int| 0 <= i < windows.len() && spec_probe_hit(#[trigger] windows[i], cursor, target)
}

/// The optional text as characters.
pub open spec fn opt_text(t: Option<String>) -> Option<Seq<char>> {
    match t {
        Some(t) => Some(t@),
        None => None,
    }
}

/// Whether a title was read and contains `target`.
pub fn title_matches(title: &Option<String>, target: &str) -> (r: bool)
    ensures
        r == spec_title_matches(opt_text(*title), target@),
{
    match title {
        Some(t) => contains(t.as_str(), target),
        None => false,
    }
}

/// Whether the cursor is inside some reported window whose title contains
/// `target`; windows are tried in order and the first hit ends the search.
pub fn cursor_in_titled_window(cursor: Point, windows: &Vec<WindowProbe>, target: &str) -> (r:
    bool)
    ensures
        r == spec_cursor_in_titled_window(windows@.map_values(|w: WindowProbe| w@), cursor, target@),
{
    let ghost views = windows@.map_values(|w: WindowProbe| w@);
    let mut i: usize = 0;
    while i < windows.len()
        invariant
            i <= windows@.len(),
            views == windows@.map_values(|w: WindowProbe| w@),
            forall|k: int| 0 <= k < i ==> !spec_probe_hit(#[trigger] views[k], cursor, target@),
        decreases windows@.len() - i,
    {
        let w = &windows[i];
        if title_matches(&w.title, target) {
            match w.bounds {
                Some(b) => {
                    if b.contains(cursor) {
                        assert(spec_probe_hit(views[i as int], cursor, target@));
                        return true;
                    }
                },
                None => {},
            }
        }
        assert(!spec_probe_hit(views[i as int], cursor, target@));
        i = i + 1;
    }
    false
}

/// The texts that were read and are not empty, in order.
pub open spec fn spec_kept_texts(items: Seq<Option<Seq<char>>>) -> Seq<Seq<char>>
    decreases items.len(),
{
    if items.len() == 0 {
        Seq::empty()
    } else {
        let rest = spec_kept_texts(items.drop_last());
        match items.last() {
            Some(t) => if t.len() > 0 {
                rest.push(t)
            } else {
                rest
            },
            None => rest,
        }
    }
}

/// The texts that were read and are not empty, in order.
pub fn keep_nonempty(items: &Vec<Option<String>>) -> (r: Vec<String>)
    ensures
        r.deep_view() == spec_kept_texts(items.deep_view()),
{
    let mut r: Vec<String> = Vec::new();
    let mut i: usize = 0;
    while i < items.len()
        invariant
            i <= items@.len(),
            r.deep_view() == spec_kept_texts(items.deep_view().take(i as int)),
        decreases items@.len() - i,
    {
        assert(items.deep_view().take(i + 1).drop_last() =~= items.deep_view().take(i as int));
        match &items[i] {
            Some(t) => {
                if !t.as_str().is_empty() {
                    let c = t.clone();
                    let ghost before = r.deep_view();
                    r.push(c);
                    assert(r.deep_view() =~= before.push(t@));
                }
            },
            None => {},
        }
        i = i + 1;
    }
    assert(items.deep_view().take(i as int) =~= items.deep_view());
    r
}

/// A window list never holds an empty text, and every text in it was read
/// from some item.
pub proof fn lemma_kept_texts_are_read_and_nonempty(items: Seq<Option<Seq<char>>>)
    ensures
        forall|i: int|
            0 <= i < spec_kept_texts(items).len() ==> (#[trigger] spec_kept_texts(items)[i]).len()
                > 0,
        forall|i: int|
            #![trigger spec_kept_texts(items)[i]]
            0 <= i < spec_kept_texts(items).len() ==> exists|j: int|
                0 <= j < items.len() && #[trigger] items[j] == Some(spec_kept_texts(items)[i]),
        spec_kept_texts(items).len() <= items.len(),
    decreases items.len(),
{
    if items.len() > 0 {
        let rest = items.drop_last();
        lemma_kept_texts_are_read_and_nonempty(rest);
        assert forall|i: int|
            #![trigger spec_kept_texts(items)[i]]
            0 <= i < spec_kept_texts(items).len() implies exists|j: int|
            0 <= j < items.len() && #[trigger] items[j] == Some(spec_kept_texts(items)[i]) by {
            if i < spec_kept_texts(rest).len() {
                let j = choose|j: int|
                    0 <= j < rest.len() && #[trigger] rest[j] == Some(spec_kept_texts(rest)[i]);
                assert(items[j] == rest[j]);
            } else {
                assert(items[items.len() - 1] == Some(spec_kept_texts(items)[i]));
            }
        }
    }
}

/// An empty target title is contained in every title that was read.
pub proof fn lemma_empty_target_matches_every_title(title: Seq<char>)
    ensures
        spec_title_matches(Some(title), Seq::<char>::empty()),
{
    let e = Seq::<char>::empty();
    assert(title.subrange(0int, 0int + e.len()) =~= e);
}

/// A text contains itself.
pub proof fn lemma_text_contains_itself(t: Seq<char>)
    ensures
        is_substring(t, t),
{
    assert(t.subrange(0int, 0int + t.len()) =~= t);
}

/// Containment is transitive: a text that contains `b` contains every text
/// that `b` contains.
pub proof fn lemma_substring_transitive(a: Seq<char>, b: Seq<char>, c: Seq<char>)
    requires
        is_substring(a, b),
        is_substring(b, c),
    ensures
        is_substring(a, c),
{
    let i = choose|i: int| 0 <= i && i + b.len() <= a.len() && #[trigger] a.subrange(i, i + b.len()) == b;
    let j = choose|j: int| 0 <= j && j + c.len() <= b.len() && #[trigger] b.subrange(j, j + c.len()) == c;
    assert(a.subrange(i + j, i + j + c.len()) =~= b.subrange(j, j + c.len()));
}

/// A title that matches a target also matches every part of that target.
pub proof fn lemma_title_match_narrows(title: Option<Seq<char>>, t: Seq<char>, s: Seq<char>)
    requires
        spec_title_matches(title, t),
        is_substring(t, s),
    ensures
        spec_title_matches(title, s),
{
    lemma_substring_transitive(title->0, t, s);
}

/// The cursor found in a window with a title containing `t` is also in a
/// window with a title containing any part `s` of `t`.
pub proof fn lemma_cursor_hit_narrows(
    windows: Seq<ProbeView>,
    cursor: Point,
    t: Seq<char>,
    s: Seq<char>,
)
    requires
        spec_cursor_in_titled_window(windows, cursor, t),
        is_substring(t, s),
    ensures
        spec_cursor_in_titled_window(windows, cursor, s),
{
    let i = choose|i: int| 0 <= i < windows.len() && spec_probe_hit(#[trigger] windows[i], cursor, t);
    lemma_title_match_narrows(windows[i].title, t, s);
    assert(spec_probe_hit(windows[i], cursor, s));
}

/// More reported windows can only add hits: when every window of `fewer`
/// is also reported in `more`, in any order, a hit among `fewer` is a hit
/// among `more`.
pub proof fn lemma_more_windows_more_hits(
    fewer: Seq<ProbeView>,
    more: Seq<ProbeView>,
    cursor: Point,
    target: Seq<char>,
)
    requires
        forall|i: int| 0 <= i < fewer.len() ==> exists|j: int| 0 <= j < more.len() && #[trigger] more[j] == #[trigger] fewer[i],
        spec_cursor_in_titled_window(fewer, cursor, target),
    ensures
        spec_cursor_in_titled_window(more, cursor, target),
{
    let i = choose|i: int| 0 <= i < fewer.len() && spec_probe_hit(#[trigger] fewer[i], cursor, target);
    let j = choose|j: int| 0 <= j < more.len() && #[trigger] more[j] == fewer[i];
    assert(spec_probe_hit(more[j], cursor, target));
}

/// Every text that was read and is not empty is in the window list.
pub proof fn lemma_read_text_is_kept(items: Seq<Option<Seq<char>>>, j: int)
    requires
        0 <= j < items.len(),
        items[j] is Some,
        items[j]->0.len() > 0,
    ensures
        spec_kept_texts(items).contains(items[j]->0),
    decreases items.len(),
{
    let last = items.len() - 1;
    if j < last {
        assert(items.drop_last()[j] == items[j]);
        lemma_read_text_is_kept(items.drop_last(), j);
        let k = choose|k: int| 0 <= k < spec_kept_texts(items.drop_last()).len()
            && spec_kept_texts(items.drop_last())[k] == items[j]->0;
        assert(spec_kept_texts(items)[k] == items[j]->0);
    } else {
        let kept = spec_kept_texts(items);
        assert(kept[kept.len() - 1] == items[j]->0);
    }
}

/// A read title that contains a non-empty target is in the window list, so
/// the list holds a title containing the target.
pub proof fn lemma_matching_title_is_listed(items: Seq<Option<Seq<char>>>, j: int, target: Seq<char>)
    requires
        0 <= j < items.len(),
        target.len() > 0,
        spec_title_matches(items[j], target),
    ensures
        exists|k: int|
            0 <= k < spec_kept_texts(items).len() && is_substring(
                #[trigger] spec_kept_texts(items)[k],
                target,
            ),
{
    let t = items[j]->0;
    assert(t.len() > 0);
    lemma_read_text_is_kept(items, j);
    let k = choose|k: int| 0 <= k < spec_kept_texts(items).len() && spec_kept_texts(items)[k] == t;
    assert(is_substring(spec_kept_texts(items)[k], target));
}

/// The cursor search finds the cursor exactly when some reported window has
/// a title containing the target and bounds that hold the cursor between
/// their left and right and between their top and bottom edges.
pub proof fn lemma_cursor_search_exactly(windows: Seq<ProbeView>, cursor: Point, target: Seq<char>)
    ensures
        spec_cursor_in_titled_window(windows, cursor, target) <==> exists|i: int|
            0 <= i < windows.len() && (#[trigger] windows[i]).title is Some && is_substring(
                windows[i].title->0,
                target,
            ) && windows[i].bounds is Some && windows[i].bounds->0.left <= cursor.x
                && cursor.x <= windows[i].bounds->0.right && windows[i].bounds->0.top <= cursor.y
                && cursor.y <= windows[i].bounds->0.bottom,
{
}

/// A cursor that lies outside the bounds of every reported window (left of,
/// right of, above or below each) is found in none of them.
pub proof fn lemma_cursor_outside_all_bounds_misses(
    windows: Seq<ProbeView>,
    cursor: Point,
    target: Seq<char>,
)
    requires
        forall|i: int|
            0 <= i < windows.len() && (#[trigger] windows[i]).bounds is Some ==> ({
                let b = windows[i].bounds->0;
                cursor.x < b.left || cursor.x > b.right || cursor.y < b.top || cursor.y > b.bottom
            }),
    ensures
        !spec_cursor_in_titled_window(windows, cursor, target),
{
}

/// A title matches a target exactly when the title was read and the target
/// occurs in it; an unread title matches nothing.
pub proof fn lemma_title_matches_exactly(title: Option<Seq<char>>, target: Seq<char>)
    ensures
        spec_title_matches(title, target) <==> (title is Some && is_substring(title->0, target)),
        spec_title_matches(None, target) == false,
{
}

/// When every text was read and is non-empty, the window list is exactly
/// those texts, in the same order.
pub proof fn lemma_all_read_texts_are_kept_in_order(items: Seq<Option<Seq<char>>>)
    requires
        forall|i: int| 0 <= i < items.len() ==> (#[trigger] items[i]) is Some && items[i]->0.len() > 0,
    ensures
        spec_kept_texts(items) == items.map_values(|o: Option<Seq<char>>| o->0),
    decreases items.len(),
{
    if items.len() > 0 {
        let rest = items.drop_last();
        assert forall|i: int| 0 <= i < rest.len() implies (#[trigger] rest[i]) is Some && rest[i]->0.len() > 0 by {
            assert(rest[i] == items[i]);
        }
        lemma_all_read_texts_are_kept_in_order(rest);
        assert(items[items.len() - 1] is Some);
        assert(spec_kept_texts(items) =~= items.map_values(|o: Option<Seq<char>>| o->0));
    } else {
        assert(spec_kept_texts(items) =~= items.map_values(|o: Option<Seq<char>>| o->0));
    }
}

} // verus!
