//! macOS: the window list is the running applications' names, and the
//! focused window is the frontmost application. Names arrive as the bytes
//! of their UTF-8 C strings.

use vstd::prelude::*;
use crate::text::{string_from_utf8_lossy, utf8_lossy_chars};
use vstd::utf8::{valid_utf8, decode_utf8};
use super::{keep_nonempty, lemma_read_text_is_kept, lemma_text_contains_itself, opt_text, spec_kept_texts, spec_title_matches, title_matches};

verus! {

/// The macOS platform.
pub struct MacOSPlatform;

/// The name that a C string's bytes hold, if there was a string.
pub open spec fn spec_name(bytes: Option<Seq<u8>>) -> Option<Seq<char>> {
    match bytes {
        Some(b) => Some(utf8_lossy_chars(b)),
        None => None,
    }
}

/// The window list made of the running applications' names: each name
/// that could be read and is not empty, in the workspace's order.
pub open spec fn spec_app_names(names: Seq<Option<Seq<u8>>>) -> Seq<Seq<char>> {
    spec_kept_texts(names.map_values(|n: Option<Seq<u8>>| spec_name(n)))
}

impl MacOSPlatform {
    /// The name in a localized name's UTF-8 bytes, decoded lossily; none
    /// when there was no name.
    pub fn name_from_bytes(bytes: &Option<Vec<u8>>) -> (r: Option<String>)
        ensures
            opt_text(r) == spec_name(bytes.deep_view()),
            r is Some <==> bytes is Some,
            bytes is Some && valid_utf8(bytes->0@) ==> r->0@ == decode_utf8(bytes->0@),
    {
        match bytes {
            Some(b) => {
                assert(b.deep_view() =~= b@);
                Some(string_from_utf8_lossy(b.as_slice()))
            },
            None => None,
        }
    }

    /// The window list made of the running applications' localized names.
    pub fn app_names(names: &Vec<Option<Vec<u8>>>) -> (r: Vec<String>)
        ensures
            r.deep_view() == spec_app_names(names.deep_view()),
    {
        let mut decoded: Vec<Option<String>> = Vec::new();
        let mut i: usize = 0;
        while i < names.len()
            invariant
                i <= names@.len(),
                decoded.deep_view() =~= names.deep_view().take(i as int).map_values(
                    |n: Option<Seq<u8>>| spec_name(n),
                ),
            decreases names@.len() - i,
        {
            let t = Self::name_from_bytes(&names[i]);
            let ghost before = decoded.deep_view();
            decoded.push(t);
            assert(decoded.deep_view() =~= before.push(opt_text(t)));
            i = i + 1;
        }
        assert(names.deep_view().take(i as int) =~= names.deep_view());
        keep_nonempty(&decoded)
    }

    /// Whether the frontmost application's name, if there is one, contains
    /// `target`.
    pub fn frontmost_matches(name: &Option<Vec<u8>>, target: &str) -> (r: bool)
        ensures
            r == spec_title_matches(spec_name(name.deep_view()), target@),
    {
        let n = Self::name_from_bytes(name);
        title_matches(&n, target)
    }

    /// Whether the cursor counts as inside the target window: on macOS this
    /// is the same check as the focus check.
    pub fn cursor_over_target(front_name: &Option<Vec<u8>>, target: &str) -> (r: bool)
        ensures
            r == spec_title_matches(spec_name(front_name.deep_view()), target@),
    {
        Self::frontmost_matches(front_name, target)
    }
}

/// When the frontmost application is among the running ones and has a
/// non-empty name, the window list holds an entry that the focus check
/// matches: its own name.
pub proof fn lemma_frontmost_app_is_listed(names: Seq<Option<Seq<u8>>>, j: int)
    requires
        0 <= j < names.len(),
        spec_name(names[j]) matches Some(n) && n.len() > 0,
    ensures
        exists|k: int|
            0 <= k < spec_app_names(names).len() && spec_title_matches(
                spec_name(names[j]),
                #[trigger] spec_app_names(names)[k],
            ),
{
    let items = names.map_values(|n: Option<Seq<u8>>| spec_name(n));
    assert(items[j] == spec_name(names[j]));
    lemma_read_text_is_kept(items, j);
    let n = spec_name(names[j])->0;
    let k = choose|k: int| 0 <= k < spec_kept_texts(items).len() && spec_kept_texts(items)[k] == n;
    lemma_text_contains_itself(n);
    assert(spec_title_matches(spec_name(names[j]), spec_app_names(names)[k]));
}

/// A present name decodes, lossily, to a name whatever its length; only a
/// missing name gives none.
pub proof fn lemma_name_exactly(b: Seq<u8>)
    ensures
        spec_name(Some(b)) == Some(utf8_lossy_chars(b)),
        spec_name(None) is None,
{
}

/// Every running application whose name decodes to a non-empty text is in
/// the window list, whatever the name's length.
pub proof fn lemma_named_app_is_listed(names: Seq<Option<Seq<u8>>>, j: int)
    requires
        0 <= j < names.len(),
        names[j] is Some,
        utf8_lossy_chars(names[j]->0).len() > 0,
    ensures
        spec_app_names(names).contains(utf8_lossy_chars(names[j]->0)),
{
    let items = names.map_values(|n: Option<Seq<u8>>| spec_name(n));
    assert(items[j] == spec_name(names[j]));
    lemma_read_text_is_kept(items, j);
    assert(spec_app_names(names) == spec_kept_texts(items));
}

} // verus!
