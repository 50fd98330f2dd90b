//! Windows: titles come from `GetWindowTextW` as UTF-16 buffers.

use vstd::prelude::*;
use vstd::string::StringExecFns;
use crate::text::{is_substring, lemma_utf16_lossy_length, same_text, text_from_utf16_prefix, utf16_lossy_chars};
use super::{opt_text, title_matches};

verus! {

/// The Windows platform.
pub struct WindowsPlatform;

/// The shell's desktop window, which the window list leaves out.
pub open spec fn spec_shell_title() -> Seq<char> {
    "Program Manager"@
}

/// The entry a window gives the window list: its title, when the window is
/// visible and the title is neither empty nor the shell's desktop window.
pub open spec fn spec_listed_title(visible: bool, title: Option<Seq<char>>) -> Option<Seq<char>> {
    match title {
        Some(t) => if visible && t.len() > 0 && t != spec_shell_title() {
            Some(t)
        } else {
            None
        },
        None => None,
    }
}

/// The title held in the first `len` units of a title buffer.
pub open spec fn spec_buffer_title(buf: Seq<u16>, len: i32) -> Option<Seq<char>> {
    if len > 0 {
        Some(utf16_lossy_chars(buf.take(len as int)))
    } else {
        None
    }
}

impl WindowsPlatform {
    /// The title in a buffer that `GetWindowTextW` filled with `len` units;
    /// none when it reported no text.
    pub fn title_from_buffer(buf: &[u16], len: i32) -> (r: Option<String>)
        requires
            len <= buf@.len(),
        ensures
            opt_text(r) == spec_buffer_title(buf@, len),
    {
        text_from_utf16_prefix(buf, len)
    }

    /// The entry a window with this visibility and title gives the window
    /// list, if any.
    pub fn listed_title(visible: bool, title: Option<String>) -> (r: Option<String>)
        ensures
            opt_text(r) == spec_listed_title(visible, opt_text(title)),
    {
        match title {
            Some(t) => {
                let shell = String::from_str("Program Manager");
                if visible && !t.as_str().is_empty() && !same_text(t.as_str(), shell.as_str()) {
                    Some(t)
                } else {
                    None
                }
            },
            None => None,
        }
    }

    /// Whether the foreground window's title, read into `buf` with `len`
    /// units, contains `target`.
    pub fn focused_title_matches(buf: &[u16], len: i32, target: &str) -> (r: bool)
        requires
            len <= buf@.len(),
        ensures
            r == (len > 0 && is_substring(utf16_lossy_chars(buf@.take(len as int)), target@)),
    {
        let title = Self::title_from_buffer(buf, len);
        title_matches(&title, target)
    }
}

/// A visible window whose title buffer holds at least one unit is in the
/// window list, unless its title is the shell's desktop window.
pub proof fn lemma_titled_visible_window_is_listed(buf: Seq<u16>, len: i32)
    requires
        0 < len <= buf.len(),
        utf16_lossy_chars(buf.take(len as int)) != spec_shell_title(),
    ensures
        spec_listed_title(true, spec_buffer_title(buf, len)) == Some(
            utf16_lossy_chars(buf.take(len as int)),
        ),
{
    lemma_utf16_lossy_length(buf.take(len as int));
}

/// The window list takes a window's title exactly when the window is
/// visible and its title was read, is not empty and is not the shell's
/// "Program Manager", whatever its length.
pub proof fn lemma_listed_title_exactly(visible: bool, title: Option<Seq<char>>)
    ensures
        spec_listed_title(visible, title) is Some <==> (visible && title is Some && title->0.len()
            > 0 && title->0 != "Program Manager"@),
        spec_listed_title(visible, title) is Some ==> spec_listed_title(visible, title) == title,
{
}

/// A title buffer gives a title exactly when it reported at least one unit,
/// and the title is the decoding of exactly those units.
pub proof fn lemma_buffer_title_exactly(buf: Seq<u16>, len: i32)
    ensures
        spec_buffer_title(buf, len) is Some <==> len > 0,
        len > 0 ==> spec_buffer_title(buf, len) == Some(utf16_lossy_chars(buf.take(len as int))),
{
}

} // verus!
