//! Trigger keys and the keyboard events that hold or release them.

use vstd::prelude::*;
use crate::text::same_text;

verus! {

/// A key as the clicker sees it: the modifier keys that can act as a
/// trigger, told apart by side, and every other key.
#[derive(Clone, Copy, PartialEq, Eq, Structural, Debug)]
pub enum Key {
    Alt,
    ShiftLeft,
    ShiftRight,
    ControlLeft,
    ControlRight,
    Other,
}

/// A key going down or coming up.
#[derive(Clone, Copy, PartialEq, Eq, Structural, Debug)]
pub enum KeyEvent {
    Press(Key),
    Release(Key),
}

/// The key that a trigger name selects: "Alt", "Shift" (left shift, which
/// stands for either shift) or "Ctrl" (left control, which stands for either
/// control); no key for any other name.
pub open spec fn spec_trigger_target(name: Seq<char>) -> Option<Key> {
    if name == "Alt"@ {
        Some(Key::Alt)
    } else if name == "Shift"@ {
        Some(Key::ShiftLeft)
    } else if name == "Ctrl"@ {
        Some(Key::ControlLeft)
    } else {
        None
    }
}

/// `key` is one of the modifier keys that a trigger can name.
pub open spec fn spec_is_trigger_modifier(key: Key) -> bool {
    key != Key::Other
}

/// `key` counts as the `target` trigger: Alt only as itself, either shift
/// for the shift target, either control for the control target.
pub open spec fn spec_key_match(key: Key, target: Key) -> bool {
    match target {
        Key::Alt => key == Key::Alt,
        Key::ShiftLeft => key == Key::ShiftLeft || key == Key::ShiftRight,
        Key::ControlLeft => key == Key::ControlLeft || key == Key::ControlRight,
        _ => false,
    }
}

/// Whether the trigger is held after `event`, when it was held before
/// exactly if `held`: a press of a matching key holds it, a release of one
/// lets it go, anything else changes nothing; with no target nothing does.
pub open spec fn spec_next_held(held: bool, target: Option<Key>, event: KeyEvent) -> bool {
    match target {
        None => held,
        Some(t) => match event {
            KeyEvent::Press(k) => if spec_is_trigger_modifier(k) && spec_key_match(k, t) {
                true
            } else {
                held
            },
            KeyEvent::Release(k) => if spec_is_trigger_modifier(k) && spec_key_match(k, t) {
                false
            } else {
                held
            },
        },
    }
}

/// Whether the trigger is held after `events`, taken in order.
pub open spec fn spec_held_after(held: bool, target: Option<Key>, events: Seq<KeyEvent>) -> bool
    decreases events.len(),
{
    if events.len() == 0 {
        held
    } else {
        spec_next_held(spec_held_after(held, target, events.drop_last()), target, events.last())
    }
}

/// The key that the trigger name `name` selects.
pub fn trigger_target(name: &str) -> (r: Option<Key>)
    ensures
        r == spec_trigger_target(name@),
{
    if same_text(name, "Alt") {
        Some(Key::Alt)
    } else if same_text(name, "Shift") {
        Some(Key::ShiftLeft)
    } else if same_text(name, "Ctrl") {
        Some(Key::ControlLeft)
    } else {
        None
    }
}

/// Whether `key` is one of the modifier keys that a trigger can name.
pub fn is_trigger_modifier(key: Key) -> (r: bool)
    ensures
        r == spec_is_trigger_modifier(key),
{
    match key {
        Key::Other => false,
        _ => true,
    }
}

/// Whether `key` counts as the `target` trigger.
pub fn is_key_match(key: Key, target: Key) -> (r: bool)
    ensures
        r == spec_key_match(key, target),
{
    match target {
        Key::Alt => match key {
            Key::Alt => true,
            _ => false,
        },
        Key::ShiftLeft => match key {
            Key::ShiftLeft | Key::ShiftRight => true,
            _ => false,
        },
        Key::ControlLeft => match key {
            Key::ControlLeft | Key::ControlRight => true,
            _ => false,
        },
        _ => false,
    }
}

/// Whether the trigger is held after `event`.
pub fn next_held(held: bool, target: Option<Key>, event: KeyEvent) -> (r: bool)
    ensures
        r == spec_next_held(held, target, event),
{
    match target {
        None => held,
        Some(t) => match event {
            KeyEvent::Press(k) => {
                if is_trigger_modifier(k) && is_key_match(k, t) {
                    true
                } else {
                    held
                }
            },
            KeyEvent::Release(k) => {
                if is_trigger_modifier(k) && is_key_match(k, t) {
                    false
                } else {
                    held
                }
            },
        },
    }
}

/// The key that `event` concerns.
pub open spec fn spec_event_key(event: KeyEvent) -> Key {
    match event {
        KeyEvent::Press(k) => k,
        KeyEvent::Release(k) => k,
    }
}

/// `event` concerns the trigger `target`.
pub open spec fn spec_touches_trigger(event: KeyEvent, target: Option<Key>) -> bool {
    match target {
        Some(t) => spec_is_trigger_modifier(spec_event_key(event)) && spec_key_match(
            spec_event_key(event),
            t,
        ),
        None => false,
    }
}

/// Events that do not concern the trigger leave it as it was; in particular,
/// with no trigger selected no event changes anything.
pub proof fn lemma_other_events_keep_trigger_state(
    held: bool,
    target: Option<Key>,
    events: Seq<KeyEvent>,
)
    requires
        forall|j: int| 0 <= j < events.len() ==> !spec_touches_trigger(#[trigger] events[j], target),
    ensures
        spec_held_after(held, target, events) == held,
    decreases events.len(),
{
    if events.len() > 0 {
        assert(!spec_touches_trigger(events[events.len() - 1], target));
        lemma_other_events_keep_trigger_state(held, target, events.drop_last());
    }
}

/// The last event that concerns the trigger decides whether it is held: it
/// is held exactly if that event is a press.
pub proof fn lemma_last_trigger_event_decides(
    held: bool,
    target: Option<Key>,
    events: Seq<KeyEvent>,
    i: int,
)
    requires
        0 <= i < events.len(),
        spec_touches_trigger(events[i], target),
        forall|j: int| i < j < events.len() ==> !spec_touches_trigger(#[trigger] events[j], target),
    ensures
        spec_held_after(held, target, events) == (events[i] is Press),
    decreases events.len(),
{
    let last = events.len() - 1;
    if i == last {
    } else {
        assert(!spec_touches_trigger(events[last], target));
        assert forall|j: int| i < j < events.drop_last().len() implies !spec_touches_trigger(
            #[trigger] events.drop_last()[j],
            target,
        ) by {
            assert(events.drop_last()[j] == events[j]);
        }
        lemma_last_trigger_event_decides(held, target, events.drop_last(), i);
    }
}

/// The trigger is pressed for good at `i` in `events`: the event there
/// presses it and no later event concerns it.
pub open spec fn spec_pressed_last_at(target: Option<Key>, events: Seq<KeyEvent>, i: int) -> bool {
    &&& 0 <= i < events.len()
    &&& spec_touches_trigger(events[i], target)
    &&& events[i] is Press
    &&& forall|j: int| i < j < events.len() ==> !spec_touches_trigger(#[trigger] events[j], target)
}

/// Starting released, the trigger is held after `events` exactly when the
/// last event that concerns it is a press.
pub proof fn lemma_held_iff_last_trigger_event_is_press(target: Option<Key>, events: Seq<KeyEvent>)
    ensures
        spec_held_after(false, target, events) <==> exists|i: int| spec_pressed_last_at(target, events, i),
    decreases events.len(),
{
    if events.len() > 0 {
        let last = events.len() - 1;
        let rest = events.drop_last();
        lemma_held_iff_last_trigger_event_is_press(target, rest);
        if spec_touches_trigger(events[last], target) {
            if events[last] is Press {
                assert(spec_pressed_last_at(target, events, last));
            } else {
                assert forall|i: int| !spec_pressed_last_at(target, events, i) by {
                    if 0 <= i < last && spec_pressed_last_at(target, events, i) {
                        assert(!spec_touches_trigger(events[last], target));
                    }
                }
            }
        } else {
            if spec_held_after(false, target, rest) {
                let i = choose|i: int| spec_pressed_last_at(target, rest, i);
                assert forall|j: int| i < j < events.len() implies !spec_touches_trigger(#[trigger] events[j], target) by {
                    if j < last {
                        assert(rest[j] == events[j]);
                    }
                }
                assert(spec_pressed_last_at(target, events, i));
            } else {
                assert forall|i: int| !spec_pressed_last_at(target, events, i) by {
                    if spec_pressed_last_at(target, events, i) {
                        assert(i != last);
                        assert forall|j: int| i < j < rest.len() implies !spec_touches_trigger(#[trigger] rest[j], target) by {
                            assert(rest[j] == events[j]);
                        }
                        assert(rest[i] == events[i]);
                        assert(spec_pressed_last_at(target, rest, i));
                    }
                }
            }
        }
    }
}

/// Which keys count as each trigger: Alt only Alt; the shift trigger
/// either shift and nothing else; the control trigger either control and
/// nothing else; a right-hand key or a non-modifier is no trigger, so
/// nothing matches it.
pub proof fn lemma_key_match_exactly(key: Key)
    ensures
        spec_key_match(key, Key::Alt) <==> key == Key::Alt,
        spec_key_match(key, Key::ShiftLeft) <==> (key == Key::ShiftLeft || key == Key::ShiftRight),
        spec_key_match(key, Key::ControlLeft) <==> (key == Key::ControlLeft || key
            == Key::ControlRight),
        !spec_key_match(key, Key::ShiftRight),
        !spec_key_match(key, Key::ControlRight),
        !spec_key_match(key, Key::Other),
        spec_is_trigger_modifier(key) <==> key != Key::Other,
{
}

/// How one key event moves the trigger, for each trigger: a press of one of
/// the trigger's keys holds it, a release of one lets it go, and every other
/// key (another modifier family included) leaves it as it was; with no
/// trigger, or a target that no key matches, nothing changes it.
pub proof fn lemma_next_held_exactly(held: bool, key: Key)
    ensures
        spec_next_held(held, Some(Key::Alt), KeyEvent::Press(key)) == (held || key == Key::Alt),
        spec_next_held(held, Some(Key::Alt), KeyEvent::Release(key)) == (held && key != Key::Alt),
        spec_next_held(held, Some(Key::ShiftLeft), KeyEvent::Press(key)) == (held || key
            == Key::ShiftLeft || key == Key::ShiftRight),
        spec_next_held(held, Some(Key::ShiftLeft), KeyEvent::Release(key)) == (held && key
            != Key::ShiftLeft && key != Key::ShiftRight),
        spec_next_held(held, Some(Key::ControlLeft), KeyEvent::Press(key)) == (held || key
            == Key::ControlLeft || key == Key::ControlRight),
        spec_next_held(held, Some(Key::ControlLeft), KeyEvent::Release(key)) == (held && key
            != Key::ControlLeft && key != Key::ControlRight),
        spec_next_held(held, None, KeyEvent::Press(key)) == held,
        spec_next_held(held, None, KeyEvent::Release(key)) == held,
        spec_next_held(held, Some(Key::ShiftRight), KeyEvent::Press(key)) == held,
        spec_next_held(held, Some(Key::ControlRight), KeyEvent::Press(key)) == held,
        spec_next_held(held, Some(Key::Other), KeyEvent::Press(key)) == held,
{
}

/// The trigger names: "Alt", "Shift" and "Ctrl" select the Alt key, the
/// left shift and the left control; every other name selects nothing.
pub proof fn lemma_trigger_names_exactly(name: Seq<char>)
    ensures
        spec_trigger_target("Alt"@) == Some(Key::Alt),
        spec_trigger_target("Shift"@) == Some(Key::ShiftLeft),
        spec_trigger_target("Ctrl"@) == Some(Key::ControlLeft),
        spec_trigger_target(name) is Some ==> (name == "Alt"@ || name == "Shift"@ || name
            == "Ctrl"@),
{
    reveal_strlit("Alt");
    reveal_strlit("Shift");
    reveal_strlit("Ctrl");
    assert("Shift"@ != "Alt"@) by {
        assert("Shift"@.len() != "Alt"@.len());
    }
    assert("Ctrl"@ != "Alt"@) by {
        assert("Ctrl"@[0] != "Alt"@[0]);
    }
    assert("Ctrl"@ != "Shift"@) by {
        assert("Ctrl"@.len() != "Shift"@.len());
    }
}

} // verus!
