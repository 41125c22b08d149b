//! The decisions of the window's event loop and of the render loop's resize
//! handling, apart from the windowing system itself.

use vstd::prelude::*;
use crate::keys::{
    Key, PressedKeys, after_press, after_release, distinct, law_distinct_preserved,
    law_other_keys_unchanged, law_press_holds_release_frees,
};

verus! {

/// Width of the window when it opens, in pixels.
pub const INITIAL_SCREEN_W: u32 = 800;

/// Height of the window when it opens, in pixels.
pub const INITIAL_SCREEN_H: u32 = 600;

/// Whether a key went down or up.
#[derive(Clone, Copy, Debug, PartialEq, Eq, Structural)]
pub enum KeyState {
    Pressed,
    Released,
}

/// A window event, reduced to what the event loop decides on.
#[derive(Clone, Copy, Debug, PartialEq, Eq, Structural)]
pub enum WindowEvent {
    /// The window now has this size in physical pixels.
    Resized { width: u32, height: u32 },
    /// The user asked to close the window.
    CloseRequested,
    /// A key with a known key code went down or up.
    Keyboard { state: KeyState, key: Key },
    /// Anything else.
    Other,
}

/// What the event loop does after an event: sleep until the next one, or end.
#[derive(Clone, Copy, Debug, PartialEq, Eq, Structural)]
pub enum Flow {
    Wait,
    Exit,
}

/// Whether `key` ends the program when it goes down or up.
pub open spec fn is_quit_key(key: Key) -> bool {
    key == Key::Escape || key == Key::Q
}

/// The flow after `event`, given whether the render thread is still healthy.
pub open spec fn spec_next_flow(render_healthy: bool, event: WindowEvent) -> Flow {
    if !render_healthy {
        Flow::Exit
    } else {
        match event {
            WindowEvent::CloseRequested => Flow::Exit,
            WindowEvent::Keyboard { state, key } => if is_quit_key(key) {
                Flow::Exit
            } else {
                Flow::Wait
            },
            _ => Flow::Wait,
        }
    }
}

/// The flow after `event`: the loop ends when the render thread has failed,
/// when the window is asked to close, or when Escape or Q goes down or up;
/// otherwise it waits for the next event.
pub fn next_flow(render_healthy: bool, event: &WindowEvent) -> (flow: Flow)
    ensures
        flow == spec_next_flow(render_healthy, *event),
        !render_healthy ==> flow == Flow::Exit,
        render_healthy ==> (flow == Flow::Exit <==> (*event == WindowEvent::CloseRequested || (
            *event matches WindowEvent::Keyboard { key, .. } && (key == Key::Escape || key == Key::Q)))),
{
    let mut flow = Flow::Wait;
    if !render_healthy {
        flow = Flow::Exit;
    }
    match event {
        WindowEvent::CloseRequested => {
            flow = Flow::Exit;
        },
        WindowEvent::Keyboard { state: _, key } => {
            match key {
                Key::Escape => {
                    flow = Flow::Exit;
                },
                Key::Q => {
                    flow = Flow::Exit;
                },
                _ => {},
            }
        },
        _ => {},
    }
    flow
}

/// The list of held keys after a key event.
pub open spec fn spec_apply_key(s: Seq<Key>, state: KeyState, key: Key) -> Seq<Key> {
    match state {
        KeyState::Pressed => after_press(s, key),
        KeyState::Released => after_release(s, key),
    }
}

/// After a key goes down it is held, appended after the keys already held
/// if it was not held before, however many keys are held; after it goes up
/// it is no longer held, wherever it stood. Either way no other key changes
/// and no key is held twice.
pub proof fn law_key_event(s: Seq<Key>, state: KeyState, key: Key)
    requires
        distinct(s),
    ensures
        distinct(spec_apply_key(s, state, key)),
        state == KeyState::Pressed ==> spec_apply_key(s, state, key).contains(key),
        state == KeyState::Pressed && !s.contains(key) ==> spec_apply_key(s, state, key) == s.push(key),
        state == KeyState::Pressed && s.contains(key) ==> spec_apply_key(s, state, key) == s,
        state == KeyState::Released ==> !spec_apply_key(s, state, key).contains(key),
        forall|other: Key| other != key ==> (spec_apply_key(s, state, key).contains(other) <==> s.contains(other)),
{
    law_distinct_preserved(s, key);
    law_press_holds_release_frees(s, key);
    assert forall|other: Key| other != key implies (spec_apply_key(s, state, key).contains(other) <==> s.contains(other)) by {
        law_other_keys_unchanged(s, key, other);
    }
}

/// Records a key going down or up in the list of held keys.
pub fn apply_key_event(pressed: &mut PressedKeys, state: KeyState, key: Key)
    requires
        old(pressed).wf(),
    ensures
        final(pressed).wf(),
        final(pressed)@ == spec_apply_key(old(pressed)@, state, key),
        state == KeyState::Pressed ==> final(pressed)@.contains(key),
        state == KeyState::Pressed && !old(pressed)@.contains(key) ==> final(pressed)@ == old(pressed)@.push(key),
        state == KeyState::Pressed && old(pressed)@.contains(key) ==> final(pressed)@ == old(pressed)@,
        state == KeyState::Released ==> !final(pressed)@.contains(key),
        forall|other: Key| other != key ==> (final(pressed)@.contains(other) <==> old(pressed)@.contains(other)),
{
    proof {
        pressed.lemma_wf_distinct();
        law_key_event(old(pressed)@, state, key);
    }
    match state {
        KeyState::Released => pressed.release(key),
        KeyState::Pressed => pressed.press(key),
    }
}

/// The window size shared between the event loop and the render loop, with a
/// flag that says the render loop has not yet seen it.
#[derive(Clone, Copy, Debug, PartialEq, Eq, Structural)]
pub struct WindowSize {
    pub width: u32,
    pub height: u32,
    pub changed: bool,
}

/// The shared size `s` after the window reports a new size.
pub open spec fn spec_record_resize(s: WindowSize, width: u32, height: u32) -> WindowSize {
    WindowSize { width, height, changed: true }
}

/// The shared size after the render loop has looked at it, and the size it
/// has to adopt, if any.
pub open spec fn spec_take_resize(s: WindowSize) -> (WindowSize, Option<(u32, u32)>) {
    if s.changed {
        (WindowSize { width: s.width, height: s.height, changed: false }, Some((s.width, s.height)))
    } else {
        (s, None)
    }
}

impl WindowSize {
    /// The size of the window when it opens, already seen by the render loop.
    pub fn initial() -> (s: Self)
        ensures
            s == (WindowSize { width: INITIAL_SCREEN_W, height: INITIAL_SCREEN_H, changed: false }),
    {
        WindowSize { width: INITIAL_SCREEN_W, height: INITIAL_SCREEN_H, changed: false }
    }

    /// Stores a size that the window reported; the render loop will pick it up.
    pub fn record_resize(&mut self, width: u32, height: u32)
        ensures
            *final(self) == spec_record_resize(*old(self), width, height),
    {
        *self = WindowSize { width, height, changed: true };
    }

    /// For the render loop: the size to adopt if it changed since the last
    /// look, clearing the flag.
    pub fn take_resize(&mut self) -> (resized: Option<(u32, u32)>)
        ensures
            (*final(self), resized) == spec_take_resize(*old(self)),
    {
        if self.changed {
            self.changed = false;
            Some((self.width, self.height))
        } else {
            None
        }
    }
}

/// The render loop adopts a reported size exactly once: the first look after
/// a resize gives that size, the next gives nothing.
pub proof fn law_resize_seen_once(s: WindowSize, width: u32, height: u32)
    ensures
        spec_take_resize(spec_record_resize(s, width, height)).1 == Some((width, height)),
        spec_take_resize(spec_take_resize(spec_record_resize(s, width, height)).0).1 == None::<(u32, u32)>,
{
}

/// Of two resizes not yet seen, the later one replaces the earlier, and the
/// render loop adopts the later one.
pub proof fn law_latest_resize_wins(s: WindowSize, w1: u32, h1: u32, w2: u32, h2: u32)
    ensures
        spec_record_resize(spec_record_resize(s, w1, h1), w2, h2) == spec_record_resize(s, w2, h2),
        spec_take_resize(spec_record_resize(spec_record_resize(s, w1, h1), w2, h2)).1 == Some((w2, h2)),
{
}

/// Once the render thread is unhealthy every event ends the loop; a healthy
/// loop ends on a close request or on Escape or Q going down or up, and keeps
/// waiting on any other event, any other key going down or up included.
pub proof fn law_exit_conditions(render_healthy: bool, event: WindowEvent)
    ensures
        !render_healthy ==> spec_next_flow(render_healthy, event) == Flow::Exit,
        render_healthy && event == WindowEvent::CloseRequested ==> spec_next_flow(render_healthy, event) == Flow::Exit,
        render_healthy && (event matches WindowEvent::Keyboard { key, .. } && (key == Key::Escape || key == Key::Q)) ==> spec_next_flow(render_healthy, event) == Flow::Exit,
        render_healthy && (event matches WindowEvent::Keyboard { key, .. } && key != Key::Escape && key != Key::Q) ==> spec_next_flow(render_healthy, event) == Flow::Wait,
        render_healthy && (event matches WindowEvent::Resized { .. } || event == WindowEvent::Other) ==> spec_next_flow(render_healthy, event) == Flow::Wait,
{
}

} // verus!
