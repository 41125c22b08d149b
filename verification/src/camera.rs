//! Which camera motion each held key asks for, frame by frame.

use vstd::prelude::*;
use crate::keys::{Key, PressedKeys};

verus! {

/// One step of camera motion for one frame. The amounts are scaled by the
/// frame time by the caller: positions by twenty units per second, angles by
/// one radian per second.
#[derive(Clone, Copy, Debug, PartialEq, Eq, Structural)]
pub enum CameraMove {
    /// `D`: the x position goes down.
    DecreaseX,
    /// `A`: the x position goes up.
    IncreaseX,
    /// `W`: forward along the view direction set by the yaw.
    Forward,
    /// `S`: backward along the view direction set by the yaw.
    Backward,
    /// Space: the y position goes down.
    DecreaseY,
    /// Left shift: the y position goes up.
    IncreaseY,
    /// Right arrow: the yaw goes up.
    IncreaseYaw,
    /// Left arrow: the yaw goes down.
    DecreaseYaw,
    /// Up arrow: the pitch goes down.
    DecreasePitch,
    /// Down arrow: the pitch goes up.
    IncreasePitch,
}

/// The motion that holding `key` asks for; keys without one ask for nothing.
pub open spec fn spec_move_for(key: Key) -> Option<CameraMove> {
    match key {
        Key::D => Some(CameraMove::DecreaseX),
        Key::A => Some(CameraMove::IncreaseX),
        Key::W => Some(CameraMove::Forward),
        Key::S => Some(CameraMove::Backward),
        Key::Space => Some(CameraMove::DecreaseY),
        Key::LShift => Some(CameraMove::IncreaseY),
        Key::Right => Some(CameraMove::IncreaseYaw),
        Key::Left => Some(CameraMove::DecreaseYaw),
        Key::Up => Some(CameraMove::DecreasePitch),
        Key::Down => Some(CameraMove::IncreasePitch),
        _ => None,
    }
}

/// The motions that the keys of `s` ask for, in the order of the keys.
pub open spec fn spec_moves_for(s: Seq<Key>) -> Seq<CameraMove>
    decreases s.len(),
{
    if s.len() == 0 {
        Seq::empty()
    } else {
        let rest = spec_moves_for(s.drop_last());
        match spec_move_for(s.last()) {
            Some(m) => rest.push(m),
            None => rest,
        }
    }
}

/// A motion shows up among the motions of `s` exactly when some key of `s`
/// asks for it.
proof fn lemma_moves_contains(s: Seq<Key>)
    ensures
        forall|m: CameraMove| spec_moves_for(s).contains(m) <==>
            exists|i: int| 0 <= i < s.len() && #[trigger] spec_move_for(s[i]) == Some(m),
    decreases s.len(),
{
    if s.len() > 0 {
        let t = s.drop_last();
        lemma_moves_contains(t);
        let rest = spec_moves_for(t);
        assert forall|m: CameraMove| spec_moves_for(s).contains(m) <==>
            exists|i: int| 0 <= i < s.len() && #[trigger] spec_move_for(s[i]) == Some(m) by {
            if spec_moves_for(s).contains(m) {
                let j = choose|j: int| 0 <= j < spec_moves_for(s).len() && spec_moves_for(s)[j] == m;
                if j < rest.len() {
                    assert(rest[j] == m);
                    assert(rest.contains(m));
                    let i = choose|i: int| 0 <= i < t.len() && #[trigger] spec_move_for(t[i]) == Some(m);
                    assert(s[i] == t[i]);
                } else {
                    assert(spec_move_for(s[s.len() - 1]) == Some(m));
                }
            }
            if exists|i: int| 0 <= i < s.len() && #[trigger] spec_move_for(s[i]) == Some(m) {
                let i = choose|i: int| 0 <= i < s.len() && #[trigger] spec_move_for(s[i]) == Some(m);
                if i < s.len() - 1 {
                    assert(t[i] == s[i]);
                    assert(rest.contains(m));
                    let j = choose|j: int| 0 <= j < rest.len() && rest[j] == m;
                    assert(spec_moves_for(s)[j] == m);
                } else {
                    assert(spec_moves_for(s)[spec_moves_for(s).len() - 1] == m);
                }
            }
        }
    }
}

/// Where only `key` asks for `m`, `m` is among the motions of `s` exactly
/// when `key` is held.
proof fn lemma_motion_of_one_key(s: Seq<Key>, key: Key, m: CameraMove)
    requires
        spec_move_for(key) == Some(m),
        forall|k: Key| spec_move_for(k) == Some(m) ==> k == key,
    ensures
        spec_moves_for(s).contains(m) <==> s.contains(key),
{
    lemma_moves_contains(s);
    if spec_moves_for(s).contains(m) {
        let i = choose|i: int| 0 <= i < s.len() && #[trigger] spec_move_for(s[i]) == Some(m);
        assert(s[i] == key);
    }
    if s.contains(key) {
        let i = choose|i: int| 0 <= i < s.len() && s[i] == key;
        assert(spec_move_for(s[i]) == Some(m));
    }
}

/// Each motion is asked for exactly when its key is held: D moves the camera
/// to lower x, A to higher x, W forward, S backward, Space to lower y, left
/// shift to higher y, the right and left arrows turn the yaw up and down, the
/// up and down arrows turn the pitch down and up.
pub proof fn law_moves_match_keys(s: Seq<Key>)
    ensures
        spec_moves_for(s).contains(CameraMove::DecreaseX) <==> s.contains(Key::D),
        spec_moves_for(s).contains(CameraMove::IncreaseX) <==> s.contains(Key::A),
        spec_moves_for(s).contains(CameraMove::Forward) <==> s.contains(Key::W),
        spec_moves_for(s).contains(CameraMove::Backward) <==> s.contains(Key::S),
        spec_moves_for(s).contains(CameraMove::DecreaseY) <==> s.contains(Key::Space),
        spec_moves_for(s).contains(CameraMove::IncreaseY) <==> s.contains(Key::LShift),
        spec_moves_for(s).contains(CameraMove::IncreaseYaw) <==> s.contains(Key::Right),
        spec_moves_for(s).contains(CameraMove::DecreaseYaw) <==> s.contains(Key::Left),
        spec_moves_for(s).contains(CameraMove::DecreasePitch) <==> s.contains(Key::Up),
        spec_moves_for(s).contains(CameraMove::IncreasePitch) <==> s.contains(Key::Down),
{
    lemma_motion_of_one_key(s, Key::D, CameraMove::DecreaseX);
    lemma_motion_of_one_key(s, Key::A, CameraMove::IncreaseX);
    lemma_motion_of_one_key(s, Key::W, CameraMove::Forward);
    lemma_motion_of_one_key(s, Key::S, CameraMove::Backward);
    lemma_motion_of_one_key(s, Key::Space, CameraMove::DecreaseY);
    lemma_motion_of_one_key(s, Key::LShift, CameraMove::IncreaseY);
    lemma_motion_of_one_key(s, Key::Right, CameraMove::IncreaseYaw);
    lemma_motion_of_one_key(s, Key::Left, CameraMove::DecreaseYaw);
    lemma_motion_of_one_key(s, Key::Up, CameraMove::DecreasePitch);
    lemma_motion_of_one_key(s, Key::Down, CameraMove::IncreasePitch);
}

/// A key held after the others adds its own motion, and only that, after
/// the motions of the others; a key with no motion adds nothing.
pub proof fn law_moves_push(s: Seq<Key>, key: Key)
    ensures
        key == Key::D ==> spec_moves_for(s.push(key)) == spec_moves_for(s).push(CameraMove::DecreaseX),
        key == Key::A ==> spec_moves_for(s.push(key)) == spec_moves_for(s).push(CameraMove::IncreaseX),
        key == Key::W ==> spec_moves_for(s.push(key)) == spec_moves_for(s).push(CameraMove::Forward),
        key == Key::S ==> spec_moves_for(s.push(key)) == spec_moves_for(s).push(CameraMove::Backward),
        key == Key::Space ==> spec_moves_for(s.push(key)) == spec_moves_for(s).push(CameraMove::DecreaseY),
        key == Key::LShift ==> spec_moves_for(s.push(key)) == spec_moves_for(s).push(CameraMove::IncreaseY),
        key == Key::Right ==> spec_moves_for(s.push(key)) == spec_moves_for(s).push(CameraMove::IncreaseYaw),
        key == Key::Left ==> spec_moves_for(s.push(key)) == spec_moves_for(s).push(CameraMove::DecreaseYaw),
        key == Key::Up ==> spec_moves_for(s.push(key)) == spec_moves_for(s).push(CameraMove::DecreasePitch),
        key == Key::Down ==> spec_moves_for(s.push(key)) == spec_moves_for(s).push(CameraMove::IncreasePitch),
        key == Key::Escape || key == Key::Q || key is Other ==> spec_moves_for(s.push(key)) == spec_moves_for(s),
{
    assert(s.push(key).drop_last() =~= s);
}

/// The motion that holding `key` asks for.
pub fn move_for(key: Key) -> (m: Option<CameraMove>)
    ensures
        m == spec_move_for(key),
{
    match key {
        Key::D => Some(CameraMove::DecreaseX),
        Key::A => Some(CameraMove::IncreaseX),
        Key::W => Some(CameraMove::Forward),
        Key::S => Some(CameraMove::Backward),
        Key::Space => Some(CameraMove::DecreaseY),
        Key::LShift => Some(CameraMove::IncreaseY),
        Key::Right => Some(CameraMove::IncreaseYaw),
        Key::Left => Some(CameraMove::DecreaseYaw),
        Key::Up => Some(CameraMove::DecreasePitch),
        Key::Down => Some(CameraMove::IncreasePitch),
        _ => None,
    }
}

/// The motions for one frame: one for each held key that asks for one, in
/// the order in which the keys were pressed.
pub fn moves_for(pressed: &PressedKeys) -> (moves: Vec<CameraMove>)
    ensures
        moves@ == spec_moves_for(pressed@),
        moves@.contains(CameraMove::DecreaseX) <==> pressed@.contains(Key::D),
        moves@.contains(CameraMove::IncreaseX) <==> pressed@.contains(Key::A),
        moves@.contains(CameraMove::Forward) <==> pressed@.contains(Key::W),
        moves@.contains(CameraMove::Backward) <==> pressed@.contains(Key::S),
        moves@.contains(CameraMove::DecreaseY) <==> pressed@.contains(Key::Space),
        moves@.contains(CameraMove::IncreaseY) <==> pressed@.contains(Key::LShift),
        moves@.contains(CameraMove::IncreaseYaw) <==> pressed@.contains(Key::Right),
        moves@.contains(CameraMove::DecreaseYaw) <==> pressed@.contains(Key::Left),
        moves@.contains(CameraMove::DecreasePitch) <==> pressed@.contains(Key::Up),
        moves@.contains(CameraMove::IncreasePitch) <==> pressed@.contains(Key::Down),
{
    let n = pressed.len();
    let mut moves: Vec<CameraMove> = Vec::new();
    let mut i: usize = 0;
    while i < n
        invariant
            n == pressed@.len(),
            0 <= i <= n,
            moves@ == spec_moves_for(pressed@.take(i as int)),
        decreases n - i,
    {
        let key = pressed.get(i);
        proof {
            assert(pressed@.take(i + 1).drop_last() =~= pressed@.take(i as int));
            assert(pressed@.take(i + 1).last() == key);
        }
        match move_for(key) {
            Some(m) => moves.push(m),
            None => {},
        }
        i = i + 1;
    }
    proof {
        assert(pressed@.take(n as int) =~= pressed@);
        law_moves_match_keys(pressed@);
    }
    moves
}

} // verus!
