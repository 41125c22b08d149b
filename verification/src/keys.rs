//! The set of keyboard keys currently held down, kept as a list in the order
//! in which they were pressed.

use vstd::prelude::*;

verus! {

/// A keyboard key. The keys that the viewer reacts to have a variant each;
/// any other key is carried by its numeric scan or key code.
#[derive(Clone, Copy, Debug, PartialEq, Eq, Structural)]
pub enum Key {
    A,
    D,
    W,
    S,
    Space,
    LShift,
    Left,
    Right,
    Up,
    Down,
    Escape,
    Q,
    Other(u32),
}

/// No key occurs twice in `s`.
pub open spec fn distinct(s: Seq<Key>) -> bool {
    forall|i: int, j: int| 0 <= i < s.len() && 0 <= j < s.len() && i != j ==> s[i] != s[j]
}

/// The position of `key` in `s`, where `s` holds it.
pub open spec fn position_of(s: Seq<Key>, key: Key) -> int {
    choose|i: int| 0 <= i < s.len() && s[i] == key
}

/// The list after `key` is pressed: appended at the end unless already held.
pub open spec fn after_press(s: Seq<Key>, key: Key) -> Seq<Key> {
    if s.contains(key) {
        s
    } else {
        s.push(key)
    }
}

/// The list after `key` is released: taken out where it stands, the others
/// keeping their order; unchanged when the key was not held.
pub open spec fn after_release(s: Seq<Key>, key: Key) -> Seq<Key> {
    if s.contains(key) {
        s.remove(position_of(s, key))
    } else {
        s
    }
}

/// Where `s` holds `key` once, `position_of` finds it, and taking it out
/// leaves a list without it, every other key staying held.
proof fn lemma_remove_position(s: Seq<Key>, key: Key)
    requires
        distinct(s),
        s.contains(key),
    ensures
        0 <= position_of(s, key) < s.len(),
        s[position_of(s, key)] == key,
        distinct(s.remove(position_of(s, key))),
        !s.remove(position_of(s, key)).contains(key),
        forall|other: Key| other != key ==> (s.remove(position_of(s, key)).contains(other) <==> s.contains(other)),
{
    let p = position_of(s, key);
    let r = s.remove(p);
    assert(0 <= p < s.len() && s[p] == key);
    assert forall|a: int| 0 <= a < r.len() implies r[a] == s[if a < p { a } else { a + 1 }] by {}
    assert forall|a: int, b: int| 0 <= a < r.len() && 0 <= b < r.len() && a != b implies r[a] != r[b] by {
        let a0 = if a < p { a } else { a + 1 };
        let b0 = if b < p { b } else { b + 1 };
        assert(r[a] == s[a0] && r[b] == s[b0]);
    }
    if r.contains(key) {
        let a = choose|a: int| 0 <= a < r.len() && r[a] == key;
        let a0 = if a < p { a } else { a + 1 };
        assert(s[a0] == key && a0 != p);
    }
    assert forall|other: Key| other != key implies (r.contains(other) <==> s.contains(other)) by {
        if r.contains(other) {
            let a = choose|a: int| 0 <= a < r.len() && r[a] == other;
            let a0 = if a < p { a } else { a + 1 };
            assert(s[a0] == other);
        }
        if s.contains(other) {
            let a0 = choose|a: int| 0 <= a < s.len() && s[a] == other;
            assert(a0 != p);
            let a = if a0 < p { a0 } else { a0 - 1 };
            assert(r[a] == other);
        }
    }
}

/// Pressing or releasing a key keeps every key in the list at most once.
pub proof fn law_distinct_preserved(s: Seq<Key>, key: Key)
    requires
        distinct(s),
    ensures
        distinct(after_press(s, key)),
        distinct(after_release(s, key)),
{
    if s.contains(key) {
        lemma_remove_position(s, key);
    } else {
        let t = s.push(key);
        assert forall|a: int, b: int| 0 <= a < t.len() && 0 <= b < t.len() && a != b implies t[a] != t[b] by {
            if a == s.len() {
                assert(s[b] == t[b]);
            } else if b == s.len() {
                assert(s[a] == t[a]);
            } else {
                assert(s[a] == t[a] && s[b] == t[b]);
            }
        }
    }
}

/// A pressed key is held afterwards; a released key is not.
pub proof fn law_press_holds_release_frees(s: Seq<Key>, key: Key)
    requires
        distinct(s),
    ensures
        after_press(s, key).contains(key),
        !after_release(s, key).contains(key),
{
    if s.contains(key) {
        lemma_remove_position(s, key);
    } else {
        assert(s.push(key)[s.len() as int] == key);
    }
}

/// Pressing or releasing one key does not change whether any other key is held.
pub proof fn law_other_keys_unchanged(s: Seq<Key>, key: Key, other: Key)
    requires
        distinct(s),
        other != key,
    ensures
        after_press(s, key).contains(other) == s.contains(other),
        after_release(s, key).contains(other) == s.contains(other),
{
    if s.contains(key) {
        lemma_remove_position(s, key);
    } else {
        let t = s.push(key);
        if t.contains(other) {
            let a = choose|a: int| 0 <= a < t.len() && t[a] == other;
            assert(a < s.len());
            assert(s[a] == other);
        }
        if s.contains(other) {
            let a = choose|a: int| 0 <= a < s.len() && s[a] == other;
            assert(t[a] == other);
        }
    }
}

/// Pressing a key that was not held and then releasing it gives back the
/// list as it was.
pub proof fn law_press_then_release(s: Seq<Key>, key: Key)
    requires
        distinct(s),
        !s.contains(key),
    ensures
        after_release(after_press(s, key), key) == s,
{
    let t = s.push(key);
    assert(t[s.len() as int] == key);
    law_distinct_preserved(s, key);
    lemma_remove_position(t, key);
    let p = position_of(t, key);
    if p != s.len() {
        assert(t[p] == s[p]);
    }
    assert(t.remove(s.len() as int) =~= s);
}

/// Pressing a key twice is the same as pressing it once; so is releasing it.
pub proof fn law_repeat_is_idempotent(s: Seq<Key>, key: Key)
    requires
        distinct(s),
    ensures
        after_press(after_press(s, key), key) == after_press(s, key),
        after_release(after_release(s, key), key) == after_release(s, key),
{
    law_press_holds_release_frees(s, key);
}

/// Keys that are held down, each once, oldest press first.
pub struct PressedKeys {
    keys: Vec<Key>,
}

impl View for PressedKeys {
    type V = Seq<Key>;

    closed spec fn view(&self) -> Seq<Key> {
        self.keys@
    }
}

impl PressedKeys {
    /// The list holds each key at most once.
    pub closed spec fn wf(&self) -> bool {
        distinct(self.keys@)
    }

    /// A well-formed list holds no key twice.
    pub proof fn lemma_wf_distinct(&self)
        requires
            self.wf(),
        ensures
            distinct(self@),
    {
    }

    /// No key held; room is reserved for ten.
    pub fn new() -> (pressed: Self)
        ensures
            pressed.wf(),
            pressed@ == Seq::<Key>::empty(),
    {
        PressedKeys { keys: Vec::with_capacity(10) }
    }

    /// The number of keys held.
    pub fn len(&self) -> (n: usize)
        ensures
            n == self@.len(),
    {
        self.keys.len()
    }

    /// The key pressed `i`-th among those still held.
    pub fn get(&self, i: usize) -> (key: Key)
        requires
            i < self@.len(),
        ensures
            key == self@[i as int],
    {
        self.keys[i]
    }

    /// Where `key` stands in the list, if it is held.
    pub fn position(&self, key: Key) -> (pos: Option<usize>)
        requires
            self.wf(),
        ensures
            match pos {
                Some(i) => i < self@.len() && self@[i as int] == key && i == position_of(self@, key),
                None => !self@.contains(key),
            },
    {
        let n = self.keys.len();
        let mut i: usize = 0;
        while i < n
            invariant
                n == self.keys@.len(),
                distinct(self.keys@),
                0 <= i <= n,
                forall|j: int| 0 <= j < i ==> self.keys@[j] != key,
            decreases n - i,
        {
            if self.keys[i] == key {
                proof {
                    let p = position_of(self@, key);
                    assert(0 <= i < self@.len() && self@[i as int] == key);
                    assert(0 <= p < self@.len() && self@[p] == key);
                    if p != i as int {
                        assert(self.keys@[p] != self.keys@[i as int]);
                    }
                }
                return Some(i);
            }
            i = i + 1;
        }
        proof {
            assert forall|j: int| 0 <= j < self@.len() implies self@[j] != key by {}
        }
        None
    }

    /// Whether `key` is held.
    pub fn contains(&self, key: Key) -> (held: bool)
        requires
            self.wf(),
        ensures
            held == self@.contains(key),
    {
        match self.position(key) {
            Some(_) => true,
            None => false,
        }
    }

    /// Records that `key` went down: it is added at the end unless it is
    /// already held.
    pub fn press(&mut self, key: Key)
        requires
            old(self).wf(),
        ensures
            final(self).wf(),
            final(self)@ == after_press(old(self)@, key),
    {
        if self.position(key).is_none() {
            self.keys.push(key);
        }
    }

    /// Records that `key` went up: it is taken out of the list if held.
    pub fn release(&mut self, key: Key)
        requires
            old(self).wf(),
        ensures
            final(self).wf(),
            final(self)@ == after_release(old(self)@, key),
    {
        match self.position(key) {
            Some(i) => {
                proof {
                    lemma_remove_position(self.keys@, key);
                }
                self.keys.remove(i);
            },
            None => {},
        }
    }
}

} // verus!
