//! Keyboard input state, tracked cycle by cycle.
//!
//! One cycle of event processing delivers a (possibly empty) batch of key
//! transitions. Across cycles the tracker maintains the set of held keys;
//! within a cycle it records which keys were pressed or released, and both
//! transient sets are cleared at the start of the next cycle.
use vstd::prelude::*;

verus! {

/// Physical key code of the Escape key, in the key numbering this crate
/// uses (the host translates platform key codes into this space).
pub const KEY_ESCAPE: u32 = 27;

/// A single key transition delivered by the windowing collaborator.
#[derive(Clone, Copy, PartialEq, Eq, Structural, Debug)]
pub enum InputEvent {
    Press(u32),
    Release(u32),
}

/// The held-key set after applying one transition to `held`.
pub open spec fn apply_event(held: Set<u32>, e: InputEvent) -> Set<u32> {
    match e {
        InputEvent::Press(k) => held.insert(k),
        InputEvent::Release(k) => held.remove(k),
    }
}

/// The held-key set after applying a whole cycle of transitions to `held`.
pub open spec fn apply_events(held: Set<u32>, evs: Seq<InputEvent>) -> Set<u32>
    decreases evs.len(),
{
    if evs.len() == 0 {
        held
    } else {
        apply_event(apply_events(held, evs.drop_last()), evs.last())
    }
}

/// The keys for which a press event occurs somewhere in `evs`.
pub open spec fn pressed_in(evs: Seq<InputEvent>) -> Set<u32>
    decreases evs.len(),
{
    if evs.len() == 0 {
        Set::empty()
    } else {
        match evs.last() {
            InputEvent::Press(k) => pressed_in(evs.drop_last()).insert(k),
            InputEvent::Release(_) => pressed_in(evs.drop_last()),
        }
    }
}

/// The keys for which a release event occurs somewhere in `evs`.
pub open spec fn released_in(evs: Seq<InputEvent>) -> Set<u32>
    decreases evs.len(),
{
    if evs.len() == 0 {
        Set::empty()
    } else {
        match evs.last() {
            InputEvent::Press(_) => released_in(evs.drop_last()),
            InputEvent::Release(k) => released_in(evs.drop_last()).insert(k),
        }
    }
}

/// Tracks which keys are currently held, and which were pressed or
/// released during the most recent event-processing cycle.
pub struct Input {
    keys_held: Vec<u32>,
    keys_just_pressed: Vec<u32>,
    keys_just_released: Vec<u32>,
}

impl Input {
    /// The set of keys currently held.
    pub closed spec fn held(&self) -> Set<u32> {
        self.keys_held@.to_set()
    }

    /// The set of keys pressed during the most recent cycle.
    pub closed spec fn just_pressed(&self) -> Set<u32> {
        self.keys_just_pressed@.to_set()
    }

    /// The set of keys released during the most recent cycle.
    pub closed spec fn just_released(&self) -> Set<u32> {
        self.keys_just_released@.to_set()
    }

    pub fn new() -> (r: Input)
        ensures
            r.held() == Set::<u32>::empty(),
            r.just_pressed() == Set::<u32>::empty(),
            r.just_released() == Set::<u32>::empty(),
    {
        let r = Input {
            keys_held: Vec::new(),
            keys_just_pressed: Vec::new(),
            keys_just_released: Vec::new(),
        };
        proof {
            assert(r.held() =~= Set::<u32>::empty());
            assert(r.just_pressed() =~= Set::<u32>::empty());
            assert(r.just_released() =~= Set::<u32>::empty());
        }
        r
    }

    /// Process one cycle: clear both transient sets, then apply every
    /// transition of `events` in order.
    pub fn update(&mut self, events: &Vec<InputEvent>)
        ensures
            final(self).held() == apply_events(old(self).held(), events@),
            final(self).just_pressed() == pressed_in(events@),
            final(self).just_released() == released_in(events@),
    {
        self.keys_just_pressed = Vec::new();
        self.keys_just_released = Vec::new();
        proof {
            assert(self.just_pressed() =~= pressed_in(events@.take(0)));
            assert(self.just_released() =~= released_in(events@.take(0)));
            assert(self.held() =~= apply_events(old(self).held(), events@.take(0)));
        }
        let n = events.len();
        let mut i: usize = 0;
        while i < n
            invariant
                n == events@.len(),
                i <= n,
                self.held() == apply_events(old(self).held(), events@.take(i as int)),
                self.just_pressed() == pressed_in(events@.take(i as int)),
                self.just_released() == released_in(events@.take(i as int)),
            decreases n - i,
        {
            proof {
                assert(events@.take(i + 1).drop_last() =~= events@.take(i as int));
                assert(events@.take(i + 1).last() == events@[i as int]);
            }
            match events[i] {
                InputEvent::Press(k) => {
                    if !contains_key(&self.keys_held, k) {
                        push_key(&mut self.keys_held, k);
                    } else {
                        proof {
                            assert(self.held().insert(k) =~= self.held());
                        }
                    }
                    push_key(&mut self.keys_just_pressed, k);
                }
                InputEvent::Release(k) => {
                    remove_key(&mut self.keys_held, k);
                    push_key(&mut self.keys_just_released, k);
                    proof {
                        assert(self.just_pressed() =~= pressed_in(events@.take(i + 1)));
                    }
                }
            }
            i = i + 1;
        }
        proof {
            assert(events@.take(n as int) =~= events@);
        }
    }

    /// Whether `key` is currently held.
    pub fn is_key_pressed(&self, key: u32) -> (r: bool)
        ensures
            r == self.held().contains(key),
    {
        contains_key(&self.keys_held, key)
    }

    /// Whether `key` was pressed during the most recent cycle.
    pub fn is_key_just_pressed(&self, key: u32) -> (r: bool)
        ensures
            r == self.just_pressed().contains(key),
    {
        contains_key(&self.keys_just_pressed, key)
    }

    /// Whether `key` was released during the most recent cycle.
    pub fn is_key_just_released(&self, key: u32) -> (r: bool)
        ensures
            r == self.just_released().contains(key),
    {
        contains_key(&self.keys_just_released, key)
    }
}

fn contains_key(v: &Vec<u32>, key: u32) -> (r: bool)
    ensures
        r == v@.to_set().contains(key),
{
    let n = v.len();
    let mut i: usize = 0;
    while i < n
        invariant
            n == v@.len(),
            i <= n,
            forall|j: int| 0 <= j < i ==> v@[j] != key,
        decreases n - i,
    {
        if v[i] == key {
            return true;
        }
        i = i + 1;
    }
    false
}

fn push_key(v: &mut Vec<u32>, key: u32)
    ensures
        final(v)@.to_set() == old(v)@.to_set().insert(key),
{
    v.push(key);
    proof {
        assert forall|x: u32| #[trigger] v@.to_set().contains(x)
            <==> old(v)@.to_set().insert(key).contains(x) by {
            if x == key {
                assert(v@[v@.len() - 1] == key);
                assert(v@.contains(key));
            } else {
                if old(v)@.contains(x) {
                    let j = choose|j: int| 0 <= j < old(v)@.len() && old(v)@[j] == x;
                    assert(v@[j] == x);
                }
                if v@.contains(x) {
                    let j = choose|j: int| 0 <= j < v@.len() && v@[j] == x;
                    assert(old(v)@[j] == x);
                }
            }
        }
        assert(v@.to_set() =~= old(v)@.to_set().insert(key));
    }
}

fn remove_key(v: &mut Vec<u32>, key: u32)
    ensures
        final(v)@.to_set() == old(v)@.to_set().remove(key),
{
    let n = v.len();
    let mut out: Vec<u32> = Vec::new();
    let mut i: usize = 0;
    while i < n
        invariant
            n == v@.len(),
            i <= n,
            v@ == old(v)@,
            forall|x: u32| #[trigger] out@.to_set().contains(x)
                <==> (v@.take(i as int).to_set().contains(x) && x != key),
        decreases n - i,
    {
        proof {
            assert(v@.take(i + 1).drop_last() =~= v@.take(i as int));
            assert(v@.take(i + 1).last() == v@[i as int]);
            assert forall|x: u32| #[trigger] v@.take(i + 1).to_set().contains(x)
                <==> (v@.take(i as int).to_set().contains(x) || x == v@[i as int]) by {
                if v@.take(i + 1).contains(x) {
                    let j = choose|j: int| 0 <= j < i + 1 && #[trigger] v@.take(i + 1)[j] == x;
                    if j < i {
                        assert(v@.take(i as int)[j] == x);
                    }
                }
                if v@.take(i as int).contains(x) {
                    let j = choose|j: int| 0 <= j < i && v@.take(i as int)[j] == x;
                    assert(v@.take(i + 1)[j] == x);
                }
                if x == v@[i as int] {
                    assert(v@.take(i + 1)[i as int] == x);
                }
            }
        }
        if v[i] != key {
            push_key(&mut out, v[i]);
        }
        i = i + 1;
    }
    proof {
        assert(v@.take(n as int) =~= v@);
        assert(out@.to_set() =~= old(v)@.to_set().remove(key));
    }
    *v = out;
}

/// After any cycle, the just-pressed set holds exactly the keys that
/// received a press event in that cycle: no fewer and no more.
pub proof fn lemma_just_pressed_exact(evs: Seq<InputEvent>, k: u32)
    ensures
        pressed_in(evs).contains(k) <==> exists|i: int|
            0 <= i < evs.len() && evs[i] == InputEvent::Press(k),
    decreases evs.len(),
{
    if evs.len() > 0 {
        lemma_just_pressed_exact(evs.drop_last(), k);
        if exists|i: int| 0 <= i < evs.drop_last().len() && evs.drop_last()[i] == InputEvent::Press(k) {
            let i = choose|i: int|
                0 <= i < evs.drop_last().len() && evs.drop_last()[i] == InputEvent::Press(k);
            assert(evs[i] == InputEvent::Press(k));
        }
        if evs.last() == InputEvent::Press(k) {
            assert(evs[evs.len() - 1] == InputEvent::Press(k));
        }
        if exists|i: int| 0 <= i < evs.len() && evs[i] == InputEvent::Press(k) {
            let i = choose|i: int| 0 <= i < evs.len() && evs[i] == InputEvent::Press(k);
            if i < evs.len() - 1 {
                assert(evs.drop_last()[i] == InputEvent::Press(k));
            }
        }
    }
}

/// The released counterpart: the just-released set holds exactly the keys
/// that received a release event in the cycle.
pub proof fn lemma_just_released_exact(evs: Seq<InputEvent>, k: u32)
    ensures
        released_in(evs).contains(k) <==> exists|i: int|
            0 <= i < evs.len() && evs[i] == InputEvent::Release(k),
    decreases evs.len(),
{
    if evs.len() > 0 {
        lemma_just_released_exact(evs.drop_last(), k);
        if exists|i: int| 0 <= i < evs.drop_last().len() && evs.drop_last()[i]
            == InputEvent::Release(k) {
            let i = choose|i: int|
                0 <= i < evs.drop_last().len() && evs.drop_last()[i] == InputEvent::Release(k);
            assert(evs[i] == InputEvent::Release(k));
        }
        if evs.last() == InputEvent::Release(k) {
            assert(evs[evs.len() - 1] == InputEvent::Release(k));
        }
        if exists|i: int| 0 <= i < evs.len() && evs[i] == InputEvent::Release(k) {
            let i = choose|i: int| 0 <= i < evs.len() && evs[i] == InputEvent::Release(k);
            if i < evs.len() - 1 {
                assert(evs.drop_last()[i] == InputEvent::Release(k));
            }
        }
    }
}

/// A key is held immediately after a press event for it, and not held
/// immediately after a release event for it, whatever the prior history.
pub proof fn lemma_held_reflects_latest(held: Set<u32>, evs: Seq<InputEvent>, k: u32)
    ensures
        apply_events(held, evs.push(InputEvent::Press(k))).contains(k),
        !apply_events(held, evs.push(InputEvent::Release(k))).contains(k),
{
    assert(evs.push(InputEvent::Press(k)).drop_last() =~= evs);
    assert(evs.push(InputEvent::Release(k)).drop_last() =~= evs);
    assert(evs.push(InputEvent::Press(k)).last() == InputEvent::Press(k));
    assert(evs.push(InputEvent::Release(k)).last() == InputEvent::Release(k));
}

/// A cycle that delivers no events leaves the held set unchanged and
/// both transient sets empty.
pub proof fn lemma_update_without_events(held: Set<u32>)
    ensures
        apply_events(held, Seq::<InputEvent>::empty()) == held,
        pressed_in(Seq::<InputEvent>::empty()) == Set::<u32>::empty(),
        released_in(Seq::<InputEvent>::empty()) == Set::<u32>::empty(),
{
}

} // verus!
