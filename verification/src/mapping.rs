//! Keyboard and mouse output driven by controller buttons: which keys and
//! mouse buttons should be held, and the press and release events that take
//! the held set there.
//!
//! The events themselves are posted by the platform layer, one at a time;
//! after each one that was posted the mapper records it, so a failed post
//! leaves the mapper holding exactly what the system holds.
use vstd::prelude::*;

use crate::model::{Button, GamepadState, KeyboardKey};
use crate::profile::{KeyboardBinding, KeyboardMappingProfile};

verus! {

/// One key going down or up.
#[derive(Clone, Copy, Debug, PartialEq, Eq, Structural)]
pub struct KeyEvent {
    pub key: KeyboardKey,
    pub pressed: bool,
}

/// Why mapped output cannot be posted.
#[derive(Clone, Copy, Debug, PartialEq, Eq, Structural)]
pub enum MappingError {
    /// The system has not granted the right to post input events.
    AccessibilityRequired,
}

impl MappingError {
    pub open spec fn spec_message(self) -> Seq<char> {
        "grant Accessibility access to DualSenseTUI in System Settings"@
    }

    /// The sentence shown to the user.
    pub fn message(&self) -> (r: String)
        ensures
            r@ == self.spec_message(),
    {
        crate::text::string_of("grant Accessibility access to DualSenseTUI in System Settings")
    }
}

/// Whether a binding asks for its key now: it has a key and its button is
/// pressed.
pub open spec fn binding_fires(state: GamepadState, b: KeyboardBinding) -> bool {
    b.to != KeyboardKey::Disabled && state.buttons@.contains(b.from)
}

/// Whether some firing binding asks for `key`.
pub open spec fn is_desired_key(state: GamepadState, bindings: Seq<KeyboardBinding>, key: KeyboardKey) -> bool {
    exists|i: int| 0 <= i < bindings.len() && binding_fires(state, #[trigger] bindings[i]) && bindings[i].to == key
}

fn contains_key(keys: &Vec<KeyboardKey>, key: KeyboardKey) -> (r: bool)
    ensures
        r == keys@.contains(key),
{
    let mut i: usize = 0;
    while i < keys.len()
        invariant
            i <= keys.len(),
            forall|j: int| 0 <= j < i ==> keys@[j] != key,
        decreases keys.len() - i,
    {
        if keys[i] == key {
            assert(keys@[i as int] == key);
            return true;
        }
        i = i + 1;
    }
    false
}

/// The keys the profile asks to hold for this controller state, each once:
/// those of the bindings whose button is pressed, except "no key".
pub fn desired_keys(state: &GamepadState, profile: &KeyboardMappingProfile) -> (r: Vec<KeyboardKey>)
    ensures
        r@.no_duplicates(),
        forall|k: KeyboardKey| r@.contains(k) <==> is_desired_key(*state, profile.bindings@, k),
{
    let bindings = &profile.bindings;
    let mut r: Vec<KeyboardKey> = Vec::new();
    let mut i: usize = 0;
    while i < bindings.len()
        invariant
            i <= bindings.len(),
            bindings@ == profile.bindings@,
            r@.no_duplicates(),
            forall|k: KeyboardKey|
                r@.contains(k) <==> is_desired_key(*state, bindings@.take(i as int), k),
        decreases bindings.len() - i,
    {
        let b = bindings[i];
        let fires = !b.to.is_disabled() && state.is_pressed(b.from);
        let ghost before = r@;
        assert(forall|k: KeyboardKey|
            before.contains(k) <==> is_desired_key(*state, bindings@.take(i as int), k));
        if fires && !contains_key(&r, b.to) {
            r.push(b.to);
        }
        assert forall|k: KeyboardKey| r@.contains(k) <==> is_desired_key(
            *state,
            bindings@.take(i + 1),
            k,
        ) by {
            let t = bindings@.take(i + 1);
            let prev = bindings@.take(i as int);
            assert(t[i as int] == b);
            if is_desired_key(*state, t, k) {
                let w = choose|w: int|
                    0 <= w < t.len() && binding_fires(*state, #[trigger] t[w]) && t[w].to == k;
                if w < i {
                    assert(prev[w] == t[w]);
                    assert(binding_fires(*state, prev[w]) && prev[w].to == k);
                    assert(before.contains(k));
                    let v = choose|v: int| 0 <= v < before.len() && before[v] == k;
                    assert(r@[v] == k);
                } else {
                    assert(t[w] == b);
                    assert(fires);
                    if before.contains(k) {
                        let v = choose|v: int| 0 <= v < before.len() && before[v] == k;
                        assert(r@[v] == k);
                    } else {
                        assert(r@[r@.len() - 1] == k);
                    }
                }
            }
            if r@.contains(k) {
                let v = choose|v: int| 0 <= v < r@.len() && r@[v] == k;
                if v < before.len() {
                    assert(before[v] == k);
                    assert(before.contains(k));
                    assert(is_desired_key(*state, prev, k));
                    let w = choose|w: int|
                        0 <= w < prev.len() && binding_fires(*state, #[trigger] prev[w]) && prev[w].to
                            == k;
                    assert(t[w] == prev[w]);
                    assert(binding_fires(*state, t[w]) && t[w].to == k);
                } else {
                    assert(k == b.to);
                    assert(binding_fires(*state, t[i as int]) && t[i as int].to == k);
                }
            }
        }
        i = i + 1;
    }
    assert(bindings@.take(bindings@.len() as int) =~= bindings@);
    r
}

/// Releases for the held keys that are not wanted, in the order held.
pub open spec fn release_events(held: Seq<KeyboardKey>, desired: Seq<KeyboardKey>) -> Seq<KeyEvent>
    decreases held.len(),
{
    if held.len() == 0 {
        seq![]
    } else if desired.contains(held.last()) {
        release_events(held.drop_last(), desired)
    } else {
        release_events(held.drop_last(), desired).push(KeyEvent { key: held.last(), pressed: false })
    }
}

/// Presses for the wanted keys that are not held, in the order wanted.
pub open spec fn press_events(desired: Seq<KeyboardKey>, held: Seq<KeyboardKey>) -> Seq<KeyEvent>
    decreases desired.len(),
{
    if desired.len() == 0 {
        seq![]
    } else if held.contains(desired.last()) {
        press_events(desired.drop_last(), held)
    } else {
        press_events(desired.drop_last(), held).push(KeyEvent { key: desired.last(), pressed: true })
    }
}

/// The held keys after the events, applied in turn.
pub open spec fn apply_key_events(held: Set<KeyboardKey>, events: Seq<KeyEvent>) -> Set<KeyboardKey>
    decreases events.len(),
{
    if events.len() == 0 {
        held
    } else {
        let before = apply_key_events(held, events.drop_last());
        let e = events.last();
        if e.pressed {
            before.insert(e.key)
        } else {
            before.remove(e.key)
        }
    }
}

/// The keys held down on behalf of the controller.
pub struct KeyboardMapper {
    pressed: Vec<KeyboardKey>,
}

impl View for KeyboardMapper {
    type V = Set<KeyboardKey>;

    closed spec fn view(&self) -> Set<KeyboardKey> {
        self.pressed@.to_set()
    }
}

impl KeyboardMapper {
    /// No key is held twice.
    pub closed spec fn wf(self) -> bool {
        self.pressed@.no_duplicates()
    }

    /// The held keys, in the order they went down.
    pub closed spec fn held_order(self) -> Seq<KeyboardKey> {
        self.pressed@
    }

    /// The held keys in order are the held keys.
    pub proof fn lemma_held_order(self)
        ensures
            self.held_order().to_set() == self@,
    {
    }

    /// A well-formed mapper holds each key once in its order.
    pub proof fn lemma_held_order_no_duplicates(self)
        requires
            self.wf(),
        ensures
            self.held_order().no_duplicates(),
    {
    }

    /// A mapper holding no key.
    pub fn new() -> (r: Self)
        ensures
            r.wf(),
            r@ == Set::<KeyboardKey>::empty(),
            r.held_order() == Seq::<KeyboardKey>::empty(),
    {
        let r = KeyboardMapper { pressed: Vec::new() };
        assert(r.pressed@.to_set() =~= Set::<KeyboardKey>::empty());
        r
    }

    /// Whether `key` is held.
    pub fn is_held(&self, key: KeyboardKey) -> (r: bool)
        ensures
            r == self@.contains(key),
    {
        contains_key(&self.pressed, key)
    }

    /// The events that take the held keys to `desired`: first the releases
    /// of held keys that are not wanted, then the presses of wanted keys that
    /// are not held.
    pub fn plan_transition(&self, desired: &Vec<KeyboardKey>) -> (r: Vec<KeyEvent>)
        ensures
            r@ == release_events(self.held_order(), desired@) + press_events(
                desired@,
                self.held_order(),
            ),
    {
        let mut r: Vec<KeyEvent> = Vec::new();
        let mut i: usize = 0;
        while i < self.pressed.len()
            invariant
                i <= self.pressed.len(),
                r@ == release_events(self.pressed@.take(i as int), desired@),
            decreases self.pressed.len() - i,
        {
            let k = self.pressed[i];
            assert(self.pressed@.take(i + 1).drop_last() =~= self.pressed@.take(i as int));
            if !contains_key(desired, k) {
                r.push(KeyEvent { key: k, pressed: false });
            }
            i = i + 1;
        }
        assert(self.pressed@.take(self.pressed@.len() as int) =~= self.pressed@);
        let ghost releases = r@;
        let mut p: Vec<KeyEvent> = Vec::new();
        let mut j: usize = 0;
        while j < desired.len()
            invariant
                j <= desired.len(),
                p@ == press_events(desired@.take(j as int), self.pressed@),
            decreases desired.len() - j,
        {
            let k = desired[j];
            assert(desired@.take(j + 1).drop_last() =~= desired@.take(j as int));
            if !contains_key(&self.pressed, k) {
                p.push(KeyEvent { key: k, pressed: true });
            }
            j = j + 1;
        }
        assert(desired@.take(desired@.len() as int) =~= desired@);
        r.append(&mut p);
        r
    }

    /// Notes that `event` was posted: a newly pressed key goes to the end of
    /// the held keys, a released one leaves its place.
    pub fn record(&mut self, event: KeyEvent)
        requires
            old(self).wf(),
        ensures
            final(self).wf(),
            final(self)@ == (if event.pressed {
                old(self)@.insert(event.key)
            } else {
                old(self)@.remove(event.key)
            }),
            final(self).held_order() == (if old(self)@.contains(event.key) == event.pressed {
                old(self).held_order()
            } else if event.pressed {
                old(self).held_order().push(event.key)
            } else {
                old(self).held_order().remove(old(self).held_order().index_of(event.key))
            }),
    {
        let ghost before = self.pressed@;
        let mut i: usize = 0;
        while i < self.pressed.len() && self.pressed[i] != event.key
            invariant
                i <= self.pressed.len(),
                self.pressed@ == before,
                forall|j: int| 0 <= j < i ==> self.pressed@[j] != event.key,
            decreases self.pressed.len() - i,
        {
            i = i + 1;
        }
        if i < self.pressed.len() {
            if !event.pressed {
                let ghost s = self.pressed@;
                let mut pressed: Vec<KeyboardKey> = self.pressed.clone();
                assert(pressed@ == s);
                pressed.remove(i);
                proof {
                    assert(s[i as int] == event.key);
                    assert(s.contains(event.key));
                    let w = s.index_of(event.key);
                    assert(0 <= w < s.len() && s[w] == event.key);
                    assert(w == i);
                    assert(pressed@ == s.remove(i as int));
                    assert forall|a: KeyboardKey| pressed@.contains(a) <==> (s.contains(a) && a
                        != event.key) by {
                        if pressed@.contains(a) {
                            let w = choose|w: int| 0 <= w < pressed@.len() && pressed@[w] == a;
                            if w < i {
                                assert(s[w] == a);
                            } else {
                                assert(s[w + 1] == a);
                            }
                        }
                        if s.contains(a) && a != event.key {
                            let w = choose|w: int| 0 <= w < s.len() && s[w] == a;
                            if w < i {
                                assert(pressed@[w] == a);
                            } else {
                                assert(w != i);
                                assert(pressed@[w - 1] == a);
                            }
                        }
                    }
                    assert(pressed@.to_set() =~= s.to_set().remove(event.key));
                    assert forall|a: int, b: int|
                        0 <= a < pressed@.len() && 0 <= b < pressed@.len() && a != b implies pressed@[a]
                        != pressed@[b] by {
                        let a2 = if a < i { a } else { a + 1 };
                        let b2 = if b < i { b } else { b + 1 };
                        assert(pressed@[a] == s[a2] && pressed@[b] == s[b2]);
                    }
                }
                self.pressed = pressed;
            } else {
                proof {
                    assert(self.pressed@[i as int] == event.key);
                    assert(before[i as int] == event.key);
                    assert(before.contains(event.key));
                    assert(self.pressed@.to_set() =~= before.to_set().insert(event.key));
                }
            }
        } else {
            if event.pressed {
                self.pressed.push(event.key);
                proof {
                    assert(self.pressed@ == before.push(event.key));
                    assert forall|a: KeyboardKey| #[trigger] self.pressed@.to_set().contains(a) <==> before.to_set().insert(event.key).contains(a) by {
                        if self.pressed@.contains(a) {
                            let w = choose|w: int|
                                0 <= w < self.pressed@.len() && self.pressed@[w] == a;
                            if w < before.len() {
                                assert(before[w] == a);
                            }
                        }
                        if before.contains(a) {
                            let w = choose|w: int| 0 <= w < before.len() && before[w] == a;
                            assert(self.pressed@[w] == a);
                        }
                        if a == event.key {
                            assert(self.pressed@[before.len() as int] == a);
                        }
                    }
                    assert(self.pressed@.to_set() =~= before.to_set().insert(event.key));
                }
            } else {
                proof {
                    assert(self.pressed@.to_set() =~= before.to_set().remove(event.key));
                }
            }
        }
    }

    /// The events for the current controller state.
    ///
    /// With output disabled every held key is released; with output enabled
    /// but not permitted nothing is posted; otherwise the held keys follow
    /// the bindings.
    pub fn sync(&self, state: &GamepadState, profile: &KeyboardMappingProfile, can_post_events: bool) -> (r: Result<Vec<KeyEvent>, MappingError>)
        ensures
            !profile.enabled ==> r == Ok::<Vec<KeyEvent>, MappingError>(r->Ok_0) && r->Ok_0@
                == release_events(self.held_order(), seq![]),
            profile.enabled && !can_post_events ==> r == Err::<Vec<KeyEvent>, MappingError>(
                MappingError::AccessibilityRequired,
            ),
            profile.enabled && can_post_events ==> exists|desired: Seq<KeyboardKey>|
                {
                    &&& desired.no_duplicates()
                    &&& forall|k: KeyboardKey| #[trigger]
                        desired.contains(k) <==> is_desired_key(*state, profile.bindings@, k)
                    &&& r is Ok
                    &&& r->Ok_0@ == release_events(self.held_order(), desired) + press_events(
                        desired,
                        self.held_order(),
                    )
                },
    {
        if !profile.enabled {
            let r = self.release_all();
            return Ok(r);
        }
        if !can_post_events {
            return Err(MappingError::AccessibilityRequired);
        }
        let desired = desired_keys(state, profile);
        let r = self.plan_transition(&desired);
        assert(desired@.no_duplicates());
        Ok(r)
    }

    /// The events that release every held key.
    pub fn release_all(&self) -> (r: Vec<KeyEvent>)
        ensures
            r@ == release_events(self.held_order(), seq![]),
    {
        let none: Vec<KeyboardKey> = Vec::new();
        let r = self.plan_transition(&none);
        assert(press_events(none@, self.held_order()) =~= seq![]);
        assert(r@ =~= release_events(self.held_order(), seq![]));
        r
    }
}

proof fn lemma_apply_key_events_concat(held: Set<KeyboardKey>, a: Seq<KeyEvent>, b: Seq<KeyEvent>)
    ensures
        apply_key_events(held, a + b) == apply_key_events(apply_key_events(held, a), b),
    decreases b.len(),
{
    if b.len() == 0 {
        assert(a + b =~= a);
    } else {
        lemma_apply_key_events_concat(held, a, b.drop_last());
        assert((a + b).drop_last() =~= a + b.drop_last());
    }
}

proof fn lemma_apply_releases(start: Set<KeyboardKey>, held: Seq<KeyboardKey>, desired: Seq<KeyboardKey>)
    ensures
        apply_key_events(start, release_events(held, desired)) == start.filter(
            |k: KeyboardKey| !(held.contains(k) && !desired.contains(k)),
        ),
    decreases held.len(),
{
    if held.len() == 0 {
        assert(start.filter(|k: KeyboardKey| !(held.contains(k) && !desired.contains(k))) =~= start);
    } else {
        lemma_apply_releases(start, held.drop_last(), desired);
        let prev = release_events(held.drop_last(), desired);
        let x = held.last();
        assert forall|k: KeyboardKey| #[trigger] held.contains(k) <==> (held.drop_last().contains(k)
            || k == x) by {
            if held.contains(k) {
                let w = choose|w: int| 0 <= w < held.len() && held[w] == k;
                if w < held.len() - 1 {
                    assert(held.drop_last()[w] == k);
                }
            }
            if held.drop_last().contains(k) {
                let w = choose|w: int| 0 <= w < held.drop_last().len() && held.drop_last()[w] == k;
                assert(held[w] == k);
            }
            if k == x {
                assert(held[held.len() - 1] == k);
            }
        }
        if !desired.contains(x) {
            assert(release_events(held, desired).drop_last() == prev);
        }
        assert(apply_key_events(start, release_events(held, desired)) =~= start.filter(
            |k: KeyboardKey| !(held.contains(k) && !desired.contains(k)),
        ));
    }
}

proof fn lemma_apply_presses(start: Set<KeyboardKey>, desired: Seq<KeyboardKey>, held: Seq<KeyboardKey>)
    ensures
        apply_key_events(start, press_events(desired, held)) == start.union(
            desired.to_set().filter(|k: KeyboardKey| !held.contains(k)),
        ),
    decreases desired.len(),
{
    if desired.len() == 0 {
        assert(start.union(desired.to_set().filter(|k: KeyboardKey| !held.contains(k))) =~= start);
    } else {
        lemma_apply_presses(start, desired.drop_last(), held);
        let x = desired.last();
        if !held.contains(x) {
            assert(press_events(desired, held).drop_last() == press_events(desired.drop_last(), held));
        }
        assert forall|k: KeyboardKey| #[trigger] desired.contains(k) <==> (
        desired.drop_last().contains(k) || k == x) by {
            if desired.contains(k) {
                let w = choose|w: int| 0 <= w < desired.len() && desired[w] == k;
                if w < desired.len() - 1 {
                    assert(desired.drop_last()[w] == k);
                }
            }
            if desired.drop_last().contains(k) {
                let w = choose|w: int|
                    0 <= w < desired.drop_last().len() && desired.drop_last()[w] == k;
                assert(desired[w] == k);
            }
            if k == x {
                assert(desired[desired.len() - 1] == k);
            }
        }
        assert(apply_key_events(start, press_events(desired, held)) =~= start.union(
            desired.to_set().filter(|k: KeyboardKey| !held.contains(k)),
        ));
    }
}

/// Posting every event of a transition, in order, leaves held exactly the
/// wanted keys: a key that was held and is still wanted is never released,
/// and nothing else remains held.
pub proof fn lemma_transition_reaches_desired(held: Seq<KeyboardKey>, desired: Seq<KeyboardKey>)
    ensures
        apply_key_events(
            held.to_set(),
            release_events(held, desired) + press_events(desired, held),
        ) == desired.to_set(),
        forall|i: int|
            0 <= i < release_events(held, desired).len() ==> {
                let e = #[trigger] release_events(held, desired)[i];
                !e.pressed && held.contains(e.key) && !desired.contains(e.key)
            },
{
    lemma_apply_key_events_concat(
        held.to_set(),
        release_events(held, desired),
        press_events(desired, held),
    );
    let after = held.to_set().filter(|k: KeyboardKey| !(held.contains(k) && !desired.contains(k)));
    lemma_apply_releases(held.to_set(), held, desired);
    lemma_apply_presses(after, desired, held);
    assert(after.union(desired.to_set().filter(|k: KeyboardKey| !held.contains(k)))
        =~= desired.to_set());
    lemma_release_events_shape(held, desired);
}

proof fn lemma_release_events_shape(held: Seq<KeyboardKey>, desired: Seq<KeyboardKey>)
    ensures
        forall|i: int|
            0 <= i < release_events(held, desired).len() ==> {
                let e = #[trigger] release_events(held, desired)[i];
                !e.pressed && held.contains(e.key) && !desired.contains(e.key)
            },
    decreases held.len(),
{
    if held.len() > 0 {
        lemma_release_events_shape(held.drop_last(), desired);
        let prev = release_events(held.drop_last(), desired);
        assert forall|i: int| 0 <= i < release_events(held, desired).len() implies {
            let e = #[trigger] release_events(held, desired)[i];
            !e.pressed && held.contains(e.key) && !desired.contains(e.key)
        } by {
            if i < prev.len() {
                let e = prev[i];
                assert(release_events(held, desired)[i] == e);
                let w = choose|w: int| 0 <= w < held.drop_last().len() && held.drop_last()[w] == e.key;
                assert(held[w] == e.key);
            } else {
                assert(held[held.len() - 1] == held.last());
            }
        }
    }
}

/// The releases of a transition are exactly the held keys that are not
/// wanted, each released once, and nothing is pressed.
pub proof fn lemma_release_events_each_once(held: Seq<KeyboardKey>, desired: Seq<KeyboardKey>)
    requires
        held.no_duplicates(),
    ensures
        forall|i: int|
            0 <= i < release_events(held, desired).len() ==> {
                let e = #[trigger] release_events(held, desired)[i];
                !e.pressed && held.contains(e.key) && !desired.contains(e.key)
            },
        forall|k: KeyboardKey|
            held.contains(k) && !desired.contains(k) ==> exists|i: int|
                0 <= i < release_events(held, desired).len() && #[trigger] release_events(held, desired)[i].key
                    == k,
        forall|i: int, j: int|
            0 <= i < j < release_events(held, desired).len() ==> #[trigger] release_events(held, desired)[i].key
                != #[trigger] release_events(held, desired)[j].key,
    decreases held.len(),
{
    lemma_release_events_shape(held, desired);
    if held.len() > 0 {
        let rest = held.drop_last();
        let last = held.last();
        assert(rest.no_duplicates());
        lemma_release_events_each_once(rest, desired);
        let prev = release_events(rest, desired);
        let r = release_events(held, desired);
        assert(!rest.contains(last)) by {
            if rest.contains(last) {
                let w = choose|w: int| 0 <= w < rest.len() && rest[w] == last;
                assert(held[w] == held[held.len() - 1]);
            }
        }
        assert forall|k: KeyboardKey| held.contains(k) && !desired.contains(k) implies exists|i: int|
            0 <= i < r.len() && #[trigger] r[i].key == k by {
            let w = choose|w: int| 0 <= w < held.len() && held[w] == k;
            if w == held.len() - 1 {
                assert(r[r.len() - 1].key == k);
            } else {
                assert(rest[w] == k);
                assert(rest.contains(k));
                let i = choose|i: int| 0 <= i < prev.len() && #[trigger] prev[i].key == k;
                assert(r[i] == prev[i]);
            }
        }
        assert forall|i: int, j: int| 0 <= i < j < r.len() implies #[trigger] r[i].key != #[trigger] r[j].key by {
            if j < prev.len() {
                assert(r[i] == prev[i] && r[j] == prev[j]);
            } else {
                assert(r[i] == prev[i]);
                assert(rest.contains(prev[i].key));
                assert(r[j].key == last);
            }
        }
    }
}

/// The presses of a transition are exactly the wanted keys that are not
/// held, each pressed once.
pub proof fn lemma_press_events_each_once(desired: Seq<KeyboardKey>, held: Seq<KeyboardKey>)
    requires
        desired.no_duplicates(),
    ensures
        forall|i: int|
            0 <= i < press_events(desired, held).len() ==> {
                let e = #[trigger] press_events(desired, held)[i];
                e.pressed && desired.contains(e.key) && !held.contains(e.key)
            },
        forall|k: KeyboardKey|
            desired.contains(k) && !held.contains(k) ==> exists|i: int|
                0 <= i < press_events(desired, held).len() && #[trigger] press_events(desired, held)[i].key
                    == k,
        forall|i: int, j: int|
            0 <= i < j < press_events(desired, held).len() ==> #[trigger] press_events(desired, held)[i].key
                != #[trigger] press_events(desired, held)[j].key,
    decreases desired.len(),
{
    if desired.len() > 0 {
        let rest = desired.drop_last();
        let last = desired.last();
        assert(rest.no_duplicates());
        lemma_press_events_each_once(rest, held);
        let prev = press_events(rest, held);
        let r = press_events(desired, held);
        assert(!rest.contains(last)) by {
            if rest.contains(last) {
                let w = choose|w: int| 0 <= w < rest.len() && rest[w] == last;
                assert(desired[w] == desired[desired.len() - 1]);
            }
        }
        assert forall|i: int| 0 <= i < r.len() implies {
            let e = #[trigger] r[i];
            e.pressed && desired.contains(e.key) && !held.contains(e.key)
        } by {
            if i < prev.len() {
                assert(r[i] == prev[i]);
                let w = choose|w: int| 0 <= w < rest.len() && rest[w] == prev[i].key;
                assert(desired[w] == prev[i].key);
            } else {
                assert(desired[desired.len() - 1] == last);
            }
        }
        assert forall|k: KeyboardKey| desired.contains(k) && !held.contains(k) implies exists|i: int|
            0 <= i < r.len() && #[trigger] r[i].key == k by {
            let w = choose|w: int| 0 <= w < desired.len() && desired[w] == k;
            if w == desired.len() - 1 {
                assert(r[r.len() - 1].key == k);
            } else {
                assert(rest[w] == k);
                assert(rest.contains(k));
                let i = choose|i: int| 0 <= i < prev.len() && #[trigger] prev[i].key == k;
                assert(r[i] == prev[i]);
            }
        }
        assert forall|i: int, j: int| 0 <= i < j < r.len() implies #[trigger] r[i].key != #[trigger] r[j].key by {
            if j < prev.len() {
                assert(r[i] == prev[i] && r[j] == prev[j]);
            } else {
                assert(r[i] == prev[i]);
                assert(rest.contains(prev[i].key));
                assert(r[j].key == last);
            }
        }
    }
}

/// Releasing everything leaves no key held.
pub proof fn lemma_release_all_leaves_nothing_held(held: Seq<KeyboardKey>)
    ensures
        apply_key_events(held.to_set(), release_events(held, seq![])) == Set::<KeyboardKey>::empty(),
{
    lemma_transition_reaches_desired(held, seq![]);
    assert(press_events(seq![], held) =~= seq![]);
    assert(release_events(held, seq![]) + press_events(seq![], held) =~= release_events(held, seq![]));
    assert(Seq::<KeyboardKey>::empty().to_set() =~= Set::<KeyboardKey>::empty());
}

/// Releasing everything releases each held key once, in the order held.
proof fn lemma_release_events_all(held: Seq<KeyboardKey>)
    ensures
        release_events(held, seq![]) == Seq::new(
            held.len(),
            |i: int| KeyEvent { key: held[i], pressed: false },
        ),
    decreases held.len(),
{
    if held.len() > 0 {
        lemma_release_events_all(held.drop_last());
    }
    assert(release_events(held, seq![]) =~= Seq::new(
        held.len(),
        |i: int| KeyEvent { key: held[i], pressed: false },
    ));
}

/// When posting stops part-way through releasing everything, after the
/// first `k` releases exactly the keys from the `k`-th on are still held:
/// the key that failed and every key not yet released.
pub proof fn lemma_release_prefix_leaves_the_rest_held(held: Seq<KeyboardKey>, k: int)
    requires
        held.no_duplicates(),
        0 <= k <= held.len(),
    ensures
        release_events(held, seq![]).len() == held.len(),
        forall|i: int|
            0 <= i < held.len() ==> #[trigger] release_events(held, seq![])[i] == (KeyEvent {
                key: held[i],
                pressed: false,
            }),
        apply_key_events(held.to_set(), release_events(held, seq![]).take(k)) == held.skip(k).to_set(),
    decreases k,
{
    lemma_release_events_all(held);
    let events = release_events(held, seq![]);
    if k == 0 {
        assert(events.take(0) =~= Seq::<KeyEvent>::empty());
        assert(held.skip(0) =~= held);
    } else {
        lemma_release_prefix_leaves_the_rest_held(held, k - 1);
        assert(events.take(k).drop_last() =~= events.take(k - 1));
        assert(events.take(k).last() == events[k - 1]);
        let before = held.skip(k - 1).to_set();
        assert(before.remove(held[k - 1]) =~= held.skip(k).to_set()) by {
            assert forall|x: KeyboardKey| before.remove(held[k - 1]).contains(x)
                <==> held.skip(k).to_set().contains(x) by {
                if held.skip(k).contains(x) {
                    let rest = held.skip(k);
                    let w = choose|w: int| 0 <= w < rest.len() && rest[w] == x;
                    assert(held[k + w] == x);
                    assert(held.skip(k - 1)[w + 1] == x);
                    assert(k + w != k - 1);
                }
                if held.skip(k - 1).contains(x) && x != held[k - 1] {
                    let rest = held.skip(k - 1);
                    let w = choose|w: int| 0 <= w < rest.len() && rest[w] == x;
                    assert(held[k - 1 + w] == x);
                    assert(w != 0);
                    assert(held.skip(k)[w - 1] == x);
                }
            }
        }
    }
}

// ---------------------------------------------------------------------------
// Mouse buttons
// ---------------------------------------------------------------------------

/// The macOS virtual key code a key is posted with; "no key" has none.
pub open spec fn spec_virtual_key_code(key: KeyboardKey) -> Option<u16> {
    match key {
        KeyboardKey::Disabled => None,
        KeyboardKey::A => Some(0u16),
        KeyboardKey::S => Some(1u16),
        KeyboardKey::D => Some(2u16),
        KeyboardKey::F => Some(3u16),
        KeyboardKey::Q => Some(12u16),
        KeyboardKey::W => Some(13u16),
        KeyboardKey::E => Some(14u16),
        KeyboardKey::R => Some(15u16),
        KeyboardKey::Key1 => Some(18u16),
        KeyboardKey::Key2 => Some(19u16),
        KeyboardKey::Key3 => Some(20u16),
        KeyboardKey::Key4 => Some(21u16),
        KeyboardKey::Return => Some(36u16),
        KeyboardKey::Tab => Some(48u16),
        KeyboardKey::Space => Some(49u16),
        KeyboardKey::Escape => Some(53u16),
        KeyboardKey::Shift => Some(56u16),
        KeyboardKey::Option => Some(58u16),
        KeyboardKey::Control => Some(59u16),
        KeyboardKey::Left => Some(123u16),
        KeyboardKey::Right => Some(124u16),
        KeyboardKey::Down => Some(125u16),
        KeyboardKey::Up => Some(126u16),
    }
}

/// The macOS virtual key code a key is posted with.
pub fn virtual_key_code(key: KeyboardKey) -> (r: Option<u16>)
    ensures
        r == spec_virtual_key_code(key),
{
    match key {
        KeyboardKey::Disabled => None,
        KeyboardKey::A => Some(0),
        KeyboardKey::S => Some(1),
        KeyboardKey::D => Some(2),
        KeyboardKey::F => Some(3),
        KeyboardKey::Q => Some(12),
        KeyboardKey::W => Some(13),
        KeyboardKey::E => Some(14),
        KeyboardKey::R => Some(15),
        KeyboardKey::Key1 => Some(18),
        KeyboardKey::Key2 => Some(19),
        KeyboardKey::Key3 => Some(20),
        KeyboardKey::Key4 => Some(21),
        KeyboardKey::Return => Some(36),
        KeyboardKey::Tab => Some(48),
        KeyboardKey::Space => Some(49),
        KeyboardKey::Escape => Some(53),
        KeyboardKey::Shift => Some(56),
        KeyboardKey::Option => Some(58),
        KeyboardKey::Control => Some(59),
        KeyboardKey::Left => Some(123),
        KeyboardKey::Right => Some(124),
        KeyboardKey::Down => Some(125),
        KeyboardKey::Up => Some(126),
    }
}

/// The code of a key, with -1 standing for none.
pub open spec fn key_code(key: KeyboardKey) -> int {
    match spec_virtual_key_code(key) {
        Some(c) => c as int,
        None => -1,
    }
}

/// Each key is posted with its own macOS virtual key code (the `kVK_`
/// constants of the ANSI layout): the home-row letters A S D F are 0..=3,
/// Q W E R are 12..=15, the digits 1..=4 are 18..=21, Return 36, Tab 48,
/// Space 49, Escape 53, Shift 56, Option 58, Control 59, and the arrows
/// Left Right Down Up are 123..=126 in that order.
pub proof fn lemma_virtual_key_codes_are_the_macos_codes()
    ensures
        key_code(KeyboardKey::A) == 0 && key_code(KeyboardKey::S) == key_code(KeyboardKey::A) + 1
            && key_code(KeyboardKey::D) == key_code(KeyboardKey::A) + 2 && key_code(KeyboardKey::F)
            == key_code(KeyboardKey::A) + 3,
        key_code(KeyboardKey::Q) == 12 && key_code(KeyboardKey::W) == key_code(KeyboardKey::Q) + 1
            && key_code(KeyboardKey::E) == key_code(KeyboardKey::Q) + 2 && key_code(KeyboardKey::R)
            == key_code(KeyboardKey::Q) + 3,
        key_code(KeyboardKey::Key1) == 18 && key_code(KeyboardKey::Key2) == key_code(KeyboardKey::Key1) + 1
            && key_code(KeyboardKey::Key3) == key_code(KeyboardKey::Key1) + 2 && key_code(KeyboardKey::Key4)
            == key_code(KeyboardKey::Key1) + 3,
        key_code(KeyboardKey::Return) == 36,
        key_code(KeyboardKey::Tab) == 48,
        key_code(KeyboardKey::Space) == 49,
        key_code(KeyboardKey::Escape) == 53,
        key_code(KeyboardKey::Shift) == 56,
        key_code(KeyboardKey::Option) == 58,
        key_code(KeyboardKey::Control) == 59,
        key_code(KeyboardKey::Left) == 123 && key_code(KeyboardKey::Right) == key_code(KeyboardKey::Left) + 1
            && key_code(KeyboardKey::Down) == key_code(KeyboardKey::Left) + 2 && key_code(KeyboardKey::Up)
            == key_code(KeyboardKey::Left) + 3,
        key_code(KeyboardKey::Disabled) == -1,
{
}

/// Every key but "no key" has a code, and no two keys share one, so a
/// binding always posts the key it names.
pub proof fn lemma_virtual_key_codes_distinct(a: KeyboardKey, b: KeyboardKey)
    ensures
        spec_virtual_key_code(a) is None <==> a == KeyboardKey::Disabled,
        a != b && spec_virtual_key_code(a) is Some ==> spec_virtual_key_code(a) != spec_virtual_key_code(b),
{
}

/// A mouse button the controller can click.
#[derive(Clone, Copy, Debug, PartialEq, Eq, Hash, Structural)]
pub enum MouseButton {
    Left,
    Right,
    Middle,
}

impl MouseButton {
    /// Every button, in the order they are released and pressed.
    pub const ALL: [MouseButton; 3] = [MouseButton::Left, MouseButton::Right, MouseButton::Middle];

    pub open spec fn spec_platform_code(self) -> u32 {
        match self {
            MouseButton::Left => 0,
            MouseButton::Right => 1,
            MouseButton::Middle => 2,
        }
    }

    /// The button number the system's mouse events use.
    pub fn platform_code(self) -> (r: u32)
        ensures
            r == self.spec_platform_code(),
    {
        match self {
            MouseButton::Left => 0,
            MouseButton::Right => 1,
            MouseButton::Middle => 2,
        }
    }

    pub open spec fn spec_index(self) -> int {
        match self {
            MouseButton::Left => 0,
            MouseButton::Right => 1,
            MouseButton::Middle => 2,
        }
    }

    pub open spec fn spec_at(i: int) -> MouseButton {
        if i == 0 {
            MouseButton::Left
        } else if i == 1 {
            MouseButton::Right
        } else {
            MouseButton::Middle
        }
    }
}

/// The controller button that clicks each mouse button: Cross the left,
/// Circle the right, Square the middle.
pub open spec fn clicking_button(b: MouseButton) -> Button {
    match b {
        MouseButton::Left => Button::Cross,
        MouseButton::Right => Button::Circle,
        MouseButton::Middle => Button::Square,
    }
}

/// The mouse buttons to hold for this controller state, in `ALL` order.
pub open spec fn spec_desired_mouse_buttons(state: GamepadState) -> Seq<MouseButton> {
    let l = if state.buttons@.contains(Button::Cross) {
        seq![MouseButton::Left]
    } else {
        seq![]
    };
    let r = if state.buttons@.contains(Button::Circle) {
        seq![MouseButton::Right]
    } else {
        seq![]
    };
    let m = if state.buttons@.contains(Button::Square) {
        seq![MouseButton::Middle]
    } else {
        seq![]
    };
    l + r + m
}

/// The mouse buttons held follow the face buttons: the left button exactly
/// while Cross is pressed, the right button exactly while Circle is, the
/// middle button exactly while Square is; each at most once.
pub proof fn lemma_mouse_buttons_follow_face_buttons(state: GamepadState)
    ensures
        spec_desired_mouse_buttons(state).contains(MouseButton::Left) <==> state.buttons@.contains(Button::Cross),
        spec_desired_mouse_buttons(state).contains(MouseButton::Right) <==> state.buttons@.contains(Button::Circle),
        spec_desired_mouse_buttons(state).contains(MouseButton::Middle) <==> state.buttons@.contains(Button::Square),
        spec_desired_mouse_buttons(state).no_duplicates(),
{
    let d = spec_desired_mouse_buttons(state);
    let l: Seq<MouseButton> = if state.buttons@.contains(Button::Cross) { seq![MouseButton::Left] } else { seq![] };
    let r: Seq<MouseButton> = if state.buttons@.contains(Button::Circle) { seq![MouseButton::Right] } else { seq![] };
    let m: Seq<MouseButton> = if state.buttons@.contains(Button::Square) { seq![MouseButton::Middle] } else { seq![] };
    assert(d == l + r + m);
    assert forall|x: MouseButton| d.contains(x) <==> ((l.len() == 1 && l[0] == x) || (r.len() == 1 && r[0] == x) || (m.len() == 1
        && m[0] == x)) by {
        if d.contains(x) {
            let i = choose|i: int| 0 <= i < d.len() && d[i] == x;
            if i < l.len() {
                assert(d[i] == l[i]);
            } else if i < l.len() + r.len() {
                assert(d[i] == r[i - l.len()]);
            } else {
                assert(d[i] == m[i - l.len() - r.len()]);
            }
        }
        if l.len() == 1 && l[0] == x {
            assert(d[0] == x);
        }
        if r.len() == 1 && r[0] == x {
            assert(d[l.len() as int] == x);
        }
        if m.len() == 1 && m[0] == x {
            assert(d[(l.len() + r.len()) as int] == x);
        }
    }
    assert forall|i: int, j: int| 0 <= i < d.len() && 0 <= j < d.len() && i != j implies d[i] != d[j] by {
        if i < l.len() { assert(d[i] == MouseButton::Left); } else if i < l.len() + r.len() { assert(d[i] == MouseButton::Right); } else { assert(d[i] == MouseButton::Middle); }
        if j < l.len() { assert(d[j] == MouseButton::Left); } else if j < l.len() + r.len() { assert(d[j] == MouseButton::Right); } else { assert(d[j] == MouseButton::Middle); }
    }
}

/// The mouse buttons to hold: left while Cross is pressed, right while
/// Circle is, middle while Square is.
pub fn desired_mouse_buttons(state: &GamepadState) -> (r: Vec<MouseButton>)
    ensures
        r@ == spec_desired_mouse_buttons(*state),
{
    let mut r: Vec<MouseButton> = Vec::new();
    if state.is_pressed(Button::Cross) {
        r.push(MouseButton::Left);
    }
    if state.is_pressed(Button::Circle) {
        r.push(MouseButton::Right);
    }
    if state.is_pressed(Button::Square) {
        r.push(MouseButton::Middle);
    }
    assert(r@ =~= spec_desired_mouse_buttons(*state));
    r
}

/// One mouse button going down or up.
#[derive(Clone, Copy, Debug, PartialEq, Eq, Structural)]
pub struct MouseButtonEvent {
    pub button: MouseButton,
    pub pressed: bool,
}

/// The mouse buttons held down on behalf of the controller.
#[derive(Clone, Copy, Debug, PartialEq, Eq, Structural)]
pub struct HeldMouseButtons {
    pub left: bool,
    pub right: bool,
    pub middle: bool,
}

impl HeldMouseButtons {
    pub open spec fn holds(self, b: MouseButton) -> bool {
        match b {
            MouseButton::Left => self.left,
            MouseButton::Right => self.right,
            MouseButton::Middle => self.middle,
        }
    }

    /// Nothing held.
    pub fn new() -> (r: Self)
        ensures
            forall|b: MouseButton| !#[trigger] r.holds(b),
    {
        HeldMouseButtons { left: false, right: false, middle: false }
    }

    pub fn is_held(&self, b: MouseButton) -> (r: bool)
        ensures
            r == self.holds(b),
    {
        match b {
            MouseButton::Left => self.left,
            MouseButton::Right => self.right,
            MouseButton::Middle => self.middle,
        }
    }

    /// The events that take the held buttons to `desired`: the releases in
    /// `ALL` order, then the presses in `ALL` order.
    pub open spec fn spec_plan(self, desired: Seq<MouseButton>) -> Seq<MouseButtonEvent> {
        let rel = |b: MouseButton|
            if self.holds(b) && !desired.contains(b) {
                seq![MouseButtonEvent { button: b, pressed: false }]
            } else {
                seq![]
            };
        let pre = |b: MouseButton|
            if desired.contains(b) && !self.holds(b) {
                seq![MouseButtonEvent { button: b, pressed: true }]
            } else {
                seq![]
            };
        rel(MouseButton::Left) + rel(MouseButton::Right) + rel(MouseButton::Middle) + pre(
            MouseButton::Left,
        ) + pre(MouseButton::Right) + pre(MouseButton::Middle)
    }

    pub fn plan_transition(&self, desired: &Vec<MouseButton>) -> (r: Vec<MouseButtonEvent>)
        ensures
            r@ == self.spec_plan(desired@),
    {
        let mut r: Vec<MouseButtonEvent> = Vec::new();
        let mut i: usize = 0;
        while i < 3
            invariant
                i <= 3,
                r@ == releases_upto(*self, desired@, i as int),
            decreases 3 - i,
        {
            let b = MouseButton::ALL[i];
            assert(b == MouseButton::spec_at(i as int));
            if self.is_held(b) && !contains_mouse_button(desired, b) {
                r.push(MouseButtonEvent { button: b, pressed: false });
            }
            i = i + 1;
        }
        assert(r@ =~= releases_upto(*self, desired@, 3) + presses_upto(*self, desired@, 0));
        let mut j: usize = 0;
        while j < 3
            invariant
                j <= 3,
                r@ == releases_upto(*self, desired@, 3) + presses_upto(*self, desired@, j as int),
            decreases 3 - j,
        {
            let b = MouseButton::ALL[j];
            assert(b == MouseButton::spec_at(j as int));
            if contains_mouse_button(desired, b) && !self.is_held(b) {
                r.push(MouseButtonEvent { button: b, pressed: true });
            }
            proof {
                assert(r@ =~= releases_upto(*self, desired@, 3) + presses_upto(
                    *self,
                    desired@,
                    j + 1,
                ));
            }
            j = j + 1;
        }
        proof {
            reveal_with_fuel(releases_upto, 4);
            reveal_with_fuel(presses_upto, 4);
        }
        assert(r@ =~= self.spec_plan(desired@));
        r
    }

    /// The events that release every held button.
    pub fn release_all(&self) -> (r: Vec<MouseButtonEvent>)
        ensures
            r@ == self.spec_plan(seq![]),
    {
        let none: Vec<MouseButton> = Vec::new();
        self.plan_transition(&none)
    }

    /// Notes that `event` was posted.
    pub fn record(&mut self, event: MouseButtonEvent)
        ensures
            final(self).holds(event.button) == event.pressed,
            forall|b: MouseButton| b != event.button ==> final(self).holds(b) == old(self).holds(b),
    {
        match event.button {
            MouseButton::Left => self.left = event.pressed,
            MouseButton::Right => self.right = event.pressed,
            MouseButton::Middle => self.middle = event.pressed,
        }
    }

    /// The button a pointer movement drags: the first held one in `ALL`
    /// order.
    pub fn dragged_button(&self) -> (r: Option<MouseButton>)
        ensures
            r == (if self.left {
                Some(MouseButton::Left)
            } else if self.right {
                Some(MouseButton::Right)
            } else if self.middle {
                Some(MouseButton::Middle)
            } else {
                None::<MouseButton>
            }),
    {
        if self.left {
            Some(MouseButton::Left)
        } else if self.right {
            Some(MouseButton::Right)
        } else if self.middle {
            Some(MouseButton::Middle)
        } else {
            None
        }
    }
}

/// The releases the plan makes among the first `n` buttons.
pub open spec fn releases_upto(held: HeldMouseButtons, desired: Seq<MouseButton>, n: int) -> Seq<MouseButtonEvent>
    decreases n,
{
    if n <= 0 {
        seq![]
    } else {
        let b = MouseButton::spec_at(n - 1);
        let prev = releases_upto(held, desired, n - 1);
        if held.holds(b) && !desired.contains(b) {
            prev.push(MouseButtonEvent { button: b, pressed: false })
        } else {
            prev
        }
    }
}

/// The presses the plan makes among the first `n` buttons.
pub open spec fn presses_upto(held: HeldMouseButtons, desired: Seq<MouseButton>, n: int) -> Seq<MouseButtonEvent>
    decreases n,
{
    if n <= 0 {
        seq![]
    } else {
        let b = MouseButton::spec_at(n - 1);
        let prev = presses_upto(held, desired, n - 1);
        if desired.contains(b) && !held.holds(b) {
            prev.push(MouseButtonEvent { button: b, pressed: true })
        } else {
            prev
        }
    }
}

fn contains_mouse_button(buttons: &Vec<MouseButton>, b: MouseButton) -> (r: bool)
    ensures
        r == buttons@.contains(b),
{
    let mut i: usize = 0;
    while i < buttons.len()
        invariant
            i <= buttons.len(),
            forall|j: int| 0 <= j < i ==> buttons@[j] != b,
        decreases buttons.len() - i,
    {
        if buttons[i] == b {
            assert(buttons@[i as int] == b);
            return true;
        }
        i = i + 1;
    }
    false
}

/// The held buttons after the events, applied in turn.
pub open spec fn apply_mouse_events(held: HeldMouseButtons, events: Seq<MouseButtonEvent>) -> HeldMouseButtons
    decreases events.len(),
{
    if events.len() == 0 {
        held
    } else {
        let before = apply_mouse_events(held, events.drop_last());
        let e = events.last();
        match e.button {
            MouseButton::Left => HeldMouseButtons { left: e.pressed, ..before },
            MouseButton::Right => HeldMouseButtons { right: e.pressed, ..before },
            MouseButton::Middle => HeldMouseButtons { middle: e.pressed, ..before },
        }
    }
}

/// Posting every event of a mouse transition, in order, leaves held
/// exactly the wanted buttons; in particular releasing everything leaves
/// no button held.
pub proof fn lemma_mouse_transition_reaches_desired(held: HeldMouseButtons, desired: Seq<MouseButton>)
    ensures
        forall|b: MouseButton|
            #[trigger] apply_mouse_events(held, held.spec_plan(desired)).holds(b) == desired.contains(b),
{
    let plan = held.spec_plan(desired);
    reveal_with_fuel(apply_mouse_events, 7);
    assert forall|b: MouseButton| #[trigger] apply_mouse_events(held, plan).holds(b) == desired.contains(b) by {
        let dl = desired.contains(MouseButton::Left);
        let dr = desired.contains(MouseButton::Right);
        let dm = desired.contains(MouseButton::Middle);
        if dl {
        }
        if dr {
        }
        if dm {
        }
    }
}

} // verus!
