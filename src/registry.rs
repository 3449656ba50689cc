//! The bind registry: what is bound to each key and button, what each event
//! does, and when each input class's hook is wanted.

use vstd::prelude::*;
use crate::input_map::InputMap;
use crate::keys::{KeybdKey, MouseButton, KEYBD_KEY_COUNT, MOUSE_BUTTON_COUNT};

verus! {

/// What a blockable callback decides about the event that triggered it.
#[derive(Debug, Clone, Copy, PartialEq, Eq, Structural)]
pub enum BlockInput {
    Block,
    DontBlock,
}

impl BlockInput {
    /// Whether this decision suppresses the event.
    pub fn blocks(self) -> (r: bool)
        ensures
            r == (self == BlockInput::Block),
    {
        match self {
            BlockInput::Block => true,
            BlockInput::DontBlock => false,
        }
    }
}

/// How a registered callback runs. `H` is a callback that returns nothing,
/// `B` one that returns a `BlockInput`.
pub enum Bind<H, B> {
    /// Runs on its own, apart from event delivery, on a press.
    Normal(H),
    /// Runs on its own, apart from event delivery, on a release.
    Release(H),
    /// Runs on its own on a press, and the press is suppressed.
    Block(H),
    /// Runs during delivery of a press; its answer decides whether the press
    /// is suppressed.
    Blockable(B),
}

/// What to do with one event, as a value.
pub enum Action<H, B> {
    /// Let the event through; run nothing.
    PassThrough,
    /// Start this callback apart from delivery and let the event through.
    Spawn(H),
    /// Start this callback apart from delivery and suppress the event.
    SpawnAndBlock(H),
    /// Call this callback now; its answer decides about the event.
    Decide(B),
}

/// What to do with one event: the callback to run, borrowed from the registry.
pub enum Dispatch<'a, H, B> {
    PassThrough,
    Spawn(&'a H),
    SpawnAndBlock(&'a H),
    Decide(&'a B),
}

impl<'a, H, B> Dispatch<'a, H, B> {
    pub open spec fn view(&self) -> Action<H, B> {
        match *self {
            Dispatch::PassThrough => Action::PassThrough,
            Dispatch::Spawn(h) => Action::Spawn(*h),
            Dispatch::SpawnAndBlock(h) => Action::SpawnAndBlock(*h),
            Dispatch::Decide(f) => Action::Decide(*f),
        }
    }

    /// Whether the event is suppressed, given what a deciding callback
    /// answered (the answer matters for `Decide` alone).
    pub fn suppressed(&self, answer: BlockInput) -> (r: bool)
        ensures
            r == suppressed(self@, answer),
    {
        match self {
            Dispatch::PassThrough => false,
            Dispatch::Spawn(_) => false,
            Dispatch::SpawnAndBlock(_) => true,
            Dispatch::Decide(_) => answer.blocks(),
        }
    }
}

/// Whether an event handled by `a` is suppressed, given what a deciding
/// callback answered.
pub open spec fn suppressed<H, B>(a: Action<H, B>, answer: BlockInput) -> bool {
    match a {
        Action::SpawnAndBlock(_) => true,
        Action::Decide(_) => answer == BlockInput::Block,
        _ => false,
    }
}

/// The value a map holds for a key, if any.
pub open spec fn lookup<K, V>(m: Map<K, V>, k: K) -> Option<V> {
    if m.contains_key(k) {
        Some(m[k])
    } else {
        None
    }
}

/// What a press does, given the press bind found for its input.
pub open spec fn press_action<H, B>(bind: Option<Bind<H, B>>) -> Action<H, B> {
    match bind {
        Some(Bind::Normal(h)) => Action::Spawn(h),
        Some(Bind::Block(h)) => Action::SpawnAndBlock(h),
        Some(Bind::Blockable(f)) => Action::Decide(f),
        _ => Action::PassThrough,
    }
}

/// What a release does, given the release bind found for its input.
pub open spec fn release_action<H, B>(bind: Option<Bind<H, B>>) -> Action<H, B> {
    match bind {
        Some(Bind::Release(h)) => Action::Spawn(h),
        _ => Action::PassThrough,
    }
}

/// Whether a map holds anything.
pub open spec fn has_entries<K, V>(m: Map<K, V>) -> bool {
    exists|k: K| m.contains_key(k)
}

/// What must happen to an input class's hook when whether it is wanted goes
/// from `before` to `after`.
#[derive(Debug, Clone, Copy, PartialEq, Eq, Structural)]
pub enum HookChange {
    Keep,
    Install,
    Uninstall,
}

pub open spec fn hook_change(before: bool, after: bool) -> HookChange {
    if before == after {
        HookChange::Keep
    } else if after {
        HookChange::Install
    } else {
        HookChange::Uninstall
    }
}

/// Whether a hook is installed after performing `c` on it.
pub open spec fn after_change(installed: bool, c: HookChange) -> bool {
    match c {
        HookChange::Keep => installed,
        HookChange::Install => true,
        HookChange::Uninstall => false,
    }
}

/// Performing each reported change keeps a hook installed exactly while it
/// is wanted: a hook installed as wanted before an operation is installed as
/// wanted after it, and it is never installed twice or removed twice.
pub proof fn lemma_hook_follows_wanted(before: bool, after: bool)
    ensures
        after_change(before, hook_change(before, after)) == after,
        hook_change(before, after) == HookChange::Install ==> !before,
        hook_change(before, after) == HookChange::Uninstall ==> before,
{
}

fn change(before: bool, after: bool) -> (r: HookChange)
    ensures
        r == hook_change(before, after),
{
    if before == after {
        HookChange::Keep
    } else if after {
        HookChange::Install
    } else {
        HookChange::Uninstall
    }
}

/// The hook changes for both input classes.
#[derive(Debug, Clone, Copy, PartialEq, Eq, Structural)]
pub struct HookChanges {
    pub keyboard: HookChange,
    pub mouse: HookChange,
}

/// The binds of both input classes, and whether events are being handled.
///
/// An input class's hook is wanted exactly while events are handled and the
/// class has a bind; every operation that changes either reports how the
/// hook must change.
#[verifier::reject_recursive_types(H)]
#[verifier::reject_recursive_types(B)]
pub struct Registry<H, B> {
    keybd: InputMap<KeybdKey, Bind<H, B>>,
    keybd_release: InputMap<KeybdKey, Bind<H, B>>,
    mouse: InputMap<MouseButton, Bind<H, B>>,
    mouse_release: InputMap<MouseButton, Bind<H, B>>,
    handling: bool,
}

impl<H, B> Registry<H, B> {
    pub closed spec fn wf(&self) -> bool {
        &&& self.keybd.wf()
        &&& self.keybd_release.wf()
        &&& self.mouse.wf()
        &&& self.mouse_release.wf()
    }

    /// The binds that act on key presses.
    pub closed spec fn keybd_binds(&self) -> Map<KeybdKey, Bind<H, B>> {
        self.keybd@
    }

    /// The binds that act on key releases.
    pub closed spec fn keybd_release_binds(&self) -> Map<KeybdKey, Bind<H, B>> {
        self.keybd_release@
    }

    /// The binds that act on button presses.
    pub closed spec fn mouse_binds(&self) -> Map<MouseButton, Bind<H, B>> {
        self.mouse@
    }

    /// The binds that act on button releases.
    pub closed spec fn mouse_release_binds(&self) -> Map<MouseButton, Bind<H, B>> {
        self.mouse_release@
    }

    /// Whether events are being handled.
    pub closed spec fn is_handling(&self) -> bool {
        self.handling
    }

    /// Whether the keyboard class has any bind.
    pub open spec fn keybd_active(&self) -> bool {
        has_entries(self.keybd_binds()) || has_entries(self.keybd_release_binds())
    }

    /// Whether the mouse class has any bind.
    pub open spec fn mouse_active(&self) -> bool {
        has_entries(self.mouse_binds()) || has_entries(self.mouse_release_binds())
    }

    /// Whether the keyboard hook is wanted.
    pub open spec fn keybd_hook(&self) -> bool {
        self.is_handling() && self.keybd_active()
    }

    /// Whether the mouse hook is wanted.
    pub open spec fn mouse_hook(&self) -> bool {
        self.is_handling() && self.mouse_active()
    }

    /// `new` differs from `self` in the key press binds alone, which are `m`.
    pub open spec fn keybd_becomes(&self, new: Self, m: Map<KeybdKey, Bind<H, B>>) -> bool {
        &&& new.wf()
        &&& new.keybd_binds() == m
        &&& new.keybd_release_binds() == self.keybd_release_binds()
        &&& new.mouse_binds() == self.mouse_binds()
        &&& new.mouse_release_binds() == self.mouse_release_binds()
        &&& new.is_handling() == self.is_handling()
    }

    /// `new` differs from `self` in the key release binds alone, which are `m`.
    pub open spec fn keybd_release_becomes(&self, new: Self, m: Map<KeybdKey, Bind<H, B>>) -> bool {
        &&& new.wf()
        &&& new.keybd_binds() == self.keybd_binds()
        &&& new.keybd_release_binds() == m
        &&& new.mouse_binds() == self.mouse_binds()
        &&& new.mouse_release_binds() == self.mouse_release_binds()
        &&& new.is_handling() == self.is_handling()
    }

    /// `new` differs from `self` in the button press binds alone, which are `m`.
    pub open spec fn mouse_becomes(&self, new: Self, m: Map<MouseButton, Bind<H, B>>) -> bool {
        &&& new.wf()
        &&& new.keybd_binds() == self.keybd_binds()
        &&& new.keybd_release_binds() == self.keybd_release_binds()
        &&& new.mouse_binds() == m
        &&& new.mouse_release_binds() == self.mouse_release_binds()
        &&& new.is_handling() == self.is_handling()
    }

    /// `new` differs from `self` in the button release binds alone, which are `m`.
    pub open spec fn mouse_release_becomes(&self, new: Self, m: Map<MouseButton, Bind<H, B>>) -> bool {
        &&& new.wf()
        &&& new.keybd_binds() == self.keybd_binds()
        &&& new.keybd_release_binds() == self.keybd_release_binds()
        &&& new.mouse_binds() == self.mouse_binds()
        &&& new.mouse_release_binds() == m
        &&& new.is_handling() == self.is_handling()
    }

    /// A registry with no binds, not handling events.
    pub fn new() -> (r: Self)
        ensures
            r.wf(),
            r.keybd_binds() == Map::<KeybdKey, Bind<H, B>>::empty(),
            r.keybd_release_binds() == Map::<KeybdKey, Bind<H, B>>::empty(),
            r.mouse_binds() == Map::<MouseButton, Bind<H, B>>::empty(),
            r.mouse_release_binds() == Map::<MouseButton, Bind<H, B>>::empty(),
            !r.is_handling(),
    {
        Registry {
            keybd: InputMap::new(),
            keybd_release: InputMap::new(),
            mouse: InputMap::new(),
            mouse_release: InputMap::new(),
            handling: false,
        }
    }

    fn keybd_hook_now(&self) -> (r: bool)
        requires
            self.wf(),
        ensures
            r == self.keybd_hook(),
    {
        let press = self.keybd.is_empty();
        let release = self.keybd_release.is_empty();
        if !press {
            assert(!(self.keybd@ =~= Map::<KeybdKey, Bind<H, B>>::empty()));
        }
        if !release {
            assert(!(self.keybd_release@ =~= Map::<KeybdKey, Bind<H, B>>::empty()));
        }
        self.handling && !(press && release)
    }

    fn mouse_hook_now(&self) -> (r: bool)
        requires
            self.wf(),
        ensures
            r == self.mouse_hook(),
    {
        let press = self.mouse.is_empty();
        let release = self.mouse_release.is_empty();
        if !press {
            assert(!(self.mouse@ =~= Map::<MouseButton, Bind<H, B>>::empty()));
        }
        if !release {
            assert(!(self.mouse_release@ =~= Map::<MouseButton, Bind<H, B>>::empty()));
        }
        self.handling && !(press && release)
    }

    fn put_keybd(&mut self, key: KeybdKey, bind: Bind<H, B>) -> (r: HookChange)
        requires
            old(self).wf(),
        ensures
            old(self).keybd_becomes(*final(self), old(self).keybd_binds().insert(key, bind)),
            r == hook_change(old(self).keybd_hook(), final(self).keybd_hook()),
    {
        let before = self.keybd_hook_now();
        self.keybd.insert(key, bind);
        let after = self.keybd_hook_now();
        change(before, after)
    }

    fn put_keybd_release(&mut self, key: KeybdKey, bind: Bind<H, B>) -> (r: HookChange)
        requires
            old(self).wf(),
        ensures
            old(self).keybd_release_becomes(
                *final(self),
                old(self).keybd_release_binds().insert(key, bind),
            ),
            r == hook_change(old(self).keybd_hook(), final(self).keybd_hook()),
    {
        let before = self.keybd_hook_now();
        self.keybd_release.insert(key, bind);
        let after = self.keybd_hook_now();
        change(before, after)
    }

    fn put_mouse(&mut self, button: MouseButton, bind: Bind<H, B>) -> (r: HookChange)
        requires
            old(self).wf(),
        ensures
            old(self).mouse_becomes(*final(self), old(self).mouse_binds().insert(button, bind)),
            r == hook_change(old(self).mouse_hook(), final(self).mouse_hook()),
    {
        let before = self.mouse_hook_now();
        self.mouse.insert(button, bind);
        let after = self.mouse_hook_now();
        change(before, after)
    }

    fn put_mouse_release(&mut self, button: MouseButton, bind: Bind<H, B>) -> (r: HookChange)
        requires
            old(self).wf(),
        ensures
            old(self).mouse_release_becomes(
                *final(self),
                old(self).mouse_release_binds().insert(button, bind),
            ),
            r == hook_change(old(self).mouse_hook(), final(self).mouse_hook()),
    {
        let before = self.mouse_hook_now();
        self.mouse_release.insert(button, bind);
        let after = self.mouse_hook_now();
        change(before, after)
    }

    fn take_keybd(&mut self, key: KeybdKey) -> (r: HookChange)
        requires
            old(self).wf(),
        ensures
            old(self).keybd_becomes(*final(self), old(self).keybd_binds().remove(key)),
            r == hook_change(old(self).keybd_hook(), final(self).keybd_hook()),
    {
        let before = self.keybd_hook_now();
        self.keybd.remove(&key);
        let after = self.keybd_hook_now();
        change(before, after)
    }

    fn take_mouse(&mut self, button: MouseButton) -> (r: HookChange)
        requires
            old(self).wf(),
        ensures
            old(self).mouse_becomes(*final(self), old(self).mouse_binds().remove(button)),
            r == hook_change(old(self).mouse_hook(), final(self).mouse_hook()),
    {
        let before = self.mouse_hook_now();
        self.mouse.remove(&button);
        let after = self.mouse_hook_now();
        change(before, after)
    }

    fn set_handling(&mut self, handling: bool) -> (r: HookChanges)
        requires
            old(self).wf(),
        ensures
            final(self).wf(),
            final(self).keybd_binds() == old(self).keybd_binds(),
            final(self).keybd_release_binds() == old(self).keybd_release_binds(),
            final(self).mouse_binds() == old(self).mouse_binds(),
            final(self).mouse_release_binds() == old(self).mouse_release_binds(),
            final(self).is_handling() == handling,
            r.keyboard == hook_change(old(self).keybd_hook(), final(self).keybd_hook()),
            r.mouse == hook_change(old(self).mouse_hook(), final(self).mouse_hook()),
    {
        let keyboard_before = self.keybd_hook_now();
        let mouse_before = self.mouse_hook_now();
        self.handling = handling;
        let keyboard_after = self.keybd_hook_now();
        let mouse_after = self.mouse_hook_now();
        HookChanges {
            keyboard: change(keyboard_before, keyboard_after),
            mouse: change(mouse_before, mouse_after),
        }
    }

    /// What a key press or release does.
    pub fn keybd_event(&self, key: KeybdKey, down: bool) -> (r: Dispatch<'_, H, B>)
        requires
            self.wf(),
        ensures
            r@ == if down {
                press_action(lookup(self.keybd_binds(), key))
            } else {
                release_action(lookup(self.keybd_release_binds(), key))
            },
    {
        if down {
            match self.keybd.get(&key) {
                Some(Bind::Normal(h)) => Dispatch::Spawn(h),
                Some(Bind::Block(h)) => Dispatch::SpawnAndBlock(h),
                Some(Bind::Blockable(f)) => Dispatch::Decide(f),
                _ => Dispatch::PassThrough,
            }
        } else {
            match self.keybd_release.get(&key) {
                Some(Bind::Release(h)) => Dispatch::Spawn(h),
                _ => Dispatch::PassThrough,
            }
        }
    }

    /// What a button press or release does.
    pub fn mouse_event(&self, button: MouseButton, down: bool) -> (r: Dispatch<'_, H, B>)
        requires
            self.wf(),
        ensures
            r@ == if down {
                press_action(lookup(self.mouse_binds(), button))
            } else {
                release_action(lookup(self.mouse_release_binds(), button))
            },
    {
        if down {
            match self.mouse.get(&button) {
                Some(Bind::Normal(h)) => Dispatch::Spawn(h),
                Some(Bind::Block(h)) => Dispatch::SpawnAndBlock(h),
                Some(Bind::Blockable(f)) => Dispatch::Decide(f),
                _ => Dispatch::PassThrough,
            }
        } else {
            match self.mouse_release.get(&button) {
                Some(Bind::Release(h)) => Dispatch::Spawn(h),
                _ => Dispatch::PassThrough,
            }
        }
    }
}

} // verus!

verus! {

/// Whether the event loop goes on: while events are handled and, with
/// `auto_stop`, while any bind is left.
pub fn should_continue<H, B>(registry: &Registry<H, B>, auto_stop: bool) -> (r: bool)
    requires
        registry.wf(),
    ensures
        r == (registry.is_handling() && (!auto_stop || registry.keybd_active()
            || registry.mouse_active())),
{
    let active = {
        let kp = registry.keybd.is_empty();
        let kr = registry.keybd_release.is_empty();
        let mp = registry.mouse.is_empty();
        let mr = registry.mouse_release.is_empty();
        if !kp {
            assert(!(registry.keybd@ =~= Map::<KeybdKey, Bind<H, B>>::empty()));
        }
        if !kr {
            assert(!(registry.keybd_release@ =~= Map::<KeybdKey, Bind<H, B>>::empty()));
        }
        if !mp {
            assert(!(registry.mouse@ =~= Map::<MouseButton, Bind<H, B>>::empty()));
        }
        if !mr {
            assert(!(registry.mouse_release@ =~= Map::<MouseButton, Bind<H, B>>::empty()));
        }
        !(kp && kr && mp && mr)
    };
    registry.handling && (!auto_stop || active)
}

/// Starts handling events: the hooks of the classes that have binds are wanted.
pub fn start_handling_input_events<H, B>(registry: &mut Registry<H, B>) -> (r: HookChanges)
    requires
        old(registry).wf(),
    ensures
        final(registry).wf(),
        final(registry).keybd_binds() == old(registry).keybd_binds(),
        final(registry).keybd_release_binds() == old(registry).keybd_release_binds(),
        final(registry).mouse_binds() == old(registry).mouse_binds(),
        final(registry).mouse_release_binds() == old(registry).mouse_release_binds(),
        final(registry).is_handling(),
        r.keyboard == hook_change(old(registry).keybd_hook(), final(registry).keybd_hook()),
        r.mouse == hook_change(old(registry).mouse_hook(), final(registry).mouse_hook()),
{
    registry.set_handling(true)
}

/// Stops handling events: no hook is wanted any more; the binds stay.
pub fn stop_handling_input_events<H, B>(registry: &mut Registry<H, B>) -> (r: HookChanges)
    requires
        old(registry).wf(),
    ensures
        final(registry).wf(),
        final(registry).keybd_binds() == old(registry).keybd_binds(),
        final(registry).keybd_release_binds() == old(registry).keybd_release_binds(),
        final(registry).mouse_binds() == old(registry).mouse_binds(),
        final(registry).mouse_release_binds() == old(registry).mouse_release_binds(),
        !final(registry).is_handling(),
        !final(registry).keybd_hook(),
        !final(registry).mouse_hook(),
        r.keyboard == hook_change(old(registry).keybd_hook(), false),
        r.mouse == hook_change(old(registry).mouse_hook(), false),
{
    registry.set_handling(false)
}

impl KeybdKey {
    /// Binds a callback that runs apart from event delivery whenever this key
    /// is pressed, in place of any earlier press bind of the key.
    pub fn bind<H, B>(self, registry: &mut Registry<H, B>, callback: H) -> (r: HookChange)
        requires
            old(registry).wf(),
        ensures
            old(registry).keybd_becomes(
                *final(registry),
                old(registry).keybd_binds().insert(self, Bind::Normal(callback)),
            ),
            r == hook_change(old(registry).keybd_hook(), final(registry).keybd_hook()),
    {
        registry.put_keybd(self, Bind::Normal(callback))
    }

    /// Binds a callback that runs apart from event delivery whenever this key
    /// is released, in place of any earlier release bind of the key.
    pub fn bind_release<H, B>(self, registry: &mut Registry<H, B>, callback: H) -> (r: HookChange)
        requires
            old(registry).wf(),
        ensures
            old(registry).keybd_release_becomes(
                *final(registry),
                old(registry).keybd_release_binds().insert(self, Bind::Release(callback)),
            ),
            r == hook_change(old(registry).keybd_hook(), final(registry).keybd_hook()),
    {
        registry.put_keybd_release(self, Bind::Release(callback))
    }

    /// Binds a callback that runs apart from event delivery whenever this key
    /// is pressed; the press does not reach the rest of the system.
    pub fn block_bind<H, B>(self, registry: &mut Registry<H, B>, callback: H) -> (r: HookChange)
        requires
            old(registry).wf(),
        ensures
            old(registry).keybd_becomes(
                *final(registry),
                old(registry).keybd_binds().insert(self, Bind::Block(callback)),
            ),
            r == hook_change(old(registry).keybd_hook(), final(registry).keybd_hook()),
    {
        registry.put_keybd(self, Bind::Block(callback))
    }

    /// Binds a callback that runs during delivery of each press of this key
    /// and decides whether the press is suppressed.
    pub fn blockable_bind<H, B>(self, registry: &mut Registry<H, B>, callback: B) -> (r:
        HookChange)
        requires
            old(registry).wf(),
        ensures
            old(registry).keybd_becomes(
                *final(registry),
                old(registry).keybd_binds().insert(self, Bind::Blockable(callback)),
            ),
            r == hook_change(old(registry).keybd_hook(), final(registry).keybd_hook()),
    {
        registry.put_keybd(self, Bind::Blockable(callback))
    }

    /// Binds every named key to the callback that `callback` makes for it.
    pub fn bind_all<H, B, F: Fn(KeybdKey) -> H>(registry: &mut Registry<H, B>, callback: F) -> (r:
        HookChange)
        requires
            old(registry).wf(),
            forall|k: KeybdKey| k.is_named() ==> callback.requires((k,)),
        ensures
            old(registry).keybd_becomes(*final(registry), final(registry).keybd_binds()),
            forall|k: KeybdKey|
                k.is_named() ==> #[trigger] final(registry).keybd_binds().contains_key(k)
                    && match final(registry).keybd_binds()[k] {
                    Bind::Normal(h) => callback.ensures((k,), h),
                    _ => false,
                },
            forall|k: KeybdKey|
                !k.is_named() ==> #[trigger] lookup(final(registry).keybd_binds(), k) == lookup(
                    old(registry).keybd_binds(),
                    k,
                ),
            r == hook_change(old(registry).keybd_hook(), final(registry).keybd_hook()),
    {
        let before = registry.keybd_hook_now();
        let mut i: usize = 0;
        while i < KEYBD_KEY_COUNT
            invariant
                i <= KEYBD_KEY_COUNT,
                forall|k: KeybdKey| k.is_named() ==> callback.requires((k,)),
                old(registry).keybd_becomes(*registry, registry.keybd_binds()),
                forall|k: KeybdKey|
                    k.is_named() && k.index() < i ==> #[trigger] registry.keybd_binds().contains_key(
                        k,
                    ) && match registry.keybd_binds()[k] {
                        Bind::Normal(h) => callback.ensures((k,), h),
                        _ => false,
                    },
                forall|k: KeybdKey|
                    !k.is_named() || k.index() >= i ==> #[trigger] lookup(registry.keybd_binds(), k)
                        == lookup(old(registry).keybd_binds(), k),
            decreases KEYBD_KEY_COUNT - i,
        {
            let key = KeybdKey::nth(i);
            let handler = callback(key);
            let ghost prev = *registry;
            let _ = registry.put_keybd(key, Bind::Normal(handler));
            proof {
                assert forall|k: KeybdKey| k.is_named() && k.index() < i + 1 implies #[trigger] registry.keybd_binds().contains_key(
                    k,
                ) && match registry.keybd_binds()[k] {
                    Bind::Normal(h) => callback.ensures((k,), h),
                    _ => false,
                } by {
                    if k.index() == i {
                        k.lemma_nth_index();
                    } else {
                        assert(prev.keybd_binds().contains_key(k));
                    }
                }
                assert forall|k: KeybdKey| !k.is_named() || k.index() >= i + 1 implies #[trigger] lookup(
                    registry.keybd_binds(),
                    k,
                ) == lookup(old(registry).keybd_binds(), k) by {
                    assert(k != key);
                    assert(lookup(prev.keybd_binds(), k) == lookup(old(registry).keybd_binds(), k));
                }
            }
            i += 1;
        }
        assert forall|k: KeybdKey| k.is_named() implies #[trigger] registry.keybd_binds().contains_key(k)
            && match registry.keybd_binds()[k] {
            Bind::Normal(h) => callback.ensures((k,), h),
            _ => false,
        } by {
            k.lemma_nth_index();
        }
        let after = registry.keybd_hook_now();
        change(before, after)
    }

    /// Binds every named key's release to the callback that `callback` makes for it.
    pub fn bind_all_release<H, B, F: Fn(KeybdKey) -> H>(
        registry: &mut Registry<H, B>,
        callback: F,
    ) -> (r: HookChange)
        requires
            old(registry).wf(),
            forall|k: KeybdKey| k.is_named() ==> callback.requires((k,)),
        ensures
            old(registry).keybd_release_becomes(
                *final(registry),
                final(registry).keybd_release_binds(),
            ),
            forall|k: KeybdKey|
                k.is_named() ==> #[trigger] final(registry).keybd_release_binds().contains_key(k)
                    && match final(registry).keybd_release_binds()[k] {
                    Bind::Release(h) => callback.ensures((k,), h),
                    _ => false,
                },
            forall|k: KeybdKey|
                !k.is_named() ==> #[trigger] lookup(final(registry).keybd_release_binds(), k)
                    == lookup(old(registry).keybd_release_binds(), k),
            r == hook_change(old(registry).keybd_hook(), final(registry).keybd_hook()),
    {
        let before = registry.keybd_hook_now();
        let mut i: usize = 0;
        while i < KEYBD_KEY_COUNT
            invariant
                i <= KEYBD_KEY_COUNT,
                forall|k: KeybdKey| k.is_named() ==> callback.requires((k,)),
                old(registry).keybd_release_becomes(*registry, registry.keybd_release_binds()),
                forall|k: KeybdKey|
                    k.is_named() && k.index() < i
                        ==> #[trigger] registry.keybd_release_binds().contains_key(k)
                        && match registry.keybd_release_binds()[k] {
                        Bind::Release(h) => callback.ensures((k,), h),
                        _ => false,
                    },
                forall|k: KeybdKey|
                    !k.is_named() || k.index() >= i ==> #[trigger] lookup(
                        registry.keybd_release_binds(),
                        k,
                    ) == lookup(old(registry).keybd_release_binds(), k),
            decreases KEYBD_KEY_COUNT - i,
        {
            let key = KeybdKey::nth(i);
            let handler = callback(key);
            let ghost prev = *registry;
            let _ = registry.put_keybd_release(key, Bind::Release(handler));
            proof {
                assert forall|k: KeybdKey| k.is_named() && k.index() < i + 1 implies #[trigger] registry.keybd_release_binds().contains_key(
                    k,
                ) && match registry.keybd_release_binds()[k] {
                    Bind::Release(h) => callback.ensures((k,), h),
                    _ => false,
                } by {
                    if k.index() == i {
                        k.lemma_nth_index();
                    } else {
                        assert(prev.keybd_release_binds().contains_key(k));
                    }
                }
                assert forall|k: KeybdKey| !k.is_named() || k.index() >= i + 1 implies #[trigger] lookup(
                    registry.keybd_release_binds(),
                    k,
                ) == lookup(old(registry).keybd_release_binds(), k) by {
                    assert(k != key);
                    assert(lookup(prev.keybd_release_binds(), k) == lookup(old(registry).keybd_release_binds(), k));
                }
            }
            i += 1;
        }
        assert forall|k: KeybdKey| k.is_named() implies #[trigger] registry.keybd_release_binds().contains_key(k)
            && match registry.keybd_release_binds()[k] {
            Bind::Release(h) => callback.ensures((k,), h),
            _ => false,
        } by {
            k.lemma_nth_index();
        }
        let after = registry.keybd_hook_now();
        change(before, after)
    }

    /// Whether this key has a press bind.
    pub fn is_bound<H, B>(self, registry: &Registry<H, B>) -> (r: bool)
        requires
            registry.wf(),
        ensures
            r == registry.keybd_binds().contains_key(self),
    {
        registry.keybd.contains(&self)
    }

    /// Removes this key's press bind, if it has one.
    pub fn unbind<H, B>(self, registry: &mut Registry<H, B>) -> (r: HookChange)
        requires
            old(registry).wf(),
        ensures
            old(registry).keybd_becomes(*final(registry), old(registry).keybd_binds().remove(self)),
            r == hook_change(old(registry).keybd_hook(), final(registry).keybd_hook()),
    {
        registry.take_keybd(self)
    }
}


impl MouseButton {
    /// Binds a callback that runs apart from event delivery whenever this button
    /// is pressed, in place of any earlier press bind of the button.
    pub fn bind<H, B>(self, registry: &mut Registry<H, B>, callback: H) -> (r: HookChange)
        requires
            old(registry).wf(),
        ensures
            old(registry).mouse_becomes(
                *final(registry),
                old(registry).mouse_binds().insert(self, Bind::Normal(callback)),
            ),
            r == hook_change(old(registry).mouse_hook(), final(registry).mouse_hook()),
    {
        registry.put_mouse(self, Bind::Normal(callback))
    }

    /// Binds a callback that runs apart from event delivery whenever this button
    /// is released, in place of any earlier release bind of the button.
    pub fn bind_release<H, B>(self, registry: &mut Registry<H, B>, callback: H) -> (r: HookChange)
        requires
            old(registry).wf(),
        ensures
            old(registry).mouse_release_becomes(
                *final(registry),
                old(registry).mouse_release_binds().insert(self, Bind::Release(callback)),
            ),
            r == hook_change(old(registry).mouse_hook(), final(registry).mouse_hook()),
    {
        registry.put_mouse_release(self, Bind::Release(callback))
    }

    /// Binds a callback that runs apart from event delivery whenever this button
    /// is pressed; the press does not reach the rest of the system.
    pub fn block_bind<H, B>(self, registry: &mut Registry<H, B>, callback: H) -> (r: HookChange)
        requires
            old(registry).wf(),
        ensures
            old(registry).mouse_becomes(
                *final(registry),
                old(registry).mouse_binds().insert(self, Bind::Block(callback)),
            ),
            r == hook_change(old(registry).mouse_hook(), final(registry).mouse_hook()),
    {
        registry.put_mouse(self, Bind::Block(callback))
    }

    /// Binds a callback that runs during delivery of each press of this button
    /// and decides whether the press is suppressed.
    pub fn blockable_bind<H, B>(self, registry: &mut Registry<H, B>, callback: B) -> (r:
        HookChange)
        requires
            old(registry).wf(),
        ensures
            old(registry).mouse_becomes(
                *final(registry),
                old(registry).mouse_binds().insert(self, Bind::Blockable(callback)),
            ),
            r == hook_change(old(registry).mouse_hook(), final(registry).mouse_hook()),
    {
        registry.put_mouse(self, Bind::Blockable(callback))
    }

    /// Binds every named button to the callback that `callback` makes for it.
    pub fn bind_all<H, B, F: Fn(MouseButton) -> H>(registry: &mut Registry<H, B>, callback: F) -> (r:
        HookChange)
        requires
            old(registry).wf(),
            forall|k: MouseButton| k.is_named() ==> callback.requires((k,)),
        ensures
            old(registry).mouse_becomes(*final(registry), final(registry).mouse_binds()),
            forall|k: MouseButton|
                k.is_named() ==> #[trigger] final(registry).mouse_binds().contains_key(k)
                    && match final(registry).mouse_binds()[k] {
                    Bind::Normal(h) => callback.ensures((k,), h),
                    _ => false,
                },
            forall|k: MouseButton|
                !k.is_named() ==> #[trigger] lookup(final(registry).mouse_binds(), k) == lookup(
                    old(registry).mouse_binds(),
                    k,
                ),
            r == hook_change(old(registry).mouse_hook(), final(registry).mouse_hook()),
    {
        let before = registry.mouse_hook_now();
        let mut i: usize = 0;
        while i < MOUSE_BUTTON_COUNT
            invariant
                i <= MOUSE_BUTTON_COUNT,
                forall|k: MouseButton| k.is_named() ==> callback.requires((k,)),
                old(registry).mouse_becomes(*registry, registry.mouse_binds()),
                forall|k: MouseButton|
                    k.is_named() && k.index() < i ==> #[trigger] registry.mouse_binds().contains_key(
                        k,
                    ) && match registry.mouse_binds()[k] {
                        Bind::Normal(h) => callback.ensures((k,), h),
                        _ => false,
                    },
                forall|k: MouseButton|
                    !k.is_named() || k.index() >= i ==> #[trigger] lookup(registry.mouse_binds(), k)
                        == lookup(old(registry).mouse_binds(), k),
            decreases MOUSE_BUTTON_COUNT - i,
        {
            let button = MouseButton::nth(i);
            let handler = callback(button);
            let ghost prev = *registry;
            let _ = registry.put_mouse(button, Bind::Normal(handler));
            proof {
                assert forall|k: MouseButton| k.is_named() && k.index() < i + 1 implies #[trigger] registry.mouse_binds().contains_key(
                    k,
                ) && match registry.mouse_binds()[k] {
                    Bind::Normal(h) => callback.ensures((k,), h),
                    _ => false,
                } by {
                    if k.index() == i {
                        k.lemma_nth_index();
                    } else {
                        assert(prev.mouse_binds().contains_key(k));
                    }
                }
                assert forall|k: MouseButton| !k.is_named() || k.index() >= i + 1 implies #[trigger] lookup(
                    registry.mouse_binds(),
                    k,
                ) == lookup(old(registry).mouse_binds(), k) by {
                    assert(k != button);
                    assert(lookup(prev.mouse_binds(), k) == lookup(old(registry).mouse_binds(), k));
                }
            }
            i += 1;
        }
        assert forall|k: MouseButton| k.is_named() implies #[trigger] registry.mouse_binds().contains_key(k)
            && match registry.mouse_binds()[k] {
            Bind::Normal(h) => callback.ensures((k,), h),
            _ => false,
        } by {
            k.lemma_nth_index();
        }
        let after = registry.mouse_hook_now();
        change(before, after)
    }

    /// Binds every named button's release to the callback that `callback` makes for it.
    pub fn bind_all_release<H, B, F: Fn(MouseButton) -> H>(
        registry: &mut Registry<H, B>,
        callback: F,
    ) -> (r: HookChange)
        requires
            old(registry).wf(),
            forall|k: MouseButton| k.is_named() ==> callback.requires((k,)),
        ensures
            old(registry).mouse_release_becomes(
                *final(registry),
                final(registry).mouse_release_binds(),
            ),
            forall|k: MouseButton|
                k.is_named() ==> #[trigger] final(registry).mouse_release_binds().contains_key(k)
                    && match final(registry).mouse_release_binds()[k] {
                    Bind::Release(h) => callback.ensures((k,), h),
                    _ => false,
                },
            forall|k: MouseButton|
                !k.is_named() ==> #[trigger] lookup(final(registry).mouse_release_binds(), k)
                    == lookup(old(registry).mouse_release_binds(), k),
            r == hook_change(old(registry).mouse_hook(), final(registry).mouse_hook()),
    {
        let before = registry.mouse_hook_now();
        let mut i: usize = 0;
        while i < MOUSE_BUTTON_COUNT
            invariant
                i <= MOUSE_BUTTON_COUNT,
                forall|k: MouseButton| k.is_named() ==> callback.requires((k,)),
                old(registry).mouse_release_becomes(*registry, registry.mouse_release_binds()),
                forall|k: MouseButton|
                    k.is_named() && k.index() < i
                        ==> #[trigger] registry.mouse_release_binds().contains_key(k)
                        && match registry.mouse_release_binds()[k] {
                        Bind::Release(h) => callback.ensures((k,), h),
                        _ => false,
                    },
                forall|k: MouseButton|
                    !k.is_named() || k.index() >= i ==> #[trigger] lookup(
                        registry.mouse_release_binds(),
                        k,
                    ) == lookup(old(registry).mouse_release_binds(), k),
            decreases MOUSE_BUTTON_COUNT - i,
        {
            let button = MouseButton::nth(i);
            let handler = callback(button);
            let ghost prev = *registry;
            let _ = registry.put_mouse_release(button, Bind::Release(handler));
            proof {
                assert forall|k: MouseButton| k.is_named() && k.index() < i + 1 implies #[trigger] registry.mouse_release_binds().contains_key(
                    k,
                ) && match registry.mouse_release_binds()[k] {
                    Bind::Release(h) => callback.ensures((k,), h),
                    _ => false,
                } by {
                    if k.index() == i {
                        k.lemma_nth_index();
                    } else {
                        assert(prev.mouse_release_binds().contains_key(k));
                    }
                }
                assert forall|k: MouseButton| !k.is_named() || k.index() >= i + 1 implies #[trigger] lookup(
                    registry.mouse_release_binds(),
                    k,
                ) == lookup(old(registry).mouse_release_binds(), k) by {
                    assert(k != button);
                    assert(lookup(prev.mouse_release_binds(), k) == lookup(old(registry).mouse_release_binds(), k));
                }
            }
            i += 1;
        }
        assert forall|k: MouseButton| k.is_named() implies #[trigger] registry.mouse_release_binds().contains_key(k)
            && match registry.mouse_release_binds()[k] {
            Bind::Release(h) => callback.ensures((k,), h),
            _ => false,
        } by {
            k.lemma_nth_index();
        }
        let after = registry.mouse_hook_now();
        change(before, after)
    }

    /// Whether this button has a press bind.
    pub fn is_bound<H, B>(self, registry: &Registry<H, B>) -> (r: bool)
        requires
            registry.wf(),
        ensures
            r == registry.mouse_binds().contains_key(self),
    {
        registry.mouse.contains(&self)
    }

    /// Removes this button's press bind, if it has one.
    pub fn unbind<H, B>(self, registry: &mut Registry<H, B>) -> (r: HookChange)
        requires
            old(registry).wf(),
        ensures
            old(registry).mouse_becomes(*final(registry), old(registry).mouse_binds().remove(self)),
            r == hook_change(old(registry).mouse_hook(), final(registry).mouse_hook()),
    {
        registry.take_mouse(self)
    }
}

} // verus!

verus! {

/// Shadow state of mouse buttons: the last press or release seen for each
/// button. A button never seen reads as not pressed.
pub struct ButtonStates {
    states: InputMap<MouseButton, bool>,
}

impl ButtonStates {
    pub closed spec fn view(&self) -> Map<MouseButton, bool> {
        self.states@
    }

    pub closed spec fn wf(&self) -> bool {
        self.states.wf()
    }

    /// Whether the last event seen for `button` was a press.
    pub open spec fn pressed(&self, button: MouseButton) -> bool {
        self@.contains_key(button) && self@[button]
    }

    /// No button seen yet.
    pub fn new() -> (r: Self)
        ensures
            r.wf(),
            r@ == Map::<MouseButton, bool>::empty(),
    {
        ButtonStates { states: InputMap::new() }
    }

    /// Records a press (`true`) or release (`false`) of `button`.
    pub fn record(&mut self, button: MouseButton, pressed: bool)
        requires
            old(self).wf(),
        ensures
            final(self).wf(),
            final(self)@ == old(self)@.insert(button, pressed),
    {
        self.states.insert(button, pressed);
    }

    /// Whether `button` is down, as far as the events seen tell.
    pub fn is_pressed(&self, button: MouseButton) -> (r: bool)
        requires
            self.wf(),
        ensures
            r == self.pressed(button),
    {
        match self.states.get(&button) {
            Some(p) => *p,
            None => false,
        }
    }
}

impl<H, B> Registry<H, B> {
    /// A button event seen by a hook that cannot suppress events: the shadow
    /// state records it, and the result says what to run.
    pub fn button_event<'a>(&'a self, states: &mut ButtonStates, button: MouseButton, down: bool) -> (r:
        Dispatch<'a, H, B>)
        requires
            self.wf(),
            old(states).wf(),
        ensures
            final(states).wf(),
            final(states)@ == old(states)@.insert(button, down),
            r@ == if down {
                press_action(lookup(self.mouse_binds(), button))
            } else {
                release_action(lookup(self.mouse_release_binds(), button))
            },
    {
        states.record(button, down);
        self.mouse_event(button, down)
    }
}

/// Binding a key and then unbinding it leaves the key unbound, and leaves the
/// press binds as they were without the key; a keyboard class that had no
/// bind before has none after, and its hook is not wanted.
pub proof fn lemma_bind_then_unbind<H, B>(
    r0: Registry<H, B>,
    r1: Registry<H, B>,
    r2: Registry<H, B>,
    key: KeybdKey,
    callback: H,
)
    requires
        r0.keybd_becomes(r1, r0.keybd_binds().insert(key, Bind::Normal(callback))),
        r1.keybd_becomes(r2, r1.keybd_binds().remove(key)),
    ensures
        !r2.keybd_binds().contains_key(key),
        r2.keybd_binds() == r0.keybd_binds().remove(key),
        !r0.keybd_binds().contains_key(key) ==> r2.keybd_binds() == r0.keybd_binds(),
        !r0.keybd_active() ==> !r2.keybd_active() && !r2.keybd_hook(),
        !r2.keybd_active() ==> !r2.keybd_hook(),
{
    assert(r2.keybd_binds() =~= r0.keybd_binds().remove(key));
    if !r0.keybd_binds().contains_key(key) {
        assert(r2.keybd_binds() =~= r0.keybd_binds());
    }
    if !r0.keybd_active() {
        assert(!has_entries(r2.keybd_binds())) by {
            if has_entries(r2.keybd_binds()) {
                let k = choose|k: KeybdKey| r2.keybd_binds().contains_key(k);
                assert(r0.keybd_binds().contains_key(k));
            }
        }
    }
}

/// When a key is bound twice in a row, its next press runs the second
/// callback.
pub proof fn lemma_last_bind_wins<H, B>(
    r0: Registry<H, B>,
    r1: Registry<H, B>,
    r2: Registry<H, B>,
    key: KeybdKey,
    first: H,
    second: H,
)
    requires
        r0.keybd_becomes(r1, r0.keybd_binds().insert(key, Bind::Normal(first))),
        r1.keybd_becomes(r2, r1.keybd_binds().insert(key, Bind::Normal(second))),
    ensures
        press_action(lookup(r2.keybd_binds(), key)) == Action::<H, B>::Spawn(second),
{
}

/// A press of a key with a blockable bind asks that bind; its answer `Block`
/// suppresses the press and `DontBlock` lets it through.
pub proof fn lemma_blockable_decides<H, B>(registry: Registry<H, B>, key: KeybdKey, callback: B)
    requires
        registry.keybd_binds().contains_key(key),
        registry.keybd_binds()[key] == Bind::<H, B>::Blockable(callback),
    ensures
        press_action(lookup(registry.keybd_binds(), key)) == Action::<H, B>::Decide(callback),
        suppressed(Action::<H, B>::Decide(callback), BlockInput::Block),
        !suppressed(Action::<H, B>::Decide(callback), BlockInput::DontBlock),
{
}

} // verus!

verus! {

/// Press-bind updates of two different keys commute: whichever of two
/// callers takes the registry's lock first, both updates are kept.
pub proof fn lemma_distinct_key_updates_commute<H, B>(
    r0: Registry<H, B>,
    r1: Registry<H, B>,
    r2: Registry<H, B>,
    s1: Registry<H, B>,
    s2: Registry<H, B>,
    k1: KeybdKey,
    b1: Option<Bind<H, B>>,
    k2: KeybdKey,
    b2: Option<Bind<H, B>>,
)
    requires
        k1 != k2,
        r0.keybd_becomes(r1, updated(r0.keybd_binds(), k1, b1)),
        r1.keybd_becomes(r2, updated(r1.keybd_binds(), k2, b2)),
        r0.keybd_becomes(s1, updated(r0.keybd_binds(), k2, b2)),
        s1.keybd_becomes(s2, updated(s1.keybd_binds(), k1, b1)),
    ensures
        r2.keybd_binds() == s2.keybd_binds(),
        lookup(r2.keybd_binds(), k1) == b1,
        lookup(r2.keybd_binds(), k2) == b2,
        r2.keybd_hook() == s2.keybd_hook(),
{
    assert(r2.keybd_binds() =~= s2.keybd_binds());
}

/// A map with `k` bound to `b` (`Some`, as `bind` does) or unbound (`None`,
/// as `unbind` does).
pub open spec fn updated<K, V>(m: Map<K, V>, k: K, b: Option<V>) -> Map<K, V> {
    match b {
        Some(v) => m.insert(k, v),
        None => m.remove(k),
    }
}

} // verus!

verus! {

/// The map after applying `ops` in order; each binds a key (`Some`) or
/// unbinds it (`None`).
pub open spec fn apply_updates<K, V>(m: Map<K, V>, ops: Seq<(K, Option<V>)>) -> Map<K, V>
    decreases ops.len(),
{
    if ops.len() == 0 {
        m
    } else {
        updated(apply_updates(m, ops.drop_last()), ops.last().0, ops.last().1)
    }
}

/// What the last of `ops` that touches `k` left for it, or what `m` held for
/// it when none does.
pub open spec fn last_update<K, V>(m: Map<K, V>, ops: Seq<(K, Option<V>)>, k: K) -> Option<V>
    decreases ops.len(),
{
    if ops.len() == 0 {
        lookup(m, k)
    } else if ops.last().0 == k {
        ops.last().1
    } else {
        last_update(m, ops.drop_last(), k)
    }
}

/// After a sequence of updates, each key holds what the last update of it
/// left: no update is lost, and updates of other keys do not disturb it.
pub proof fn lemma_updates_keep_the_last<K, V>(m: Map<K, V>, ops: Seq<(K, Option<V>)>, k: K)
    ensures
        lookup(apply_updates(m, ops), k) == last_update(m, ops, k),
    decreases ops.len(),
{
    if ops.len() > 0 {
        lemma_updates_keep_the_last(m, ops.drop_last(), k);
    }
}

/// However the registry's lock orders the binds and unbinds of concurrent
/// callers, the press binds afterwards are those of applying the calls in
/// that order, and each key holds what the last call on it left.
pub proof fn lemma_serialized_updates<H, B>(
    rs: Seq<Registry<H, B>>,
    ops: Seq<(KeybdKey, Option<Bind<H, B>>)>,
    k: KeybdKey,
)
    requires
        rs.len() == ops.len() + 1,
        forall|i: int|
            0 <= i < ops.len() ==> (#[trigger] rs[i]).keybd_becomes(
                rs[i + 1],
                updated(rs[i].keybd_binds(), ops[i].0, ops[i].1),
            ),
    ensures
        rs.last().keybd_binds() == apply_updates(rs[0].keybd_binds(), ops),
        lookup(rs.last().keybd_binds(), k) == last_update(rs[0].keybd_binds(), ops, k),
    decreases ops.len(),
{
    if ops.len() > 0 {
        let n = ops.len() as int;
        let prev = rs.drop_last();
        assert forall|i: int| 0 <= i < ops.drop_last().len() implies (#[trigger] prev[i]).keybd_becomes(
            prev[i + 1],
            updated(prev[i].keybd_binds(), ops.drop_last()[i].0, ops.drop_last()[i].1),
        ) by {
            assert(rs[i].keybd_becomes(rs[i + 1], updated(rs[i].keybd_binds(), ops[i].0, ops[i].1)));
        }
        lemma_serialized_updates(prev, ops.drop_last(), k);
        assert(rs[n - 1].keybd_becomes(rs[n], updated(rs[n - 1].keybd_binds(), ops[n - 1].0, ops[n - 1].1)));
    }
    lemma_updates_keep_the_last(rs[0].keybd_binds(), ops, k);
}

} // verus!
