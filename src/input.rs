use vstd::prelude::*;
use std::collections::HashMap;

use crate::msg::CallbackId;

verus! {

broadcast use vstd::std_specs::hash::group_hash_axioms;

/// A modifier key.
#[derive(Debug, Clone, Copy, PartialEq, Eq, Structural)]
pub enum Modifier {
    Shift,
    Ctrl,
    Alt,
    Super,
}

/// A set of held modifiers.
#[derive(Debug, Clone, Copy, PartialEq, Eq, Hash, Structural)]
pub struct ModifierMask {
    pub shift: bool,
    pub ctrl: bool,
    pub alt: bool,
    pub super_key: bool,
}

/// The live state of the keyboard's modifiers.
#[derive(Debug, Clone, Copy, PartialEq, Eq, Structural)]
pub struct ModifiersState {
    pub ctrl: bool,
    pub alt: bool,
    pub shift: bool,
    pub logo: bool,
    pub caps_lock: bool,
    pub num_lock: bool,
}

/// Whether a mouse binding fires on press or on release.
#[derive(Debug, Clone, Copy, PartialEq, Eq, Hash, Structural)]
pub enum MouseEdge {
    Press,
    Release,
}

/// The keysym of the key that switches to virtual terminal 1; the keys for
/// terminals 2 to 12 follow it.
pub const KEY_SWITCH_VT_1: u32 = 0x1008FE01;

/// The keysym of the key that switches to virtual terminal 12.
pub const KEY_SWITCH_VT_12: u32 = 0x1008FE0C;

impl ModifierMask {
    /// The mask as four bits: shift, ctrl, alt, super from the lowest up.
    pub open spec fn spec_bits(self) -> u64 {
        ((if self.shift { 1int } else { 0 }) + (if self.ctrl { 2int } else { 0 }) + (if self.alt {
            4int
        } else {
            0
        }) + (if self.super_key { 8int } else { 0 })) as u64
    }

    pub fn bits(&self) -> (r: u64)
        ensures
            r == self.spec_bits(),
            r < 16,
    {
        (if self.shift { 1u64 } else { 0u64 }) + (if self.ctrl { 2u64 } else { 0u64 }) + (if self.alt {
            4u64
        } else {
            0u64
        }) + (if self.super_key { 8u64 } else { 0u64 })
    }

    /// The mask that holds exactly the modifiers listed.
    pub open spec fn spec_from_modifiers(mods: Seq<Modifier>) -> ModifierMask {
        ModifierMask {
            shift: mods.contains(Modifier::Shift),
            ctrl: mods.contains(Modifier::Ctrl),
            alt: mods.contains(Modifier::Alt),
            super_key: mods.contains(Modifier::Super),
        }
    }

    pub fn from_modifiers(mods: &Vec<Modifier>) -> (r: ModifierMask)
        ensures
            r == ModifierMask::spec_from_modifiers(mods@),
    {
        let mut r = ModifierMask { shift: false, ctrl: false, alt: false, super_key: false };
        let mut k: usize = 0;
        while k < mods.len()
            invariant
                0 <= k <= mods@.len(),
                r == ModifierMask::spec_from_modifiers(mods@.subrange(0, k as int)),
            decreases mods@.len() - k,
        {
            let ghost before = mods@.subrange(0, k as int);
            let ghost after = mods@.subrange(0, k as int + 1);
            proof {
                assert(after =~= before.push(mods@[k as int]));
                assert forall|m: Modifier| after.contains(m) == (before.contains(m) || m == mods@[k as int]) by {
                    if after.contains(m) {
                        let i = choose|i: int| 0 <= i < after.len() && after[i] == m;
                        if i < before.len() {
                            assert(before[i] == m);
                        }
                    }
                    if before.contains(m) {
                        let i = choose|i: int| 0 <= i < before.len() && before[i] == m;
                        assert(after[i] == m);
                    }
                    if m == mods@[k as int] {
                        assert(after[k as int] == m);
                    }
                }
            }
            match mods[k] {
                Modifier::Shift => r.shift = true,
                Modifier::Ctrl => r.ctrl = true,
                Modifier::Alt => r.alt = true,
                Modifier::Super => r.super_key = true,
            }
            k += 1;
        }
        assert(mods@.subrange(0, mods@.len() as int) =~= mods@);
        r
    }

    /// The mask of the held modifiers: alt, shift, ctrl and logo (super).
    pub fn from_state(state: ModifiersState) -> (r: ModifierMask)
        ensures
            r == (ModifierMask {
                shift: state.shift,
                ctrl: state.ctrl,
                alt: state.alt,
                super_key: state.logo,
            }),
    {
        ModifierMask { shift: state.shift, ctrl: state.ctrl, alt: state.alt, super_key: state.logo }
    }
}

/// The key of the keybinding table for a chord of `mods` and `keysym`.
pub open spec fn key_chord(mods: ModifierMask, keysym: u32) -> u64 {
    (mods.spec_bits() * 0x1_0000_0000 + keysym) as u64
}

/// The key of the mousebinding table for `mods`, `button` and `edge`.
pub open spec fn mouse_chord(mods: ModifierMask, button: u32, edge: MouseEdge) -> u64 {
    ((mods.spec_bits() + (if edge == MouseEdge::Press { 16u64 } else { 0u64 })) * 0x1_0000_0000
        + button) as u64
}

/// What `m` maps `k` to, if anything.
pub open spec fn lookup<K, V>(m: Map<K, V>, k: K) -> Option<V> {
    if m.contains_key(k) {
        Some(m[k])
    } else {
        None
    }
}

fn chord_key(mods: ModifierMask, keysym: u32) -> (r: u64)
    ensures
        r == key_chord(mods, keysym),
{
    let b = mods.bits();
    b * 0x1_0000_0000 + keysym as u64
}

fn mouse_key(mods: ModifierMask, button: u32, edge: MouseEdge) -> (r: u64)
    ensures
        r == mouse_chord(mods, button, edge),
{
    let b = mods.bits() + match edge {
        MouseEdge::Press => 16u64,
        MouseEdge::Release => 0u64,
    };
    b * 0x1_0000_0000 + button as u64
}

/// Two chords share a table key only when they are the same chord.
pub proof fn lemma_chords_distinct(m1: ModifierMask, k1: u32, m2: ModifierMask, k2: u32)
    ensures
        key_chord(m1, k1) == key_chord(m2, k2) ==> m1 == m2 && k1 == k2,
{
    if key_chord(m1, k1) == key_chord(m2, k2) {
        assert(m1.spec_bits() == m2.spec_bits() && k1 == k2) by (nonlinear_arith)
            requires
                m1.spec_bits() * 0x1_0000_0000 + k1 == m2.spec_bits() * 0x1_0000_0000 + k2,
                m1.spec_bits() < 16,
                m2.spec_bits() < 16,
        ;
    }
}

/// What a key press does instead of reaching the focused surface.
#[derive(Debug, Clone, Copy, PartialEq, Eq, Structural)]
pub enum KeyAction {
    /// Call a callback of the configuration process.
    CallCallback(CallbackId),
    Quit,
    SwitchVt(i32),
    ReloadConfig,
}

/// The binding tables and built-in bindings of the input router.
#[derive(Debug)]
pub struct InputState {
    /// Keybindings: a chord of modifiers and keysym, by `key_chord`, to a callback.
    pub keybinds: HashMap<u64, CallbackId>,
    /// Mousebindings: modifiers, button and edge, by `mouse_chord`, to a callback.
    pub mousebinds: HashMap<u64, CallbackId>,
    pub reload_keybind: Option<(ModifierMask, u32)>,
    pub kill_keybind: Option<(ModifierMask, u32)>,
}

impl InputState {
    pub fn new() -> (r: InputState)
        ensures
            r.keybinds@ == Map::<u64, CallbackId>::empty(),
            r.mousebinds@ == Map::<u64, CallbackId>::empty(),
            r.reload_keybind is None,
            r.kill_keybind is None,
    {
        InputState {
            keybinds: HashMap::new(),
            mousebinds: HashMap::new(),
            reload_keybind: None,
            kill_keybind: None,
        }
    }

    /// Bind `keysym` with `mods` to `callback`, in place of any earlier binding.
    pub fn register_keybind(&mut self, mods: ModifierMask, keysym: u32, callback: CallbackId)
        ensures
            final(self).keybinds@ == old(self).keybinds@.insert(key_chord(mods, keysym), callback),
            final(self).mousebinds@ == old(self).mousebinds@,
            final(self).reload_keybind == old(self).reload_keybind,
            final(self).kill_keybind == old(self).kill_keybind,
    {
        let k = chord_key(mods, keysym);
        self.keybinds.insert(k, callback);
    }

    /// Bind `button` with `mods` on `edge` to `callback`, in place of any
    /// earlier binding.
    pub fn register_mousebind(
        &mut self,
        mods: ModifierMask,
        button: u32,
        edge: MouseEdge,
        callback: CallbackId,
    )
        ensures
            final(self).mousebinds@ == old(self).mousebinds@.insert(
                mouse_chord(mods, button, edge),
                callback,
            ),
            final(self).keybinds@ == old(self).keybinds@,
            final(self).reload_keybind == old(self).reload_keybind,
            final(self).kill_keybind == old(self).kill_keybind,
    {
        let k = mouse_key(mods, button, edge);
        self.mousebinds.insert(k, callback);
    }

    /// The callback bound to `keysym` with `mods`.
    pub fn keybind(&self, mods: ModifierMask, keysym: u32) -> (r: Option<CallbackId>)
        ensures
            r == lookup(self.keybinds@, key_chord(mods, keysym)),
    {
        let k = chord_key(mods, keysym);
        match self.keybinds.get(&k) {
            Some(cb) => Some(*cb),
            None => None,
        }
    }

    /// The callback bound to `button` with `mods` on `edge`.
    pub fn mousebind(&self, mods: ModifierMask, button: u32, edge: MouseEdge) -> (r: Option<
        CallbackId,
    >)
        ensures
            r == lookup(self.mousebinds@, mouse_chord(mods, button, edge)),
    {
        let k = mouse_key(mods, button, edge);
        match self.mousebinds.get(&k) {
            Some(cb) => Some(*cb),
            None => None,
        }
    }

    /// What a key event does: on a press, a user binding of the modified
    /// keysym, else one of the raw keysym, else the kill, reload and
    /// terminal-switch bindings, in that order. `None`: the key goes to the
    /// focused surface.
    pub open spec fn spec_key_action(
        self,
        pressed: bool,
        mods: ModifierMask,
        mod_sym: u32,
        raw_sym: Option<u32>,
    ) -> Option<KeyAction> {
        if !pressed {
            None
        } else if lookup(self.keybinds@, key_chord(mods, mod_sym)) is Some {
            Some(KeyAction::CallCallback(lookup(self.keybinds@, key_chord(mods, mod_sym)).unwrap()))
        } else if raw_sym is Some && lookup(self.keybinds@, key_chord(mods, raw_sym.unwrap())) is Some {
            Some(
                KeyAction::CallCallback(
                    lookup(self.keybinds@, key_chord(mods, raw_sym.unwrap())).unwrap(),
                ),
            )
        } else if self.kill_keybind == Some((mods, mod_sym)) {
            Some(KeyAction::Quit)
        } else if self.reload_keybind == Some((mods, mod_sym)) {
            Some(KeyAction::ReloadConfig)
        } else if KEY_SWITCH_VT_1 <= mod_sym <= KEY_SWITCH_VT_12 {
            Some(KeyAction::SwitchVt((mod_sym - KEY_SWITCH_VT_1 + 1) as i32))
        } else {
            None
        }
    }

    /// Decide what a key event does. `mod_sym` is the keysym the key produces
    /// with the modifiers applied, `raw_sym` its first unmodified keysym.
    pub fn key_action(
        &self,
        pressed: bool,
        mods: ModifierMask,
        mod_sym: u32,
        raw_sym: Option<u32>,
    ) -> (r: Option<KeyAction>)
        ensures
            r == self.spec_key_action(pressed, mods, mod_sym, raw_sym),
    {
        if !pressed {
            return None;
        }
        if let Some(cb) = self.keybind(mods, mod_sym) {
            return Some(KeyAction::CallCallback(cb));
        }
        if let Some(raw) = raw_sym {
            if let Some(cb) = self.keybind(mods, raw) {
                return Some(KeyAction::CallCallback(cb));
            }
        }
        let is_kill = match self.kill_keybind {
            Some((m, k)) => m == mods && k == mod_sym,
            None => false,
        };
        let is_reload = match self.reload_keybind {
            Some((m, k)) => m == mods && k == mod_sym,
            None => false,
        };
        if is_kill {
            Some(KeyAction::Quit)
        } else if is_reload {
            Some(KeyAction::ReloadConfig)
        } else if KEY_SWITCH_VT_1 <= mod_sym && mod_sym <= KEY_SWITCH_VT_12 {
            Some(KeyAction::SwitchVt((mod_sym - KEY_SWITCH_VT_1 + 1) as i32))
        } else {
            None
        }
    }
}

} // verus!
