//! Modifier keys and key combinations.
//!
//! A `KeyCombo` pairs a modifier bit mask with a key symbol; it is the key of
//! the binding registry and the payload of a key-press event. The modifier
//! masks are the values the X protocol fixes for the eight modifiers.

use vstd::prelude::*;

verus! {

/// Modifier bit of the Shift key.
pub const MOD_MASK_SHIFT: u32 = 1;
/// Modifier bit of the Lock (caps) key.
pub const MOD_MASK_LOCK: u32 = 2;
/// Modifier bit of the Control key.
pub const MOD_MASK_CONTROL: u32 = 4;
/// Modifier bit of the Mod1 (usually Alt) key.
pub const MOD_MASK_1: u32 = 8;
/// Modifier bit of the Mod2 key.
pub const MOD_MASK_2: u32 = 16;
/// Modifier bit of the Mod3 key.
pub const MOD_MASK_3: u32 = 32;
/// Modifier bit of the Mod4 (usually Super) key.
pub const MOD_MASK_4: u32 = 64;
/// Modifier bit of the Mod5 key.
pub const MOD_MASK_5: u32 = 128;

/// One of the eight X modifiers.
#[derive(Clone, Copy, Debug, PartialEq, Eq, Structural)]
pub enum ModKey {
    Shift,
    Lock,
    Control,
    Mod1,
    Mod2,
    Mod3,
    Mod4,
    Mod5,
}

impl ModKey {
    /// The modifier bit this key contributes to a mask.
    pub open spec fn spec_mask(self) -> u32 {
        match self {
            ModKey::Shift => MOD_MASK_SHIFT,
            ModKey::Lock => MOD_MASK_LOCK,
            ModKey::Control => MOD_MASK_CONTROL,
            ModKey::Mod1 => MOD_MASK_1,
            ModKey::Mod2 => MOD_MASK_2,
            ModKey::Mod3 => MOD_MASK_3,
            ModKey::Mod4 => MOD_MASK_4,
            ModKey::Mod5 => MOD_MASK_5,
        }
    }

    /// The modifier bit of this key.
    pub fn mask(self) -> (m: u32)
        ensures
            m == self.spec_mask(),
    {
        match self {
            ModKey::Shift => MOD_MASK_SHIFT,
            ModKey::Lock => MOD_MASK_LOCK,
            ModKey::Control => MOD_MASK_CONTROL,
            ModKey::Mod1 => MOD_MASK_1,
            ModKey::Mod2 => MOD_MASK_2,
            ModKey::Mod3 => MOD_MASK_3,
            ModKey::Mod4 => MOD_MASK_4,
            ModKey::Mod5 => MOD_MASK_5,
        }
    }

    /// The mask with every modifier bit set.
    pub fn mask_all() -> (m: u32)
        ensures
            m == 0xff,
    {
        let m = MOD_MASK_SHIFT | MOD_MASK_LOCK | MOD_MASK_CONTROL | MOD_MASK_1 | MOD_MASK_2
            | MOD_MASK_3 | MOD_MASK_4 | MOD_MASK_5;
        assert(1u32 | 2u32 | 4u32 | 8u32 | 16u32 | 32u32 | 64u32 | 128u32 == 0xffu32) by (bit_vector);
        m
    }
}

/// The modifier mask a list of modifier keys combines to.
pub open spec fn spec_combined_mask(mods: Seq<ModKey>) -> u32
    decreases mods.len(),
{
    if mods.len() == 0 {
        0u32
    } else {
        spec_combined_mask(mods.drop_last()) | mods.last().spec_mask()
    }
}

/// A modifier mask paired with a key symbol. Equality is structural over both
/// fields, and `code` packs the pair into one integer so it can key a map.
#[derive(Clone, Copy, Debug, PartialEq, Eq, Hash, Structural)]
pub struct KeyCombo {
    pub mod_mask: u32,
    pub keysym: u32,
}

impl KeyCombo {
    /// The combo packed into a single integer: the mask in the high half, the
    /// key symbol in the low half. Distinct combos get distinct codes.
    pub open spec fn spec_code(self) -> u64 {
        (self.mod_mask as u64 * 0x1_0000_0000 + self.keysym as u64) as u64
    }

    /// The packed form of this combo, used as the registry key.
    pub fn code(&self) -> (c: u64)
        ensures
            c == self.spec_code(),
    {
        proof {
            assert(self.mod_mask as u64 * 0x1_0000_0000 + self.keysym as u64 <= 0xffff_ffff_ffff_ffff);
        }
        self.mod_mask as u64 * 0x1_0000_0000 + self.keysym as u64
    }

    /// Builds a combo from a list of modifier keys and a key symbol.
    pub fn new(mods: &[ModKey], keysym: u32) -> (combo: KeyCombo)
        ensures
            combo.mod_mask == spec_combined_mask(mods@),
            combo.keysym == keysym,
    {
        let mut mod_mask: u32 = 0;
        let mut i: usize = 0;
        while i < mods.len()
            invariant
                0 <= i <= mods@.len(),
                mod_mask == spec_combined_mask(mods@.subrange(0, i as int)),
            decreases mods@.len() - i,
        {
            mod_mask = mod_mask | mods[i].mask();
            proof {
                assert(mods@.subrange(0, i + 1).drop_last() =~= mods@.subrange(0, i as int));
                assert(mods@.subrange(0, i + 1).last() == mods@[i as int]);
            }
            i = i + 1;
        }
        proof {
            assert(mods@.subrange(0, mods@.len() as int) =~= mods@);
        }
        KeyCombo { mod_mask, keysym }
    }
}

/// Two key combos with the same packed code are the same combo: the packing
/// is injective, so an exact-match lookup by code is an exact-match lookup by
/// combo. Together with the registry contracts this gives: a registered combo
/// is found with its bound command, and a combo never registered is not found.
pub proof fn lemma_combo_code_injective(a: KeyCombo, b: KeyCombo)
    ensures
        (a.spec_code() == b.spec_code()) == (a == b),
{
    if a.spec_code() == b.spec_code() {
        assert(a.mod_mask == b.mod_mask && a.keysym == b.keysym) by {
            assert((a.keysym as u64) < 0x1_0000_0000 && (b.keysym as u64) < 0x1_0000_0000);
        };
    }
}

/// The key combos that should get a server-side key grab.
pub struct KeyHandlers {
    combos: Vec<KeyCombo>,
}

impl KeyHandlers {
    /// The combos held, in the order they were added.
    pub closed spec fn combo_list(self) -> Seq<KeyCombo> {
        self.combos@
    }

    /// An empty set of handlers.
    pub fn new() -> (r: KeyHandlers)
        ensures
            r.combo_list() == Seq::<KeyCombo>::empty(),
    {
        KeyHandlers { combos: Vec::new() }
    }

    /// Adds one combo at the end.
    pub fn add(&mut self, combo: KeyCombo)
        ensures
            final(self).combo_list() == old(self).combo_list().push(combo),
    {
        self.combos.push(combo);
    }

    /// The combos to grab, in order.
    pub fn key_combos(&self) -> (r: &Vec<KeyCombo>)
        ensures
            r@ == self.combo_list(),
    {
        &self.combos
    }
}

} // verus!
