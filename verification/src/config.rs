//! The user configuration: the modifier key the bindings hang off, the gap
//! between tiled windows, and the binding table itself. The table is wired
//! once before the event loop starts and read-only afterwards.

use vstd::prelude::*;

use crate::command::Command;
use crate::command::Commands;
use crate::keys::KeyCombo;
use crate::keys::ModKey;
use crate::keys::spec_combined_mask;

verus! {

/// Key symbol of the letter `c`.
pub const KEYSYM_C: u32 = 0x63;
/// Key symbol of the letter `d`.
pub const KEYSYM_D: u32 = 0x64;
/// Key symbol of the letter `j`.
pub const KEYSYM_J: u32 = 0x6a;
/// Key symbol of the letter `k`.
pub const KEYSYM_K: u32 = 0x6b;
/// Key symbol of the letter `p`.
pub const KEYSYM_P: u32 = 0x70;
/// Key symbol of the letter `t`.
pub const KEYSYM_T: u32 = 0x74;
/// Key symbol of the Return key.
pub const KEYSYM_RETURN: u32 = 0xff0d;

/// The packed registry code of the combo with the given mask and key symbol.
pub open spec fn spec_combo_code(mod_mask: u32, keysym: u32) -> u64 {
    (KeyCombo { mod_mask, keysym }).spec_code()
}

/// The configuration: the chosen modifier, the gap width in pixels, and the
/// binding registry.
pub struct Config {
    modkey: ModKey,
    space: u16,
    ctrl: Commands,
}

impl Config {
    /// The configured modifier key.
    pub closed spec fn spec_modkey(self) -> ModKey {
        self.modkey
    }

    /// The configured gap, in pixels.
    pub closed spec fn spec_space(self) -> u16 {
        self.space
    }

    /// The binding registry.
    pub closed spec fn commands(self) -> Commands {
        self.ctrl
    }

    /// The shipped configuration: Mod4 as the modifier, a two-pixel gap, and
    /// no bindings yet.
    pub fn new() -> (r: Config)
        ensures
            r.spec_modkey() == ModKey::Mod4,
            r.spec_space() == 2,
            r.commands().bindings() == Map::<u64, Command>::empty(),
            r.commands().combo_list() == Seq::<KeyCombo>::empty(),
            r.commands().wf(),
    {
        Config { modkey: ModKey::Mod4, space: 2, ctrl: Commands::new() }
    }

    /// The configured modifier key.
    pub fn get_modkey(&self) -> (r: ModKey)
        ensures
            r == self.spec_modkey(),
    {
        self.modkey
    }

    /// The configured gap, in pixels.
    pub fn get_space(&self) -> (r: u16)
        ensures
            r == self.spec_space(),
    {
        self.space
    }

    /// Hands the binding registry out, consuming the configuration.
    pub fn get_ctrl(self) -> (r: Commands)
        ensures
            r == self.commands(),
    {
        self.ctrl
    }

    /// Wires the shipped key table into the registry: close, focus next and
    /// previous, move next and previous, cycle layout, and two launchers.
    /// Every other binding in the registry is left untouched.
    #[verifier::rlimit(100)]
    pub fn wire(&mut self)
        requires
            old(self).spec_modkey() == ModKey::Mod4,
            old(self).commands().wf(),
        ensures
            final(self).spec_modkey() == old(self).spec_modkey(),
            final(self).spec_space() == old(self).spec_space(),
            final(self).commands().wf(),
            ({
                let m = spec_combined_mask(seq![ModKey::Mod4]);
                let ms = spec_combined_mask(seq![ModKey::Mod4, ModKey::Shift]);
                let b = final(self).commands().bindings();
                let prev = old(self).commands().bindings();
                &&& b.contains_key(spec_combo_code(ms, KEYSYM_C)) && b[spec_combo_code(
                    ms,
                    KEYSYM_C,
                )] == Command::FocusClose
                &&& b.contains_key(spec_combo_code(m, KEYSYM_J)) && b[spec_combo_code(
                    m,
                    KEYSYM_J,
                )] == Command::FocusNext
                &&& b.contains_key(spec_combo_code(m, KEYSYM_K)) && b[spec_combo_code(
                    m,
                    KEYSYM_K,
                )] == Command::FocusPrevious
                &&& b.contains_key(spec_combo_code(ms, KEYSYM_J)) && b[spec_combo_code(
                    ms,
                    KEYSYM_J,
                )] == Command::MoveNext
                &&& b.contains_key(spec_combo_code(ms, KEYSYM_K)) && b[spec_combo_code(
                    ms,
                    KEYSYM_K,
                )] == Command::MovePrevious
                &&& b.contains_key(spec_combo_code(ms, KEYSYM_T)) && b[spec_combo_code(
                    ms,
                    KEYSYM_T,
                )] == Command::ChangeLayoutNext
                &&& b.contains_key(spec_combo_code(ms, KEYSYM_RETURN)) && (b[spec_combo_code(
                    ms,
                    KEYSYM_RETURN,
                )] matches Command::Spawn(args) && args@.len() == 1 && args@[0]@ == "stc"@)
                &&& b.contains_key(spec_combo_code(m, KEYSYM_P)) && (b[spec_combo_code(
                    m,
                    KEYSYM_P,
                )] matches Command::Spawn(args) && args@.len() == 1 && args@[0]@ == "dmenu"@)
                &&& b.contains_key(spec_combo_code(ms, KEYSYM_D)) && (b[spec_combo_code(
                    ms,
                    KEYSYM_D,
                )] matches Command::Spawn(args) && args@.len() == 3 && args@[0]@ == "stc"@
                    && args@[1]@ == "-c"@ && args@[2]@ == "ranger"@)
                &&& b.dom() =~= prev.dom().insert(spec_combo_code(ms, KEYSYM_C)).insert(
                    spec_combo_code(m, KEYSYM_J),
                ).insert(spec_combo_code(m, KEYSYM_K)).insert(spec_combo_code(ms, KEYSYM_J)).insert(
                    spec_combo_code(ms, KEYSYM_K),
                ).insert(spec_combo_code(ms, KEYSYM_T)).insert(
                    spec_combo_code(ms, KEYSYM_RETURN),
                ).insert(spec_combo_code(m, KEYSYM_P)).insert(spec_combo_code(ms, KEYSYM_D))
                &&& forall|c: u64|
                    c != spec_combo_code(ms, KEYSYM_C) && c != spec_combo_code(m, KEYSYM_J) && c
                        != spec_combo_code(m, KEYSYM_K) && c != spec_combo_code(ms, KEYSYM_J) && c
                        != spec_combo_code(ms, KEYSYM_K) && c != spec_combo_code(ms, KEYSYM_T) && c
                        != spec_combo_code(ms, KEYSYM_RETURN) && c != spec_combo_code(m, KEYSYM_P)
                        && c != spec_combo_code(ms, KEYSYM_D) ==> #[trigger] b.contains_key(c)
                        == prev.contains_key(c) && (prev.contains_key(c) ==> b[c] == prev[c])
            }),
    {
        proof {
            assert(0u32 | 64u32 == 64u32 && 64u32 | 1u32 == 65u32) by (bit_vector);
        }
        let mut with_shift: Vec<ModKey> = Vec::new();
        with_shift.push(self.modkey);
        with_shift.push(ModKey::Shift);
        let mut alone: Vec<ModKey> = Vec::new();
        alone.push(self.modkey);
        proof {
            assert(with_shift@ =~= seq![ModKey::Mod4, ModKey::Shift]);
            assert(alone@ =~= seq![ModKey::Mod4]);
            reveal_with_fuel(spec_combined_mask, 3);
            assert(seq![ModKey::Mod4].drop_last() =~= Seq::<ModKey>::empty());
            assert(seq![ModKey::Mod4].last() == ModKey::Mod4);
            assert(spec_combined_mask(Seq::<ModKey>::empty()) == 0u32);
            assert(spec_combined_mask(seq![ModKey::Mod4]) == 0u32 | 64u32);
            assert(seq![ModKey::Mod4, ModKey::Shift].drop_last() =~= seq![ModKey::Mod4]);
            assert(seq![ModKey::Mod4, ModKey::Shift].last() == ModKey::Shift);
            assert(spec_combined_mask(seq![ModKey::Mod4, ModKey::Shift]) == (0u32 | 64u32) | 1u32);
            assert(spec_combined_mask(seq![ModKey::Mod4]) == 64);
            assert(spec_combined_mask(seq![ModKey::Mod4, ModKey::Shift]) == 65);
        }
        self.ctrl.add(with_shift.as_slice(), KEYSYM_C, Command::FocusClose);
        self.ctrl.add(alone.as_slice(), KEYSYM_J, Command::FocusNext);
        self.ctrl.add(alone.as_slice(), KEYSYM_K, Command::FocusPrevious);
        self.ctrl.add(with_shift.as_slice(), KEYSYM_J, Command::MoveNext);
        self.ctrl.add(with_shift.as_slice(), KEYSYM_K, Command::MovePrevious);
        self.ctrl.add(with_shift.as_slice(), KEYSYM_T, Command::ChangeLayoutNext);
        let mut stc_args: Vec<String> = Vec::new();
        stc_args.push("stc".to_owned());
        self.ctrl.add(with_shift.as_slice(), KEYSYM_RETURN, Command::Spawn(stc_args));
        let mut dmenu_args: Vec<String> = Vec::new();
        dmenu_args.push("dmenu".to_owned());
        self.ctrl.add(alone.as_slice(), KEYSYM_P, Command::Spawn(dmenu_args));
        let mut ranger_args: Vec<String> = Vec::new();
        ranger_args.push("stc".to_owned());
        ranger_args.push("-c".to_owned());
        ranger_args.push("ranger".to_owned());
        self.ctrl.add(with_shift.as_slice(), KEYSYM_D, Command::Spawn(ranger_args));
        proof {
            let m = spec_combined_mask(seq![ModKey::Mod4]);
            let ms = spec_combined_mask(seq![ModKey::Mod4, ModKey::Shift]);
            assert(spec_combo_code(ms, KEYSYM_C) == 0x41_0000_0063u64);
            assert(spec_combo_code(m, KEYSYM_J) == 0x40_0000_006au64);
            assert(spec_combo_code(m, KEYSYM_K) == 0x40_0000_006bu64);
            assert(spec_combo_code(ms, KEYSYM_J) == 0x41_0000_006au64);
            assert(spec_combo_code(ms, KEYSYM_K) == 0x41_0000_006bu64);
            assert(spec_combo_code(ms, KEYSYM_T) == 0x41_0000_0074u64);
            assert(spec_combo_code(ms, KEYSYM_RETURN) == 0x41_0000_ff0du64);
            assert(spec_combo_code(m, KEYSYM_P) == 0x40_0000_0070u64);
            assert(spec_combo_code(ms, KEYSYM_D) == 0x41_0000_0064u64);
            let b = self.commands().bindings();
            let prev = old(self).commands().bindings();
            assert(b.dom() =~= prev.dom().insert(spec_combo_code(ms, KEYSYM_C)).insert(
                spec_combo_code(m, KEYSYM_J),
            ).insert(spec_combo_code(m, KEYSYM_K)).insert(spec_combo_code(ms, KEYSYM_J)).insert(
                spec_combo_code(ms, KEYSYM_K),
            ).insert(spec_combo_code(ms, KEYSYM_T)).insert(
                spec_combo_code(ms, KEYSYM_RETURN),
            ).insert(spec_combo_code(m, KEYSYM_P)).insert(spec_combo_code(ms, KEYSYM_D)));
        }
    }
}

} // verus!
