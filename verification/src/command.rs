//! The key-binding registry: a mapping from key combo to command, built once
//! at startup and read-only afterwards. Lookup is exact-match only and O(1)
//! amortized; an unbound combo is simply not found. Duplicate registrations
//! of one combo keep the last command.

use std::collections::HashMap;

use vstd::prelude::*;
use vstd::std_specs::hash::obeys_key_model;

use crate::keys::KeyCombo;
use crate::keys::ModKey;

verus! {

broadcast use vstd::std_specs::hash::group_hash_axioms;

/// What a key press is bound to: a window-management operation, or the
/// launch of an external program with the given argument vector.
#[derive(Clone, Debug, PartialEq, Eq)]
pub enum Command {
    /// Launch an external program; the vector is program name then arguments.
    Spawn(Vec<String>),
    /// Close the focused window.
    FocusClose,
    /// Focus the next window in stacking order.
    FocusNext,
    /// Focus the previous window in stacking order.
    FocusPrevious,
    /// Move the focused window out of the master slot into the slave stack.
    MoveNext,
    /// Move the focused window into the master slot.
    MovePrevious,
    /// Switch to another workspace.
    ChangeWorkspace(u16),
    /// Cycle the workspace's layout kind.
    ChangeLayoutNext,
}

/// The registry. `bindings` maps each registered combo's packed code to its
/// command; `combo_list` remembers the distinct combos in registration order
/// so that key grabs can be enumerated.
pub struct Commands {
    keybinds: HashMap<u64, Command>,
    combos: Vec<KeyCombo>,
}

impl Commands {
    /// The bound commands, keyed by packed combo code.
    pub closed spec fn bindings(self) -> Map<u64, Command> {
        self.keybinds@
    }

    /// The distinct registered combos, in registration order.
    pub closed spec fn combo_list(self) -> Seq<KeyCombo> {
        self.combos@
    }

    /// The combo list and the binding map describe the same set of combos,
    /// with no combo listed twice.
    pub open spec fn wf(self) -> bool {
        &&& forall|i: int|
            0 <= i < self.combo_list().len() ==> self.bindings().contains_key(
                #[trigger] self.combo_list()[i].spec_code(),
            )
        &&& forall|c: u64|
            self.bindings().contains_key(c) ==> exists|i: int|
                0 <= i < self.combo_list().len() && #[trigger] self.combo_list()[i].spec_code() == c
        &&& forall|i: int, j: int|
            0 <= i < j < self.combo_list().len() ==> #[trigger] self.combo_list()[i].spec_code()
                != #[trigger] self.combo_list()[j].spec_code()
    }

    /// An empty registry.
    pub fn new() -> (r: Commands)
        ensures
            r.bindings() == Map::<u64, Command>::empty(),
            r.combo_list() == Seq::<KeyCombo>::empty(),
            r.wf(),
    {
        Commands { keybinds: HashMap::new(), combos: Vec::new() }
    }

    /// Binds the combo of `mods` and `keysym` to `cmd`. A combo registered
    /// twice keeps the last command; the combo list gains the combo only the
    /// first time.
    pub fn add(&mut self, mods: &[ModKey], keysym: u32, cmd: Command) -> (combo: KeyCombo)
        requires
            old(self).wf(),
        ensures
            combo.mod_mask == crate::keys::spec_combined_mask(mods@),
            combo.keysym == keysym,
            final(self).bindings() == old(self).bindings().insert(combo.spec_code(), cmd),
            old(self).bindings().contains_key(combo.spec_code()) ==> final(self).combo_list()
                == old(self).combo_list(),
            !old(self).bindings().contains_key(combo.spec_code()) ==> final(self).combo_list()
                == old(self).combo_list().push(combo),
            final(self).wf(),
    {
        proof {
            assert(obeys_key_model::<u64>());
        }
        let combo = KeyCombo::new(mods, keysym);
        let code = combo.code();
        let was_bound = self.keybinds.contains_key(&code);
        self.keybinds.insert(code, cmd);
        if !was_bound {
            self.combos.push(combo);
        }
        proof {
            let oldc = old(self).combo_list();
            let combos = self.combo_list();
            let binds = self.bindings();
            let added = combo.spec_code();
            assert forall|c: u64| binds.contains_key(c) implies exists|i: int|
                0 <= i < combos.len() && #[trigger] combos[i].spec_code() == c by {
                if !was_bound && c == added {
                    assert(combos[oldc.len() as int] == combo);
                    assert(combos[oldc.len() as int].spec_code() == c);
                } else {
                    assert(old(self).bindings().contains_key(c));
                    let i = choose|i: int|
                        0 <= i < oldc.len() && #[trigger] oldc[i].spec_code() == c;
                    assert(combos[i] == oldc[i]);
                    assert(combos[i].spec_code() == c);
                }
            }
        }
        combo
    }

    /// Looks `combo` up: the bound command exactly when the combo's code is
    /// registered, no match otherwise.
    pub fn lookup(&self, combo: &KeyCombo) -> (r: Option<&Command>)
        ensures
            match r {
                Some(cmd) => self.bindings().contains_key(combo.spec_code()) && *cmd
                    == self.bindings()[combo.spec_code()],
                None => !self.bindings().contains_key(combo.spec_code()),
            },
    {
        proof {
            assert(obeys_key_model::<u64>());
        }
        let code = combo.code();
        self.keybinds.get(&code)
    }

    /// The registered combos, for key-grab registration.
    pub fn key_combos(&self) -> (r: &Vec<KeyCombo>)
        ensures
            r@ == self.combo_list(),
    {
        &self.combos
    }
}

/// The registry is exact: after binding `k` to `cmd`, `k`'s code maps to
/// `cmd`; and a different combo that was never registered still has no
/// binding — registering one combo can never make another one match.
pub proof fn lemma_registry_exact(prev: Map<u64, Command>, k: KeyCombo, cmd: Command, q: KeyCombo)
    ensures
        prev.insert(k.spec_code(), cmd).contains_key(k.spec_code()),
        prev.insert(k.spec_code(), cmd)[k.spec_code()] == cmd,
        q != k && !prev.contains_key(q.spec_code()) ==> !prev.insert(
            k.spec_code(),
            cmd,
        ).contains_key(q.spec_code()),
{
    crate::keys::lemma_combo_code_injective(k, q);
}

} // verus!
