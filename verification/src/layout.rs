//! The master-stack geometry: the master window fills the left region over
//! the full screen height; the slaves split the right region into equal
//! vertical slots, stacked top to bottom in list order, each kept `space`
//! pixels short of its slot so a fixed gap separates them. The last slave
//! absorbs the rounding remainder, so the slave heights always sum to the
//! screen height minus the gaps.

use vstd::prelude::*;

use crate::x::Window;

verus! {

/// The geometry one window is to be configured to.
#[derive(Clone, Copy, Debug, PartialEq, Eq, Structural)]
pub struct Geometry {
    pub window: Window,
    pub x: u32,
    pub y: u32,
    pub width: u32,
    pub height: u32,
}

/// The width of the master region: the full screen when no slaves exist,
/// two thirds of it otherwise.
pub open spec fn spec_master_width(screen_width: u16, n_slaves: nat) -> int {
    if n_slaves == 0 {
        screen_width as int
    } else {
        2 * (screen_width as int) / 3
    }
}

/// The height of one slave slot: an equal vertical fraction of the screen.
pub open spec fn spec_slave_slot(screen_height: u16, n_slaves: nat) -> int
    recommends
        n_slaves > 0,
{
    screen_height as int / n_slaves as int
}

/// The height of slave `i` of `n_slaves`: its slot minus the gap, with the
/// last slave absorbing the division remainder.
pub open spec fn spec_slave_height(screen_height: u16, space: u16, n_slaves: nat, i: int) -> int
    recommends
        n_slaves > 0,
        0 <= i < n_slaves,
{
    let slot = spec_slave_slot(screen_height, n_slaves);
    if i < n_slaves - 1 {
        slot - space
    } else {
        screen_height - (n_slaves - 1) * slot - space
    }
}

/// The screen is large enough for this many slaves: each slot holds at least
/// the gap, and the master region plus the gap leaves room for the slaves.
pub open spec fn spec_layout_feasible(
    screen_width: u16,
    screen_height: u16,
    space: u16,
    n_slaves: nat,
) -> bool {
    n_slaves > 0 ==> {
        &&& space <= spec_slave_slot(screen_height, n_slaves)
        &&& spec_master_width(screen_width, n_slaves) + space <= screen_width
    }
}

/// The geometry of every visible window, master first, slaves top to bottom.
pub open spec fn spec_layout(
    m: Seq<Window>,
    s: Seq<Window>,
    screen_width: u16,
    screen_height: u16,
    space: u16,
) -> Seq<Geometry> {
    let mw = spec_master_width(screen_width, s.len());
    let slot = spec_slave_slot(screen_height, s.len());
    let master_part: Seq<Geometry> = if m.len() == 0 {
        Seq::<Geometry>::empty()
    } else {
        seq![
            Geometry {
                window: m[0],
                x: 0,
                y: 0,
                width: mw as u32,
                height: screen_height as u32,
            },
        ]
    };
    let slave_part: Seq<Geometry> = Seq::new(
        s.len(),
        |i: int|
            Geometry {
                window: s[i],
                x: (mw + space) as u32,
                y: (i * slot) as u32,
                width: (screen_width - mw - space) as u32,
                height: spec_slave_height(screen_height, space, s.len(), i) as u32,
            },
    );
    master_part + slave_part
}

/// All the slots fit on the screen: `n * (h / n) <= h`.
proof fn lemma_slots_fit(screen_height: u16, n_slaves: nat)
    requires
        n_slaves > 0,
    ensures
        n_slaves * spec_slave_slot(screen_height, n_slaves) <= screen_height,
        (n_slaves - 1) * spec_slave_slot(screen_height, n_slaves) + spec_slave_slot(
            screen_height,
            n_slaves,
        ) == n_slaves * spec_slave_slot(screen_height, n_slaves),
{
    let h = screen_height as int;
    let n = n_slaves as int;
    let slot = h / n;
    vstd::arithmetic::div_mod::lemma_fundamental_div_mod(h, n);
    assert(h == n * slot + h % n);
    assert(h % n >= 0) by {
        vstd::arithmetic::div_mod::lemma_mod_bound(h, n);
    }
    assert((n - 1) * slot + slot == n * slot) by (nonlinear_arith);
}

/// Computes the geometry of every window of the given master and slave
/// lists, for a screen of the given bounds and a gap of `space` pixels.
pub fn compute_layout(
    master: &Vec<Window>,
    slaves: &Vec<Window>,
    screen_width: u16,
    screen_height: u16,
    space: u16,
) -> (r: Vec<Geometry>)
    requires
        master@.len() <= 1,
        slaves@.len() < 0x10000,
        spec_layout_feasible(screen_width, screen_height, space, slaves@.len()),
    ensures
        r@ == spec_layout(master@, slaves@, screen_width, screen_height, space),
{
    let ghost goal = spec_layout(master@, slaves@, screen_width, screen_height, space);
    let n = slaves.len();
    let mut r: Vec<Geometry> = Vec::new();
    let mw: u32 = if n == 0 {
        screen_width as u32
    } else {
        2 * (screen_width as u32) / 3
    };
    assert(mw == spec_master_width(screen_width, slaves@.len()));
    let ghost master_count = master@.len() as int;
    if master.len() > 0 {
        r.push(
            Geometry { window: master[0], x: 0, y: 0, width: mw, height: screen_height as u32 },
        );
    }
    assert(r@ =~= goal.subrange(0, master_count));
    if n > 0 {
        let slot: u32 = (screen_height as u32) / (n as u32);
        assert(slot == spec_slave_slot(screen_height, slaves@.len()));
        let sx: u32 = mw + space as u32;
        let sw: u32 = screen_width as u32 - mw - space as u32;
        proof {
            lemma_slots_fit(screen_height, slaves@.len());
        }
        let mut i: usize = 0;
        while i < n
            invariant
                0 <= i <= n,
                n == slaves@.len() < 0x10000,
                master_count == master@.len() <= 1,
                spec_layout_feasible(screen_width, screen_height, space, slaves@.len()),
                mw == spec_master_width(screen_width, slaves@.len()),
                slot == spec_slave_slot(screen_height, slaves@.len()),
                sx == mw + space,
                sw == screen_width - mw - space,
                (slaves@.len() - 1) * slot + slot == slaves@.len() * slot,
                slaves@.len() * slot <= screen_height,
                goal == spec_layout(master@, slaves@, screen_width, screen_height, space),
                r@ =~= goal.subrange(0, master_count + i),
            decreases n - i,
        {
            proof {
                assert(i * slot <= (slaves@.len() - 1) * slot) by (nonlinear_arith)
                    requires
                        0 <= i <= slaves@.len() - 1,
                        slot >= 0,
                ;
            }
            let y: u32 = (i as u32) * slot;
            let h: u32 = if i < n - 1 {
                slot - space as u32
            } else {
                proof {
                    assert((n - 1) * slot == (slaves@.len() - 1) * slot);
                }
                screen_height as u32 - ((n as u32) - 1) * slot - space as u32
            };
            assert(h == spec_slave_height(screen_height, space, slaves@.len(), i as int));
            r.push(Geometry { window: slaves[i], x: sx, y, width: sw, height: h });
            proof {
                assert(goal[master_count + i] == Geometry {
                    window: slaves@[i as int],
                    x: sx,
                    y,
                    width: sw,
                    height: h,
                });
                assert(r@ =~= goal.subrange(0, master_count + i + 1));
            }
            i = i + 1;
        }
    }
    proof {
        assert(goal.len() == master_count + slaves@.len());
        assert(r@ =~= goal);
    }
    r
}

/// The sum of the heights of the first `k` slaves of `n`.
pub open spec fn spec_sum_slave_heights(
    screen_height: u16,
    space: u16,
    n_slaves: nat,
    k: int,
) -> int
    decreases k,
{
    if k <= 0 {
        0
    } else {
        spec_sum_slave_heights(screen_height, space, n_slaves, k - 1) + spec_slave_height(
            screen_height,
            space,
            n_slaves,
            k - 1,
        )
    }
}

/// The sum of the first `k` slave heights, none of them the last: `k` whole
/// slots minus `k` gaps.
proof fn lemma_sum_prefix(screen_height: u16, space: u16, n_slaves: nat, k: int)
    requires
        n_slaves > 0,
        0 <= k <= n_slaves - 1,
    ensures
        spec_sum_slave_heights(screen_height, space, n_slaves, k) == k * (spec_slave_slot(
            screen_height,
            n_slaves,
        ) - space),
    decreases k,
{
    let slot = spec_slave_slot(screen_height, n_slaves);
    if k > 0 {
        lemma_sum_prefix(screen_height, space, n_slaves, k - 1);
        assert((k - 1) * (slot - space) + (slot - space) == k * (slot - space)) by (nonlinear_arith);
    } else {
        assert(k * (slot - space) == 0) by (nonlinear_arith)
            requires
                k == 0,
        ;
    }
}

/// The slave heights tile the screen: for any number of slaves, the heights
/// the layout assigns sum to the screen height minus the gaps.
pub proof fn lemma_slave_heights_tile(screen_height: u16, space: u16, n_slaves: nat)
    requires
        n_slaves > 0,
        space <= spec_slave_slot(screen_height, n_slaves),
    ensures
        spec_sum_slave_heights(screen_height, space, n_slaves, n_slaves as int) == screen_height
            - n_slaves * space,
{
    let slot = spec_slave_slot(screen_height, n_slaves);
    let n = n_slaves as int;
    lemma_sum_prefix(screen_height, space, n_slaves, n - 1);
    assert(spec_sum_slave_heights(screen_height, space, n_slaves, n) == (n - 1) * (slot - space) + (
    screen_height - (n - 1) * slot - space));
    assert((n - 1) * (slot - space) == (n - 1) * slot - (n - 1) * space) by (nonlinear_arith);
    assert((n - 1) * space + space == n * space) by (nonlinear_arith);
}

} // verus!
