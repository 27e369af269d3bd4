//! One workspace of the layout engine: an ordered master list and an ordered
//! slave list of windows. A window is adopted on a map request (master when
//! the master slot is empty, end of the slave stack otherwise) and evicted on
//! a destroy or unmap notification (promoting the first slave when the master
//! slot empties). Every window the workspace tracks sits in exactly one of
//! the two lists.

use vstd::prelude::*;

use crate::error::WmError;
use crate::layout::Geometry;
use crate::layout::compute_layout;
use crate::layout::spec_layout;
use crate::layout::spec_layout_feasible;
use crate::x::Window;

verus! {

/// The arrangement algorithm a workspace uses. Master-stack is the only one
/// so far: one master region on the left, the slaves stacked on the right.
#[derive(Clone, Copy, Debug, PartialEq, Eq, Structural)]
pub enum LayoutKind {
    MasterStack,
}

/// The lists after adopting `w`: unchanged when `w` is already tracked,
/// otherwise `w` becomes master if the master list is empty and the last
/// slave if not.
pub open spec fn spec_adopt(m: Seq<Window>, s: Seq<Window>, w: Window) -> (Seq<Window>, Seq<
    Window,
>) {
    if m.contains(w) || s.contains(w) {
        (m, s)
    } else if m.len() == 0 {
        (m.push(w), s)
    } else {
        (m, s.push(w))
    }
}

/// The lists after evicting `w`: `w` leaves whichever list holds it, and when
/// the master list empties while slaves remain, the first slave is promoted
/// to master (FIFO promotion).
pub open spec fn spec_evict(m: Seq<Window>, s: Seq<Window>, w: Window) -> (Seq<Window>, Seq<
    Window,
>) {
    if m.contains(w) {
        let m2 = m.remove_value(w);
        if m2.len() == 0 && s.len() > 0 {
            (seq![s[0]], s.drop_first())
        } else {
            (m2, s)
        }
    } else if s.contains(w) {
        (m, s.remove_value(w))
    } else {
        (m, s)
    }
}

/// The lists after moving `w` into the master slot: `w` leaves the slave
/// list, the previous masters join the front of the slave list in order, and
/// `w` becomes the only master. A window not in the slave list stays put.
pub open spec fn spec_move_to_master(m: Seq<Window>, s: Seq<Window>, w: Window) -> (Seq<Window>, Seq<
    Window,
>) {
    if s.contains(w) {
        (seq![w], m + s.remove_value(w))
    } else {
        (m, s)
    }
}

/// The lists after moving `w` out of the master slot: `w` leaves the master
/// list and joins the end of the slave stack, and the first slave is promoted
/// to master when the master list empties. A window not in the master list
/// stays put.
pub open spec fn spec_move_to_slave(m: Seq<Window>, s: Seq<Window>, w: Window) -> (Seq<Window>, Seq<
    Window,
>) {
    if m.contains(w) {
        let m2 = m.remove_value(w);
        let s2 = s.push(w);
        if m2.len() == 0 {
            (seq![s2[0]], s2.drop_first())
        } else {
            (m2, s2)
        }
    } else {
        (m, s)
    }
}

/// A named workspace with its master and slave window lists.
pub struct Workspace {
    name: String,
    layout: LayoutKind,
    master: Vec<Window>,
    slaves: Vec<Window>,
}

/// The first index of `win` in `v`, if any.
pub(crate) fn find_window(v: &Vec<Window>, win: Window) -> (r: Option<usize>)
    ensures
        match r {
            Some(i) => 0 <= i < v@.len() && v@[i as int] == win && forall|j: int|
                0 <= j < i ==> v@[j] != win,
            None => !v@.contains(win),
        },
{
    let mut i: usize = 0;
    while i < v.len()
        invariant
            0 <= i <= v@.len(),
            forall|j: int| 0 <= j < i ==> v@[j] != win,
        decreases v@.len() - i,
    {
        if v[i].0 == win.0 {
            assert(v@[i as int] == win);
            return Some(i);
        }
        i = i + 1;
    }
    None
}

/// The first occurrence of `win` in `s` stands at `i`, so removing by value
/// is removing index `i`.
proof fn lemma_remove_value_at(s: Seq<Window>, win: Window, i: int)
    requires
        0 <= i < s.len(),
        s[i] == win,
        forall|j: int| 0 <= j < i ==> s[j] != win,
    ensures
        s.remove_value(win) == s.remove(i),
{
    s.index_of_first_ensures(win);
    assert(s.contains(win));
    let i0 = s.index_of_first(win).unwrap();
    if i0 < i {
        assert(s[i0] != win);
    }
    if i < i0 {
        assert(s[i] != win);
    }
}

/// Removing an index keeps a duplicate-free sequence duplicate-free, loses
/// the element at that index when it occurs only there, and introduces no new
/// elements.
proof fn lemma_remove_keeps_distinct(s: Seq<Window>, i: int)
    requires
        0 <= i < s.len(),
        s.no_duplicates(),
    ensures
        s.remove(i).no_duplicates(),
        !s.remove(i).contains(s[i]),
        forall|x: Window| s.remove(i).contains(x) ==> s.contains(x),
{
    s.remove_ensures(i);
    let r = s.remove(i);
    assert forall|x: int, y: int|
        0 <= x < r.len() && 0 <= y < r.len() && x != y implies r[x] != r[y] by {
        let x0: int = if x < i { x } else { x + 1 };
        let y0: int = if y < i { y } else { y + 1 };
        assert(r[x] == s[x0]);
        assert(r[y] == s[y0]);
    }
    assert forall|x: int| 0 <= x < r.len() implies r[x] != s[i] by {
        let x0: int = if x < i { x } else { x + 1 };
        assert(r[x] == s[x0]);
    }
    assert forall|x: Window| r.contains(x) implies s.contains(x) by {
        let j = choose|j: int| 0 <= j < r.len() && r[j] == x;
        let j0: int = if j < i { j } else { j + 1 };
        assert(s[j0] == x);
    }
}

impl Workspace {
    /// The master list, top of the stacking order first.
    pub closed spec fn masters(self) -> Seq<Window> {
        self.master@
    }

    /// The slave list, in stacking order top to bottom.
    pub closed spec fn slave_list(self) -> Seq<Window> {
        self.slaves@
    }

    /// The workspace's name.
    pub closed spec fn spec_name(self) -> Seq<char> {
        self.name@
    }

    /// The active arrangement algorithm.
    pub closed spec fn layout_kind(self) -> LayoutKind {
        self.layout
    }

    /// Every tracked window, masters first, then the slaves in stacking
    /// order.
    pub open spec fn windows(self) -> Seq<Window> {
        self.masters() + self.slave_list()
    }

    /// No window appears twice: each list is duplicate-free and the two are
    /// disjoint.
    pub open spec fn wf(self) -> bool {
        &&& self.masters().no_duplicates()
        &&& self.slave_list().no_duplicates()
        &&& self.masters().disjoint(self.slave_list())
    }

    /// An empty workspace under the master-stack layout. An empty workspace
    /// is a valid steady state.
    pub fn new(name: String) -> (r: Workspace)
        ensures
            r.masters() == Seq::<Window>::empty(),
            r.slave_list() == Seq::<Window>::empty(),
            r.spec_name() == name@,
            r.layout_kind() == LayoutKind::MasterStack,
            r.wf(),
    {
        Workspace { name, layout: LayoutKind::MasterStack, master: Vec::new(), slaves: Vec::new() }
    }

    /// How many windows hold the master slot.
    pub fn master_count(&self) -> (r: usize)
        ensures
            r == self.masters().len(),
    {
        self.master.len()
    }

    /// How many windows sit in the slave stack.
    pub fn slave_count(&self) -> (r: usize)
        ensures
            r == self.slave_list().len(),
    {
        self.slaves.len()
    }

    /// Every tracked window in stacking order, masters first.
    pub fn window_order(&self) -> (r: Vec<Window>)
        ensures
            r@ == self.windows(),
    {
        let mut r: Vec<Window> = Vec::new();
        let mut i: usize = 0;
        while i < self.master.len()
            invariant
                0 <= i <= self.master@.len(),
                r@ =~= self.master@.subrange(0, i as int),
            decreases self.master@.len() - i,
        {
            r.push(self.master[i]);
            i = i + 1;
        }
        let mut j: usize = 0;
        while j < self.slaves.len()
            invariant
                0 <= j <= self.slaves@.len(),
                r@ =~= self.master@ + self.slaves@.subrange(0, j as int),
            decreases self.slaves@.len() - j,
        {
            r.push(self.slaves[j]);
            j = j + 1;
        }
        proof {
            assert(r@ =~= self.windows());
        }
        r
    }

    /// Whether the workspace tracks `win` in either list.
    pub fn contains(&self, win: Window) -> (r: bool)
        ensures
            r == (self.masters().contains(win) || self.slave_list().contains(win)),
    {
        let in_master = find_window(&self.master, win);
        let in_slaves = find_window(&self.slaves, win);
        in_master.is_some() || in_slaves.is_some()
    }

    /// Pushes `win` onto the end of the master list. The caller keeps the
    /// workspace free of duplicates by only pushing an untracked window.
    pub fn push_master(&mut self, win: Window)
        requires
            old(self).wf(),
            !old(self).masters().contains(win),
            !old(self).slave_list().contains(win),
        ensures
            final(self).masters() == old(self).masters().push(win),
            final(self).slave_list() == old(self).slave_list(),
            final(self).spec_name() == old(self).spec_name(),
            final(self).layout_kind() == old(self).layout_kind(),
            final(self).wf(),
    {
        self.master.push(win);
    }

    /// Pushes `win` onto the end of the slave list. The caller keeps the
    /// workspace free of duplicates by only pushing an untracked window.
    pub fn push_slave(&mut self, win: Window)
        requires
            old(self).wf(),
            !old(self).masters().contains(win),
            !old(self).slave_list().contains(win),
        ensures
            final(self).masters() == old(self).masters(),
            final(self).slave_list() == old(self).slave_list().push(win),
            final(self).spec_name() == old(self).spec_name(),
            final(self).layout_kind() == old(self).layout_kind(),
            final(self).wf(),
    {
        self.slaves.push(win);
    }

    /// Removes and returns the first master. On an empty master list this is
    /// `EmptyListError` and the workspace is untouched — a recoverable
    /// condition, reachable by legitimate user action.
    pub fn pop_master(&mut self) -> (r: Result<Window, WmError>)
        ensures
            old(self).masters().len() == 0 ==> r == Err::<Window, WmError>(WmError::EmptyListError)
                && *final(self) == *old(self),
            old(self).masters().len() > 0 ==> r == Ok::<Window, WmError>(old(self).masters()[0])
                && final(self).masters() == old(self).masters().drop_first(),
            final(self).slave_list() == old(self).slave_list(),
            final(self).spec_name() == old(self).spec_name(),
            final(self).layout_kind() == old(self).layout_kind(),
            old(self).wf() ==> final(self).wf(),
    {
        if self.master.len() == 0 {
            Err(WmError::EmptyListError)
        } else {
            let win = self.master.remove(0);
            proof {
                assert(old(self).masters().remove(0) =~= old(self).masters().drop_first());
                if old(self).wf() {
                    lemma_remove_keeps_distinct(old(self).masters(), 0);
                }
            }
            Ok(win)
        }
    }

    /// Removes and returns the first slave. On an empty slave list this is
    /// `EmptyListError` and the workspace is untouched.
    pub fn pop_slave(&mut self) -> (r: Result<Window, WmError>)
        ensures
            old(self).slave_list().len() == 0 ==> r == Err::<Window, WmError>(
                WmError::EmptyListError,
            ) && *final(self) == *old(self),
            old(self).slave_list().len() > 0 ==> r == Ok::<Window, WmError>(
                old(self).slave_list()[0],
            ) && final(self).slave_list() == old(self).slave_list().drop_first(),
            final(self).masters() == old(self).masters(),
            final(self).spec_name() == old(self).spec_name(),
            final(self).layout_kind() == old(self).layout_kind(),
            old(self).wf() ==> final(self).wf(),
    {
        if self.slaves.len() == 0 {
            Err(WmError::EmptyListError)
        } else {
            let win = self.slaves.remove(0);
            proof {
                assert(old(self).slave_list().remove(0) =~= old(self).slave_list().drop_first());
                if old(self).wf() {
                    lemma_remove_keeps_distinct(old(self).slave_list(), 0);
                }
            }
            Ok(win)
        }
    }

    /// Adopts `win`: master when the master list is empty, last slave
    /// otherwise; a window already tracked is left where it is.
    pub fn adopt(&mut self, win: Window)
        requires
            old(self).wf(),
        ensures
            (final(self).masters(), final(self).slave_list()) == spec_adopt(
                old(self).masters(),
                old(self).slave_list(),
                win,
            ),
            final(self).spec_name() == old(self).spec_name(),
            final(self).layout_kind() == old(self).layout_kind(),
            final(self).wf(),
    {
        if self.contains(win) {
            return ;
        }
        if self.master.len() == 0 {
            self.master.push(win);
        } else {
            self.slaves.push(win);
        }
    }

    /// Evicts `win` from whichever list holds it; when the master list
    /// empties while slaves remain, the first slave is promoted to master. A
    /// window the workspace does not track is ignored.
    pub fn evict(&mut self, win: Window)
        requires
            old(self).wf(),
        ensures
            (final(self).masters(), final(self).slave_list()) == spec_evict(
                old(self).masters(),
                old(self).slave_list(),
                win,
            ),
            final(self).spec_name() == old(self).spec_name(),
            final(self).layout_kind() == old(self).layout_kind(),
            final(self).wf(),
    {
        let ghost old_m = old(self).masters();
        let ghost old_s = old(self).slave_list();
        if let Some(i) = find_window(&self.master, win) {
            self.master.remove(i);
            proof {
                lemma_remove_value_at(old_m, win, i as int);
                lemma_remove_keeps_distinct(old_m, i as int);
            }
            if self.master.len() == 0 && self.slaves.len() > 0 {
                let promoted = self.slaves.remove(0);
                self.master.push(promoted);
                proof {
                    assert(self.masters() =~= seq![old_s[0]]);
                    assert(self.slave_list() =~= old_s.drop_first());
                    lemma_remove_keeps_distinct(old_s, 0);
                }
            }
        } else if let Some(j) = find_window(&self.slaves, win) {
            self.slaves.remove(j);
            proof {
                lemma_remove_value_at(old_s, win, j as int);
                lemma_remove_keeps_distinct(old_s, j as int);
            }
        }
    }

    /// Recomputes the geometry of every visible window for the given screen
    /// bounds and gap: one entry per window, master first, slaves top to
    /// bottom. An empty workspace yields no geometry at all.
    pub fn recompute(&self, screen_width: u16, screen_height: u16, space: u16) -> (r: Vec<Geometry>)
        requires
            self.masters().len() <= 1,
            self.slave_list().len() < 0x10000,
            spec_layout_feasible(screen_width, screen_height, space, self.slave_list().len()),
        ensures
            r@ == spec_layout(
                self.masters(),
                self.slave_list(),
                screen_width,
                screen_height,
                space,
            ),
    {
        compute_layout(&self.master, &self.slaves, screen_width, screen_height, space)
    }

    /// Moves `win` from the slave list into the master slot; the previous
    /// masters join the front of the slave list in order. A window not in the
    /// slave list stays put.
    pub fn move_to_master(&mut self, win: Window)
        requires
            old(self).wf(),
        ensures
            (final(self).masters(), final(self).slave_list()) == spec_move_to_master(
                old(self).masters(),
                old(self).slave_list(),
                win,
            ),
            final(self).spec_name() == old(self).spec_name(),
            final(self).layout_kind() == old(self).layout_kind(),
            final(self).wf(),
    {
        let ghost old_m = old(self).masters();
        let ghost old_s = old(self).slave_list();
        if let Some(j) = find_window(&self.slaves, win) {
            self.slaves.remove(j);
            proof {
                lemma_remove_value_at(old_s, win, j as int);
                lemma_remove_keeps_distinct(old_s, j as int);
            }
            let mut rest: Vec<Window> = Vec::new();
            rest.append(&mut self.master);
            rest.append(&mut self.slaves);
            self.slaves = rest;
            self.master.push(win);
            proof {
                assert(self.masters() =~= seq![win]);
                assert(self.slave_list() =~= old_m + old_s.remove_value(win));
                let ns = self.slave_list();
                assert forall|x: int, y: int|
                    0 <= x < ns.len() && 0 <= y < ns.len() && x != y implies ns[x] != ns[y] by {
                    let r = old_s.remove(j as int);
                    if x < old_m.len() && y < old_m.len() {
                    } else if x >= old_m.len() && y >= old_m.len() {
                        assert(ns[x] == r[x - old_m.len()]);
                        assert(ns[y] == r[y - old_m.len()]);
                    } else if x < old_m.len() {
                        assert(ns[y] == r[y - old_m.len()]);
                        assert(old_s.contains(r[y - old_m.len()]));
                    } else {
                        assert(ns[x] == r[x - old_m.len()]);
                        assert(old_s.contains(r[x - old_m.len()]));
                    }
                }
                assert forall|x: int| 0 <= x < ns.len() implies ns[x] != win by {
                    let r = old_s.remove(j as int);
                    if x >= old_m.len() {
                        assert(ns[x] == r[x - old_m.len()]);
                    } else {
                        assert(old_s[j as int] == win);
                    }
                }
            }
        }
    }

    /// Moves `win` from the master slot to the end of the slave stack,
    /// promoting the first slave into the emptied master slot. A window not
    /// in the master list stays put.
    pub fn move_to_slave(&mut self, win: Window)
        requires
            old(self).wf(),
        ensures
            (final(self).masters(), final(self).slave_list()) == spec_move_to_slave(
                old(self).masters(),
                old(self).slave_list(),
                win,
            ),
            final(self).spec_name() == old(self).spec_name(),
            final(self).layout_kind() == old(self).layout_kind(),
            final(self).wf(),
    {
        let ghost old_m = old(self).masters();
        let ghost old_s = old(self).slave_list();
        if let Some(i) = find_window(&self.master, win) {
            self.master.remove(i);
            self.slaves.push(win);
            proof {
                lemma_remove_value_at(old_m, win, i as int);
                lemma_remove_keeps_distinct(old_m, i as int);
                assert forall|x: int| 0 <= x < old_s.len() implies old_s[x] != win by {
                    assert(old_m[i as int] == win);
                }
            }
            if self.master.len() == 0 {
                let promoted = self.slaves.remove(0);
                self.master.push(promoted);
                proof {
                    let s2 = old_s.push(win);
                    assert(self.masters() =~= seq![s2[0]]);
                    assert(self.slave_list() =~= s2.drop_first());
                    lemma_remove_keeps_distinct(s2, 0);
                    assert(s2.no_duplicates());
                }
            }
        }
    }
}

/// A well-formed workspace's window order has no duplicates.
pub proof fn lemma_windows_no_duplicates(w: Workspace)
    requires
        w.wf(),
    ensures
        w.windows().no_duplicates(),
{
    let m = w.masters();
    let s = w.slave_list();
    let o = w.windows();
    assert forall|i: int, j: int|
        0 <= i < o.len() && 0 <= j < o.len() && i != j implies o[i] != o[j] by {
        if i < m.len() && j < m.len() {
        } else if i >= m.len() && j >= m.len() {
            assert(o[i] == s[i - m.len()]);
            assert(o[j] == s[j - m.len()]);
        } else if i < m.len() {
            assert(o[i] == m[i]);
            assert(o[j] == s[j - m.len()]);
        } else {
            assert(o[i] == s[i - m.len()]);
            assert(o[j] == m[j]);
        }
    }
}

/// Adopting three distinct windows into an empty workspace yields the first
/// as master and the other two as slaves, in adoption order.
pub proof fn lemma_adopt_order(w1: Window, w2: Window, w3: Window)
    requires
        w1 != w2,
        w1 != w3,
        w2 != w3,
    ensures
        ({
            let p1 = spec_adopt(Seq::<Window>::empty(), Seq::<Window>::empty(), w1);
            let p2 = spec_adopt(p1.0, p1.1, w2);
            let p3 = spec_adopt(p2.0, p2.1, w3);
            p3.0 == seq![w1] && p3.1 == seq![w2, w3]
        }),
{
    let p1 = spec_adopt(Seq::<Window>::empty(), Seq::<Window>::empty(), w1);
    assert(p1.0 =~= seq![w1]);
    assert(p1.1 =~= Seq::<Window>::empty());
    let p2 = spec_adopt(p1.0, p1.1, w2);
    assert(!p1.0.contains(w2));
    assert(p2.0 =~= seq![w1]);
    assert(p2.1 =~= seq![w2]);
    let p3 = spec_adopt(p2.0, p2.1, w3);
    assert(!p2.0.contains(w3) && !p2.1.contains(w3));
    assert(p3.0 =~= seq![w1]);
    assert(p3.1 =~= seq![w2, w3]);
}

/// Evicting the master while one slave exists promotes that slave to master;
/// evicting the only window of a workspace leaves it empty.
pub proof fn lemma_evict_promotion(m: Window, s: Window)
    requires
        m != s,
    ensures
        spec_evict(seq![m], seq![s], m) == (seq![s], Seq::<Window>::empty()),
        spec_evict(seq![m], Seq::<Window>::empty(), m) == (
            Seq::<Window>::empty(),
            Seq::<Window>::empty(),
        ),
        spec_evict(Seq::<Window>::empty(), seq![m], m) == (
            Seq::<Window>::empty(),
            Seq::<Window>::empty(),
        ),
{
    let one_m = seq![m];
    let one_s = seq![s];
    assert(one_m[0] == m);
    assert(one_m.contains(m));
    lemma_remove_value_at(one_m, m, 0);
    assert(one_m.remove(0) =~= Seq::<Window>::empty());
    assert(one_s.drop_first() =~= Seq::<Window>::empty());
    assert(spec_evict(one_m, one_s, m).0 =~= one_s);
    assert(!Seq::<Window>::empty().contains(m));
}

} // verus!
