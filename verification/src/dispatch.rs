//! The dispatcher: consumes abstract events, drives the key registry and the
//! layout engine, and answers with the gateway requests to issue. It owns the
//! one workspace, the binding registry, and the explicit focus state; every
//! transition is a pure step from state and event to next state and actions.

use vstd::prelude::*;

use crate::command::Command;
use crate::command::Commands;
use crate::event::Event;
use crate::keys::KeyCombo;
use crate::layout::Geometry;
use crate::layout::spec_layout;
use crate::layout::spec_layout_feasible;
use crate::workspace::Workspace;
use crate::workspace::find_window;
use crate::workspace::lemma_windows_no_duplicates;
use crate::workspace::spec_adopt;
use crate::workspace::spec_evict;
use crate::workspace::spec_move_to_master;
use crate::workspace::spec_move_to_slave;
use crate::x::Window;

verus! {

/// One gateway request the dispatcher asks the caller to issue.
#[derive(Clone, Debug, PartialEq, Eq)]
pub enum Action {
    /// Apply this geometry to the window.
    Configure { window: Window, x: u32, y: u32, width: u32, height: u32 },
    /// Map the window.
    MapWindow { window: Window },
    /// Subscribe to the window's enter and structure notifications.
    EnableTracking { window: Window },
    /// Give the window the input focus and publish it as active.
    Focus { window: Window },
    /// Clear the published active window.
    Unfocus,
    /// Close the window politely if it supports the delete protocol.
    Close { window: Window },
    /// Launch an external program, fire and forget.
    Spawn { args: Vec<String> },
}

/// An index of `w` in `order`; with a duplicate-free order, the index.
pub open spec fn spec_win_index(order: Seq<Window>, w: Window) -> int {
    choose|i: int| 0 <= i < order.len() && order[i] == w
}

/// The window focused after stepping forward: the one after the focused
/// window in stacking order, wrapping around; the first window when nothing
/// focused is tracked; none when the workspace is empty.
pub open spec fn spec_next_focus(order: Seq<Window>, focused: Option<Window>) -> Option<Window> {
    if order.len() == 0 {
        None
    } else {
        match focused {
            Some(w) => if order.contains(w) {
                let i = spec_win_index(order, w);
                Some(order[if i == order.len() - 1 { 0int } else { i + 1 }])
            } else {
                Some(order[0])
            },
            None => Some(order[0]),
        }
    }
}

/// The window focused after stepping backward, wrapping around.
pub open spec fn spec_prev_focus(order: Seq<Window>, focused: Option<Window>) -> Option<Window> {
    if order.len() == 0 {
        None
    } else {
        match focused {
            Some(w) => if order.contains(w) {
                let i = spec_win_index(order, w);
                Some(order[if i == 0 { order.len() - 1 } else { i - 1 }])
            } else {
                Some(order[0])
            },
            None => Some(order[0]),
        }
    }
}

/// The same command: equal, except that launcher argument vectors are
/// compared by contents.
pub open spec fn spec_same_command(a: Command, b: Command) -> bool {
    match (a, b) {
        (Command::Spawn(x), Command::Spawn(y)) => x@ == y@,
        _ => a == b,
    }
}

/// The lists after adopting every window of `wins` in order.
pub open spec fn spec_adopt_all(m: Seq<Window>, s: Seq<Window>, wins: Seq<Window>) -> (Seq<
    Window,
>, Seq<Window>)
    decreases wins.len(),
{
    if wins.len() == 0 {
        (m, s)
    } else {
        let p = spec_adopt_all(m, s, wins.drop_last());
        spec_adopt(p.0, p.1, wins.last())
    }
}

/// An owned copy of `v`'s strings.
fn clone_args(v: &Vec<String>) -> (r: Vec<String>)
    ensures
        r@ == v@,
{
    let mut r: Vec<String> = Vec::new();
    let mut i: usize = 0;
    while i < v.len()
        invariant
            0 <= i <= v@.len(),
            r@ =~= v@.subrange(0, i as int),
        decreases v@.len() - i,
    {
        r.push(v[i].clone());
        i = i + 1;
    }
    proof {
        assert(r@ =~= v@);
    }
    r
}

/// An owned copy of the command `c`.
fn copy_command(c: &Command) -> (r: Command)
    ensures
        spec_same_command(r, *c),
{
    match c {
        Command::Spawn(args) => Command::Spawn(clone_args(args)),
        Command::FocusClose => Command::FocusClose,
        Command::FocusNext => Command::FocusNext,
        Command::FocusPrevious => Command::FocusPrevious,
        Command::MoveNext => Command::MoveNext,
        Command::MovePrevious => Command::MovePrevious,
        Command::ChangeWorkspace(n) => Command::ChangeWorkspace(*n),
        Command::ChangeLayoutNext => Command::ChangeLayoutNext,
    }
}

/// What handling the key press `combo` does to the manager. A combo bound to
/// nothing is silently ignored. A launcher fires without touching any state;
/// close acts on the focused window if there is one; the focus commands step
/// through the stacking order; the move commands relocate the focused window
/// between the lists and retile. Workspace switching and layout cycling are
/// no-ops while there is a single workspace and a single layout kind.
pub open spec fn spec_key_press_post(
    pre: Manager,
    post: Manager,
    combo: KeyCombo,
    actions: Seq<Action>,
) -> bool {
    let b = pre.commands().bindings();
    let code = combo.spec_code();
    let m = pre.workspace().masters();
    let s = pre.workspace().slave_list();
    if !b.contains_key(code) {
        &&& post.workspace() == pre.workspace()
        &&& post.spec_focused() == pre.spec_focused()
        &&& actions == Seq::<Action>::empty()
    } else {
        match b[code] {
            Command::Spawn(args) => {
                &&& post.workspace() == pre.workspace()
                &&& post.spec_focused() == pre.spec_focused()
                &&& actions.len() == 1
                &&& actions[0] matches Action::Spawn { args: a } && a@ == args@
            },
            Command::FocusClose => {
                &&& post.workspace() == pre.workspace()
                &&& post.spec_focused() == pre.spec_focused()
                &&& actions == match pre.spec_focused() {
                    Some(w) => seq![Action::Close { window: w }],
                    None => Seq::<Action>::empty(),
                }
            },
            Command::FocusNext => {
                &&& post.workspace() == pre.workspace()
                &&& match spec_next_focus(pre.workspace().windows(), pre.spec_focused()) {
                    Some(w) => post.spec_focused() == Some(w) && actions == seq![
                        Action::Focus { window: w },
                    ],
                    None => post.spec_focused() == pre.spec_focused() && actions
                        == Seq::<Action>::empty(),
                }
            },
            Command::FocusPrevious => {
                &&& post.workspace() == pre.workspace()
                &&& match spec_prev_focus(pre.workspace().windows(), pre.spec_focused()) {
                    Some(w) => post.spec_focused() == Some(w) && actions == seq![
                        Action::Focus { window: w },
                    ],
                    None => post.spec_focused() == pre.spec_focused() && actions
                        == Seq::<Action>::empty(),
                }
            },
            Command::MoveNext => {
                &&& post.spec_focused() == pre.spec_focused()
                &&& match pre.spec_focused() {
                    Some(w) => (post.workspace().masters(), post.workspace().slave_list())
                        == spec_move_to_slave(m, s, w) && actions == post.spec_configures(),
                    None => post.workspace() == pre.workspace() && actions
                        == Seq::<Action>::empty(),
                }
            },
            Command::MovePrevious => {
                &&& post.spec_focused() == pre.spec_focused()
                &&& match pre.spec_focused() {
                    Some(w) => (post.workspace().masters(), post.workspace().slave_list())
                        == spec_move_to_master(m, s, w) && actions == post.spec_configures(),
                    None => post.workspace() == pre.workspace() && actions
                        == Seq::<Action>::empty(),
                }
            },
            Command::ChangeWorkspace(_) => {
                &&& post.workspace() == pre.workspace()
                &&& post.spec_focused() == pre.spec_focused()
                &&& actions == Seq::<Action>::empty()
            },
            Command::ChangeLayoutNext => {
                &&& post.workspace() == pre.workspace()
                &&& post.spec_focused() == pre.spec_focused()
                &&& actions == Seq::<Action>::empty()
            },
        }
    }
}

/// The dispatcher's state: the workspace, the binding registry, the screen
/// bounds and gap the layout works with, and the explicitly tracked focus.
pub struct Manager {
    workspace: Workspace,
    ctrl: Commands,
    focused: Option<Window>,
    screen_width: u16,
    screen_height: u16,
    space: u16,
}

impl Manager {
    /// The workspace.
    pub closed spec fn workspace(self) -> Workspace {
        self.workspace
    }

    /// The binding registry.
    pub closed spec fn commands(self) -> Commands {
        self.ctrl
    }

    /// The explicitly focused window, if any.
    pub closed spec fn spec_focused(self) -> Option<Window> {
        self.focused
    }

    /// The usable screen width.
    pub closed spec fn spec_screen_width(self) -> u16 {
        self.screen_width
    }

    /// The usable screen height.
    pub closed spec fn spec_screen_height(self) -> u16 {
        self.screen_height
    }

    /// The configured gap between tiled windows.
    pub closed spec fn spec_space(self) -> u16 {
        self.space
    }

    /// The workspace is well formed and its master slot holds at most one
    /// window, as the master-stack algorithm keeps it.
    pub open spec fn wf(self) -> bool {
        &&& self.workspace().wf()
        &&& self.workspace().masters().len() <= 1
    }

    /// Nothing but the window lists and the focus moved: registry, screen
    /// bounds, gap, workspace name and layout kind are the same.
    pub open spec fn spec_same_env(self, other: Manager) -> bool {
        &&& other.commands() == self.commands()
        &&& other.spec_screen_width() == self.spec_screen_width()
        &&& other.spec_screen_height() == self.spec_screen_height()
        &&& other.spec_space() == self.spec_space()
        &&& other.workspace().spec_name() == self.workspace().spec_name()
        &&& other.workspace().layout_kind() == self.workspace().layout_kind()
    }

    /// The screen can tile the current slave count: the counts fit and each
    /// slot has room for the gap.
    pub open spec fn spec_can_tile(self) -> bool {
        &&& self.workspace().slave_list().len() < 0x10000
        &&& spec_layout_feasible(
            self.spec_screen_width(),
            self.spec_screen_height(),
            self.spec_space(),
            self.workspace().slave_list().len(),
        )
    }

    /// The configure requests a recompute issues: one per visible window,
    /// master first, slaves top to bottom — or none at all when the screen
    /// cannot tile the current window count.
    pub open spec fn spec_configures(self) -> Seq<Action> {
        if self.spec_can_tile() {
            spec_layout(
                self.workspace().masters(),
                self.workspace().slave_list(),
                self.spec_screen_width(),
                self.spec_screen_height(),
                self.spec_space(),
            ).map(
                |i: int, g: Geometry|
                    (Action::Configure {
                        window: g.window,
                        x: g.x,
                        y: g.y,
                        width: g.width,
                        height: g.height,
                    }),
            )
        } else {
            Seq::<Action>::empty()
        }
    }

    /// A fresh manager: an empty workspace, no focus, and the given registry
    /// and screen parameters.
    pub fn new(ctrl: Commands, screen_width: u16, screen_height: u16, space: u16) -> (r: Manager)
        ensures
            r.workspace().masters() == Seq::<Window>::empty(),
            r.workspace().slave_list() == Seq::<Window>::empty(),
            r.commands() == ctrl,
            r.spec_focused() is None,
            r.spec_screen_width() == screen_width,
            r.spec_screen_height() == screen_height,
            r.spec_space() == space,
            r.wf(),
    {
        Manager {
            workspace: Workspace::new("main".to_owned()),
            ctrl,
            focused: None,
            screen_width,
            screen_height,
            space,
        }
    }

    /// The current workspace's window order, masters first.
    pub fn windows(&self) -> (r: Vec<Window>)
        ensures
            r@ == self.workspace().windows(),
    {
        self.workspace.window_order()
    }

    /// The focused window, if any.
    pub fn focused(&self) -> (r: Option<Window>)
        ensures
            r == self.spec_focused(),
    {
        self.focused
    }

    /// Recomputes the layout: the configure request of every visible window,
    /// or no requests when the screen cannot tile the current window count.
    fn arrange(&self) -> (r: Vec<Action>)
        requires
            self.wf(),
        ensures
            r@ == self.spec_configures(),
    {
        let n = self.workspace.slave_count();
        let feasible = n < 0x10000 && (n == 0 || ((self.space as u32) <= (self.screen_height
            as u32) / (n as u32) && 2 * (self.screen_width as u32) / 3 + (self.space as u32) <= (
        self.screen_width as u32)));
        if !feasible {
            assert(!self.spec_can_tile());
            return Vec::new();
        }
        assert(self.spec_can_tile());
        let geos = self.workspace.recompute(self.screen_width, self.screen_height, self.space);
        let ghost target = self.spec_configures();
        let mut r: Vec<Action> = Vec::new();
        let mut i: usize = 0;
        while i < geos.len()
            invariant
                0 <= i <= geos@.len(),
                target.len() == geos@.len(),
                forall|j: int|
                    0 <= j < geos@.len() ==> target[j] == (Action::Configure {
                        window: geos@[j].window,
                        x: geos@[j].x,
                        y: geos@[j].y,
                        width: geos@[j].width,
                        height: geos@[j].height,
                    }),
                r@.len() == i,
                forall|j: int| 0 <= j < i ==> r@[j] == target[j],
            decreases geos@.len() - i,
        {
            let g = geos[i];
            r.push(
                Action::Configure { window: g.window, x: g.x, y: g.y, width: g.width, height: g.height },
            );
            i = i + 1;
        }
        proof {
            assert(r@ =~= target);
        }
        r
    }

    /// Adopts the window of a map request, subscribes to its notifications,
    /// maps it, and retiles.
    pub fn map_request(&mut self, win: Window) -> (actions: Vec<Action>)
        requires
            old(self).wf(),
        ensures
            final(self).wf(),
            old(self).spec_same_env(*final(self)),
            (final(self).workspace().masters(), final(self).workspace().slave_list()) == spec_adopt(
                old(self).workspace().masters(),
                old(self).workspace().slave_list(),
                win,
            ),
            final(self).spec_focused() == old(self).spec_focused(),
            actions@ == seq![
                Action::EnableTracking { window: win },
                Action::MapWindow { window: win },
            ] + final(self).spec_configures(),
    {
        self.workspace.adopt(win);
        let mut actions: Vec<Action> = Vec::new();
        actions.push(Action::EnableTracking { window: win });
        actions.push(Action::MapWindow { window: win });
        let mut confs = self.arrange();
        actions.append(&mut confs);
        proof {
            assert(actions@ =~= seq![
                Action::EnableTracking { window: win },
                Action::MapWindow { window: win },
            ] + final(self).spec_configures());
        }
        actions
    }

    /// Evicts a window that went away, dropping the focus and publishing
    /// "no active window" when it was the focused one, and retiles.
    fn remove_window(&mut self, win: Window) -> (actions: Vec<Action>)
        requires
            old(self).wf(),
        ensures
            final(self).wf(),
            old(self).spec_same_env(*final(self)),
            (final(self).workspace().masters(), final(self).workspace().slave_list()) == spec_evict(
                old(self).workspace().masters(),
                old(self).workspace().slave_list(),
                win,
            ),
            final(self).spec_focused() == (if old(self).spec_focused() == Some(win) {
                None::<Window>
            } else {
                old(self).spec_focused()
            }),
            actions@ == (if old(self).spec_focused() == Some(win) {
                seq![Action::Unfocus]
            } else {
                Seq::<Action>::empty()
            }) + final(self).spec_configures(),
    {
        self.workspace.evict(win);
        proof {
            let m = old(self).workspace().masters();
            if m.contains(win) {
                m.index_of_first_ensures(win);
            }
        }
        let mut actions: Vec<Action> = Vec::new();
        let focus_lost = match self.focused {
            Some(w) => w.0 == win.0,
            None => false,
        };
        if focus_lost {
            proof {
                assert(old(self).spec_focused() == Some(win));
            }
            self.focused = None;
            actions.push(Action::Unfocus);
        }
        let mut confs = self.arrange();
        actions.append(&mut confs);
        proof {
            assert(actions@ =~= (if old(self).spec_focused() == Some(win) {
                seq![Action::Unfocus]
            } else {
                Seq::<Action>::empty()
            }) + final(self).spec_configures());
        }
        actions
    }

    /// Handles a client unmap: the window is evicted and the layout redone.
    pub fn unmap_notify(&mut self, win: Window) -> (actions: Vec<Action>)
        requires
            old(self).wf(),
        ensures
            final(self).wf(),
            old(self).spec_same_env(*final(self)),
            (final(self).workspace().masters(), final(self).workspace().slave_list()) == spec_evict(
                old(self).workspace().masters(),
                old(self).workspace().slave_list(),
                win,
            ),
            final(self).spec_focused() == (if old(self).spec_focused() == Some(win) {
                None::<Window>
            } else {
                old(self).spec_focused()
            }),
            actions@ == (if old(self).spec_focused() == Some(win) {
                seq![Action::Unfocus]
            } else {
                Seq::<Action>::empty()
            }) + final(self).spec_configures(),
    {
        self.remove_window(win)
    }

    /// Handles a destroy notification exactly like a client unmap.
    pub fn destroy_notify(&mut self, win: Window) -> (actions: Vec<Action>)
        requires
            old(self).wf(),
        ensures
            final(self).wf(),
            old(self).spec_same_env(*final(self)),
            (final(self).workspace().masters(), final(self).workspace().slave_list()) == spec_evict(
                old(self).workspace().masters(),
                old(self).workspace().slave_list(),
                win,
            ),
            final(self).spec_focused() == (if old(self).spec_focused() == Some(win) {
                None::<Window>
            } else {
                old(self).spec_focused()
            }),
            actions@ == (if old(self).spec_focused() == Some(win) {
                seq![Action::Unfocus]
            } else {
                Seq::<Action>::empty()
            }) + final(self).spec_configures(),
    {
        self.remove_window(win)
    }

    /// Steps the focus forward or backward through the stacking order,
    /// wrapping around; with no tracked focus the first window is taken. An
    /// empty workspace leaves everything as it is.
    fn focus_step(&mut self, forward: bool) -> (actions: Vec<Action>)
        requires
            old(self).wf(),
        ensures
            final(self).wf(),
            old(self).spec_same_env(*final(self)),
            final(self).workspace() == old(self).workspace(),
            ({
                let target = if forward {
                    spec_next_focus(old(self).workspace().windows(), old(self).spec_focused())
                } else {
                    spec_prev_focus(old(self).workspace().windows(), old(self).spec_focused())
                };
                match target {
                    Some(w) => final(self).spec_focused() == Some(w) && actions@ == seq![
                        Action::Focus { window: w },
                    ],
                    None => final(self).spec_focused() == old(self).spec_focused() && actions@
                        == Seq::<Action>::empty(),
                }
            }),
    {
        let order = self.workspace.window_order();
        if order.len() == 0 {
            let r: Vec<Action> = Vec::new();
            proof {
                assert(r@ =~= Seq::<Action>::empty());
            }
            return r;
        }
        let ghost ws = old(self).workspace().windows();
        let mut target_idx: usize = 0;
        match self.focused {
            Some(w0) => {
                match find_window(&order, w0) {
                    Some(i) => {
                        proof {
                            lemma_windows_no_duplicates(old(self).workspace());
                            assert(ws[i as int] == w0);
                            assert(ws.contains(w0));
                            let ci = spec_win_index(ws, w0);
                            assert(0 <= ci < ws.len() && ws[ci] == w0);
                            if ci != i {
                                assert(ws[ci] != ws[i as int]);
                            }
                            assert(ci == i);
                        }
                        if forward {
                            target_idx = if i + 1 == order.len() {
                                0
                            } else {
                                i + 1
                            };
                        } else {
                            target_idx = if i == 0 {
                                order.len() - 1
                            } else {
                                i - 1
                            };
                        }
                    },
                    None => {
                        target_idx = 0;
                    },
                }
            },
            None => {
                target_idx = 0;
            },
        }
        let w = order[target_idx];
        self.focused = Some(w);
        let mut actions: Vec<Action> = Vec::new();
        actions.push(Action::Focus { window: w });
        proof {
            assert(actions@ =~= seq![Action::Focus { window: w }]);
        }
        actions
    }

    /// Focus follows the pointer: the entered window becomes the focused one.
    pub fn enter_notify(&mut self, win: Window) -> (actions: Vec<Action>)
        requires
            old(self).wf(),
        ensures
            final(self).wf(),
            old(self).spec_same_env(*final(self)),
            final(self).workspace() == old(self).workspace(),
            final(self).spec_focused() == Some(win),
            actions@ == seq![Action::Focus { window: win }],
    {
        self.focused = Some(win);
        let mut actions: Vec<Action> = Vec::new();
        actions.push(Action::Focus { window: win });
        proof {
            assert(actions@ =~= seq![Action::Focus { window: win }]);
        }
        actions
    }

    /// Looks the pressed combo up and performs the bound command; an unbound
    /// combo is silently ignored.
    pub fn key_press(&mut self, combo: &KeyCombo) -> (actions: Vec<Action>)
        requires
            old(self).wf(),
        ensures
            final(self).wf(),
            old(self).spec_same_env(*final(self)),
            spec_key_press_post(*old(self), *final(self), *combo, actions@),
    {
        let found: Option<Command> = match self.ctrl.lookup(combo) {
            Some(c) => Some(copy_command(c)),
            None => None,
        };
        match found {
            None => {
                let r: Vec<Action> = Vec::new();
                proof {
                    assert(r@ =~= Seq::<Action>::empty());
                }
                r
            },
            Some(Command::Spawn(args)) => {
                let mut r: Vec<Action> = Vec::new();
                r.push(Action::Spawn { args });
                r
            },
            Some(Command::FocusClose) => {
                match self.focused {
                    Some(w) => {
                        let mut r: Vec<Action> = Vec::new();
                        r.push(Action::Close { window: w });
                        proof {
                            assert(r@ =~= seq![Action::Close { window: w }]);
                        }
                        r
                    },
                    None => {
                        let r: Vec<Action> = Vec::new();
                        proof {
                            assert(r@ =~= Seq::<Action>::empty());
                        }
                        r
                    },
                }
            },
            Some(Command::FocusNext) => self.focus_step(true),
            Some(Command::FocusPrevious) => self.focus_step(false),
            Some(Command::MoveNext) => {
                match self.focused {
                    Some(w) => {
                        self.workspace.move_to_slave(w);
                        proof {
                            let m = old(self).workspace().masters();
                            if m.contains(w) {
                                m.index_of_first_ensures(w);
                            }
                        }
                        self.arrange()
                    },
                    None => {
                        let r: Vec<Action> = Vec::new();
                        proof {
                            assert(r@ =~= Seq::<Action>::empty());
                        }
                        r
                    },
                }
            },
            Some(Command::MovePrevious) => {
                match self.focused {
                    Some(w) => {
                        self.workspace.move_to_master(w);
                        self.arrange()
                    },
                    None => {
                        let r: Vec<Action> = Vec::new();
                        proof {
                            assert(r@ =~= Seq::<Action>::empty());
                        }
                        r
                    },
                }
            },
            Some(Command::ChangeWorkspace(_)) => {
                let r: Vec<Action> = Vec::new();
                proof {
                    assert(r@ =~= Seq::<Action>::empty());
                }
                r
            },
            Some(Command::ChangeLayoutNext) => {
                let r: Vec<Action> = Vec::new();
                proof {
                    assert(r@ =~= Seq::<Action>::empty());
                }
                r
            },
        }
    }

    /// Handles one abstract event, fully, before the next is pulled: the
    /// state moves and the returned gateway requests are to be issued in
    /// order.
    pub fn handle_event(&mut self, ev: &Event) -> (actions: Vec<Action>)
        requires
            old(self).wf(),
        ensures
            final(self).wf(),
            old(self).spec_same_env(*final(self)),
            *ev matches Event::MapRequest(w) ==> (final(self).workspace().masters(), final(self).workspace().slave_list())
                == spec_adopt(
                old(self).workspace().masters(),
                old(self).workspace().slave_list(),
                w,
            ) && final(self).spec_focused() == old(self).spec_focused() && actions@ == seq![
                Action::EnableTracking { window: w },
                Action::MapWindow { window: w },
            ] + final(self).spec_configures(),
            *ev matches Event::UnmapNotify(w) ==> (final(self).workspace().masters(), final(self).workspace().slave_list())
                == spec_evict(
                old(self).workspace().masters(),
                old(self).workspace().slave_list(),
                w,
            ) && final(self).spec_focused() == (if old(self).spec_focused() == Some(w) {
                None::<Window>
            } else {
                old(self).spec_focused()
            }) && actions@ == (if old(self).spec_focused() == Some(w) {
                seq![Action::Unfocus]
            } else {
                Seq::<Action>::empty()
            }) + final(self).spec_configures(),
            *ev matches Event::DestroyNotify(w) ==> (final(self).workspace().masters(), final(self).workspace().slave_list())
                == spec_evict(
                old(self).workspace().masters(),
                old(self).workspace().slave_list(),
                w,
            ) && final(self).spec_focused() == (if old(self).spec_focused() == Some(w) {
                None::<Window>
            } else {
                old(self).spec_focused()
            }) && actions@ == (if old(self).spec_focused() == Some(w) {
                seq![Action::Unfocus]
            } else {
                Seq::<Action>::empty()
            }) + final(self).spec_configures(),
            *ev matches Event::EnterNotify(w) ==> final(self).workspace() == old(self).workspace()
                && final(self).spec_focused() == Some(w) && actions@ == seq![
                Action::Focus { window: w },
            ],
            *ev matches Event::KeyPress(k) ==> spec_key_press_post(
                *old(self),
                *final(self),
                k,
                actions@,
            ),
    {
        match ev {
            Event::MapRequest(w) => self.map_request(*w),
            Event::UnmapNotify(w) => self.unmap_notify(*w),
            Event::DestroyNotify(w) => self.destroy_notify(*w),
            Event::KeyPress(k) => self.key_press(k),
            Event::EnterNotify(w) => self.enter_notify(*w),
        }
    }

    /// Adopts the windows that already existed at startup, in the server's
    /// reported order, subscribes to each, and retiles once.
    pub fn adopt_existing(&mut self, wins: &Vec<Window>) -> (actions: Vec<Action>)
        requires
            old(self).wf(),
        ensures
            final(self).wf(),
            old(self).spec_same_env(*final(self)),
            final(self).spec_focused() == old(self).spec_focused(),
            (final(self).workspace().masters(), final(self).workspace().slave_list())
                == spec_adopt_all(
                old(self).workspace().masters(),
                old(self).workspace().slave_list(),
                wins@,
            ),
            actions@ == wins@.map(|i: int, w: Window| (Action::EnableTracking { window: w }))
                + final(self).spec_configures(),
    {
        let ghost m0 = old(self).workspace().masters();
        let ghost s0 = old(self).workspace().slave_list();
        let mut actions: Vec<Action> = Vec::new();
        let mut i: usize = 0;
        while i < wins.len()
            invariant
                0 <= i <= wins@.len(),
                self.wf(),
                old(self).spec_same_env(*self),
                self.spec_focused() == old(self).spec_focused(),
                m0 == old(self).workspace().masters(),
                s0 == old(self).workspace().slave_list(),
                (self.workspace().masters(), self.workspace().slave_list()) == spec_adopt_all(
                    m0,
                    s0,
                    wins@.subrange(0, i as int),
                ),
                actions@ =~= wins@.subrange(0, i as int).map(
                    |j: int, w: Window| (Action::EnableTracking { window: w }),
                ),
            decreases wins@.len() - i,
        {
            let w = wins[i];
            self.workspace.adopt(w);
            actions.push(Action::EnableTracking { window: w });
            proof {
                assert(wins@.subrange(0, i + 1).drop_last() =~= wins@.subrange(0, i as int));
                assert(wins@.subrange(0, i + 1).last() == wins@[i as int]);
                assert(actions@ =~= wins@.subrange(0, i + 1).map(
                    |j: int, w: Window| (Action::EnableTracking { window: w }),
                ));
            }
            i = i + 1;
        }
        proof {
            assert(wins@.subrange(0, wins@.len() as int) =~= wins@);
        }
        let mut confs = self.arrange();
        actions.append(&mut confs);
        proof {
            assert(actions@ =~= wins@.map(|i: int, w: Window| (Action::EnableTracking { window: w }))
                + final(self).spec_configures());
        }
        actions
    }
}

} // verus!
