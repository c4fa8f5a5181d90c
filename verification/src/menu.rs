//! The hierarchical menu: one top-level coordinator and three per-feature
//! sub-menus, each a small state machine driven once per host frame by
//! `input()` then `display()`.
//!
//! Every transition of the exec code equals a spec-level transition function,
//! so the frame-level rules — activation only on the chord, idempotent
//! enabling, Back suppression, automatic pop when a sub-menu leaves, and the
//! deferred force-close flag that is consumed on the next display pass and
//! always wins — are stated and proved over those functions.

use vstd::prelude::*;
use crate::buttons::BTN_A;
use crate::buttons::BTN_B;
use crate::buttons::BTN_DPAD_DOWN;
use crate::buttons::BTN_DPAD_LEFT;
use crate::buttons::BTN_DPAD_RIGHT;
use crate::buttons::BTN_DPAD_UP;
use crate::buttons::BTN_TWO;
use crate::buttons::ButtonState;
use crate::draw::DrawCmd;
use crate::draw::menu_list_ok;
use crate::widget::SimpleMenu;
use crate::widget::down_edge;
use crate::widget::moved_cursor;
use crate::widget::up_edge;

verus! {

/// Holding every button of this chord at once opens the top-level menu.
pub const ACTIVATION_CHORD: u32 = BTN_DPAD_RIGHT | BTN_TWO;

/// Every button the menu layer intercepts; closing the menu consumes their
/// press edges so none leaks through to the host.
pub const MENU_BUTTONS: u32 = BTN_B | BTN_A | BTN_DPAD_RIGHT | BTN_DPAD_DOWN | BTN_DPAD_LEFT
    | BTN_DPAD_UP | BTN_TWO;

/// The top-level coordinator's state: quiescent, on its selection list, or
/// delegated to one sub-menu.
#[derive(Clone, Copy, PartialEq, Eq, Structural, Debug)]
pub enum MenuState {
    Off,
    MenuSelect,
    DisplayMenu,
    WarpMenu,
    ActionMenu,
}

/// The sub-menu that selection-list index `num` confirms into; indices past
/// the list fall back to the selection list itself.
pub open spec fn from_u32_spec(num: u32) -> MenuState {
    if num == 0 {
        MenuState::DisplayMenu
    } else if num == 1 {
        MenuState::WarpMenu
    } else if num == 2 {
        MenuState::ActionMenu
    } else {
        MenuState::MenuSelect
    }
}

impl MenuState {
    /// Maps a selection-list cursor index to the matching sub-menu state.
    pub fn from_u32(num: u32) -> (r: MenuState)
        ensures
            r == from_u32_spec(num),
    {
        match num {
            0 => MenuState::DisplayMenu,
            1 => MenuState::WarpMenu,
            2 => MenuState::ActionMenu,
            _ => MenuState::MenuSelect,
        }
    }
}

/// A per-feature sub-menu's state: quiescent or browsing its list.
#[derive(Clone, Copy, PartialEq, Eq, Structural, Debug)]
pub enum SubState {
    Off,
    Browse,
}

/// One per-feature sub-menu: a list of options with a cursor, enabled and
/// left independently of the coordinator.
pub struct SubMenu {
    pub state: SubState,
    pub cursor: u32,
    pub force_close: bool,
    pub heading: String,
    pub entries: Vec<String>,
}

/// Enabling an inactive sub-menu starts it browsing; enabling an active one
/// changes nothing.
pub open spec fn sub_enable_spec(s: SubMenu) -> SubMenu {
    if s.state is Browse {
        s
    } else {
        SubMenu { state: SubState::Browse, ..s }
    }
}

/// Disabling only raises the force-close flag; the next display pass
/// consumes it.
pub open spec fn sub_disable_spec(s: SubMenu) -> SubMenu {
    SubMenu { force_close: true, ..s }
}

/// One input pass of a sub-menu: Back while browsing leaves the sub-menu at
/// once and consumes the press; anything else changes nothing. The second
/// component is the press mask the host is left with.
pub open spec fn sub_input_spec(s: SubMenu, pressed: u32) -> (SubMenu, u32) {
    if s.state is Browse && pressed & BTN_B != 0 {
        (SubMenu { state: SubState::Off, ..s }, pressed & !BTN_B)
    } else {
        (s, pressed)
    }
}

/// One display pass of a sub-menu: while browsing the cursor takes one
/// directional step; last of all a raised force-close flag is consumed and
/// wins, whatever came before.
pub open spec fn sub_display_spec(s: SubMenu, pressed: u32) -> SubMenu {
    let moved = if s.state is Browse {
        SubMenu {
            cursor: moved_cursor(
                s.cursor,
                s.entries@.len() as u32,
                down_edge(pressed),
                up_edge(pressed),
            ),
            ..s
        }
    } else {
        s
    };
    if moved.force_close {
        SubMenu { force_close: false, state: SubState::Off, ..moved }
    } else {
        moved
    }
}

/// What a sub-menu's display pass draws: its list while browsing, nothing
/// while quiescent.
pub open spec fn sub_draw_ok(s: Seq<DrawCmd>, sub: SubMenu) -> bool {
    if sub.state is Browse {
        menu_list_ok(s, sub.heading@, sub.labels(), sub.cursor)
    } else {
        s.len() == 0
    }
}

impl SubMenu {
    /// The option labels, as character sequences.
    pub open spec fn labels(&self) -> Seq<Seq<char>> {
        self.entries@.map_values(|s: String| s@)
    }

    /// Well-formed: the option count fits the cursor's 32 bits, and the
    /// cursor stays within the option list (at 0 while the list is empty).
    pub open spec fn wf(&self) -> bool {
        &&& self.entries@.len() <= 0xFFFF_FFFF
        &&& if self.entries@.len() == 0 {
            self.cursor == 0u32
        } else {
            self.cursor < self.entries@.len()
        }
    }

    /// A quiescent sub-menu with no options yet.
    pub fn new(heading: &str) -> (r: SubMenu)
        ensures
            r.wf(),
            r.state == SubState::Off,
            r.cursor == 0u32,
            !r.force_close,
            r.heading@ == heading@,
            r.entries@.len() == 0,
    {
        SubMenu {
            state: SubState::Off,
            cursor: 0,
            force_close: false,
            heading: String::from_str(heading),
            entries: Vec::new(),
        }
    }

    /// Appends one option label.
    pub fn add_entry(&mut self, label: &str)
        requires
            old(self).wf(),
            old(self).entries@.len() < 0xFFFF_FFFF,
        ensures
            final(self).wf(),
            final(self).labels() == old(self).labels().push(label@),
            final(self).entries@.len() == old(self).entries@.len() + 1,
            final(self).state == old(self).state,
            final(self).cursor == old(self).cursor,
            final(self).force_close == old(self).force_close,
            final(self).heading == old(self).heading,
    {
        self.entries.push(String::from_str(label));
        proof {
            assert(self.labels() =~= old(self).labels().push(label@));
        }
    }

    /// True while the sub-menu is browsing.
    pub fn is_active(&self) -> (r: bool)
        ensures
            r == (self.state is Browse),
    {
        match self.state {
            SubState::Browse => true,
            SubState::Off => false,
        }
    }

    /// Starts the sub-menu browsing; a no-op while it already is.
    pub fn enable(&mut self)
        ensures
            *final(self) == sub_enable_spec(*old(self)),
    {
        if self.is_active() {
            return ;
        }
        self.state = SubState::Browse;
    }

    /// Raises the force-close flag, consumed on the next display pass, and
    /// consumes every intercepted press so none leaks through to the host.
    pub fn disable(&mut self, b: &mut ButtonState)
        ensures
            *final(self) == sub_disable_spec(*old(self)),
            final(b).pressed == (old(b).pressed & !MENU_BUTTONS),
            final(b).down == old(b).down,
    {
        self.force_close = true;
        b.set_not_pressed(MENU_BUTTONS);
    }

    /// One input pass: Back while browsing leaves at once and suppresses the
    /// press from the host.
    pub fn input(&mut self, b: &mut ButtonState)
        ensures
            *final(self) == sub_input_spec(*old(self), old(b).pressed).0,
            final(b).pressed == sub_input_spec(*old(self), old(b).pressed).1,
            final(b).down == old(b).down,
    {
        match self.state {
            SubState::Browse => {
                if b.is_pressed(BTN_B) {
                    self.state = SubState::Off;
                    b.set_not_pressed(BTN_B);
                }
            },
            SubState::Off => {},
        }
    }

    /// One display pass: draws the option list while browsing and steps the
    /// cursor, then consumes a raised force-close flag last, so a disable
    /// always wins within the frame.
    pub fn display(&mut self, b: &ButtonState) -> (cmds: Vec<DrawCmd>)
        requires
            old(self).wf(),
        ensures
            *final(self) == sub_display_spec(*old(self), b.pressed),
            final(self).wf(),
            sub_draw_ok(cmds@, *old(self)),
    {
        let mut cmds: Vec<DrawCmd> = Vec::new();
        match self.state {
            SubState::Browse => {
                let mut menu = SimpleMenu::new(self.entries.len());
                menu.set_heading(self.heading.as_str());
                menu.set_cursor(self.cursor);
                let mut i: usize = 0;
                while i < self.entries.len()
                    invariant
                        self.wf(),
                        i <= self.entries@.len(),
                        menu.capacity == self.entries@.len(),
                        menu.entries@.len() == i,
                        menu.labels() == self.labels().take(i as int),
                        menu.heading@ == self.heading@,
                        menu.cursor == self.cursor,
                    decreases self.entries@.len() - i,
                {
                    let _ = menu.add_entry(self.entries[i].as_str());
                    i = i + 1;
                    proof {
                        assert(menu.labels() =~= self.labels().take(i as int));
                    }
                }
                proof {
                    assert(self.labels().take(self.entries@.len() as int) =~= self.labels());
                }
                let mut mc = menu.draw();
                let ghost mcv = mc@;
                cmds.append(&mut mc);
                proof {
                    assert(cmds@ =~= mcv);
                }
                self.cursor = menu.move_cursor(b);
            },
            SubState::Off => {},
        }
        if self.force_close {
            self.force_close = false;
            self.state = SubState::Off;
        }
        cmds
    }
}

/// A one-glyph symbol run.
fn glyph1(a: u16) -> (g: Vec<u16>)
    ensures
        g@ == seq![a],
{
    let mut g: Vec<u16> = Vec::new();
    g.push(a);
    proof {
        assert(g@ =~= seq![a]);
    }
    g
}

/// A two-glyph symbol run.
fn glyph2(a: u16, b: u16) -> (g: Vec<u16>)
    ensures
        g@ == seq![a, b],
{
    let mut g: Vec<u16> = Vec::new();
    g.push(a);
    g.push(b);
    proof {
        assert(g@ =~= seq![a, b]);
    }
    g
}

/// The input guide drawn whenever the top-level menu is active: a dimming
/// rectangle over the whole screen, then the button legend along the bottom.
pub open spec fn guide_ok(s: Seq<DrawCmd>) -> bool {
    &&& s.len() == 11
    &&& s[0] == (DrawCmd::Rect { x: 0u32, y: 0u32, w: 640u32, h: 480u32, color: 0x000000C0u32 })
    &&& s[1] == (DrawCmd::SetColor { color: 0xFFFFFFFFu32 })
    &&& s[2] == (DrawCmd::SetPos { x: 10u32, y: 420u32 })
    &&& (s[3] matches DrawCmd::Symbol { glyphs } && glyphs@ == seq![0x20u16])
    &&& (s[4] matches DrawCmd::Text { text } && text@ == "Select\t"@)
    &&& (s[5] matches DrawCmd::Symbol { glyphs } && glyphs@ == seq![0x21u16])
    &&& (s[6] matches DrawCmd::Text { text } && text@ == "Back\t"@)
    &&& (s[7] matches DrawCmd::Symbol { glyphs } && glyphs@ == seq![0x2Fu16, 0x30u16])
    &&& (s[8] matches DrawCmd::Text { text } && text@ == "Up/Down\t"@)
    &&& (s[9] matches DrawCmd::Symbol { glyphs } && glyphs@ == seq![0x31u16, 0x32u16])
    &&& (s[10] matches DrawCmd::Text { text } && text@ == "Change Value"@)
}

/// The top-level coordinator: its own state and selection cursor, the
/// deferred force-close flag, and the three per-feature sub-menus it
/// delegates to.
pub struct MainMenu {
    pub state: MenuState,
    pub cursor: u32,
    pub force_close: bool,
    pub display_menu: SubMenu,
    pub warp_menu: SubMenu,
    pub action_menu: SubMenu,
}

/// Enabling while active changes nothing; enabling while quiescent opens the
/// selection list at its top, exactly when every button of the chord is
/// held.
pub open spec fn enable_spec(m: MainMenu, down: u32) -> MainMenu {
    if m.state != MenuState::Off {
        m
    } else if down & ACTIVATION_CHORD == ACTIVATION_CHORD {
        MainMenu { state: MenuState::MenuSelect, cursor: 0u32, ..m }
    } else {
        m
    }
}

/// Disabling only raises the force-close flag; the next display pass
/// consumes it.
pub open spec fn disable_spec(m: MainMenu) -> MainMenu {
    MainMenu { force_close: true, ..m }
}

/// One input pass of the coordinator. Quiescent: only the activation check.
/// On the selection list: Back closes and consumes the press, Confirm enters
/// and enables the sub-menu under the cursor. In a sub-menu state: input is
/// delegated whole. The second component is the press mask the host is left
/// with.
pub open spec fn input_spec(m: MainMenu, pressed: u32, down: u32) -> (MainMenu, u32) {
    match m.state {
        MenuState::Off => (enable_spec(m, down), pressed),
        MenuState::MenuSelect => {
            if pressed & BTN_B != 0 {
                (MainMenu { state: MenuState::Off, ..m }, pressed & !BTN_B)
            } else if pressed & BTN_A != 0 {
                let ns = from_u32_spec(m.cursor);
                if ns == MenuState::DisplayMenu {
                    (
                        MainMenu { state: ns, display_menu: sub_enable_spec(m.display_menu), ..m },
                        pressed,
                    )
                } else if ns == MenuState::WarpMenu {
                    (MainMenu { state: ns, warp_menu: sub_enable_spec(m.warp_menu), ..m }, pressed)
                } else if ns == MenuState::ActionMenu {
                    (
                        MainMenu { state: ns, action_menu: sub_enable_spec(m.action_menu), ..m },
                        pressed,
                    )
                } else {
                    (MainMenu { state: ns, ..m }, pressed)
                }
            } else {
                (m, pressed)
            }
        },
        MenuState::DisplayMenu => {
            let r = sub_input_spec(m.display_menu, pressed);
            (MainMenu { display_menu: r.0, ..m }, r.1)
        },
        MenuState::WarpMenu => {
            let r = sub_input_spec(m.warp_menu, pressed);
            (MainMenu { warp_menu: r.0, ..m }, r.1)
        },
        MenuState::ActionMenu => {
            let r = sub_input_spec(m.action_menu, pressed);
            (MainMenu { action_menu: r.0, ..m }, r.1)
        },
    }
}

/// One display pass of the coordinator: the selection list steps its cursor;
/// a sub-menu state delegates the pass and pops back to the selection list
/// if the sub-menu came out of it inactive; last of all a raised force-close
/// flag is consumed and wins, whatever came before.
pub open spec fn display_spec(m: MainMenu, pressed: u32) -> MainMenu {
    let m1 = match m.state {
        MenuState::Off => m,
        MenuState::MenuSelect => MainMenu {
            cursor: moved_cursor(m.cursor, 3, down_edge(pressed), up_edge(pressed)),
            ..m
        },
        MenuState::DisplayMenu => {
            let s2 = sub_display_spec(m.display_menu, pressed);
            if s2.state is Off {
                MainMenu { state: MenuState::MenuSelect, display_menu: s2, ..m }
            } else {
                MainMenu { display_menu: s2, ..m }
            }
        },
        MenuState::WarpMenu => {
            let s2 = sub_display_spec(m.warp_menu, pressed);
            if s2.state is Off {
                MainMenu { state: MenuState::MenuSelect, warp_menu: s2, ..m }
            } else {
                MainMenu { warp_menu: s2, ..m }
            }
        },
        MenuState::ActionMenu => {
            let s2 = sub_display_spec(m.action_menu, pressed);
            if s2.state is Off {
                MainMenu { state: MenuState::MenuSelect, action_menu: s2, ..m }
            } else {
                MainMenu { action_menu: s2, ..m }
            }
        },
    };
    if m1.force_close {
        MainMenu { force_close: false, state: MenuState::Off, ..m1 }
    } else {
        m1
    }
}

impl MainMenu {
    /// Well-formed: the selection cursor stays within the three-entry
    /// selection list, and every sub-menu is well-formed in turn.
    pub open spec fn wf(&self) -> bool {
        &&& self.cursor < 3
        &&& self.display_menu.wf()
        &&& self.warp_menu.wf()
        &&& self.action_menu.wf()
    }

    /// The quiescent initial menu with its three sub-menus built.
    pub fn new() -> (r: MainMenu)
        ensures
            r.wf(),
            r.state == MenuState::Off,
            r.cursor == 0u32,
            !r.force_close,
            r.display_menu.state == SubState::Off,
            !r.display_menu.force_close,
            r.display_menu.cursor == 0u32,
            r.display_menu.heading@ == "On Screen Display"@,
            r.display_menu.labels() == seq!["Scene Flags"@, "Temp Flags"@],
            r.warp_menu.state == SubState::Off,
            !r.warp_menu.force_close,
            r.warp_menu.cursor == 0u32,
            r.warp_menu.heading@ == "Warp"@,
            r.warp_menu.labels() == seq![
                "Skyloft"@,
                "Faron Woods"@,
                "Eldin Volcano"@,
                "Lanayru Desert"@,
            ],
            r.action_menu.state == SubState::Off,
            !r.action_menu.force_close,
            r.action_menu.cursor == 0u32,
            r.action_menu.heading@ == "Actions"@,
            r.action_menu.labels() == seq!["Refill Stamina"@, "Reload Area"@],
    {
        let mut display_menu = SubMenu::new("On Screen Display");
        display_menu.add_entry("Scene Flags");
        display_menu.add_entry("Temp Flags");
        let mut warp_menu = SubMenu::new("Warp");
        warp_menu.add_entry("Skyloft");
        warp_menu.add_entry("Faron Woods");
        warp_menu.add_entry("Eldin Volcano");
        warp_menu.add_entry("Lanayru Desert");
        let mut action_menu = SubMenu::new("Actions");
        action_menu.add_entry("Refill Stamina");
        action_menu.add_entry("Reload Area");
        proof {
            assert(display_menu.labels() =~= seq!["Scene Flags"@, "Temp Flags"@]);
            assert(warp_menu.labels() =~= seq![
                "Skyloft"@,
                "Faron Woods"@,
                "Eldin Volcano"@,
                "Lanayru Desert"@,
            ]);
            assert(action_menu.labels() =~= seq!["Refill Stamina"@, "Reload Area"@]);
        }
        MainMenu {
            state: MenuState::Off,
            cursor: 0,
            force_close: false,
            display_menu,
            warp_menu,
            action_menu,
        }
    }

    /// True in every state but the quiescent one.
    pub fn is_active(&self) -> (r: bool)
        ensures
            r == (self.state != MenuState::Off),
    {
        match self.state {
            MenuState::Off => false,
            _ => true,
        }
    }

    /// Activation check, read once per frame: opens the selection list at
    /// its top, only on the full chord, and never re-triggers while already
    /// active.
    pub fn enable(&mut self, b: &ButtonState)
        ensures
            *final(self) == enable_spec(*old(self), b.down),
    {
        if self.is_active() {
            return ;
        }
        if b.is_down(ACTIVATION_CHORD) {
            self.state = MenuState::MenuSelect;
            self.cursor = 0;
        }
    }

    /// Raises the force-close flag, consumed on the next display pass, and
    /// consumes every intercepted press so none leaks through to the host.
    pub fn disable(&mut self, b: &mut ButtonState)
        ensures
            *final(self) == disable_spec(*old(self)),
            final(b).pressed == (old(b).pressed & !MENU_BUTTONS),
            final(b).down == old(b).down,
    {
        self.force_close = true;
        b.set_not_pressed(MENU_BUTTONS);
    }

    /// One input pass, dispatched purely on the current state.
    pub fn input(&mut self, b: &mut ButtonState)
        ensures
            *final(self) == input_spec(*old(self), old(b).pressed, old(b).down).0,
            final(b).pressed == input_spec(*old(self), old(b).pressed, old(b).down).1,
            final(b).down == old(b).down,
            old(self).wf() ==> final(self).wf(),
    {
        match self.state {
            MenuState::Off => {
                self.enable(b);
            },
            MenuState::MenuSelect => {
                if b.is_pressed(BTN_B) {
                    self.state = MenuState::Off;
                    b.set_not_pressed(BTN_B);
                } else if b.is_pressed(BTN_A) {
                    self.state = MenuState::from_u32(self.cursor);
                    match self.state {
                        MenuState::DisplayMenu => self.display_menu.enable(),
                        MenuState::WarpMenu => self.warp_menu.enable(),
                        MenuState::ActionMenu => self.action_menu.enable(),
                        _ => {},
                    }
                }
            },
            MenuState::DisplayMenu => self.display_menu.input(b),
            MenuState::WarpMenu => self.warp_menu.input(b),
            MenuState::ActionMenu => self.action_menu.input(b),
        }
    }

    /// One display pass: the input guide whenever the menu is active, then
    /// the selection list or the active sub-menu's own pass, the automatic
    /// pop when that sub-menu has left, and the force-close flag last.
    pub fn display(&mut self, b: &ButtonState) -> (cmds: Vec<DrawCmd>)
        requires
            old(self).wf(),
        ensures
            *final(self) == display_spec(*old(self), b.pressed),
            final(self).wf(),
            old(self).state == MenuState::Off ==> cmds@.len() == 0,
            old(self).state != MenuState::Off ==> cmds@.len() >= 11 && guide_ok(
                cmds@.subrange(0, 11),
            ),
            old(self).state == MenuState::MenuSelect ==> menu_list_ok(
                cmds@.skip(11),
                "Main Menu Select"@,
                seq!["On Screen Display"@, "Warp"@, "Actions"@],
                old(self).cursor,
            ),
            old(self).state == MenuState::DisplayMenu ==> sub_draw_ok(
                cmds@.skip(11),
                old(self).display_menu,
            ),
            old(self).state == MenuState::WarpMenu ==> sub_draw_ok(
                cmds@.skip(11),
                old(self).warp_menu,
            ),
            old(self).state == MenuState::ActionMenu ==> sub_draw_ok(
                cmds@.skip(11),
                old(self).action_menu,
            ),
    {
        let mut cmds: Vec<DrawCmd> = Vec::new();
        if self.is_active() {
            cmds.push(DrawCmd::Rect { x: 0, y: 0, w: 640, h: 480, color: 0x000000C0 });
            cmds.push(DrawCmd::SetColor { color: 0xFFFFFFFF });
            cmds.push(DrawCmd::SetPos { x: 10, y: 420 });
            cmds.push(DrawCmd::Symbol { glyphs: glyph1(0x20) });
            cmds.push(DrawCmd::Text { text: String::from_str("Select\t") });
            cmds.push(DrawCmd::Symbol { glyphs: glyph1(0x21) });
            cmds.push(DrawCmd::Text { text: String::from_str("Back\t") });
            cmds.push(DrawCmd::Symbol { glyphs: glyph2(0x2F, 0x30) });
            cmds.push(DrawCmd::Text { text: String::from_str("Up/Down\t") });
            cmds.push(DrawCmd::Symbol { glyphs: glyph2(0x31, 0x32) });
            cmds.push(DrawCmd::Text { text: String::from_str("Change Value") });
            proof {
                assert(guide_ok(cmds@));
            }
        }
        let ghost guide = cmds@;
        match self.state {
            MenuState::Off => {},
            MenuState::MenuSelect => {
                let mut menu = SimpleMenu::new(5);
                menu.set_heading("Main Menu Select");
                menu.set_cursor(self.cursor);
                let _ = menu.add_entry("On Screen Display");
                let _ = menu.add_entry("Warp");
                let _ = menu.add_entry("Actions");
                proof {
                    assert(menu.labels() =~= seq!["On Screen Display"@, "Warp"@, "Actions"@]);
                }
                let mut mc = menu.draw();
                let ghost mcv = mc@;
                cmds.append(&mut mc);
                proof {
                    assert(cmds@.skip(11) =~= mcv);
                    assert(cmds@.subrange(0, 11) =~= guide);
                }
                self.cursor = menu.move_cursor(b);
            },
            MenuState::DisplayMenu => {
                let mut sc = self.display_menu.display(b);
                let ghost scv = sc@;
                cmds.append(&mut sc);
                proof {
                    assert(cmds@.skip(11) =~= scv);
                    assert(cmds@.subrange(0, 11) =~= guide);
                }
                if !self.display_menu.is_active() {
                    self.state = MenuState::MenuSelect;
                }
            },
            MenuState::WarpMenu => {
                let mut sc = self.warp_menu.display(b);
                let ghost scv = sc@;
                cmds.append(&mut sc);
                proof {
                    assert(cmds@.skip(11) =~= scv);
                    assert(cmds@.subrange(0, 11) =~= guide);
                }
                if !self.warp_menu.is_active() {
                    self.state = MenuState::MenuSelect;
                }
            },
            MenuState::ActionMenu => {
                let mut sc = self.action_menu.display(b);
                let ghost scv = sc@;
                cmds.append(&mut sc);
                proof {
                    assert(cmds@.skip(11) =~= scv);
                    assert(cmds@.subrange(0, 11) =~= guide);
                }
                if !self.action_menu.is_active() {
                    self.state = MenuState::MenuSelect;
                }
            },
        }
        if self.force_close {
            self.force_close = false;
            self.state = MenuState::Off;
        }
        cmds
    }
}

/// Force-close always wins: whatever state was active and whatever is
/// pressed, a disable followed by one display pass lands in the quiescent
/// state.
pub proof fn lemma_disable_then_display_off(m: MainMenu, pressed: u32)
    ensures
        display_spec(disable_spec(m), pressed).state == MenuState::Off,
{
}

/// Enabling the top-level menu twice in a row, without a disable between,
/// leaves state and cursor exactly as one enabling does: activation is
/// idempotent.
pub proof fn lemma_enable_idempotent(m: MainMenu, down: u32)
    ensures
        enable_spec(enable_spec(m, down), down) == enable_spec(m, down),
{
}

/// Enabling a sub-menu twice in a row leaves it exactly as one enabling
/// does.
pub proof fn lemma_sub_enable_idempotent(s: SubMenu)
    ensures
        sub_enable_spec(sub_enable_spec(s)) == sub_enable_spec(s),
{
}

} // verus!
