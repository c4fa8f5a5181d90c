// Frame-level scenarios of the menu state machines: activation on the chord,
// idempotent enabling, deferred force-close, sub-menu entry and pop-on-exit,
// and press suppression toward the host.

use custom_functions::buttons::{ButtonState, BTN_A, BTN_B, BTN_DPAD_DOWN, BTN_DPAD_RIGHT};
use custom_functions::draw::DrawCmd;
use custom_functions::menu::{MainMenu, MenuState, SubState, ACTIVATION_CHORD};

#[test]
fn starts_off_and_inactive() {
    let m = MainMenu::new();
    assert_eq!(m.state, MenuState::Off);
    assert_eq!(m.cursor, 0);
    assert!(!m.force_close);
    assert!(!m.is_active());
}

#[test]
fn activation_chord_opens_selection() {
    let mut m = MainMenu::new();
    let mut b = ButtonState::from_masks(0, ACTIVATION_CHORD);
    m.input(&mut b);
    assert_eq!(m.state, MenuState::MenuSelect);
    assert_eq!(m.cursor, 0);
    assert!(m.is_active());
}

#[test]
fn partial_chord_does_not_activate() {
    let mut m = MainMenu::new();
    // only one button of the chord held
    let mut b = ButtonState::from_masks(0, BTN_DPAD_RIGHT);
    m.input(&mut b);
    assert_eq!(m.state, MenuState::Off);
}

#[test]
fn reactivation_resets_cursor_to_top() {
    let mut m = MainMenu::new();
    // open, move the cursor off the top, close with Back
    let mut b = ButtonState::from_masks(0, ACTIVATION_CHORD);
    m.input(&mut b);
    let bd = ButtonState::from_masks(BTN_DPAD_DOWN, 0);
    let _ = m.display(&bd);
    assert_eq!(m.cursor, 1);
    let mut bb = ButtonState::from_masks(BTN_B, 0);
    m.input(&mut bb);
    assert_eq!(m.state, MenuState::Off);
    // the chord opens the selection list at its top again
    let mut b2 = ButtonState::from_masks(0, ACTIVATION_CHORD);
    m.input(&mut b2);
    assert_eq!(m.state, MenuState::MenuSelect);
    assert_eq!(m.cursor, 0);
}

#[test]
fn enable_twice_is_idempotent() {
    let mut m = MainMenu::new();
    let b = ButtonState::from_masks(0, ACTIVATION_CHORD);
    m.enable(&b);
    let state_after_one = m.state;
    let cursor_after_one = m.cursor;
    m.enable(&b);
    assert_eq!(m.state, state_after_one);
    assert_eq!(m.cursor, cursor_after_one);
}

#[test]
fn back_closes_selection_and_suppresses_press() {
    let mut m = MainMenu::new();
    let mut b = ButtonState::from_masks(0, ACTIVATION_CHORD);
    m.input(&mut b);
    assert_eq!(m.state, MenuState::MenuSelect);
    let mut b2 = ButtonState::from_masks(BTN_B, 0);
    m.input(&mut b2);
    assert_eq!(m.state, MenuState::Off);
    assert_eq!(b2.pressed & BTN_B, 0);
}

#[test]
fn confirm_at_cursor_one_enters_warp_menu() {
    let mut m = MainMenu::new();
    let mut b = ButtonState::from_masks(0, ACTIVATION_CHORD);
    m.input(&mut b);
    // one display pass with a down edge moves the cursor to 1
    let bd = ButtonState::from_masks(BTN_DPAD_DOWN, 0);
    let _ = m.display(&bd);
    assert_eq!(m.cursor, 1);
    let mut ba = ButtonState::from_masks(BTN_A, 0);
    m.input(&mut ba);
    assert_eq!(m.state, MenuState::WarpMenu);
    assert!(m.warp_menu.is_active());
}

#[test]
fn confirm_enters_each_submenu_by_index() {
    for (idx, want) in [
        (0u32, MenuState::DisplayMenu),
        (1u32, MenuState::WarpMenu),
        (2u32, MenuState::ActionMenu),
    ] {
        let mut m = MainMenu::new();
        m.state = MenuState::MenuSelect;
        m.cursor = idx;
        let mut ba = ButtonState::from_masks(BTN_A, 0);
        m.input(&mut ba);
        assert_eq!(m.state, want);
    }
}

#[test]
fn from_u32_maps_all_indices() {
    assert_eq!(MenuState::from_u32(0), MenuState::DisplayMenu);
    assert_eq!(MenuState::from_u32(1), MenuState::WarpMenu);
    assert_eq!(MenuState::from_u32(2), MenuState::ActionMenu);
    assert_eq!(MenuState::from_u32(3), MenuState::MenuSelect);
    assert_eq!(MenuState::from_u32(u32::MAX), MenuState::MenuSelect);
}

#[test]
fn submenu_back_then_display_pops_to_selection() {
    let mut m = MainMenu::new();
    m.state = MenuState::WarpMenu;
    m.warp_menu.enable();
    assert!(m.warp_menu.is_active());
    // the sub-menu's own Back handling leaves it at once
    let mut bb = ButtonState::from_masks(BTN_B, 0);
    m.input(&mut bb);
    assert!(!m.warp_menu.is_active());
    assert_eq!(bb.pressed & BTN_B, 0);
    // the next display pass pops the coordinator back to the selection list
    let b = ButtonState::from_masks(0, 0);
    let _ = m.display(&b);
    assert_eq!(m.state, MenuState::MenuSelect);
}

#[test]
fn disable_then_display_always_lands_off() {
    for start in [
        MenuState::Off,
        MenuState::MenuSelect,
        MenuState::DisplayMenu,
        MenuState::WarpMenu,
        MenuState::ActionMenu,
    ] {
        let mut m = MainMenu::new();
        m.state = start;
        let mut b = ButtonState::from_masks(0, 0);
        m.disable(&mut b);
        assert!(m.force_close);
        let _ = m.display(&b);
        assert_eq!(m.state, MenuState::Off);
        assert!(!m.force_close);
    }
}

#[test]
fn disable_clears_intercepted_presses() {
    let mut m = MainMenu::new();
    let mut b = ButtonState::from_masks(BTN_A | BTN_B | BTN_DPAD_DOWN, 0);
    m.disable(&mut b);
    assert_eq!(b.pressed & (BTN_A | BTN_B | BTN_DPAD_DOWN), 0);
}

#[test]
fn force_close_is_deferred_until_display() {
    let mut m = MainMenu::new();
    m.state = MenuState::MenuSelect;
    let mut b = ButtonState::from_masks(0, 0);
    m.disable(&mut b);
    // still on the selection list until the display pass consumes the flag
    assert_eq!(m.state, MenuState::MenuSelect);
    assert!(m.force_close);
}

#[test]
fn submenu_enable_twice_is_idempotent() {
    let mut m = MainMenu::new();
    m.warp_menu.enable();
    let s1 = m.warp_menu.state;
    let c1 = m.warp_menu.cursor;
    m.warp_menu.enable();
    assert_eq!(m.warp_menu.state, s1);
    assert_eq!(m.warp_menu.cursor, c1);
    assert_eq!(m.warp_menu.state, SubState::Browse);
}

#[test]
fn selection_display_draws_guide_then_list() {
    let mut m = MainMenu::new();
    m.state = MenuState::MenuSelect;
    let b = ButtonState::from_masks(0, 0);
    let cmds = m.display(&b);
    // the dimming rectangle and button legend, then heading and three entries
    assert_eq!(cmds.len(), 15);
    assert!(matches!(
        cmds[0],
        DrawCmd::Rect { x: 0, y: 0, w: 640, h: 480, color: 0x000000C0 }
    ));
    assert!(matches!(&cmds[4], DrawCmd::Text { text } if text == "Select\t"));
    assert!(matches!(&cmds[11], DrawCmd::Heading { text } if text == "Main Menu Select"));
    assert!(
        matches!(&cmds[12], DrawCmd::Entry { index: 0, selected: true, text } if text == "On Screen Display")
    );
    assert!(matches!(&cmds[13], DrawCmd::Entry { index: 1, selected: false, text } if text == "Warp"));
    assert!(matches!(&cmds[14], DrawCmd::Entry { index: 2, selected: false, text } if text == "Actions"));
}

#[test]
fn submenu_display_draws_its_list() {
    let mut m = MainMenu::new();
    m.state = MenuState::WarpMenu;
    m.warp_menu.enable();
    let b = ButtonState::from_masks(0, 0);
    let cmds = m.display(&b);
    // guide, then the warp list: heading and four destinations
    assert_eq!(cmds.len(), 11 + 5);
    assert!(matches!(&cmds[11], DrawCmd::Heading { text } if text == "Warp"));
    assert!(matches!(&cmds[12], DrawCmd::Entry { index: 0, selected: true, text } if text == "Skyloft"));
}

#[test]
fn off_state_displays_nothing() {
    let mut m = MainMenu::new();
    let b = ButtonState::from_masks(0, 0);
    let cmds = m.display(&b);
    assert!(cmds.is_empty());
    assert_eq!(m.state, MenuState::Off);
}
