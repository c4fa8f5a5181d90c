// The list widget: capacity, cursor movement with its wrap-around edge
// policy and its down-then-up round trip, and the drawn list's shape.

use custom_functions::buttons::{ButtonState, BTN_DPAD_DOWN, BTN_DPAD_UP};
use custom_functions::draw::DrawCmd;
use custom_functions::widget::SimpleMenu;

fn three_entry_menu() -> SimpleMenu {
    let mut m = SimpleMenu::new(5);
    m.set_heading("Main Menu Select");
    assert!(m.add_entry("On Screen Display"));
    assert!(m.add_entry("Warp"));
    assert!(m.add_entry("Actions"));
    m
}

#[test]
fn capacity_is_fixed_and_excess_rejected() {
    let mut m = SimpleMenu::new(2);
    assert!(m.add_entry("one"));
    assert!(m.add_entry("two"));
    assert!(!m.add_entry("three"));
    assert_eq!(m.entry_count(), 2);
}

#[test]
fn cursor_steps_down_and_wraps() {
    let mut m = three_entry_menu();
    let down = ButtonState::from_masks(BTN_DPAD_DOWN, 0);
    m.set_cursor(0);
    assert_eq!(m.move_cursor(&down), 1);
    m.set_cursor(1);
    assert_eq!(m.move_cursor(&down), 2);
    m.set_cursor(2);
    assert_eq!(m.move_cursor(&down), 0);
}

#[test]
fn cursor_steps_up_and_wraps() {
    let mut m = three_entry_menu();
    let up = ButtonState::from_masks(BTN_DPAD_UP, 0);
    m.set_cursor(2);
    assert_eq!(m.move_cursor(&up), 1);
    m.set_cursor(1);
    assert_eq!(m.move_cursor(&up), 0);
    m.set_cursor(0);
    assert_eq!(m.move_cursor(&up), 2);
}

#[test]
fn no_edge_or_both_edges_holds_cursor() {
    let mut m = three_entry_menu();
    m.set_cursor(1);
    let none = ButtonState::from_masks(0, 0);
    assert_eq!(m.move_cursor(&none), 1);
    let both = ButtonState::from_masks(BTN_DPAD_DOWN | BTN_DPAD_UP, 0);
    assert_eq!(m.move_cursor(&both), 1);
}

#[test]
fn empty_menu_cursor_never_moves() {
    let m = SimpleMenu::new(4);
    let down = ButtonState::from_masks(BTN_DPAD_DOWN, 0);
    assert_eq!(m.move_cursor(&down), 0);
}

#[test]
fn down_then_up_round_trips_from_every_start() {
    let down = ButtonState::from_masks(BTN_DPAD_DOWN, 0);
    let up = ButtonState::from_masks(BTN_DPAD_UP, 0);
    for start in 0..3u32 {
        for steps in 0..7usize {
            let mut m = three_entry_menu();
            m.set_cursor(start);
            for _ in 0..steps {
                let c = m.move_cursor(&down);
                m.set_cursor(c);
            }
            for _ in 0..steps {
                let c = m.move_cursor(&up);
                m.set_cursor(c);
            }
            assert_eq!(m.cursor, start);
        }
    }
}

#[test]
fn draw_lists_heading_then_entries_with_highlight() {
    let mut m = three_entry_menu();
    m.set_cursor(1);
    let cmds = m.draw();
    assert_eq!(cmds.len(), 4);
    assert!(matches!(&cmds[0], DrawCmd::Heading { text } if text == "Main Menu Select"));
    assert!(
        matches!(&cmds[1], DrawCmd::Entry { index: 0, selected: false, text } if text == "On Screen Display")
    );
    assert!(matches!(&cmds[2], DrawCmd::Entry { index: 1, selected: true, text } if text == "Warp"));
    assert!(
        matches!(&cmds[3], DrawCmd::Entry { index: 2, selected: false, text } if text == "Actions")
    );
}
