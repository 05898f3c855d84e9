use padvol::actions::Action;
use padvol::actions::BoundAction;
use padvol::actions::Command;
use padvol::canvas::Canvas;
use padvol::layouts::Button;
use padvol::layouts::ButtonLayout;
use padvol::layouts::ChildLayout;
use padvol::layouts::Layout;
use padvol::layouts::TabbedLayout;
use padvol::layouts::ValueLayout;
use padvol::model::Color;
use padvol::model::Message;
use padvol::model::Pad;
use padvol::volume::Volume;

fn value_layout(num: u32, den: u32) -> ValueLayout {
    ValueLayout {
        value: Volume::new(num, den),
        marker: Color::Yellow,
        filled: Color::DimGreen,
        empty: Color::Off,
    }
}

fn two_tab_layout() -> Layout {
    Layout::Tabbed(TabbedLayout {
        tabs: vec![
            ChildLayout::Value(value_layout(0, 1)),
            ChildLayout::Value(value_layout(1, 1)),
        ],
        selected: 0,
    })
}

#[test]
fn tabbed_press_on_tab_index_selects_and_consumes() {
    let mut layout = two_tab_layout();
    let act = layout.input(Message::Press { pad: Pad::Top { index: 1 } });
    assert!(matches!(act, Action::Nothing));
    match &layout {
        Layout::Tabbed(t) => assert_eq!(t.selected, 1),
        _ => unreachable!(),
    }
}

#[test]
fn tabbed_press_past_tabs_is_forwarded_unchanged() {
    let mut layout = two_tab_layout();
    // Index 5 names no tab: the selected child sees the message; a value
    // child does nothing with a top-row press, and the selection stays.
    let act = layout.input(Message::Press { pad: Pad::Top { index: 5 } });
    assert!(matches!(act, Action::Nothing));
    match &layout {
        Layout::Tabbed(t) => assert_eq!(t.selected, 0),
        _ => unreachable!(),
    }
}

#[test]
fn tabbed_forwards_grid_press_to_selected_child() {
    let mut layout = two_tab_layout();
    let act = layout.input(Message::Press { pad: Pad::Grid { x: 2, y: 1 } });
    match act {
        Action::Run(Command::SetVolume(v)) => assert_eq!(v, Volume::new(10, 63)),
        _ => panic!("expected a volume command"),
    }
}

#[test]
fn tabbed_show_resets_selection() {
    let mut layout = two_tab_layout();
    layout.input(Message::Press { pad: Pad::Top { index: 1 } });
    layout.show();
    match &layout {
        Layout::Tabbed(t) => assert_eq!(t.selected, 0),
        _ => unreachable!(),
    }
}

#[test]
fn tabbed_draw_lights_tab_row() {
    let mut layout = two_tab_layout();
    let mut canvas = Canvas::new();
    layout.draw(&mut canvas);
    let writes = canvas.flush();
    // The tab row: selected tab bright, the other dim, the rest off.
    assert_eq!(writes[0], (Pad::Top { index: 0 }, Color::Green));
    assert_eq!(writes[1], (Pad::Top { index: 1 }, Color::DimGreen));
    for i in 2u8..8 {
        assert_eq!(writes[i as usize], (Pad::Top { index: i }, Color::Off));
    }
    // The body is the selected child's bar over the 64 grid pads.
    assert_eq!(writes.len(), 8 + 64);
}

#[test]
fn buttons_lookup_finds_bound_action() {
    let layout = ButtonLayout {
        bindings: vec![
            (
                Pad::Side { index: 2 },
                Button { stale: false, color: Color::Red },
                BoundAction::PopLayout,
            ),
            (
                Pad::Grid { x: 1, y: 1 },
                Button { stale: false, color: Color::Green },
                BoundAction::Run(Command::SetVolume(Volume::new(1, 2))),
            ),
        ],
    };
    assert_eq!(
        layout.action_for(Pad::Side { index: 2 }),
        BoundAction::PopLayout
    );
    assert_eq!(
        layout.action_for(Pad::Grid { x: 1, y: 1 }),
        BoundAction::Run(Command::SetVolume(Volume::new(1, 2)))
    );
    assert_eq!(
        layout.action_for(Pad::Top { index: 0 }),
        BoundAction::Nothing
    );
}

#[test]
fn buttons_draw_clears_stale_and_stages_colors() {
    let pad = Pad::Grid { x: 3, y: 3 };
    let mut layout = ButtonLayout {
        bindings: vec![(
            pad,
            Button { stale: true, color: Color::Orange },
            BoundAction::Nothing,
        )],
    };
    assert!(layout.has_stale());
    let mut canvas = Canvas::new();
    layout.draw(&mut canvas);
    assert!(!layout.has_stale());
    let writes = canvas.flush();
    assert_eq!(writes, vec![(pad, Color::Orange)]);
}

#[test]
fn value_update_reports_changes() {
    let mut layout = value_layout(0, 1);
    assert!(layout.update(Volume::new(1, 2)));
    assert_eq!(layout.value, Volume::new(1, 2));
    assert!(!layout.update(Volume::new(1, 2)));
}

#[test]
fn value_press_sets_proportional_volume() {
    let layout = value_layout(0, 1);
    let act = layout.input(Message::Press { pad: Pad::Grid { x: 4, y: 3 } });
    match act {
        Action::Run(Command::SetVolume(v)) => assert_eq!(v, Volume::new(28, 63)),
        _ => panic!("expected a volume command"),
    }
    // Releases and non-grid presses do nothing.
    assert!(matches!(
        layout.input(Message::Release { pad: Pad::Grid { x: 4, y: 3 } }),
        Action::Nothing
    ));
    assert!(matches!(
        layout.input(Message::Press { pad: Pad::Side { index: 0 } }),
        Action::Nothing
    ));
}

#[test]
fn value_draw_stages_whole_grid() {
    let layout = value_layout(0, 1);
    let mut canvas = Canvas::new();
    layout.draw(&mut canvas);
    let writes = canvas.flush();
    assert_eq!(writes.len(), 64);
    assert_eq!(writes[0], (Pad::Grid { x: 0, y: 0 }, Color::Yellow));
    for idx in 1u8..64 {
        let pad = Pad::Grid { x: idx % 8, y: idx / 8 };
        assert_eq!(writes[idx as usize], (pad, Color::Off));
    }
}
