use padvol::actions::Action;
use padvol::actions::Command;
use padvol::engine::Engine;
use padvol::layouts::ChildLayout;
use padvol::layouts::Layout;
use padvol::layouts::TabbedLayout;
use padvol::layouts::ValueLayout;
use padvol::model::Color;
use padvol::model::Message;
use padvol::model::Pad;
use padvol::volume::Volume;

fn value_root(num: u32, den: u32) -> Layout {
    Layout::Value(ValueLayout {
        value: Volume::new(num, den),
        marker: Color::Yellow,
        filled: Color::DimGreen,
        empty: Color::Off,
    })
}

#[test]
fn pop_on_root_is_refused() {
    let mut engine = Engine::new(value_root(0, 1));
    assert_eq!(engine.depth(), 1);
    let cmd = engine.apply_action(Action::PopLayout);
    assert!(cmd.is_none());
    assert_eq!(engine.depth(), 1);
}

#[test]
fn stack_survives_action_storms() {
    let mut engine = Engine::new(value_root(0, 1));
    engine.apply_action(Action::PushLayout(Box::new(value_root(1, 2))));
    engine.apply_action(Action::PushLayout(Box::new(value_root(1, 1))));
    assert_eq!(engine.depth(), 3);
    engine.apply_action(Action::ReplaceLayout(Box::new(value_root(0, 1))));
    assert_eq!(engine.depth(), 3);
    for _ in 0..10 {
        engine.apply_action(Action::PopLayout);
    }
    // Pops beyond the root are refused: the stack never empties.
    assert_eq!(engine.depth(), 1);
}

#[test]
fn push_then_pop_returns_to_prior_top() {
    let mut engine = Engine::new(value_root(1, 2));
    engine.apply_action(Action::PushLayout(Box::new(value_root(1, 1))));
    assert_eq!(engine.depth(), 2);
    engine.apply_action(Action::PopLayout);
    assert_eq!(engine.depth(), 1);
    // The prior top draws again: its bar is the half-volume one, which
    // stages a marker at index 31 — not the full-volume bar.
    let out = engine.step(Some(Volume::new(1, 2)), None);
    let idx31 = Pad::Grid { x: 7, y: 3 };
    assert!(out.writes.contains(&(idx31, Color::Yellow)));
}

#[test]
fn grid_press_sets_proportional_volume() {
    let mut engine = Engine::new(value_root(0, 1));
    let press = Message::Press { pad: Pad::Grid { x: 4, y: 3 } };
    let out = engine.step(Some(Volume::new(0, 1)), Some(press));
    match out.effect {
        Some(Command::SetVolume(v)) => assert_eq!(v, Volume::new(28, 63)),
        _ => panic!("expected a volume command"),
    }
}

#[test]
fn frame_without_volume_sample_is_skipped() {
    let mut engine = Engine::new(value_root(0, 1));
    let press = Message::Press { pad: Pad::Grid { x: 1, y: 1 } };
    let out = engine.step(None, Some(press));
    assert!(out.writes.is_empty());
    assert!(out.effect.is_none());
}

#[test]
fn first_frame_draws_zero_volume_bar() {
    let mut engine = Engine::new(value_root(1, 1));
    // The sampled volume, not the stale stored one, decides the bar.
    let out = engine.step(Some(Volume::new(0, 1)), None);
    assert_eq!(out.writes.len(), 64);
    assert_eq!(out.writes[0], (Pad::Grid { x: 0, y: 0 }, Color::Yellow));
    for idx in 1u8..64 {
        let pad = Pad::Grid { x: idx % 8, y: idx / 8 };
        assert_eq!(out.writes[idx as usize], (pad, Color::Off));
    }
}

#[test]
fn full_volume_bar_marks_the_last_pad() {
    let mut engine = Engine::new(value_root(0, 1));
    let out = engine.step(Some(Volume::new(1, 1)), None);
    assert_eq!(out.writes.len(), 64);
    for idx in 0u8..63 {
        let pad = Pad::Grid { x: idx % 8, y: idx / 8 };
        assert_eq!(out.writes[idx as usize], (pad, Color::DimGreen));
    }
    assert_eq!(
        out.writes[63],
        (Pad::Grid { x: 7, y: 7 }, Color::Yellow)
    );
}

#[test]
fn unchanged_frames_write_nothing() {
    let mut engine = Engine::new(value_root(0, 1));
    let first = engine.step(Some(Volume::new(1, 2)), None);
    assert_eq!(first.writes.len(), 64);
    // The same sample again: every staged color equals the committed one.
    let second = engine.step(Some(Volume::new(1, 2)), None);
    assert!(second.writes.is_empty());
    // A new sample repaints only the pads that changed.
    let third = engine.step(Some(Volume::new(0, 1)), None);
    assert!(!third.writes.is_empty());
    assert!(third.writes.len() < 64);
}

#[test]
fn run_action_hands_command_back() {
    let mut engine = Engine::new(value_root(0, 1));
    let cmd = engine.apply_action(Action::Run(Command::SetVolume(Volume::new(1, 2))));
    assert_eq!(cmd, Some(Command::SetVolume(Volume::new(1, 2))));
    assert_eq!(engine.depth(), 1);
}

#[test]
fn tab_switch_repaints_tab_row() {
    let root = Layout::Tabbed(TabbedLayout {
        tabs: vec![
            ChildLayout::Value(ValueLayout {
                value: Volume::new(0, 1),
                marker: Color::Yellow,
                filled: Color::DimGreen,
                empty: Color::Off,
            }),
            ChildLayout::Value(ValueLayout {
                value: Volume::new(0, 1),
                marker: Color::Red,
                filled: Color::DimRed,
                empty: Color::Off,
            }),
        ],
        selected: 0,
    });
    let mut engine = Engine::new(root);
    let first = engine.step(Some(Volume::new(0, 1)), None);
    assert!(first.writes.contains(&(Pad::Top { index: 0 }, Color::Green)));
    assert!(first.writes.contains(&(Pad::Top { index: 1 }, Color::DimGreen)));

    // Press the second tab: the next frame swaps the two tab lights and
    // repaints the body with the new child's palette.
    let press = Message::Press { pad: Pad::Top { index: 1 } };
    let second = engine.step(Some(Volume::new(0, 1)), Some(press));
    assert!(second.writes.is_empty());
    let third = engine.step(Some(Volume::new(0, 1)), None);
    assert!(third.writes.contains(&(Pad::Top { index: 0 }, Color::DimGreen)));
    assert!(third.writes.contains(&(Pad::Top { index: 1 }, Color::Green)));
    assert!(third.writes.contains(&(Pad::Grid { x: 0, y: 0 }, Color::Red)));
}
