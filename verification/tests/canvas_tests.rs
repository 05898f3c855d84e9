use padvol::canvas::Canvas;
use padvol::model::Color;
use padvol::model::Pad;

#[test]
fn set_twice_then_flush_writes_once_with_last_color() {
    let mut canvas = Canvas::new();
    let p = Pad::Grid { x: 2, y: 5 };
    canvas.set(p, Color::Red);
    canvas.set(p, Color::Green);
    let writes = canvas.flush();
    assert_eq!(writes, vec![(p, Color::Green)]);
}

#[test]
fn flush_without_set_writes_nothing() {
    let mut canvas = Canvas::new();
    let writes = canvas.flush();
    assert!(writes.is_empty());
}

#[test]
fn flush_skips_unchanged_pads() {
    let mut canvas = Canvas::new();
    let p = Pad::Top { index: 3 };
    canvas.set(p, Color::Amber);
    let first = canvas.flush();
    assert_eq!(first, vec![(p, Color::Amber)]);

    // Staging the committed color again changes nothing on the device.
    canvas.set(p, Color::Amber);
    let second = canvas.flush();
    assert!(second.is_empty());

    // A different color is sent again.
    canvas.set(p, Color::Orange);
    let third = canvas.flush();
    assert_eq!(third, vec![(p, Color::Orange)]);
}

#[test]
fn flush_orders_writes_by_pad_code() {
    let mut canvas = Canvas::new();
    let grid = Pad::Grid { x: 0, y: 0 };
    let side = Pad::Side { index: 1 };
    let top = Pad::Top { index: 6 };
    canvas.set(grid, Color::Red);
    canvas.set(top, Color::Green);
    canvas.set(side, Color::Yellow);
    let writes = canvas.flush();
    assert_eq!(
        writes,
        vec![(top, Color::Green), (side, Color::Yellow), (grid, Color::Red)]
    );
}

#[test]
fn pending_writes_do_not_commit() {
    let mut canvas = Canvas::new();
    let p = Pad::Grid { x: 1, y: 1 };
    canvas.set(p, Color::Red);
    let pending = canvas.pending_writes();
    assert_eq!(pending, vec![(p, Color::Red)]);
    // Nothing was committed, so a flush still carries the write.
    let writes = canvas.flush();
    assert_eq!(writes, vec![(p, Color::Red)]);
}

#[test]
fn untouched_pads_stay_as_last_drawn() {
    let mut canvas = Canvas::new();
    let kept = Pad::Grid { x: 4, y: 4 };
    canvas.set(kept, Color::DimGreen);
    canvas.flush();
    // A later frame that never stages `kept` does not reset it to off.
    canvas.set(Pad::Grid { x: 5, y: 5 }, Color::Red);
    let writes = canvas.flush();
    assert_eq!(writes, vec![(Pad::Grid { x: 5, y: 5 }, Color::Red)]);
}
