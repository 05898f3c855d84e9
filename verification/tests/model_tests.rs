use padvol::model::Color;
use padvol::model::Message;
use padvol::model::Pad;
use padvol::model::message_from_raw;
use padvol::model::PAD_COUNT;

#[test]
fn pad_codes_are_a_bijection() {
    for c in 0..PAD_COUNT {
        let p = Pad::from_code(c);
        assert_eq!(p.code(), c);
    }
    // Two different codes never give the same pad.
    for a in 0..PAD_COUNT {
        for b in (a + 1)..PAD_COUNT {
            assert_ne!(Pad::from_code(a), Pad::from_code(b));
        }
    }
}

#[test]
fn raw_round_trip_from_pads() {
    for c in 0..PAD_COUNT {
        let p = Pad::from_code(c);
        let (x, y) = p.to_raw();
        assert_eq!(Pad::from_raw(x, y), p);
    }
}

#[test]
fn raw_round_trip_from_coordinates() {
    for x in 0u8..=8 {
        for y in 0u8..=8 {
            if x == 8 && y == 0 {
                continue;
            }
            let p = Pad::from_raw(x, y);
            assert_eq!(p.to_raw(), (x, y));
        }
    }
}

#[test]
fn raw_translation_boundaries() {
    assert_eq!(Pad::from_raw(0, 0), Pad::Top { index: 0 });
    assert_eq!(Pad::from_raw(7, 0), Pad::Top { index: 7 });
    assert_eq!(Pad::from_raw(8, 1), Pad::Side { index: 0 });
    assert_eq!(Pad::from_raw(8, 8), Pad::Side { index: 7 });
    assert_eq!(Pad::from_raw(0, 1), Pad::Grid { x: 0, y: 0 });
    assert_eq!(Pad::from_raw(7, 8), Pad::Grid { x: 7, y: 7 });
}

#[test]
fn messages_from_raw_events() {
    assert_eq!(
        message_from_raw(true, 3, 4),
        Message::Press { pad: Pad::Grid { x: 3, y: 3 } }
    );
    assert_eq!(
        message_from_raw(false, 8, 5),
        Message::Release { pad: Pad::Side { index: 4 } }
    );
    assert_eq!(
        message_from_raw(true, 2, 0),
        Message::Press { pad: Pad::Top { index: 2 } }
    );
}

#[test]
fn color_vocabulary_is_distinct() {
    let all = [
        Color::Off,
        Color::DimRed,
        Color::Red,
        Color::Orange,
        Color::Amber,
        Color::Yellow,
        Color::Green,
        Color::DimGreen,
    ];
    for i in 0..all.len() {
        for j in (i + 1)..all.len() {
            assert_ne!(all[i], all[j]);
        }
    }
}
