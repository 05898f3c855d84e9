use padvol::bar::bar_color;
use padvol::model::Color;
use padvol::volume::Volume;

const MARKER: Color = Color::Yellow;
const FILLED: Color = Color::DimGreen;
const EMPTY: Color = Color::Off;

fn color_at(idx: u8, v: Volume) -> Color {
    bar_color(idx, 63, v, MARKER, FILLED, EMPTY)
}

#[test]
fn bar_at_half_volume_over_64_pads() {
    let half = Volume::new(1, 2);
    for idx in 0u8..=63 {
        let c = color_at(idx, half);
        if idx == 31 || idx == 32 {
            // 31/63 and 32/63 both lie within 0.01 of 0.5.
            assert_eq!(c, MARKER, "index {}", idx);
        } else if idx <= 30 {
            assert_eq!(c, FILLED, "index {}", idx);
        } else {
            assert_eq!(c, EMPTY, "index {}", idx);
        }
    }
}

#[test]
fn bar_at_zero_volume() {
    let zero = Volume::new(0, 1);
    for idx in 0u8..=63 {
        let c = color_at(idx, zero);
        if idx == 0 {
            assert_eq!(c, MARKER, "index {}", idx);
        } else {
            assert_eq!(c, EMPTY, "index {}", idx);
        }
    }
}

#[test]
fn bar_at_full_volume() {
    let full = Volume::new(1, 1);
    for idx in 0u8..=63 {
        let c = color_at(idx, full);
        if idx == 63 {
            assert_eq!(c, MARKER, "index {}", idx);
        } else {
            assert_eq!(c, FILLED, "index {}", idx);
        }
    }
}

#[test]
fn bar_marker_band_tracks_the_value() {
    // 28/63 is the value a press at grid (x=4, y=3) asks for; the marker
    // sits exactly there when it is the sampled value too.
    let v = Volume::new(28, 63);
    for idx in 0u8..=63 {
        let c = color_at(idx, v);
        if idx == 28 {
            assert_eq!(c, MARKER, "index {}", idx);
        } else if idx < 28 {
            assert_eq!(c, FILLED, "index {}", idx);
        } else {
            assert_eq!(c, EMPTY, "index {}", idx);
        }
    }
}

#[test]
fn bar_equivalent_fractions_agree() {
    // The classification depends on the value, not its representation.
    let a = Volume::new(1, 2);
    let b = Volume::new(5000, 10000);
    for idx in 0u8..=63 {
        assert_eq!(color_at(idx, a), color_at(idx, b), "index {}", idx);
    }
}
