use ironbar::geometry::{Allocation, Layout, Offset, Orientation, Point};

fn offset(value: f64) -> Offset {
    Offset::from_bits(value.to_bits())
}

fn number(offset: Offset) -> f64 {
    f64::from_bits(offset.to_bits())
}

fn layout(origin: Option<(f64, f64)>) -> Layout {
    Layout {
        widget: Allocation { width: 120, height: 24 },
        root: Allocation { width: 1920, height: 32 },
        origin_in_root: origin.map(|(x, y)| Point { x: offset(x), y: offset(y) }),
    }
}

#[test]
fn horizontal_geometry_goes_by_widths_and_x() {
    let geometry = layout(Some((300.5, 4.0))).geometry(Orientation::Horizontal);
    assert_eq!(number(geometry.position), 300.5);
    assert_eq!(geometry.size, 120);
    assert_eq!(geometry.bar_size, 1920);
}

#[test]
fn vertical_geometry_goes_by_heights_and_y() {
    let geometry = layout(Some((300.5, 4.0))).geometry(Orientation::Vertical);
    assert_eq!(number(geometry.position), 4.0);
    assert_eq!(geometry.size, 24);
    assert_eq!(geometry.bar_size, 32);
}

#[test]
fn geometry_without_translation_is_at_zero() {
    for orientation in [Orientation::Horizontal, Orientation::Vertical] {
        let geometry = layout(None).geometry(orientation);
        assert_eq!(number(geometry.position), 0.0);
        assert_eq!(geometry.position, Offset::zero());
        assert_eq!(geometry.position.to_bits(), 0);
        assert_eq!(geometry.size, layout(None).widget.along(orientation));
        assert_eq!(geometry.bar_size, layout(None).root.along(orientation));
    }
}

#[test]
fn negative_positions_are_passed_on() {
    let geometry = layout(Some((-12.25, 0.0))).geometry(Orientation::Horizontal);
    assert_eq!(number(geometry.position), -12.25);
}

#[test]
fn offsets_keep_their_bit_pattern() {
    let bits = 1234.5678f64.to_bits();
    assert_eq!(Offset::from_bits(bits).to_bits(), bits);
    assert_eq!(Offset::zero().to_bits(), 0.0f64.to_bits());
}

#[test]
fn allocation_along_an_axis() {
    let allocation = Allocation { width: 7, height: -3 };
    assert_eq!(allocation.along(Orientation::Horizontal), 7);
    assert_eq!(allocation.along(Orientation::Vertical), -3);
}
