use round_ui::prelude::{RoundUiBorder, RoundUiOffset, Single, UiRect, Val, Vec4};

fn n(value: f32) -> Single {
    Single::from_bits(value.to_bits())
}

fn bits_of_offset(offset: RoundUiOffset) -> [u32; 4] {
    [
        offset.top.to_bits(),
        offset.left.to_bits(),
        offset.bottom.to_bits(),
        offset.right.to_bits(),
    ]
}

fn bits_of_border(border: RoundUiBorder) -> [u32; 4] {
    [
        border.top_left.to_bits(),
        border.top_right.to_bits(),
        border.bottom_left.to_bits(),
        border.bottom_right.to_bits(),
    ]
}

fn bits_of_vector(vector: Vec4) -> [u32; 4] {
    [
        vector.x.to_bits(),
        vector.y.to_bits(),
        vector.z.to_bits(),
        vector.w.to_bits(),
    ]
}

fn pixels(val: Val) -> f32 {
    match val {
        Val::Px(v) => f32::from_bits(v.to_bits()),
        other => panic!("not a number of pixels: {:?}", other),
    }
}

#[test]
fn round_ui_border_equality() {
    let border = RoundUiBorder {
        top_left: n(1.),
        top_right: n(2.),
        bottom_left: n(3.),
        bottom_right: n(4.),
    };
    assert_eq!(border, border.clone());
    assert_ne!(border, RoundUiBorder::all(n(1.)));
}

#[test]
fn round_ui_border_to_and_from_vec4() {
    let border = RoundUiBorder {
        top_left: n(1.),
        top_right: n(2.),
        bottom_left: n(3.),
        bottom_right: n(4.),
    };
    let border_vec4: Vec4 = border.into();
    let border_result: RoundUiBorder = border_vec4.into();
    assert_eq!(border_result, border);
}

#[test]
fn round_ui_offset_equality() {
    let offset = RoundUiOffset {
        top: n(1.),
        left: n(2.),
        bottom: n(3.),
        right: n(4.),
    };
    assert_eq!(offset, offset.clone());
    assert_ne!(offset, RoundUiOffset::all(n(1.)));
}

#[test]
fn round_ui_offset_to_and_from_vec4() {
    let offset = RoundUiOffset {
        top: n(1.),
        left: n(2.),
        bottom: n(3.),
        right: n(4.),
    };
    let offset_vec4: Vec4 = offset.into();
    let offset_result: RoundUiOffset = offset_vec4.into();
    assert_eq!(offset_result, offset);
}

#[test]
fn offset_vector_has_the_order_top_left_bottom_right() {
    let offset = RoundUiOffset {
        top: n(1.),
        left: n(2.),
        bottom: n(3.),
        right: n(4.),
    };
    let vector: Vec4 = offset.into();
    assert_eq!(vector.x, offset.top);
    assert_eq!(vector.y, offset.left);
    assert_eq!(vector.z, offset.bottom);
    assert_eq!(vector.w, offset.right);
    assert_eq!(
        bits_of_vector(vector),
        [1f32.to_bits(), 2f32.to_bits(), 3f32.to_bits(), 4f32.to_bits()]
    );
}

#[test]
fn border_vector_has_the_order_bottom_right_top_right_bottom_left_top_left() {
    let border = RoundUiBorder {
        top_left: n(1.),
        top_right: n(2.),
        bottom_left: n(3.),
        bottom_right: n(4.),
    };
    let vector: Vec4 = border.into();
    assert_eq!(vector.x, border.bottom_right);
    assert_eq!(vector.y, border.top_right);
    assert_eq!(vector.z, border.bottom_left);
    assert_eq!(vector.w, border.top_left);
    assert_eq!(
        bits_of_vector(vector),
        [4f32.to_bits(), 2f32.to_bits(), 3f32.to_bits(), 1f32.to_bits()]
    );
}

#[test]
fn vector_to_offset_and_back_keeps_every_pattern() {
    let vector = Vec4::new(n(0.5), n(-0.0), n(f32::INFINITY), Single::from_bits(0x7fc0_1234));
    let offset = RoundUiOffset::from(vector);
    assert_eq!(
        bits_of_offset(offset),
        [0.5f32.to_bits(), 0x8000_0000, 0x7f80_0000, 0x7fc0_1234]
    );
    assert_eq!(bits_of_vector(Vec4::from(offset)), bits_of_vector(vector));
}

#[test]
fn vector_to_border_and_back_keeps_every_pattern() {
    let vector = Vec4::new(n(0.5), n(-0.0), n(f32::INFINITY), Single::from_bits(0x7fc0_1234));
    let border = RoundUiBorder::from(vector);
    assert_eq!(
        bits_of_border(border),
        [0x7fc0_1234, 0x8000_0000, 0x7f80_0000, 0.5f32.to_bits()]
    );
    assert_eq!(bits_of_vector(Vec4::from(border)), bits_of_vector(vector));
}

#[test]
fn offset_to_rect_gives_pixels_side_by_side() {
    let rect_offset = RoundUiOffset {
        top: n(1.0),
        left: n(2.0),
        bottom: n(3.0),
        right: n(4.0),
    };
    let ui_rect: UiRect = rect_offset.into();
    assert_eq!(pixels(ui_rect.top), 1.0);
    assert_eq!(pixels(ui_rect.left), 2.0);
    assert_eq!(pixels(ui_rect.bottom), 3.0);
    assert_eq!(pixels(ui_rect.right), 4.0);
}

#[test]
fn offset_constructors_set_the_named_sides_only() {
    let a = 7.5f32.to_bits();
    let cases: [(RoundUiOffset, [u32; 4]); 9] = [
        (RoundUiOffset::all(n(7.5)), [a, a, a, a]),
        (RoundUiOffset::left(n(7.5)), [0, a, 0, 0]),
        (RoundUiOffset::right(n(7.5)), [0, 0, 0, a]),
        (RoundUiOffset::bottom(n(7.5)), [0, 0, a, 0]),
        (RoundUiOffset::top(n(7.5)), [a, 0, 0, 0]),
        (RoundUiOffset::top_left(n(7.5)), [a, a, 0, 0]),
        (RoundUiOffset::top_right(n(7.5)), [a, 0, 0, a]),
        (RoundUiOffset::bottom_left(n(7.5)), [0, a, a, 0]),
        (RoundUiOffset::bottom_right(n(7.5)), [0, 0, a, a]),
    ];
    for (offset, expected) in cases {
        assert_eq!(bits_of_offset(offset), expected);
    }
}

#[test]
fn border_constructors_set_the_named_corners_only() {
    let r = 12.25f32.to_bits();
    let cases: [(RoundUiBorder, [u32; 4]); 9] = [
        (RoundUiBorder::all(n(12.25)), [r, r, r, r]),
        (RoundUiBorder::top_left(n(12.25)), [r, 0, 0, 0]),
        (RoundUiBorder::top_right(n(12.25)), [0, r, 0, 0]),
        (RoundUiBorder::bottom_left(n(12.25)), [0, 0, r, 0]),
        (RoundUiBorder::bottom_right(n(12.25)), [0, 0, 0, r]),
        (RoundUiBorder::top(n(12.25)), [r, r, 0, 0]),
        (RoundUiBorder::bottom(n(12.25)), [0, 0, r, r]),
        (RoundUiBorder::left(n(12.25)), [r, 0, r, 0]),
        (RoundUiBorder::right(n(12.25)), [0, r, 0, r]),
    ];
    for (border, expected) in cases {
        assert_eq!(bits_of_border(border), expected);
    }
}

#[test]
fn all_equals_the_value_with_four_equal_fields() {
    assert_eq!(
        RoundUiOffset::all(n(6.)),
        RoundUiOffset {
            top: n(6.),
            left: n(6.),
            bottom: n(6.),
            right: n(6.),
        }
    );
    assert_eq!(
        RoundUiBorder::all(n(20.)),
        RoundUiBorder {
            top_left: n(20.),
            top_right: n(20.),
            bottom_left: n(20.),
            bottom_right: n(20.),
        }
    );
}

#[test]
fn defaults_are_zero_everywhere() {
    assert_eq!(bits_of_offset(RoundUiOffset::default()), [0, 0, 0, 0]);
    assert_eq!(bits_of_border(RoundUiBorder::default()), [0, 0, 0, 0]);
}

#[test]
fn values_that_differ_in_one_field_are_unequal() {
    let offset = RoundUiOffset::all(n(1.));
    assert_ne!(offset, RoundUiOffset { top: n(2.), ..offset });
    assert_ne!(offset, RoundUiOffset { left: n(2.), ..offset });
    assert_ne!(offset, RoundUiOffset { bottom: n(2.), ..offset });
    assert_ne!(offset, RoundUiOffset { right: n(2.), ..offset });
    let border = RoundUiBorder::all(n(1.));
    assert_ne!(border, RoundUiBorder { top_left: n(2.), ..border });
    assert_ne!(border, RoundUiBorder { top_right: n(2.), ..border });
    assert_ne!(border, RoundUiBorder { bottom_left: n(2.), ..border });
    assert_ne!(border, RoundUiBorder { bottom_right: n(2.), ..border });
}

#[test]
fn the_two_zeros_are_equal_and_what_is_not_a_number_equals_nothing() {
    assert_eq!(RoundUiOffset::all(n(0.0)), RoundUiOffset::all(n(-0.0)));
    assert_eq!(RoundUiBorder::all(n(0.0)), RoundUiBorder::all(n(-0.0)));
    let offset = RoundUiOffset::top(n(f32::NAN));
    assert_ne!(offset, offset);
    let border = RoundUiBorder::left(n(f32::NAN));
    assert_ne!(border, border);
}
