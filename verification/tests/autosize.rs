use round_ui::assets::RoundUiMaterial;
use round_ui::autosize::{update_material_size, update_node_padding, update_node_size};
use round_ui::prelude::{Single, Style, UiRect, Val, Vec2, Vec4};

fn len(value: f32) -> Single {
    Single::from_bits(value.to_bits())
}

fn plus(a: Single, b: Single) -> Single {
    Single::from_bits((f32::from_bits(a.to_bits()) + f32::from_bits(b.to_bits())).to_bits())
}

fn shown(val: Val) -> String {
    match val {
        Val::Auto => "auto".to_string(),
        Val::Px(v) => format!("{}px", f32::from_bits(v.to_bits())),
        Val::Percent(v) => format!("{}%", f32::from_bits(v.to_bits())),
        Val::Vw(v) => format!("{}vw", f32::from_bits(v.to_bits())),
        Val::Vh(v) => format!("{}vh", f32::from_bits(v.to_bits())),
        Val::VMin(v) => format!("{}vmin", f32::from_bits(v.to_bits())),
        Val::VMax(v) => format!("{}vmax", f32::from_bits(v.to_bits())),
    }
}

fn shown_style(style: &Style) -> [String; 6] {
    [
        shown(style.width),
        shown(style.height),
        shown(style.padding.left),
        shown(style.padding.right),
        shown(style.padding.top),
        shown(style.padding.bottom),
    ]
}

fn a_style() -> Style {
    Style {
        width: Val::Percent(len(50.)),
        height: Val::Auto,
        padding: UiRect {
            left: Val::Px(len(12.)),
            right: Val::Vw(len(1.)),
            top: Val::Auto,
            bottom: Val::Px(len(12.)),
        },
    }
}

fn a_material() -> RoundUiMaterial {
    RoundUiMaterial {
        border_radius: Vec4::splat(len(20.)),
        offset: Vec4::splat(len(6.)),
        size: Vec2::new(len(200.), len(100.)),
        ..RoundUiMaterial::default()
    }
}

#[test]
fn material_takes_the_size_of_its_node() {
    let mut material = a_material();
    update_material_size(Some(&mut material), Vec2::new(len(320.), len(240.)));
    assert_eq!(material.size.x.to_bits(), 320f32.to_bits());
    assert_eq!(material.size.y.to_bits(), 240f32.to_bits());
    let before = a_material();
    assert_eq!(material.offset.x.to_bits(), before.offset.x.to_bits());
    assert_eq!(material.border_radius.w.to_bits(), before.border_radius.w.to_bits());
    assert_eq!(
        material.background_color.red.to_bits(),
        before.background_color.red.to_bits()
    );
    assert_eq!(
        material.border_color.alpha.to_bits(),
        before.border_color.alpha.to_bits()
    );
}

#[test]
fn no_material_no_size_to_set() {
    update_material_size(None, Vec2::new(len(320.), len(240.)));
}

#[test]
fn node_takes_the_padding_of_its_material() {
    let mut style = a_style();
    update_node_padding(&mut style, Some(&a_material()), plus);
    assert_eq!(
        shown_style(&style),
        ["50%", "auto", "26px", "26px", "26px", "26px"].map(String::from)
    );
}

#[test]
fn node_without_material_keeps_its_padding() {
    let mut style = a_style();
    update_node_padding(&mut style, None, plus);
    assert_eq!(shown_style(&style), shown_style(&a_style()));
}

#[test]
fn node_takes_the_size_of_its_material() {
    let mut style = a_style();
    update_node_size(&mut style, Some(&a_material()));
    assert_eq!(
        shown_style(&style),
        ["200px", "100px", "12px", "1vw", "auto", "12px"].map(String::from)
    );
}

#[test]
fn node_without_material_keeps_its_size() {
    let mut style = a_style();
    update_node_size(&mut style, None);
    assert_eq!(shown_style(&style), shown_style(&a_style()));
}

#[test]
fn the_three_rules_in_turn() {
    let mut material = RoundUiMaterial {
        border_radius: Vec4::new(len(4.), len(8.), len(16.), len(32.)),
        offset: Vec4::new(len(1.), len(2.), len(3.), len(4.)),
        ..RoundUiMaterial::default()
    };
    let mut style = a_style();
    update_material_size(Some(&mut material), Vec2::new(len(64.), len(48.)));
    update_node_padding(&mut style, Some(&material), plus);
    update_node_size(&mut style, Some(&material));
    // corners: bottom right 4, top right 8, bottom left 16, top left 32
    // offset: top 1, left 2, bottom 3, right 4
    assert_eq!(
        shown_style(&style),
        ["64px", "48px", "34px", "12px", "33px", "19px"].map(String::from)
    );
}
