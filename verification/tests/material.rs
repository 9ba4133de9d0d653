use bevy_mod_plotters::{PlotUiMaterial, Tint};

#[test]
fn new_sets_opaque_white_tint() {
    let material = PlotUiMaterial::new(42u32);
    assert_eq!(
        material.color,
        Tint { red: 255, green: 255, blue: 255, alpha: 255 }
    );
}

#[test]
fn new_keeps_texture_handle() {
    let material = PlotUiMaterial::new(String::from("chart-texture"));
    assert_eq!(material.texture, "chart-texture");
    let material = PlotUiMaterial::new(7u64);
    assert_eq!(material.texture, 7u64);
}
