use lune_exec::terrain::{
    classify_material, get_or_create_material_colors, terrain_get_material_color,
    terrain_set_material_color, Color, EnumItem, TerrainError, CLASS_NAME,
};
use rbx_dom_weak::types::{Color3uint8, MaterialColors, TerrainMaterials};

fn material(name: &str) -> EnumItem {
    EnumItem { enum_name: "Material".to_string(), name: name.to_string() }
}

#[test]
fn class_is_terrain() {
    assert_eq!(CLASS_NAME, "Terrain");
}

#[test]
fn unset_material_has_its_default_color() {
    let colors = get_or_create_material_colors(None);
    assert_eq!(
        terrain_get_material_color(&colors, &material("Grass")),
        Ok(Color { r: 106, g: 127, b: 63 })
    );
    assert_eq!(
        terrain_get_material_color(&colors, &material("Pavement")),
        Ok(Color { r: 148, g: 148, b: 140 })
    );
}

#[test]
fn existing_colors_are_kept() {
    let mut existing = MaterialColors::new();
    existing.set_color(TerrainMaterials::Mud, Color3uint8::new(1, 2, 3));
    let colors = get_or_create_material_colors(Some(existing.clone()));
    assert_eq!(colors, existing);
    assert_eq!(terrain_get_material_color(&colors, &material("Mud")), Ok(Color { r: 1, g: 2, b: 3 }));
}

#[test]
fn set_color_is_read_back_and_leaves_the_others() {
    let mut colors = MaterialColors::new();
    assert_eq!(
        terrain_set_material_color(&mut colors, &material("Sand"), Color { r: 10, g: 20, b: 30 }),
        Ok(())
    );
    assert_eq!(colors.get_color(TerrainMaterials::Sand), Color3uint8::new(10, 20, 30));
    assert_eq!(
        terrain_get_material_color(&colors, &material("Sand")),
        Ok(Color { r: 10, g: 20, b: 30 })
    );
    assert_eq!(
        terrain_get_material_color(&colors, &material("Slate")),
        Ok(Color { r: 63, g: 127, b: 107 })
    );
    assert_eq!(
        terrain_set_material_color(&mut colors, &material("Sand"), Color { r: 0, g: 0, b: 0 }),
        Ok(())
    );
    assert_eq!(terrain_get_material_color(&colors, &material("Sand")), Ok(Color { r: 0, g: 0, b: 0 }));
}

#[test]
fn item_of_another_enum_is_refused() {
    let mut colors = MaterialColors::new();
    let item = EnumItem { enum_name: "KeyCode".to_string(), name: "Grass".to_string() };
    let expected =
        TerrainError::WrongEnum("Expected Enum.Material, got Enum.KeyCode".to_string());
    assert_eq!(terrain_get_material_color(&colors, &item), Err(expected.clone()));
    assert_eq!(
        terrain_set_material_color(&mut colors, &item, Color { r: 1, g: 1, b: 1 }),
        Err(expected.clone())
    );
    assert_eq!(colors, MaterialColors::new());
    assert_eq!(expected.message(), "Expected Enum.Material, got Enum.KeyCode");
}

#[test]
fn material_that_terrain_does_not_have_is_refused() {
    let mut colors = MaterialColors::new();
    let expected =
        TerrainError::UnknownMaterial("cannot convert `Plastic` into TerrainMaterial".to_string());
    assert_eq!(terrain_get_material_color(&colors, &material("Plastic")), Err(expected.clone()));
    assert_eq!(
        terrain_set_material_color(&mut colors, &material("Plastic"), Color { r: 1, g: 1, b: 1 }),
        Err(expected.clone())
    );
    assert_eq!(terrain_get_material_color(&colors, &material("grass")).is_err(), true);
    assert_eq!(colors, MaterialColors::new());
    assert_eq!(expected.message(), "cannot convert `Plastic` into TerrainMaterial");
}

#[test]
fn classify_checks_the_enum_before_the_name() {
    let other = EnumItem { enum_name: "Font".to_string(), name: "Grass".to_string() };
    assert_eq!(
        classify_material(&other, Ok(())),
        Err(TerrainError::WrongEnum("Expected Enum.Material, got Enum.Font".to_string()))
    );
    assert_eq!(
        classify_material(&other, Err("unused".to_string())),
        Err(TerrainError::WrongEnum("Expected Enum.Material, got Enum.Font".to_string()))
    );
    assert_eq!(classify_material(&material("Grass"), Ok(())), Ok(()));
    assert_eq!(
        classify_material(&material("Nope"), Err("parser said no".to_string())),
        Err(TerrainError::UnknownMaterial("parser said no".to_string()))
    );
}
