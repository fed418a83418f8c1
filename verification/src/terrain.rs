use vstd::prelude::*;
use vstd::string::*;
use rbx_dom_weak::types::{Color3uint8, MaterialColors, TerrainMaterials};
use crate::text::same_text;

verus! {

/// The class whose instances carry terrain material colours.
pub const CLASS_NAME: &'static str = "Terrain";

/// A colour with eight bits for each of red, green and blue.
#[derive(Clone, Copy, Debug, PartialEq, Eq, Structural)]
pub struct Color {
    pub r: u8,
    pub g: u8,
    pub b: u8,
}

/// An item of an enumeration, by the name of the enumeration and its own.
#[derive(Clone, Debug, PartialEq, Eq)]
pub struct EnumItem {
    pub enum_name: String,
    pub name: String,
}

/// Why a terrain material colour could not be read or set.
#[derive(Clone, Debug, PartialEq, Eq)]
pub enum TerrainError {
    /// The item belongs to another enumeration than `Material`.
    WrongEnum(String),
    /// The item names no terrain material.
    UnknownMaterial(String),
}

impl TerrainError {
    /// The text of the error.
    pub open spec fn text(self) -> Seq<char> {
        match self {
            TerrainError::WrongEnum(message) => message@,
            TerrainError::UnknownMaterial(message) => message@,
        }
    }

    /// The text of the error.
    pub fn message(&self) -> (message: &String)
        ensures
            message@ == self.text(),
    {
        match self {
            TerrainError::WrongEnum(message) => message,
            TerrainError::UnknownMaterial(message) => message,
        }
    }
}

/// Whether a name is that of a terrain material: whether
/// `TerrainMaterials::from_str` accepts it.
pub uninterp spec fn known_material(name: Seq<char>) -> bool;

/// The colour that a terrain material has where none was set for it:
/// `TerrainMaterials::default_color` of the material of that name.
pub uninterp spec fn default_material_color(name: Seq<char>) -> Color;

/// What a `MaterialColors` holds: the colour of each terrain material, by the
/// material's name.
pub uninterp spec fn material_colors(colors: MaterialColors) -> Map<Seq<char>, Color>;

/// What `TerrainMaterials::from_str` says of a name that it does not accept.
pub open spec fn unknown_material_message(name: Seq<char>) -> Seq<char> {
    "cannot convert `"@ + name + "` into TerrainMaterial"@
}

/// What is said of an item of another enumeration than `Material`.
pub open spec fn wrong_enum_message(enum_name: Seq<char>) -> Seq<char> {
    "Expected Enum.Material, got Enum."@ + enum_name
}

/// Parses a material's name with `TerrainMaterials::from_str`: it succeeds on
/// the names of the terrain materials and on no other text, and its error
/// reads as `unknown_material_message` says.
#[verifier::external_body]
fn parse_material(name: &str) -> (parsed: Result<(), String>)
    ensures
        parsed is Ok <==> known_material(name@),
        parsed matches Err(message) ==> message@ == unknown_material_message(name@),
{
    name.parse::<TerrainMaterials>().map(|_| ()).map_err(|error| error.to_string())
}

/// `MaterialColors::default`: no colour is set, so every material has its
/// default colour.
#[verifier::external_body]
fn default_colors() -> (colors: MaterialColors)
    ensures
        forall|name: Seq<char>|
            known_material(name) ==> #[trigger] material_colors(colors)[name]
                == default_material_color(name),
{
    MaterialColors::default()
}

/// `MaterialColors::get_color` for the material of this name, which
/// `TerrainMaterials::from_str` finds: the colour set for it, or its default
/// colour if none was set.
#[verifier::external_body]
fn get_color(colors: &MaterialColors, name: &str) -> (color: Color)
    requires
        known_material(name@),
    ensures
        color == material_colors(*colors)[name@],
{
    let material: TerrainMaterials = name.parse().unwrap();
    let color = colors.get_color(material);
    Color { r: color.r, g: color.g, b: color.b }
}

/// `MaterialColors::set_color` for the material of this name, which
/// `TerrainMaterials::from_str` finds: that material has the new colour, and
/// every other material the colour it had.
#[verifier::external_body]
fn set_color(colors: &mut MaterialColors, name: &str, color: Color)
    requires
        known_material(name@),
    ensures
        material_colors(*final(colors)) == material_colors(*old(colors)).insert(name@, color),
{
    let material: TerrainMaterials = name.parse().unwrap();
    colors.set_color(material, Color3uint8::new(color.r, color.g, color.b));
}

/// The material colours of a terrain: those it carries, or the default ones
/// if it carries none.
pub fn get_or_create_material_colors(existing: Option<MaterialColors>) -> (colors: MaterialColors)
    ensures
        match existing {
            Some(inner) => colors == inner,
            None => forall|name: Seq<char>|
                known_material(name) ==> #[trigger] material_colors(colors)[name]
                    == default_material_color(name),
        },
{
    match existing {
        Some(inner) => inner,
        None => default_colors(),
    }
}

/// What is wrong with `material` as a terrain material, if anything is.
/// `parsed` is what parsing its name gave. An item of another enumeration
/// than `Material` is refused whatever its name; an item of `Material` is
/// refused if its name did not parse, with the parser's words.
pub fn classify_material(material: &EnumItem, parsed: Result<(), String>) -> (verdict: Result<
    (),
    TerrainError,
>)
    ensures
        verdict is Ok <==> (material.enum_name@ == "Material"@ && parsed is Ok),
        material.enum_name@ != "Material"@ ==> (verdict matches Err(
            TerrainError::WrongEnum(message),
        ) && message@ == wrong_enum_message(material.enum_name@)),
        material.enum_name@ == "Material"@ && parsed is Err ==> (verdict matches Err(
            TerrainError::UnknownMaterial(message),
        ) && message@ == parsed->Err_0@),
{
    if !same_text(material.enum_name.as_str(), "Material") {
        let message = "Expected Enum.Material, got Enum.".to_owned().concat(
            material.enum_name.as_str(),
        );
        return Err(TerrainError::WrongEnum(message));
    }
    match parsed {
        Ok(()) => Ok(()),
        Err(message) => Err(TerrainError::UnknownMaterial(message)),
    }
}

/// `material` can be looked up: it is an item of `Material` that names a
/// terrain material.
pub open spec fn is_terrain_material(material: EnumItem) -> bool {
    material.enum_name@ == "Material"@ && known_material(material.name@)
}

/// The error that `material` gives where it cannot be looked up.
pub open spec fn refusal(error: TerrainError, material: EnumItem) -> bool {
    if material.enum_name@ != "Material"@ {
        error matches TerrainError::WrongEnum(message) && message@ == wrong_enum_message(
            material.enum_name@,
        )
    } else {
        error matches TerrainError::UnknownMaterial(message) && message@
            == unknown_material_message(material.name@)
    }
}

/// Returns the colour of the given terrain material.
pub fn terrain_get_material_color(colors: &MaterialColors, material: &EnumItem) -> (result: Result<
    Color,
    TerrainError,
>)
    ensures
        match result {
            Ok(color) => is_terrain_material(*material) && color == material_colors(
                *colors,
            )[material.name@],
            Err(error) => !is_terrain_material(*material) && refusal(error, *material),
        },
{
    match classify_material(material, parse_material(material.name.as_str())) {
        Ok(()) => Ok(get_color(colors, material.name.as_str())),
        Err(error) => Err(error),
    }
}

/// Sets the colour of the given terrain material. Where the material is
/// refused, the colours stay as they were.
pub fn terrain_set_material_color(
    colors: &mut MaterialColors,
    material: &EnumItem,
    color: Color,
) -> (result: Result<(), TerrainError>)
    ensures
        match result {
            Ok(()) => is_terrain_material(*material) && material_colors(*final(colors))
                == material_colors(*old(colors)).insert(material.name@, color),
            Err(error) => !is_terrain_material(*material) && refusal(error, *material)
                && *final(colors) == *old(colors),
        },
{
    match classify_material(material, parse_material(material.name.as_str())) {
        Ok(()) => {
            set_color(colors, material.name.as_str(), color);
            Ok(())
        },
        Err(error) => Err(error),
    }
}

/// A colour that was set for a material is the colour that is then read for
/// it, and the colours of the other materials are as they were.
pub proof fn set_color_is_read_back(
    before: MaterialColors,
    after: MaterialColors,
    name: Seq<char>,
    color: Color,
    other: Seq<char>,
)
    requires
        material_colors(after) == material_colors(before).insert(name, color),
        other != name,
    ensures
        material_colors(after)[name] == color,
        material_colors(after)[other] == material_colors(before)[other],
{
}

/// `rbx_dom_weak::types::MaterialColors`, taken as it is.
#[verifier::external_type_specification]
#[verifier::external_body]
pub struct ExMaterialColors(MaterialColors);

} // verus!
