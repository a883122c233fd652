use worldgen::identifier::{Identifier, IdentifierError};

#[test]
fn parse_valid_identifiers() {
    let id = Identifier::parse("minecraft:overworld/caves/spaghetti_roughness_function").unwrap();
    assert_eq!(id.namespace(), &b"minecraft".to_vec());
    assert_eq!(id.path(), &b"overworld/caves/spaghetti_roughness_function".to_vec());
    let id = Identifier::parse("a.b-c_1:x").unwrap();
    assert_eq!(id.namespace(), &b"a.b-c_1".to_vec());
    assert_eq!(id.path(), &b"x".to_vec());
}

#[test]
fn parse_rejects_malformed_identifiers() {
    for bad in [
        "",
        ":",
        "minecraft",
        "minecraft:",
        ":path",
        "Minecraft:path",
        "mine/craft:path",
        "minecraft:pa th",
        "minecraft:a:b",
        "minecraft:\u{e9}",
    ] {
        assert_eq!(Identifier::parse(bad), Err(IdentifierError::Malformed), "{bad}");
    }
}

#[test]
fn identifier_format_round_trip() {
    for text in ["minecraft:temperature", "my_pack:noise/a.b-c", "0:1"] {
        let parsed = Identifier::parse(text).unwrap();
        let formatted = parsed.to_bytes();
        assert_eq!(formatted, text.as_bytes().to_vec());
        assert_eq!(Identifier::parse_bytes(&formatted), Ok(parsed));
    }
}

#[test]
fn identifier_data_path() {
    let id = Identifier::parse("minecraft:overworld/continents").unwrap();
    assert_eq!(
        id.data_path(b"worldgen/density_function"),
        b"data/minecraft/worldgen/density_function/overworld/continents.json".to_vec()
    );
}
