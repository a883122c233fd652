use worldgen::density_function::resolve::ResolutionPath;
use worldgen::density_function::CompileError;

#[test]
fn resolution_path_detects_cycles() {
    let mut path = ResolutionPath::new();
    assert_eq!(path.depth(), 0);
    assert_eq!(path.enter(b"minecraft:overworld/continents"), Ok(()));
    assert_eq!(path.enter(b"minecraft:shift_x"), Ok(()));
    assert_eq!(path.depth(), 2);
    assert_eq!(path.enter(b"minecraft:overworld/continents"), Err(CompileError::ReferenceCycle));
    assert_eq!(path.depth(), 2);
    path.leave();
    assert_eq!(path.enter(b"minecraft:shift_x"), Ok(()));
    path.leave();
    path.leave();
    assert_eq!(path.depth(), 0);
    assert_eq!(path.enter(b"minecraft:overworld/continents"), Ok(()));
}

#[test]
fn resolution_path_tells_prefixes_apart() {
    let mut path = ResolutionPath::new();
    assert_eq!(path.enter(b"minecraft:a"), Ok(()));
    assert_eq!(path.enter(b"minecraft:ab"), Ok(()));
    assert_eq!(path.enter(b"minecraft:"), Ok(()));
    assert_eq!(path.enter(b"minecraft:ab"), Err(CompileError::ReferenceCycle));
}
