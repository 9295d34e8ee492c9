use blockwork::updater::{macos_asset_name, release_arch_name};

#[test]
fn release_arch_name_translates_aarch64_to_arm64() {
    assert_eq!(release_arch_name("aarch64"), "arm64");
    assert_eq!(release_arch_name("x86_64"), "x86_64");
}

#[test]
fn macos_asset_name_matches_release_artifact() {
    assert_eq!(macos_asset_name("aarch64"), "blockwork-macos-arm64.app.zip");
    assert_eq!(macos_asset_name("x86_64"), "blockwork-macos-x86_64.app.zip");
}
