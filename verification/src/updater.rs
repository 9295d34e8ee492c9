//! Self-update naming: the release a check found, and the macOS bundle
//! asset names, which follow the release workflow's Go-style architecture
//! names.

use vstd::prelude::*;
use crate::text::{push_all, str_eq, string_of};

verus! {

/// A newer release found by an update check.
#[derive(Debug, Clone)]
pub struct UpdateInfo {
    pub version: String,
}

/// The release's name for a Rust architecture: `aarch64` is published as
/// `arm64`; every other name is the same.
pub open spec fn release_arch_spec(rust_arch: Seq<char>) -> Seq<char> {
    if rust_arch == "aarch64"@ {
        "arm64"@
    } else {
        rust_arch
    }
}

/// Translates `std::env::consts::ARCH` into the release's architecture
/// name (see [`release_arch_spec`]).
pub fn release_arch_name(rust_arch: &str) -> (r: &str)
    ensures
        r@ == release_arch_spec(rust_arch@),
{
    if str_eq(rust_arch, "aarch64") {
        "arm64"
    } else {
        rust_arch
    }
}

/// The release asset holding the macOS app bundle for `rust_arch`, such as
/// `blockwork-macos-arm64.app.zip`.
pub fn macos_asset_name(rust_arch: &str) -> (r: String)
    ensures
        r@ == "blockwork-macos-"@ + release_arch_spec(rust_arch@) + ".app.zip"@,
{
    let mut r = string_of("blockwork-macos-");
    push_all(&mut r, release_arch_name(rust_arch));
    push_all(&mut r, ".app.zip");
    r
}

} // verus!
