//! The platforms that the denoising engine is released for, where each release
//! is downloaded from, and the file name the engine has on each of them.
use vstd::prelude::*;
use crate::paths::{PathStyle, joined, join_path, file_name_of, has_no_separator, lemma_joined_file_name};

verus! {

/// The operating systems this shell tells apart.
#[derive(Clone, Copy, Debug, PartialEq, Eq, Structural)]
pub enum Os {
    Linux,
    MacOs,
    Windows,
    Other,
}

/// The processor architectures this shell tells apart.
#[derive(Clone, Copy, Debug, PartialEq, Eq, Structural)]
pub enum Arch {
    X86_64,
    Aarch64,
    Other,
}

/// An operating system together with a processor architecture.
#[derive(Clone, Copy, Debug, PartialEq, Eq, Structural)]
pub struct Platform {
    pub os: Os,
    pub arch: Arch,
}

/// The release asset URL and the local file name of the engine for `p`,
/// or `None` where no release exists for that platform.
pub open spec fn release_asset(p: Platform) -> Option<(Seq<char>, Seq<char>)> {
    match (p.os, p.arch) {
        (Os::Linux, Arch::X86_64) => Some(
            (
                "https://github.com/Rikorose/DeepFilterNet/releases/download/v0.5.6/deep-filter-0.5.6-x86_64-unknown-linux-musl"@,
                "deep-filter"@,
            ),
        ),
        (Os::Linux, Arch::Aarch64) => Some(
            (
                "https://github.com/Rikorose/DeepFilterNet/releases/download/v0.5.6/deep-filter-0.5.6-aarch64-unknown-linux-gnu"@,
                "deep-filter"@,
            ),
        ),
        (Os::MacOs, Arch::Aarch64) => Some(
            (
                "https://github.com/Rikorose/DeepFilterNet/releases/download/v0.5.6/deep-filter-0.5.6-aarch64-apple-darwin"@,
                "deep-filter"@,
            ),
        ),
        (Os::Windows, Arch::X86_64) => Some(
            (
                "https://github.com/Rikorose/DeepFilterNet/releases/download/v0.5.6/deep-filter-0.5.6-x86_64-pc-windows-msvc.exe"@,
                "deep-filter.exe"@,
            ),
        ),
        _ => None,
    }
}

/// A platform for which an engine release exists.
pub open spec fn is_supported(p: Platform) -> bool {
    release_asset(p) is Some
}

/// The message given for a platform without a release.
pub open spec fn unsupported_message() -> Seq<char> {
    "Unsupported OS/Architecture"@
}

/// The engine's file name without any suffix.
pub open spec fn engine_base_name() -> Seq<char> {
    "deep-filter"@
}

/// The suffix that executables carry on `os`.
pub open spec fn executable_suffix(os: Os) -> Seq<char> {
    if os == Os::Windows {
        ".exe"@
    } else {
        Seq::empty()
    }
}

/// The engine's file name on `os`.
pub open spec fn engine_file_name(os: Os) -> Seq<char> {
    engine_base_name() + executable_suffix(os)
}

/// Looks up the release asset URL and local file name for `platform`.
pub fn get_binary_url_and_name(platform: Platform) -> (r: Result<(String, String), String>)
    ensures
        match r {
            Ok((url, name)) => release_asset(platform) == Some((url@, name@)),
            Err(e) => release_asset(platform) is None && e@ == unsupported_message(),
        },
{
    let (url, name): (&str, &str) = match (platform.os, platform.arch) {
        (Os::Linux, Arch::X86_64) => (
            "https://github.com/Rikorose/DeepFilterNet/releases/download/v0.5.6/deep-filter-0.5.6-x86_64-unknown-linux-musl",
            "deep-filter",
        ),
        (Os::Linux, Arch::Aarch64) => (
            "https://github.com/Rikorose/DeepFilterNet/releases/download/v0.5.6/deep-filter-0.5.6-aarch64-unknown-linux-gnu",
            "deep-filter",
        ),
        (Os::MacOs, Arch::Aarch64) => (
            "https://github.com/Rikorose/DeepFilterNet/releases/download/v0.5.6/deep-filter-0.5.6-aarch64-apple-darwin",
            "deep-filter",
        ),
        (Os::Windows, Arch::X86_64) => (
            "https://github.com/Rikorose/DeepFilterNet/releases/download/v0.5.6/deep-filter-0.5.6-x86_64-pc-windows-msvc.exe",
            "deep-filter.exe",
        ),
        _ => {
            return Err(String::from_str("Unsupported OS/Architecture"));
        },
    };
    Ok((String::from_str(url), String::from_str(name)))
}

/// The engine's file name on `os`: the base name, with `.exe` on Windows.
pub fn binary_name(os: Os) -> (r: String)
    ensures
        r@ == engine_file_name(os),
{
    let base = String::from_str("deep-filter");
    if os == Os::Windows {
        base.concat(".exe")
    } else {
        proof {
            assert(engine_file_name(os) =~= engine_base_name());
        }
        base
    }
}

/// Where a release exists, the file name it is saved under is the engine's
/// file name for that operating system, so a download lands exactly where the
/// engine is looked for.
pub proof fn lemma_release_name_is_engine_name(p: Platform)
    requires
        is_supported(p),
    ensures
        release_asset(p).unwrap().1 == engine_file_name(p.os),
{
    reveal_strlit("deep-filter");
    reveal_strlit(".exe");
    reveal_strlit("deep-filter.exe");
    assert(engine_file_name(Os::Windows) =~= "deep-filter.exe"@);
    assert(engine_file_name(Os::Linux) =~= "deep-filter"@);
    assert(engine_file_name(Os::MacOs) =~= "deep-filter"@);
}

/// How paths are spelled on `os`.
pub open spec fn style_of(os: Os) -> PathStyle {
    if os == Os::Windows {
        PathStyle::Windows
    } else {
        PathStyle::Unix
    }
}

/// Where the engine lives on `os`, inside the application data directory
/// `data_dir`.
pub open spec fn engine_path_of(os: Os, data_dir: Seq<char>) -> Seq<char> {
    joined(style_of(os), data_dir, engine_file_name(os))
}

/// How paths are spelled on `os`.
pub fn path_style(os: Os) -> (r: PathStyle)
    ensures
        r == style_of(os),
{
    if os == Os::Windows {
        PathStyle::Windows
    } else {
        PathStyle::Unix
    }
}

/// Where the engine lives on `os`, inside the application data directory
/// `data_dir`: the same path for the same arguments, every time.
pub fn engine_path(os: Os, data_dir: &str) -> (r: String)
    ensures
        r@ == engine_path_of(os, data_dir@),
{
    let name = binary_name(os);
    join_path(path_style(os), data_dir, name.as_str())
}

/// Where to fetch the engine for `platform` from, and the path to save it
/// at inside `data_dir`; fails for a platform without a release.
pub fn download_target(platform: Platform, data_dir: &str) -> (r: Result<(String, String), String>)
    ensures
        match r {
            Ok((url, path)) => is_supported(platform) && url@ == release_asset(platform).unwrap().0
                && path@ == engine_path_of(platform.os, data_dir@),
            Err(e) => !is_supported(platform) && e@ == unsupported_message(),
        },
{
    match get_binary_url_and_name(platform) {
        Err(e) => Err(e),
        Ok((url, name)) => {
            proof {
                lemma_release_name_is_engine_name(platform);
            }
            let path = join_path(path_style(platform.os), data_dir, name.as_str());
            Ok((url, path))
        },
    }
}

/// On every supported platform the engine's path is the data directory
/// joined with the engine's file name, and that file name is the same base
/// name on all of them, with `.exe` added on Windows alone.
pub proof fn lemma_engine_path_differs_only_in_suffix(p: Platform, data_dir: Seq<char>)
    requires
        is_supported(p),
    ensures
        engine_path_of(p.os, data_dir) == joined(
            style_of(p.os),
            data_dir,
            release_asset(p).unwrap().1,
        ),
        file_name_of(style_of(p.os), engine_path_of(p.os, data_dir)) == engine_base_name()
            + executable_suffix(p.os),
        p.os == Os::Windows ==> engine_file_name(p.os) == engine_file_name(Os::Linux) + ".exe"@,
        p.os != Os::Windows ==> engine_file_name(p.os) == engine_base_name(),
{
    lemma_release_name_is_engine_name(p);
    reveal_strlit("deep-filter");
    reveal_strlit(".exe");
    let name = engine_file_name(p.os);
    assert(engine_file_name(Os::Linux) =~= engine_base_name());
    assert(p.os != Os::Windows ==> name =~= engine_base_name());
    assert(has_no_separator(style_of(p.os), name));
    lemma_joined_file_name(style_of(p.os), data_dir, name);
}

} // verus!
