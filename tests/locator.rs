use dfn_gui::paths::PathStyle;
use dfn_gui::platform::{
    binary_name, download_target, engine_path, get_binary_url_and_name, path_style, Arch, Os,
    Platform,
};

fn platform(os: Os, arch: Arch) -> Platform {
    Platform { os, arch }
}

#[test]
fn release_asset_for_linux_x86_64() {
    let (url, name) = get_binary_url_and_name(platform(Os::Linux, Arch::X86_64)).unwrap();
    assert_eq!(
        url,
        "https://github.com/Rikorose/DeepFilterNet/releases/download/v0.5.6/deep-filter-0.5.6-x86_64-unknown-linux-musl"
    );
    assert_eq!(name, "deep-filter");
}

#[test]
fn release_asset_for_linux_aarch64() {
    let (url, name) = get_binary_url_and_name(platform(Os::Linux, Arch::Aarch64)).unwrap();
    assert_eq!(
        url,
        "https://github.com/Rikorose/DeepFilterNet/releases/download/v0.5.6/deep-filter-0.5.6-aarch64-unknown-linux-gnu"
    );
    assert_eq!(name, "deep-filter");
}

#[test]
fn release_asset_for_macos_aarch64() {
    let (url, name) = get_binary_url_and_name(platform(Os::MacOs, Arch::Aarch64)).unwrap();
    assert_eq!(
        url,
        "https://github.com/Rikorose/DeepFilterNet/releases/download/v0.5.6/deep-filter-0.5.6-aarch64-apple-darwin"
    );
    assert_eq!(name, "deep-filter");
}

#[test]
fn release_asset_for_windows_x86_64() {
    let (url, name) = get_binary_url_and_name(platform(Os::Windows, Arch::X86_64)).unwrap();
    assert_eq!(
        url,
        "https://github.com/Rikorose/DeepFilterNet/releases/download/v0.5.6/deep-filter-0.5.6-x86_64-pc-windows-msvc.exe"
    );
    assert_eq!(name, "deep-filter.exe");
}

#[test]
fn unsupported_platforms_fail() {
    for p in [
        platform(Os::MacOs, Arch::X86_64),
        platform(Os::Windows, Arch::Aarch64),
        platform(Os::Other, Arch::X86_64),
        platform(Os::Linux, Arch::Other),
    ] {
        assert_eq!(get_binary_url_and_name(p), Err("Unsupported OS/Architecture".to_string()));
        assert_eq!(download_target(p, "/data"), Err("Unsupported OS/Architecture".to_string()));
    }
}

#[test]
fn binary_names_differ_only_in_suffix() {
    assert_eq!(binary_name(Os::Linux), "deep-filter");
    assert_eq!(binary_name(Os::MacOs), "deep-filter");
    assert_eq!(binary_name(Os::Windows), "deep-filter.exe");
    assert_eq!(binary_name(Os::Windows), format!("{}.exe", binary_name(Os::Linux)));
}

#[test]
fn engine_path_is_deterministic() {
    let d = "/home/ann/.local/share/deepfilternet-gui";
    assert_eq!(engine_path(Os::Linux, d), "/home/ann/.local/share/deepfilternet-gui/deep-filter");
    assert_eq!(engine_path(Os::Linux, d), engine_path(Os::Linux, d));
    assert_eq!(engine_path(Os::MacOs, "/Users/ann/Library/"), "/Users/ann/Library/deep-filter");
    assert_eq!(
        engine_path(Os::Windows, "C:\\Users\\ann\\AppData\\Local"),
        "C:\\Users\\ann\\AppData\\Local\\deep-filter.exe"
    );
    assert_eq!(engine_path(Os::Linux, ""), "deep-filter");
}

#[test]
fn download_target_matches_engine_path() {
    for p in [
        platform(Os::Linux, Arch::X86_64),
        platform(Os::Linux, Arch::Aarch64),
        platform(Os::MacOs, Arch::Aarch64),
        platform(Os::Windows, Arch::X86_64),
    ] {
        let (url, path) = download_target(p, "/data/dfn").unwrap();
        let (expected_url, _) = get_binary_url_and_name(p).unwrap();
        assert_eq!(url, expected_url);
        assert_eq!(path, engine_path(p.os, "/data/dfn"));
    }
}

#[test]
fn path_style_follows_os() {
    assert_eq!(path_style(Os::Windows), PathStyle::Windows);
    assert_eq!(path_style(Os::Linux), PathStyle::Unix);
    assert_eq!(path_style(Os::MacOs), PathStyle::Unix);
}
