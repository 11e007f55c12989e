use dfn_gui::paths::{file_name, has_wav_extension, join_path, parent_dir, plan_output, PathStyle};

#[test]
fn wav_extension_is_recognised() {
    assert!(has_wav_extension(PathStyle::Unix, "/music/take1.wav"));
    assert!(has_wav_extension(PathStyle::Unix, "take1.wav"));
    assert!(has_wav_extension(PathStyle::Unix, "/a/b.c.wav"));
    assert!(has_wav_extension(PathStyle::Windows, "C:\\music\\take1.wav"));
}

#[test]
fn other_extensions_are_not_wav() {
    assert!(!has_wav_extension(PathStyle::Unix, "/music/song.mp3"));
    assert!(!has_wav_extension(PathStyle::Unix, "/music/SONG.WAV"));
    assert!(!has_wav_extension(PathStyle::Unix, "/music/.wav"));
    assert!(!has_wav_extension(PathStyle::Unix, "/music.wav/readme"));
    assert!(!has_wav_extension(PathStyle::Unix, "/music/wav"));
    assert!(!has_wav_extension(PathStyle::Unix, ""));
}

#[test]
fn backslash_separates_only_on_windows() {
    assert_eq!(file_name(PathStyle::Windows, "C:\\music\\a.wav"), "a.wav");
    assert_eq!(file_name(PathStyle::Unix, "odd\\name.wav"), "odd\\name.wav");
    assert_eq!(file_name(PathStyle::Unix, "/x/y/z.wav"), "z.wav");
}

#[test]
fn output_goes_beside_the_input() {
    let plan = plan_output(PathStyle::Unix, "/home/ann/music/take1.wav").unwrap();
    assert_eq!(plan.output_dir, "/home/ann/music/dnf_clean");
    assert_eq!(plan.output_path, "/home/ann/music/dnf_clean/take1.wav");
}

#[test]
fn output_for_relative_and_root_inputs() {
    let plan = plan_output(PathStyle::Unix, "take1.wav").unwrap();
    assert_eq!(plan.output_dir, "dnf_clean");
    assert_eq!(plan.output_path, "dnf_clean/take1.wav");
    let plan = plan_output(PathStyle::Unix, "/take1.wav").unwrap();
    assert_eq!(plan.output_dir, "/dnf_clean");
    assert_eq!(plan.output_path, "/dnf_clean/take1.wav");
}

#[test]
fn output_on_windows_uses_backslash() {
    let plan = plan_output(PathStyle::Windows, "C:\\music\\take1.wav").unwrap();
    assert_eq!(plan.output_dir, "C:\\music\\dnf_clean");
    assert_eq!(plan.output_path, "C:\\music\\dnf_clean\\take1.wav");
}

#[test]
fn output_needs_a_file_name() {
    let err = "Input path has no file name".to_string();
    assert_eq!(plan_output(PathStyle::Unix, "/").err(), Some(err.clone()));
    assert_eq!(plan_output(PathStyle::Unix, "/music/..").err(), Some(err.clone()));
    assert_eq!(plan_output(PathStyle::Unix, ".").err(), Some(err.clone()));
    assert_eq!(plan_output(PathStyle::Unix, "").err(), Some(err));
}

#[test]
fn join_adds_one_separator() {
    assert_eq!(join_path(PathStyle::Unix, "/data", "x"), "/data/x");
    assert_eq!(join_path(PathStyle::Unix, "/data/", "x"), "/data/x");
    assert_eq!(join_path(PathStyle::Unix, "", "x"), "x");
    assert_eq!(join_path(PathStyle::Windows, "C:\\data", "x"), "C:\\data\\x");
    assert_eq!(join_path(PathStyle::Windows, "C:/data/", "x"), "C:/data/x");
}

#[test]
fn parent_of_paths() {
    assert_eq!(parent_dir(PathStyle::Unix, "/music/dnf_clean/a.wav"), "/music/dnf_clean");
    assert_eq!(parent_dir(PathStyle::Unix, "/a.wav"), "/");
    assert_eq!(parent_dir(PathStyle::Unix, "a.wav"), "");
    assert_eq!(parent_dir(PathStyle::Windows, "C:\\m\\dnf_clean\\a.wav"), "C:\\m\\dnf_clean");
}

#[test]
fn trailing_separators_are_skipped() {
    let plan = plan_output(PathStyle::Unix, "/m/a.wav/").unwrap();
    assert_eq!(plan.output_dir, "/m/dnf_clean");
    assert_eq!(plan.output_path, "/m/dnf_clean/a.wav");
    assert_eq!(file_name(PathStyle::Unix, "/m/a.wav//"), "a.wav");
    assert!(has_wav_extension(PathStyle::Unix, "/m/a.wav/"));
    assert_eq!(parent_dir(PathStyle::Unix, "/m/a.wav/"), "/m");
    assert_eq!(parent_dir(PathStyle::Unix, "/m/"), "/");
    assert_eq!(file_name(PathStyle::Windows, "C:\\m\\a.wav\\"), "a.wav");
}
