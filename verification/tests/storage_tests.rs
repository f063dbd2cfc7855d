use std::path::{Path, PathBuf};

use rms_recorder::storage::{
    app_data_dir_in_with, default_output_dir_in, default_output_dir_in_with, join_with, output_audio_dir,
    output_audio_dir_with, output_transcripts_dir, output_transcripts_dir_with, platform_separator,
    settings_file_path_in, settings_file_path_in_with,
};

#[test]
fn settings_file_lives_under_app_data_dir() {
    assert_eq!(
        PathBuf::from(settings_file_path_in("base/local")),
        Path::new("base/local").join("rms-ai-recorder").join("settings.json")
    );
}

#[test]
fn default_outputs_live_under_app_data_dir() {
    assert_eq!(
        PathBuf::from(default_output_dir_in("base/local")),
        Path::new("base/local").join("rms-ai-recorder").join("outputs")
    );
}

#[test]
fn output_subfolders_split_audio_and_transcripts() {
    let output_dir = Path::new("base/local").join("rms-ai-recorder").join("outputs");
    let output_dir_text = output_dir.display().to_string();

    assert_eq!(PathBuf::from(output_audio_dir(&output_dir_text)), output_dir.join("audio"));
    assert_eq!(
        PathBuf::from(output_transcripts_dir(&output_dir_text)),
        output_dir.join("transcripts")
    );
}

#[test]
fn join_keeps_an_existing_trailing_separator() {
    assert_eq!(join_with("base/", "x", '/'), "base/x");
    assert_eq!(join_with("base", "x", '\\'), "base\\x");
    assert_eq!(join_with("", "x", '/'), "x");
    let sep = platform_separator();
    assert!(sep == '/' || sep == '\\');
}

#[test]
fn bare_drives_join_drive_relative_on_windows() {
    assert_eq!(join_with("D:", "audio", '\\'), "D:audio");
    assert_eq!(join_with("d:", "audio", '\\'), "d:audio");
    assert_eq!(join_with("D:\\", "audio", '\\'), "D:\\audio");
    assert_eq!(join_with("D:", "audio", '/'), "D:/audio");
    assert_eq!(join_with("1:", "audio", '\\'), "1:\\audio");
    assert_eq!(join_with("D:x", "audio", '\\'), "D:x\\audio");
}

#[test]
fn verbatim_paths_only_split_on_backslashes() {
    assert_eq!(join_with("\\\\?\\C:\\dir/", "a", '\\'), "\\\\?\\C:\\dir/\\a");
    assert_eq!(join_with("\\\\?\\C:\\dir\\", "a", '\\'), "\\\\?\\C:\\dir\\a");
    assert_eq!(join_with(r"\\?\D:", "a", '\\'), r"\\?\D:\a");
    assert_eq!(join_with("C:\\dir/", "a", '\\'), "C:\\dir/a");
}

#[test]
fn verbatim_paths_are_rebuilt_from_their_components() {
    assert_eq!(join_with(r"\\?\C:\a\\b\.\", "x", '\\'), r"\\?\C:\a\b\.\x");
    assert_eq!(join_with(r"\\?\C:\a\..", "x", '\\'), r"\\?\C:\a\..\x");
    assert_eq!(join_with(r"\\?\UNC\srv\share", "x", '\\'), r"\\?\UNC\srv\share\x");
    assert_eq!(join_with(r"\\?\UNC\srv\share\\d", "x", '\\'), r"\\?\UNC\srv\share\d\x");
    assert_eq!(join_with(r"\\?\UNC\srv", "x", '\\'), r"\\?\UNC\srv\x");
    // Elsewhere the same text is an ordinary path.
    assert_eq!(join_with(r"\\?\C:\a\\b", "x", '/'), r"\\?\C:\a\\b/x");
}

#[test]
fn separator_forms_are_exact() {
    assert_eq!(app_data_dir_in_with("base", '\\'), "base\\rms-ai-recorder");
    assert_eq!(settings_file_path_in_with("base", '/'), "base/rms-ai-recorder/settings.json");
    assert_eq!(default_output_dir_in_with("D:", '\\'), "D:rms-ai-recorder\\outputs");
    assert_eq!(output_audio_dir_with("out", '\\'), "out\\audio");
    assert_eq!(output_transcripts_dir_with("out/", '/'), "out/transcripts");
}
