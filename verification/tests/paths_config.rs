use ai_music_mcp::config::{
    default_output_dir, parse_millis_text, required_setting, timeout_setting, Config,
    DEFAULT_CONVERT_TIMEOUT_MS, DEFAULT_GENERATE_TIMEOUT_MS, DEFAULT_STEMS_TIMEOUT_MS,
};
use ai_music_mcp::paths::{check_env_path, check_user_path, validate_filename, within_text, PathProbe};
use ai_music_mcp::reply::ToolError;

fn existing(p: &str) -> PathProbe {
    let parent = match p.rfind('/') {
        Some(0) => Some("/".to_string()),
        Some(i) => Some(p[..i].to_string()),
        None => Some(".".to_string()),
    };
    PathProbe { canonical: Some(p.to_string()), has_parent: true, parent_canonical: parent }
}

fn missing_in(parent: Option<&str>) -> PathProbe {
    PathProbe { canonical: None, has_parent: true, parent_canonical: parent.map(|s| s.to_string()) }
}

fn no_parent() -> PathProbe {
    PathProbe { canonical: None, has_parent: false, parent_canonical: None }
}

fn sample_config() -> Config {
    Config::from_settings(
        "/studio".to_string(),
        Some("/rvc".to_string()),
        "/out".to_string(),
        DEFAULT_GENERATE_TIMEOUT_MS,
        DEFAULT_STEMS_TIMEOUT_MS,
        DEFAULT_CONVERT_TIMEOUT_MS,
    )
}

#[test]
fn config_derives_every_directory() {
    let c = sample_config();
    assert_eq!(c.stems_dir, "/out/stems");
    assert_eq!(c.converted_dir, "/out/converted");
    assert_eq!(c.musicgen_venv, "/studio/.venv");
    assert_eq!(c.rvc_venv.as_deref(), Some("/rvc/.venv"));
    assert_eq!(c.musicgen_script, "/studio/generate-music.py");
    assert_eq!(c.stems_script, "/studio/separate-stems.py");
    assert_eq!(c.rvc_infer_script.as_deref(), Some("/rvc/tools/cmd/infer_cli.py"));
    assert_eq!(c.rvc_weights_dir.as_deref(), Some("/rvc/assets/weights"));
    assert_eq!(c.rvc_index_dir.as_deref(), Some("/rvc/logs"));
    assert_eq!(c.generate_timeout_ms, 600000);
    assert_eq!(c.stems_timeout_ms, 600000);
    assert_eq!(c.convert_timeout_ms, 300000);
}

#[test]
fn config_without_rvc_has_no_rvc_paths() {
    let c = Config::from_settings("/studio".to_string(), None, "/out".to_string(), 1, 2, 3);
    assert_eq!(c.rvc_dir, None);
    assert_eq!(c.rvc_venv, None);
    assert_eq!(c.rvc_infer_script, None);
    assert_eq!(c.rvc_weights_dir, None);
    assert_eq!(c.rvc_index_dir, None);
    assert_eq!((c.generate_timeout_ms, c.stems_timeout_ms, c.convert_timeout_ms), (1, 2, 3));
    assert_eq!(c.allowed_bases(), vec!["/out", "/out/stems", "/out/converted", "/studio"]);
}

#[test]
fn allowed_bases_in_order() {
    let c = sample_config();
    assert_eq!(c.allowed_bases(), vec!["/out", "/out/stems", "/out/converted", "/studio", "/rvc"]);
}

#[test]
fn default_directories() {
    assert_eq!(default_output_dir("/home/me"), "/home/me/Desktop/AI-Music");
    assert_eq!(default_output_dir(""), "/Desktop/AI-Music");
}

#[test]
fn required_settings_must_be_set() {
    assert_eq!(
        required_setting("MUSIC_STUDIO_DIR", Some("/studio".to_string())),
        Ok("/studio".to_string())
    );
    assert_eq!(
        required_setting("MUSIC_STUDIO_DIR", None),
        Err("MUSIC_STUDIO_DIR is required but not set".to_string())
    );
}

#[test]
fn millis_are_parsed_as_decimal() {
    assert_eq!(parse_millis_text("600000"), Some(600000));
    assert_eq!(parse_millis_text("0"), Some(0));
    assert_eq!(parse_millis_text("18446744073709551615"), Some(u64::MAX));
    assert_eq!(parse_millis_text("18446744073709551616"), None);
    assert_eq!(parse_millis_text(""), None);
    assert_eq!(parse_millis_text("12s"), None);
    assert_eq!(parse_millis_text("-5"), None);
}

#[test]
fn timeouts_fall_back_to_defaults() {
    assert_eq!(timeout_setting(Some("120000".to_string()), 600000), 120000);
    assert_eq!(timeout_setting(Some("soon".to_string()), 600000), 600000);
    assert_eq!(timeout_setting(None, 300000), 300000);
}

#[test]
fn env_path_refuses_traversal() {
    assert_eq!(
        check_env_path("/a/../b", "RVC_DIR", &existing("/b")),
        Err("RVC_DIR: path contains traversal sequence (..): /a/../b".to_string())
    );
}

#[test]
fn env_path_uses_canonical_form() {
    assert_eq!(
        check_env_path("/x/./y", "MUSIC_STUDIO_DIR", &existing("/x/y")),
        Ok("/x/y".to_string())
    );
}

#[test]
fn env_path_missing_with_parent_is_kept() {
    assert_eq!(
        check_env_path("/home/me/out", "MUSIC_OUTPUT_DIR", &missing_in(Some("/home/me"))),
        Ok("/home/me/out".to_string())
    );
}

#[test]
fn env_path_missing_without_parent() {
    assert_eq!(
        check_env_path("/nope/out", "MUSIC_OUTPUT_DIR", &missing_in(None)),
        Err("MUSIC_OUTPUT_DIR: path does not exist: /nope/out".to_string())
    );
    assert_eq!(
        check_env_path("", "RVC_DIR", &no_parent()),
        Err("RVC_DIR: invalid path: ".to_string())
    );
}

#[test]
fn accepted_directory_checks_again_the_same() {
    let first = check_env_path("/x/./y", "MUSIC_STUDIO_DIR", &existing("/x/y")).unwrap();
    assert_eq!(check_env_path(&first, "MUSIC_STUDIO_DIR", &existing("/x/y")), Ok(first.clone()));
}

#[test]
fn within_compares_components() {
    assert!(within_text("/out", "/out"));
    assert!(within_text("/out", "/out/x.wav"));
    assert!(within_text("/out/", "/out/x.wav"));
    assert!(!within_text("/out", "/out2/x.wav"));
    assert!(!within_text("/out", "/ou"));
    assert!(within_text("/", "/etc/passwd"));
    assert!(within_text("", "/anything"));
}

#[test]
fn user_path_errors() {
    let bases = vec!["/out", "/studio"];
    assert_eq!(check_user_path("", &bases, &no_parent()), Err("Path cannot be empty".to_string()));
    assert_eq!(
        check_user_path("/out/../etc/passwd", &bases, &existing("/etc/passwd")),
        Err("Path contains traversal sequence (..): /out/../etc/passwd".to_string())
    );
    assert_eq!(
        check_user_path("/etc/passwd", &bases, &existing("/etc/passwd")),
        Err("Path /etc/passwd resolves outside allowed directories".to_string())
    );
    assert_eq!(
        check_user_path("/gone/x.wav", &bases, &missing_in(None)),
        Err("Path does not exist: /gone/x.wav".to_string())
    );
    assert_eq!(
        check_user_path("x.wav", &bases, &missing_in(None)),
        Err("Path does not exist: x.wav".to_string())
    );
}

#[test]
fn user_path_prefix_sibling_is_refused() {
    let bases = vec!["/out"];
    assert_eq!(
        check_user_path("/out2/x.wav", &bases, &existing("/out2/x.wav")),
        Err("Path /out2/x.wav resolves outside allowed directories".to_string())
    );
}

#[test]
fn user_path_missing_outside_is_refused() {
    let bases = vec!["/out"];
    assert_eq!(
        check_user_path("/etc/new.wav", &bases, &missing_in(Some("/etc"))),
        Err("Path /etc/new.wav resolves outside allowed directories".to_string())
    );
}

#[test]
fn user_path_accepted() {
    let bases = vec!["/out", "/studio"];
    assert_eq!(
        check_user_path("/out/a.wav", &bases, &existing("/out/a.wav")),
        Ok("/out/a.wav".to_string())
    );
    assert_eq!(
        check_user_path("/out/new.wav", &bases, &missing_in(Some("/out"))),
        Ok("/out/new.wav".to_string())
    );
    let none: Vec<&str> = vec![];
    assert_eq!(
        check_user_path("/anywhere/a.wav", &none, &existing("/anywhere/a.wav")),
        Ok("/anywhere/a.wav".to_string())
    );
    assert_eq!(
        check_user_path("/anywhere/b.wav", &none, &missing_in(Some("/anywhere"))),
        Ok("/anywhere/b.wav".to_string())
    );
}

#[test]
fn stems_output_is_accepted_back() {
    let c = sample_config();
    let bases = c.allowed_bases();
    assert_eq!(
        check_user_path(
            "/out/stems/htdemucs/beat/vocals.wav",
            &bases,
            &existing("/out/stems/htdemucs/beat/vocals.wav")
        ),
        Ok("/out/stems/htdemucs/beat/vocals.wav".to_string())
    );
}

#[test]
fn filenames_must_be_plain() {
    assert_eq!(validate_filename("matthew.pth", "model_name"), Ok(()));
    let err = Err(ToolError::InputValidation(
        "model_name must be a plain filename (e.g. 'matthew.pth')".to_string(),
    ));
    assert_eq!(validate_filename("", "model_name"), err);
    assert_eq!(validate_filename("a/b.pth", "model_name"), err);
    assert_eq!(validate_filename("a\\b.pth", "model_name"), err);
    assert_eq!(validate_filename("..pth", "model_name"), err);
}
