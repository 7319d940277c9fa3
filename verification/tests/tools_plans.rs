use std::sync::Arc;

use ai_music_mcp::args::{
    clamp_i64, validate_demucs_model, validate_f0_method, validate_model_size, validate_stem_type,
    ArgValue, ToolArgs, MAX_ARG_BYTES,
};
use ai_music_mcp::config::Config;
use ai_music_mcp::launch::{
    check_python_launch, python_binary_path, run_outcome, timed_out_outcome, PythonJob,
};
use ai_music_mcp::paths::PathProbe;
use ai_music_mcp::reply::{
    listing_reply, listing_text, model_files, model_line_text, redact, run_reply,
    voice_models_reply, JsonValue, ToolError, ToolReply,
};
use ai_music_mcp::tools::{
    audio_input, info_reply, metadata_command, ConvertVoiceTool, GenerateTool, GetInfoTool,
    ListFilesTool, ListStemsTool, ListVoiceModelsTool, SeparateStemsTool,
};

fn config() -> Arc<Config> {
    Arc::new(Config::from_settings(
        "/studio".to_string(),
        Some("/rvc".to_string()),
        "/out".to_string(),
        600000,
        600000,
        300000,
    ))
}

fn config_without_rvc() -> Arc<Config> {
    Arc::new(Config::from_settings("/studio".to_string(), None, "/out".to_string(), 600000, 600000, 300000))
}

fn text(k: &str, v: &str) -> (String, ArgValue) {
    (k.to_string(), ArgValue::Text(v.to_string()))
}

fn int_field(k: &str, v: i64) -> (String, ArgValue) {
    (k.to_string(), ArgValue::Int(v))
}

fn args(fields: Vec<(String, ArgValue)>) -> ToolArgs {
    ToolArgs { fields }
}

fn strings(v: &[&str]) -> Vec<String> {
    v.iter().map(|s| s.to_string()).collect()
}

fn existing(p: &str) -> PathProbe {
    let parent = match p.rfind('/') {
        Some(0) => "/".to_string(),
        Some(i) => p[..i].to_string(),
        None => ".".to_string(),
    };
    PathProbe { canonical: Some(p.to_string()), has_parent: true, parent_canonical: Some(parent) }
}

fn missing_field(f: &str) -> ToolError {
    ToolError::InputValidation(format!("missing required field: {f}"))
}

fn str_field(k: &str, v: &str) -> (String, JsonValue) {
    (k.to_string(), JsonValue::Str(v.to_string()))
}

#[test]
fn tool_args_read_fields() {
    let a = args(vec![text("name", "x"), int_field("n", 5), ("o".to_string(), ArgValue::Other)]);
    assert_eq!(a.require_string("name"), Ok("x".to_string()));
    assert_eq!(a.require_string("n"), Err(missing_field("n")));
    assert_eq!(a.require_string("zzz"), Err(missing_field("zzz")));
    assert_eq!(a.optional_string("o"), None);
    assert_eq!(a.optional_i64("n"), Some(5));
    assert_eq!(a.optional_i64("name"), None);
    let dup = args(vec![text("k", "first"), text("k", "second")]);
    assert_eq!(dup.optional_string("k"), Some("first".to_string()));
}

#[test]
fn string_fields_are_checked_for_nul_and_length() {
    assert_eq!(args(vec![text("prompt", "fine"), int_field("n", 1)]).check_strings(), Ok(()));
    assert_eq!(
        args(vec![text("prompt", "a\0b")]).check_strings(),
        Err(ToolError::InputValidation("prompt contains a null byte".to_string()))
    );
    let long = "a".repeat(MAX_ARG_BYTES + 1);
    assert_eq!(
        args(vec![text("ok", "x"), text("prompt", &long), text("other", "\0")]).check_strings(),
        Err(ToolError::InputValidation("prompt size 512001B exceeds maximum 512000B".to_string()))
    );
    let exact = "a".repeat(MAX_ARG_BYTES);
    assert_eq!(args(vec![text("prompt", &exact)]).check_strings(), Ok(()));
}

#[test]
fn choices_fall_back_to_defaults() {
    assert_eq!(validate_model_size(Some("large".to_string())), "large");
    assert_eq!(validate_model_size(Some("medium".to_string())), "medium");
    assert_eq!(validate_model_size(Some("huge".to_string())), "small");
    assert_eq!(validate_model_size(None), "small");
    assert_eq!(validate_demucs_model(Some("htdemucs_ft".to_string())), "htdemucs_ft");
    assert_eq!(validate_demucs_model(Some("mdx".to_string())), "htdemucs");
    assert_eq!(validate_stem_type(Some("vocals".to_string())), "vocals");
    assert_eq!(validate_stem_type(Some("bass".to_string())), "bass");
    assert_eq!(validate_stem_type(Some("guitar".to_string())), "all");
    assert_eq!(validate_stem_type(None), "all");
    assert_eq!(validate_f0_method(Some("rmvpe".to_string())), Some("rmvpe"));
    assert_eq!(validate_f0_method(Some("crepe".to_string())), Some("crepe"));
    assert_eq!(validate_f0_method(Some("dio".to_string())), None);
    assert_eq!(validate_f0_method(None), None);
}

#[test]
fn choosing_twice_keeps_the_choice() {
    for s in ["small", "medium", "large", "tiny"] {
        let once = validate_model_size(Some(s.to_string()));
        assert_eq!(validate_model_size(Some(once.to_string())), once);
    }
}

#[test]
fn clamp_keeps_within_bounds() {
    assert_eq!(clamp_i64(100, 1, 30), 30);
    assert_eq!(clamp_i64(-5, 1, 30), 1);
    assert_eq!(clamp_i64(12, 1, 30), 12);
}

#[test]
fn generate_plan_defaults() {
    let t = GenerateTool::new(config());
    let job = t.plan(&args(vec![text("prompt", "dark trap beat")])).unwrap();
    assert_eq!(
        job,
        PythonJob {
            venv: "/studio/.venv".to_string(),
            args: strings(&["/studio/generate-music.py", "dark trap beat", "--duration", "15", "--model", "small"]),
            cwd: "/studio".to_string(),
            timeout_ms: 600000,
        }
    );
}

#[test]
fn generate_plan_clamps_and_names_output() {
    let t = GenerateTool::new(config());
    let a = args(vec![
        text("prompt", "lofi"),
        int_field("duration", 100),
        text("model", "large"),
        text("output_filename", "lofi.wav"),
    ]);
    let job = t.plan(&a).unwrap();
    assert_eq!(
        job.args,
        strings(&["/studio/generate-music.py", "lofi", "--duration", "30", "--model", "large", "--output", "lofi.wav"])
    );
    let low = args(vec![text("prompt", "x"), int_field("duration", -3)]);
    assert_eq!(t.plan(&low).unwrap().args[3], "1");
}

#[test]
fn generate_plan_uses_configured_timeout() {
    let c = Arc::new(Config::from_settings("/studio".to_string(), None, "/out".to_string(), 1234, 5, 6));
    let job = GenerateTool::new(c).plan(&args(vec![text("prompt", "x")])).unwrap();
    assert_eq!(job.timeout_ms, 1234);
}

#[test]
fn generate_plan_refusals() {
    let t = GenerateTool::new(config());
    assert_eq!(t.plan(&args(vec![])), Err(missing_field("prompt")));
    let bad = args(vec![text("prompt", "x"), text("output_filename", "../evil.wav")]);
    assert_eq!(
        t.plan(&bad),
        Err(ToolError::InputValidation(
            "output_filename must be a plain filename (e.g. 'matthew.pth')".to_string()
        ))
    );
    assert_eq!(
        t.plan(&args(vec![text("prompt", "beat\0")])),
        Err(ToolError::InputValidation("prompt contains a null byte".to_string()))
    );
}

#[test]
fn audio_input_accepts_either_key() {
    assert_eq!(audio_input(&args(vec![text("input_file", "/out/a.wav")])), Some("/out/a.wav".to_string()));
    assert_eq!(
        audio_input(&args(vec![text("input_file", "/out/a.wav"), text("input_audio", "/out/b.wav")])),
        Some("/out/b.wav".to_string())
    );
    assert_eq!(audio_input(&args(vec![])), None);
}

#[test]
fn separate_plan_builds_demucs_run() {
    let t = SeparateStemsTool::new(config());
    let a = args(vec![text("input_audio", "/out/beat.wav"), text("stems", "vocals")]);
    let job = t.plan(&a, &existing("/out/beat.wav")).unwrap();
    assert_eq!(
        job,
        PythonJob {
            venv: "/studio/.venv".to_string(),
            args: strings(&[
                "/studio/separate-stems.py", "/out/beat.wav", "--model", "htdemucs", "--stems",
                "vocals", "--output-dir", "/out/stems",
            ]),
            cwd: "/studio".to_string(),
            timeout_ms: 600000,
        }
    );
}

#[test]
fn separate_plan_takes_input_file() {
    let t = SeparateStemsTool::new(config());
    let a = args(vec![text("input_file", "/studio/song.mp3"), text("model", "htdemucs_ft")]);
    let job = t.plan(&a, &existing("/studio/song.mp3")).unwrap();
    assert_eq!(
        job.args,
        strings(&[
            "/studio/separate-stems.py", "/studio/song.mp3", "--model", "htdemucs_ft", "--stems",
            "all", "--output-dir", "/out/stems",
        ])
    );
}

#[test]
fn separate_plan_refuses_outside_paths() {
    let t = SeparateStemsTool::new(config());
    let a = args(vec![text("input_audio", "/etc/passwd")]);
    assert_eq!(
        t.plan(&a, &existing("/etc/passwd")),
        Err(ToolError::InputValidation(
            "Path /etc/passwd resolves outside allowed directories".to_string()
        ))
    );
    assert_eq!(t.plan(&args(vec![]), &existing("/out")), Err(missing_field("input_audio")));
}

#[test]
fn convert_plan_builds_rvc_run() {
    let t = ConvertVoiceTool::new(config());
    let a = args(vec![
        text("input_audio", "/out/stems/htdemucs/beat/vocals.wav"),
        text("model_name", "matthew.pth"),
        int_field("pitch", 2),
    ]);
    let job = t.plan(&a, &existing("/out/stems/htdemucs/beat/vocals.wav"), "0.75").unwrap();
    assert_eq!(
        job,
        PythonJob {
            venv: "/rvc/.venv".to_string(),
            args: strings(&[
                "/rvc/tools/cmd/infer_cli.py", "/out/stems/htdemucs/beat/vocals.wav", "--model",
                "/rvc/assets/weights/matthew.pth", "--pitch", "2", "--index-rate", "0.75",
                "--output-dir", "/out/converted",
            ]),
            cwd: "/rvc".to_string(),
            timeout_ms: 300000,
        }
    );
    let high = args(vec![text("input_audio", "/out/a.wav"), text("model_name", "m.pth"), int_field("pitch", -99)]);
    assert_eq!(t.plan(&high, &existing("/out/a.wav"), "1").unwrap().args[5], "-24");
}

#[test]
fn convert_plan_takes_input_file_and_f0_method() {
    let t = ConvertVoiceTool::new(config());
    let a = args(vec![
        text("input_file", "/out/stems/htdemucs/beat/vocals.wav"),
        text("model_name", "matthew.pth"),
        int_field("pitch", 2),
        text("f0_method", "rmvpe"),
    ]);
    let job = t.plan(&a, &existing("/out/stems/htdemucs/beat/vocals.wav"), "0.75").unwrap();
    assert_eq!(
        job.args,
        strings(&[
            "/rvc/tools/cmd/infer_cli.py", "/out/stems/htdemucs/beat/vocals.wav", "--model",
            "/rvc/assets/weights/matthew.pth", "--pitch", "2", "--index-rate", "0.75",
            "--output-dir", "/out/converted", "--f0-method", "rmvpe",
        ])
    );
    let unknown = args(vec![text("input_file", "/out/a.wav"), text("model_name", "m.pth"), text("f0_method", "dio")]);
    assert_eq!(t.plan(&unknown, &existing("/out/a.wav"), "0.75").unwrap().args.len(), 10);
}

#[test]
fn convert_plan_refusals_in_order() {
    let t = ConvertVoiceTool::new(config());
    assert_eq!(
        t.plan(&args(vec![text("model_name", "m.pth")]), &existing("/out"), "0.75"),
        Err(missing_field("input_audio"))
    );
    assert_eq!(
        t.plan(&args(vec![text("input_audio", "/out/a.wav")]), &existing("/out/a.wav"), "0.75"),
        Err(missing_field("model_name"))
    );
    let bad = args(vec![text("input_audio", "/out/a.wav"), text("model_name", "x/y.pth")]);
    assert_eq!(
        t.plan(&bad, &existing("/out/a.wav"), "0.75"),
        Err(ToolError::InputValidation(
            "model_name must be a plain filename (e.g. 'matthew.pth')".to_string()
        ))
    );
}

#[test]
fn convert_plan_needs_rvc() {
    let t = ConvertVoiceTool::new(config_without_rvc());
    let a = args(vec![text("input_audio", "/out/a.wav"), text("model_name", "m.pth")]);
    assert_eq!(
        t.plan(&a, &existing("/out/a.wav"), "0.75"),
        Err(ToolError::Config("RVC_DIR is not set; voice conversion is unavailable".to_string()))
    );
}

#[test]
fn listing_tools_pick_directories() {
    let t = ListFilesTool::new(config());
    assert_eq!(t.directory(&args(vec![])), Ok("/out"));
    assert_eq!(t.directory(&args(vec![text("subdirectory", "")])), Ok("/out"));
    assert_eq!(t.directory(&args(vec![text("subdirectory", "stems")])), Ok("/out/stems"));
    assert_eq!(t.directory(&args(vec![text("subdirectory", "converted")])), Ok("/out/converted"));
    assert_eq!(
        t.directory(&args(vec![text("subdirectory", "etc")])),
        Err(ToolError::InputValidation(
            "subdirectory must be 'stems', 'converted', or empty".to_string()
        ))
    );
}

#[test]
fn stems_listing_browses_model_and_track() {
    let t = ListStemsTool::new(config());
    assert_eq!(t.directory(&args(vec![])), Ok("/out/stems".to_string()));
    assert_eq!(t.directory(&args(vec![text("model", "htdemucs_ft")])), Ok("/out/stems/htdemucs_ft".to_string()));
    assert_eq!(t.directory(&args(vec![text("track", "beat")])), Ok("/out/stems/htdemucs/beat".to_string()));
    assert_eq!(
        t.directory(&args(vec![text("model", "htdemucs_ft"), text("track", "beat")])),
        Ok("/out/stems/htdemucs_ft/beat".to_string())
    );
    assert_eq!(
        t.directory(&args(vec![text("track", "../etc")])),
        Err(ToolError::InputValidation("track must be a plain filename (e.g. 'matthew.pth')".to_string()))
    );
}

#[test]
fn voice_model_directories() {
    let t = ListVoiceModelsTool::new(config());
    assert_eq!(t.models_dir(), Ok("/rvc/assets/weights"));
    assert_eq!(t.index_dir_of("matthew.pth"), Ok("/rvc/logs/matthew".to_string()));
    assert_eq!(t.index_dir_of("raw"), Ok("/rvc/logs/raw".to_string()));
    let none = ListVoiceModelsTool::new(config_without_rvc());
    let refused = || ToolError::Config("RVC_DIR is not set; voice conversion is unavailable".to_string());
    assert_eq!(none.models_dir(), Err(refused()));
    assert_eq!(none.index_dir_of("matthew.pth"), Err(refused()));
}

#[test]
fn info_target_and_reply() {
    let t = GetInfoTool::new(config());
    let a = args(vec![text("file_path", "/out/beat.wav")]);
    assert_eq!(t.target(&a, &existing("/out/beat.wav")), Ok("/out/beat.wav".to_string()));
    assert_eq!(t.target(&args(vec![]), &existing("/out")), Err(missing_field("file_path")));
    let meta = "codec_name=mp3\nsample_rate=44100\nchannels=2\nduration=12.500000\nbit_rate=128000\n";
    assert_eq!(
        info_reply("/out/beat.wav", Ok(2048), Ok(meta.to_string())),
        ToolReply::Json(vec![
            str_field("file", "/out/beat.wav"),
            ("size_bytes".to_string(), JsonValue::Num(2048)),
            str_field("duration", "12.500000"),
            str_field("sample_rate", "44100"),
            str_field("channels", "2"),
            str_field("codec", "mp3"),
            str_field("bitrate", "128000"),
        ])
    );
    assert_eq!(
        info_reply("/out/beat.wav", Ok(10), Ok("duration=N/A\n".to_string())),
        ToolReply::Json(vec![
            str_field("file", "/out/beat.wav"),
            ("size_bytes".to_string(), JsonValue::Num(10)),
            str_field("duration", "N/A"),
        ])
    );
    assert_eq!(
        info_reply("/out/beat.wav", Ok(10), Err("ffprobe not found".to_string())),
        ToolReply::Json(vec![
            str_field("file", "/out/beat.wav"),
            ("size_bytes".to_string(), JsonValue::Num(10)),
            str_field("metadata_error", "ffprobe not found"),
        ])
    );
    assert_eq!(
        info_reply("/out/beat.wav", Err("denied".to_string()), Ok(String::new())),
        ToolReply::Error("Error reading file: denied".to_string())
    );
}

#[test]
fn metadata_command_asks_for_audio_fields() {
    assert_eq!(
        metadata_command("/out/beat.wav"),
        strings(&[
            "-v", "error", "-select_streams", "a:0", "-show_entries",
            "stream=codec_name,sample_rate,channels:format=duration,bit_rate", "-of",
            "default=noprint_wrappers=1", "/out/beat.wav",
        ])
    );
}

#[test]
fn python_binary_joins_paths() {
    assert_eq!(python_binary_path("/studio/.venv"), "/studio/.venv/bin/python");
    assert_eq!(python_binary_path("/studio/.venv/"), "/studio/.venv/bin/python");
    assert_eq!(python_binary_path(""), "bin/python");
}

fn job(venv: &str, args: &[&str], cwd: &str) -> PythonJob {
    PythonJob { venv: venv.to_string(), args: strings(args), cwd: cwd.to_string(), timeout_ms: 600000 }
}

#[test]
fn launch_checks_in_order() {
    let ok = job("/v", &["s.py", "x"], "/w");
    assert_eq!(check_python_launch(&ok, true, true), Ok(()));
    assert_eq!(
        check_python_launch(&job("/v/../x", &[], "/w"), false, false),
        Err("Venv path contains traversal sequence".to_string())
    );
    assert_eq!(
        check_python_launch(&ok, false, false),
        Err("Python binary not found in the configured environment".to_string())
    );
    assert_eq!(
        check_python_launch(&ok, true, false),
        Err("Working directory does not exist".to_string())
    );
    assert_eq!(
        check_python_launch(&job("/v", &["s.py", "a..b", "../c"], "/w"), true, true),
        Err("Argument contains path traversal: a..b".to_string())
    );
}

#[test]
fn run_outcome_reads_exit() {
    assert_eq!(run_outcome(true, Some(0), "out".into(), "".into()), Ok("out".to_string()));
    assert_eq!(
        run_outcome(true, Some(0), "out".into(), "warn".into()),
        Ok("out\n\nWarnings:\nwarn".to_string())
    );
    assert_eq!(
        run_outcome(false, Some(2), "".into(), "boom".into()),
        Err("Exit 2: boom".to_string())
    );
    assert_eq!(
        run_outcome(false, None, "partial".into(), "boom".into()),
        Err("Exit -1: partial".to_string())
    );
    assert_eq!(timed_out_outcome(600000), Err("Timed out after 600000ms".to_string()));
}

#[test]
fn run_reply_wraps_output() {
    assert_eq!(
        run_reply(Ok("done".to_string())),
        ToolReply::Json(vec![str_field("status", "success"), str_field("output", "done")])
    );
    assert_eq!(run_reply(Err("Exit 1: x".to_string())), ToolReply::Error("Error: Exit 1: x".to_string()));
}

#[test]
fn error_replies_are_redacted() {
    assert_eq!(
        run_reply(Err("Exit 1: failed at /usr/local/bin/tool: bad".to_string())),
        ToolReply::Error("Error: Exit 1: failed at [PATH]: bad".to_string())
    );
    let token = "k".repeat(50);
    assert_eq!(redact(&format!("key is {token}")), "key is [REDACTED]");
    assert_eq!(redact("caf\u{e9}  ok\n"), "caf\u{e9} ok");
    let long_accented = format!("{} \u{e9}t\u{e9}", "word ".repeat(70));
    let shown = redact(&long_accented);
    assert!(shown.is_ascii());
    assert!(shown.ends_with("..."));
    let long = "word ".repeat(100);
    let expected = format!("Error: {}wor...", "word ".repeat(58));
    assert_eq!(run_reply(Err(long)), ToolReply::Error(expected));
}

#[test]
fn listing_texts() {
    assert_eq!(listing_text("/out", Ok(vec![])), "No files in /out");
    assert_eq!(
        listing_text("/out", Ok(strings(&["a.wav", "stems"]))),
        "Files in /out (2):\na.wav\nstems"
    );
    assert_eq!(listing_text("/out", Err("denied".to_string())), "Cannot read /out: denied");
    assert_eq!(
        listing_text("/out/stems/htdemucs", Err("denied".to_string())),
        "Cannot read [PATH]: denied"
    );
    assert_eq!(listing_reply("/out", Ok(vec![])), ToolReply::Text("No files in /out".to_string()));
}

#[test]
fn model_files_keep_order() {
    assert_eq!(model_files(&strings(&["b.pth", "a.index", "a.pth", "x.txt"])), strings(&["b.pth", "a.pth"]));
    assert_eq!(model_line_text("a.pth", &strings(&["a.index", "notes.txt"])), "a.pth (index: a.index)");
    assert_eq!(
        model_line_text("a.pth", &strings(&["added.index", "trained.index"])),
        "a.pth (index: added.index, trained.index)"
    );
    assert_eq!(model_line_text("b.pth", &vec![]), "b.pth");
}

#[test]
fn voice_models_listing() {
    let found = vec![
        ("a.pth".to_string(), strings(&["added_a.index", "total.npy"])),
        ("notes.txt".to_string(), vec![]),
        ("b.pth".to_string(), vec![]),
    ];
    assert_eq!(
        voice_models_reply(Ok(found)),
        ToolReply::Text("Voice models (2):\na.pth (index: added_a.index)\nb.pth".to_string())
    );
    assert_eq!(
        voice_models_reply(Ok(vec![("x.index".to_string(), vec![])])),
        ToolReply::Text("No voice models found".to_string())
    );
    assert_eq!(
        voice_models_reply(Err("gone".to_string())),
        ToolReply::Error("Cannot read models dir: gone".to_string())
    );
}
