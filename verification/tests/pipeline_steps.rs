use std::sync::Arc;

use ai_music_mcp::args::{ArgValue, ToolArgs};
use ai_music_mcp::config::Config;
use ai_music_mcp::launch::PythonJob;
use ai_music_mcp::pipeline::{find_saved_path, vocals_path_text, FullPipelineTool, PipelineStep};
use ai_music_mcp::reply::{JsonValue, ToolError, ToolReply};

fn config() -> Config {
    Config::from_settings("/studio".to_string(), Some("/rvc".to_string()), "/out".to_string(), 600000, 600000, 300000)
}

fn tool() -> FullPipelineTool {
    FullPipelineTool::new(Arc::new(config()))
}

fn tool_without_rvc() -> FullPipelineTool {
    FullPipelineTool::new(Arc::new(Config::from_settings(
        "/studio".to_string(),
        None,
        "/out".to_string(),
        600000,
        600000,
        300000,
    )))
}

fn text(k: &str, v: &str) -> (String, ArgValue) {
    (k.to_string(), ArgValue::Text(v.to_string()))
}

fn field(k: &str, v: &str) -> (String, JsonValue) {
    (k.to_string(), JsonValue::Str(v.to_string()))
}

fn strings(v: &[&str]) -> Vec<String> {
    v.iter().map(|s| s.to_string()).collect()
}

fn generated(out: &str) -> Vec<(String, JsonValue)> {
    vec![field("step1_generate", "success"), field("output", out)]
}

fn separated(out: &str, sep: &str) -> Vec<(String, JsonValue)> {
    let mut f = generated(out);
    f.push(field("step2_separate_stems", "success"));
    f.push(field("separate_output", sep));
    f
}

#[test]
fn pipeline_generation_job() {
    let t = tool();
    let a = ToolArgs { fields: vec![text("prompt", "lo-fi"), ("duration".to_string(), ArgValue::Int(45))] };
    let job = t.generate_job(&a).unwrap();
    assert_eq!(
        job.args,
        strings(&["/studio/generate-music.py", "lo-fi", "--duration", "30", "--model", "small"])
    );
    assert_eq!(job.timeout_ms, 600000);
    assert_eq!(
        t.generate_job(&ToolArgs { fields: vec![] }),
        Err(ToolError::InputValidation("missing required field: prompt".to_string()))
    );
    assert_eq!(
        t.generate_job(&ToolArgs { fields: vec![text("prompt", "x"), text("voice_model", "m\0")] }),
        Err(ToolError::InputValidation("voice_model contains a null byte".to_string()))
    );
}

#[test]
fn pipeline_generation_failure() {
    let t = tool();
    assert_eq!(
        t.after_generate(Err("Exit 1: oom".to_string())),
        PipelineStep::Finish(ToolReply::Error("Generation failed: Exit 1: oom".to_string()))
    );
}

#[test]
fn pipeline_without_saved_line_finishes() {
    let t = tool();
    assert_eq!(
        t.after_generate(Ok("nothing saved".to_string())),
        PipelineStep::Finish(ToolReply::Json(generated("nothing saved")))
    );
}

#[test]
fn pipeline_separates_saved_file() {
    let t = tool();
    let out = "Generating...\nSaved:  /out/x.wav \r\nDone";
    assert_eq!(
        t.after_generate(Ok(out.to_string())),
        PipelineStep::Separate {
            job: PythonJob {
                venv: "/studio/.venv".to_string(),
                args: strings(&[
                    "/studio/separate-stems.py", "/out/x.wav", "--model", "htdemucs", "--stems",
                    "all", "--output-dir", "/out/stems",
                ]),
                cwd: "/studio".to_string(),
                timeout_ms: 600000,
            },
            saved: "/out/x.wav".to_string(),
            fields: generated(out),
        }
    );
}

#[test]
fn pipeline_separation_failure_finishes() {
    let t = tool();
    let a = ToolArgs { fields: vec![text("prompt", "x"), text("voice_model", "m.pth")] };
    let mut expected = generated("o");
    expected.push(field("step2_separate_stems", "error: Exit 1: demucs crashed"));
    assert_eq!(
        t.after_separate(&a, "/out/x.wav", generated("o"), Err("Exit 1: demucs crashed".to_string()), "0.75"),
        PipelineStep::Finish(ToolReply::Json(expected))
    );
}

#[test]
fn pipeline_without_voice_model_finishes() {
    let t = tool();
    let a = ToolArgs { fields: vec![text("prompt", "x")] };
    assert_eq!(
        t.after_separate(&a, "/out/x.wav", generated("o"), Ok("stems done".to_string()), "0.75"),
        PipelineStep::Finish(ToolReply::Json(separated("o", "stems done")))
    );
}

#[test]
fn pipeline_refuses_voice_model_with_separator() {
    let t = tool();
    let a = ToolArgs { fields: vec![text("prompt", "x"), text("voice_model", "../m.pth")] };
    let mut expected = separated("o", "s");
    expected.push(field("step3_voice_convert", "error: voice_model must be a plain filename"));
    assert_eq!(
        t.after_separate(&a, "/out/x.wav", generated("o"), Ok("s".to_string()), "0.75"),
        PipelineStep::Finish(ToolReply::Json(expected))
    );
}

#[test]
fn pipeline_without_rvc_reports_it() {
    let t = tool_without_rvc();
    let a = ToolArgs { fields: vec![text("prompt", "x"), text("voice_model", "m.pth")] };
    let mut expected = separated("o", "s");
    expected.push(field("step3_voice_convert", "error: RVC_DIR is not set; voice conversion is unavailable"));
    assert_eq!(
        t.after_separate(&a, "/out/x.wav", generated("o"), Ok("s".to_string()), "0.75"),
        PipelineStep::Finish(ToolReply::Json(expected))
    );
}

#[test]
fn pipeline_converts_separated_vocals() {
    let t = tool();
    let a = ToolArgs {
        fields: vec![
            text("prompt", "x"),
            text("voice_model", "matthew.pth"),
            ("pitch".to_string(), ArgValue::Int(30)),
            text("f0_method", "harvest"),
        ],
    };
    let step = t.after_separate(&a, "/out/my.song.wav", generated("o"), Ok("s".to_string()), "0.5");
    assert_eq!(
        step,
        PipelineStep::Convert {
            job: PythonJob {
                venv: "/rvc/.venv".to_string(),
                args: strings(&[
                    "/rvc/tools/cmd/infer_cli.py", "/out/stems/htdemucs/my.song/vocals.wav", "--model",
                    "/rvc/assets/weights/matthew.pth", "--pitch", "24", "--index-rate", "0.5",
                    "--output-dir", "/out/converted", "--f0-method", "harvest",
                ]),
                cwd: "/rvc".to_string(),
                timeout_ms: 300000,
            },
            fields: separated("o", "s"),
        }
    );
}

#[test]
fn vocals_path_follows_demucs_layout() {
    let c = config();
    assert_eq!(vocals_path_text(&c, "/out/beat.wav"), "/out/stems/htdemucs/beat/vocals.wav");
    assert_eq!(vocals_path_text(&c, "beat"), "/out/stems/htdemucs/beat/vocals.wav");
}

#[test]
fn pipeline_conversion_outcomes() {
    let gathered = || separated("o", "s");
    let mut ok = gathered();
    ok.push(field("step3_voice_convert", "success"));
    ok.push(field("convert_output", "converted!"));
    assert_eq!(FullPipelineTool::after_convert(gathered(), Ok("converted!".to_string())), ToolReply::Json(ok));
    let mut failed = gathered();
    failed.push(field("step3_voice_convert", "error: Exit 1: bad"));
    assert_eq!(
        FullPipelineTool::after_convert(gathered(), Err("Exit 1: bad".to_string())),
        ToolReply::Json(failed)
    );
}

#[test]
fn saved_path_matches_lines_replace_trim() {
    for out in [
        "Saved: /out/a.wav",
        "log\nSaved:/out/b.wav\nSaved: /out/c.wav",
        "x\r\n  Saved:\t/out/d.wav  \r\n",
        "no marker",
        "SaSaved:ved: weird",
    ] {
        let expected = out
            .lines()
            .find(|l| l.contains("Saved:"))
            .map(|l| l.replace("Saved:", "").trim().to_string());
        assert_eq!(find_saved_path(out), expected, "output {:?}", out);
    }
}
