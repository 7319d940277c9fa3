//! The full pipeline: generate music, separate the saved file into stems with Demucs, then
//! convert the separated vocals with RVC when a voice model is asked for. Each decision is a
//! step from what the previous run reported to the next run or the final answer; the runs
//! themselves happen outside.
use std::sync::Arc;
use vstd::prelude::*;

use crate::args::{first_bad_string, text_arg, ArgView, ToolArgs};
use crate::config::Config;
use crate::launch::{dot_dot, JobView, PythonJob};
use crate::reply::{
    fields_view, hides_paths, outcome_view, redacted, redacted_join, rvc_missing_message, text_field,
    ErrorView, JsonValue, JsonView, ReplyView, ToolError, ToolReply,
};
use crate::text::{
    contains_char, contains_seq, contains_text, file_name, file_name_text, find_first_line_with,
    first_line_with, name_stem, name_stem_text, remove_all, remove_all_text, trim, trim_text,
};
use crate::tools::{
    conversion_job, conversion_run, demucs_job, demucs_run, missing, musicgen_args,
    musicgen_arguments, musicgen_job, plan_view, rvc_available,
};

verus! {

/// What comes after a run of the pipeline: the final answer; the stem separation of the saved
/// file, with the reply fields gathered so far; or the voice conversion of its vocals, with
/// the reply fields gathered so far.
#[derive(Debug, PartialEq, Eq)]
pub enum PipelineStep {
    Finish(ToolReply),
    Separate { job: PythonJob, saved: String, fields: Vec<(String, JsonValue)> },
    Convert { job: PythonJob, fields: Vec<(String, JsonValue)> },
}

/// The mathematical meaning of a [`PipelineStep`].
pub enum StepView {
    Finish(ReplyView),
    Separate { job: JobView, saved: Seq<char>, fields: Seq<(Seq<char>, JsonView)> },
    Convert { job: JobView, fields: Seq<(Seq<char>, JsonView)> },
}

impl View for PipelineStep {
    type V = StepView;

    open spec fn view(&self) -> StepView {
        match self {
            PipelineStep::Finish(r) => StepView::Finish(r@),
            PipelineStep::Separate { job, saved, fields } => StepView::Separate {
                job: job@,
                saved: saved@,
                fields: fields_view(fields@),
            },
            PipelineStep::Convert { job, fields } => StepView::Convert {
                job: job@,
                fields: fields_view(fields@),
            },
        }
    }
}

/// The marker that the generation script prints before the path of the file it saved.
pub open spec fn saved_marker() -> Seq<char> {
    "Saved:"@
}

/// The path of the saved file, read from the generation output: the first line that holds
/// the marker, without any copy of the marker and without surrounding white space. (A `'\r'`
/// that ends the line is white space, so it is trimmed as well.)
pub open spec fn saved_path(out: Seq<char>) -> Option<Seq<char>> {
    match first_line_with(out, saved_marker()) {
        Some(line) => Some(trim(remove_all(line, saved_marker()))),
        None => None,
    }
}

/// A voice model name with no separator of either kind and no `..`.
pub open spec fn is_separator_free(name: Seq<char>) -> bool {
    &&& !name.contains('/')
    &&& !name.contains('\\')
    &&& !contains_seq(name, dot_dot())
}

/// The Demucs model the pipeline separates with.
pub open spec fn pipeline_demucs_model() -> Seq<char> {
    "htdemucs"@
}

/// Where Demucs puts the vocals of the saved file `saved`: the folder of the model, then the
/// folder named by the stem of the file name.
pub open spec fn vocals_path(c: Config, saved: Seq<char>) -> Seq<char> {
    c.stems_dir@ + "/"@ + pipeline_demucs_model() + "/"@ + name_stem(file_name(saved))
        + "/vocals.wav"@
}

/// The generation run that the arguments ask for.
pub open spec fn spec_pipeline_generate(c: Config, a: Seq<(Seq<char>, ArgView)>) -> Result<
    JobView,
    ErrorView,
> {
    match first_bad_string(a) {
        Some(m) => Err(ErrorView::Input(m)),
        None => match text_arg(a, "prompt"@) {
            None => Err(missing("prompt"@)),
            Some(prompt) => Ok(musicgen_job(c, musicgen_args(c, a, prompt))),
        },
    }
}

/// The step after the generation run: on failure the error answer; on success its output,
/// followed by the stem separation of the saved file when the output names one.
pub open spec fn spec_after_generate(c: Config, generated: Result<Seq<char>, Seq<char>>) -> StepView {
    match generated {
        Err(e) => StepView::Finish(ReplyView::Error(redacted("Generation failed: "@ + e))),
        Ok(out) => {
            let fields = seq![
                ("step1_generate"@, JsonView::Str("success"@)),
                ("output"@, JsonView::Str(out)),
            ];
            match saved_path(out) {
                None => StepView::Finish(ReplyView::Json(fields)),
                Some(path) => StepView::Separate {
                    job: demucs_job(c, path, pipeline_demucs_model(), "all"@),
                    saved: path,
                    fields: fields,
                },
            }
        },
    }
}

/// The field that reports a step's outcome as `error: ...`.
pub open spec fn step_error(key: Seq<char>, detail: Seq<char>) -> (Seq<char>, JsonView) {
    (key, JsonView::Str(redacted("error: "@ + detail)))
}

/// The step after the stem separation of `saved`: on failure the answer with the error; on
/// success its output, followed by the voice conversion of the separated vocals when a voice
/// model is asked for, or by the refusal of a voice model that is not a plain file name or of
/// a conversion while RVC is not configured.
pub open spec fn spec_after_separate(
    c: Config,
    a: Seq<(Seq<char>, ArgView)>,
    saved: Seq<char>,
    fields: Seq<(Seq<char>, JsonView)>,
    separated: Result<Seq<char>, Seq<char>>,
    index_rate: Seq<char>,
) -> StepView {
    match separated {
        Err(e) => StepView::Finish(
            ReplyView::Json(fields.push(step_error("step2_separate_stems"@, e))),
        ),
        Ok(out) => {
            let gathered = fields + seq![
                ("step2_separate_stems"@, JsonView::Str("success"@)),
                ("separate_output"@, JsonView::Str(out)),
            ];
            match text_arg(a, "voice_model"@) {
                None => StepView::Finish(ReplyView::Json(gathered)),
                Some(vm) => if !is_separator_free(vm) {
                    StepView::Finish(
                        ReplyView::Json(
                            gathered.push(
                                (
                                    "step3_voice_convert"@,
                                    JsonView::Str("error: voice_model must be a plain filename"@),
                                ),
                            ),
                        ),
                    )
                } else if !rvc_available(c) {
                    StepView::Finish(
                        ReplyView::Json(
                            gathered.push(
                                (
                                    "step3_voice_convert"@,
                                    JsonView::Str("error: "@ + rvc_missing_message()),
                                ),
                            ),
                        ),
                    )
                } else {
                    StepView::Convert {
                        job: conversion_job(c, a, vocals_path(c, saved), vm, index_rate),
                        fields: gathered,
                    }
                },
            }
        },
    }
}

/// The answer after the voice conversion run: the fields gathered so far, followed by the
/// conversion's output or failure.
pub open spec fn spec_after_convert(
    fields: Seq<(Seq<char>, JsonView)>,
    converted: Result<Seq<char>, Seq<char>>,
) -> ReplyView {
    match converted {
        Ok(out) => ReplyView::Json(
            fields + seq![
                ("step3_voice_convert"@, JsonView::Str("success"@)),
                ("convert_output"@, JsonView::Str(out)),
            ],
        ),
        Err(e) => ReplyView::Json(fields.push(step_error("step3_voice_convert"@, e))),
    }
}

/// The path of the saved file named by the generation output, if any.
pub fn find_saved_path(out: &str) -> (r: Option<String>)
    ensures
        match r {
            Some(p) => saved_path(out@) == Some(p@),
            None => saved_path(out@) is None,
        },
{
    match find_first_line_with(out, "Saved:") {
        Some(line) => {
            let removed = remove_all_text(line, "Saved:");
            let trimmed = trim_text(removed.as_str());
            Some(String::from_str(trimmed))
        },
        None => None,
    }
}

/// Where Demucs puts the vocals of the saved file `saved`.
pub fn vocals_path_text(c: &Config, saved: &str) -> (p: String)
    ensures
        p@ == vocals_path(*c, saved@),
{
    let mut p = c.stems_dir.clone();
    p.append("/");
    p.append("htdemucs");
    p.append("/");
    let stem = name_stem_text(file_name_text(saved));
    p.append(stem);
    p.append("/vocals.wav");
    p
}

/// Runs generation, stem separation and voice conversion end to end.
pub struct FullPipelineTool {
    config: Arc<Config>,
}

impl FullPipelineTool {
    /// The configuration the tool works with.
    pub closed spec fn config(&self) -> Config {
        *self.config
    }

    pub fn new(config: Arc<Config>) -> (t: Self)
        ensures
            t.config() == *config,
    {
        FullPipelineTool { config }
    }

    /// The generation run that the arguments ask for, or why they are refused.
    pub fn generate_job(&self, args: &ToolArgs) -> (r: Result<PythonJob, ToolError>)
        ensures
            plan_view(r) == spec_pipeline_generate(self.config(), args@),
    {
        let c = &*self.config;
        match args.check_strings() {
            Ok(()) => {},
            Err(e) => return Err(e),
        }
        let prompt = match args.require_string("prompt") {
            Ok(p) => p,
            Err(e) => return Err(e),
        };
        let cmd = musicgen_arguments(c, args, prompt);
        Ok(
            PythonJob {
                venv: c.musicgen_venv.clone(),
                args: cmd,
                cwd: c.music_studio_dir.clone(),
                timeout_ms: c.generate_timeout_ms,
            },
        )
    }

    /// The step after the generation run, given its outcome.
    pub fn after_generate(&self, generated: Result<String, String>) -> (s: PipelineStep)
        ensures
            s@ == spec_after_generate(self.config(), outcome_view(generated)),
            s@ matches StepView::Finish(ReplyView::Error(e)) ==> hides_paths(e),
    {
        let c = &*self.config;
        let out = match generated {
            Err(e) => {
                return PipelineStep::Finish(
                    ToolReply::Error(redacted_join("Generation failed: ", e.as_str())),
                );
            },
            Ok(out) => out,
        };
        let ghost out_view = out@;
        let saved = find_saved_path(out.as_str());
        let mut fields: Vec<(String, JsonValue)> = Vec::new();
        fields.push(text_field("step1_generate", String::from_str("success")));
        fields.push(text_field("output", out));
        assert(fields_view(fields@) =~= seq![
            ("step1_generate"@, JsonView::Str("success"@)),
            ("output"@, JsonView::Str(out_view)),
        ]);
        match saved {
            None => PipelineStep::Finish(ToolReply::Json(fields)),
            Some(path) => {
                let job = demucs_run(c, path.clone(), "htdemucs", "all");
                PipelineStep::Separate { job, saved: path, fields }
            },
        }
    }

    /// The step after the stem separation of `saved`, given its outcome and the text of the
    /// feature index ratio for the conversion.
    pub fn after_separate(
        &self,
        args: &ToolArgs,
        saved: &str,
        fields: Vec<(String, JsonValue)>,
        separated: Result<String, String>,
        index_rate: &str,
    ) -> (s: PipelineStep)
        ensures
            s@ == spec_after_separate(
                self.config(),
                args@,
                saved@,
                fields_view(fields@),
                outcome_view(separated),
                index_rate@,
            ),
            separated is Err ==> (s@ matches StepView::Finish(ReplyView::Json(f)) && (
            f.last().1 matches JsonView::Str(t) && hides_paths(t))),
    {
        let c = &*self.config;
        let mut fields = fields;
        let ghost before = fields_view(fields@);
        let out = match separated {
            Err(e) => {
                let shown = redacted_join("error: ", e.as_str());
                fields.push(text_field("step2_separate_stems", shown));
                assert(fields_view(fields@) =~= before.push(
                    step_error("step2_separate_stems"@, outcome_view(separated)->Err_0),
                ));
                return PipelineStep::Finish(ToolReply::Json(fields));
            },
            Ok(out) => out,
        };
        let ghost out_view = out@;
        fields.push(text_field("step2_separate_stems", String::from_str("success")));
        fields.push(text_field("separate_output", out));
        let ghost gathered = fields_view(fields@);
        assert(gathered =~= before + seq![
            ("step2_separate_stems"@, JsonView::Str("success"@)),
            ("separate_output"@, JsonView::Str(out_view)),
        ]);
        let vm = match args.optional_string("voice_model") {
            None => return PipelineStep::Finish(ToolReply::Json(fields)),
            Some(vm) => vm,
        };
        proof {
            reveal_strlit("..");
            assert(".."@ =~= dot_dot());
        }
        if contains_char(vm.as_str(), '/') || contains_char(vm.as_str(), '\\') || contains_text(
            vm.as_str(),
            "..",
        ) {
            fields.push(
                text_field(
                    "step3_voice_convert",
                    String::from_str("error: voice_model must be a plain filename"),
                ),
            );
            assert(fields_view(fields@) =~= gathered.push(
                (
                    "step3_voice_convert"@,
                    JsonView::Str("error: voice_model must be a plain filename"@),
                ),
            ));
            return PipelineStep::Finish(ToolReply::Json(fields));
        }
        if c.rvc_venv.is_none() || c.rvc_infer_script.is_none() || c.rvc_weights_dir.is_none() {
            let mut m = String::from_str("error: ");
            m.append("RVC_DIR is not set; voice conversion is unavailable");
            fields.push(text_field("step3_voice_convert", m));
            assert(fields_view(fields@) =~= gathered.push(
                ("step3_voice_convert"@, JsonView::Str("error: "@ + rvc_missing_message())),
            ));
            return PipelineStep::Finish(ToolReply::Json(fields));
        }
        let vocals = vocals_path_text(c, saved);
        let job = conversion_run(c, args, vocals, vm.as_str(), index_rate);
        PipelineStep::Convert { job, fields }
    }

    /// The answer after the voice conversion run, given the fields gathered so far and the
    /// run's outcome.
    pub fn after_convert(fields: Vec<(String, JsonValue)>, converted: Result<String, String>) -> (r:
        ToolReply)
        ensures
            r@ == spec_after_convert(fields_view(fields@), outcome_view(converted)),
            converted is Err ==> (r@ matches ReplyView::Json(f) && (f.last().1 matches JsonView::Str(t)
                && hides_paths(t))),
    {
        let mut fields = fields;
        let ghost before = fields_view(fields@);
        match converted {
            Ok(out) => {
                fields.push(text_field("step3_voice_convert", String::from_str("success")));
                fields.push(text_field("convert_output", out));
                assert(fields_view(fields@) =~= before + seq![
                    ("step3_voice_convert"@, JsonView::Str("success"@)),
                    ("convert_output"@, JsonView::Str(outcome_view(converted)->Ok_0)),
                ]);
            },
            Err(e) => {
                let shown = redacted_join("error: ", e.as_str());
                fields.push(text_field("step3_voice_convert", shown));
                assert(fields_view(fields@) =~= before.push(
                    step_error("step3_voice_convert"@, outcome_view(converted)->Err_0),
                ));
            },
        }
        ToolReply::Json(fields)
    }
}

} // verus!
