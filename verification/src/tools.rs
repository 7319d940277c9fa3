//! The tools other than the full pipeline: what each one runs or reads, decided from its
//! arguments and configuration.
use std::sync::Arc;
use vstd::prelude::*;

use crate::args::{
    clamp, clamp_i64, first_bad_string, int_arg, missing_field_message, spec_demucs_model,
    spec_f0_method, spec_model_size, spec_stem_type, text_arg, validate_demucs_model,
    validate_f0_method, validate_model_size, validate_stem_type, ArgView, ToolArgs,
};
use crate::config::Config;
use crate::launch::{JobView, PythonJob};
use crate::paths::{
    check_user_path, is_plain_filename, opt_text, spec_user_path, validate_filename, PathProbe,
    ProbeView,
};
use crate::reply::{
    fields_view, hides_paths, is_model_file, redacted, redacted_join, rvc_missing, rvc_missing_message,
    text_field, texts, ErrorView, JsonValue, JsonView, ReplyView, ToolError, ToolReply,
};
use crate::text::{ends_with_text, entry_value, find_entry_value, same_text, signed_decimal, signed_decimal_text};

verus! {

/// The view of a planned run, or of the refusal of the call.
pub open spec fn plan_view(r: Result<PythonJob, ToolError>) -> Result<JobView, ErrorView> {
    match r {
        Ok(j) => Ok(j@),
        Err(e) => Err(e@),
    }
}

/// The refusal of a file name argument that is not a plain file name.
pub open spec fn not_plain(label: Seq<char>) -> ErrorView {
    ErrorView::Input(label + " must be a plain filename (e.g. 'matthew.pth')"@)
}

/// The refusal of a call whose required field `field` is missing or not a string.
pub open spec fn missing(field: Seq<char>) -> ErrorView {
    ErrorView::Input(missing_field_message(field))
}

/// The input audio path: the `input_audio` field, or else the `input_file` field.
pub open spec fn audio_arg(a: Seq<(Seq<char>, ArgView)>) -> Option<Seq<char>> {
    match text_arg(a, "input_audio"@) {
        Some(s) => Some(s),
        None => text_arg(a, "input_file"@),
    }
}

/// The input audio path the arguments name, if any.
pub fn audio_input(args: &ToolArgs) -> (r: Option<String>)
    ensures
        opt_text(r) == audio_arg(args@),
{
    match args.optional_string("input_audio") {
        Some(s) => Some(s),
        None => args.optional_string("input_file"),
    }
}

/// The input audio path the arguments name, or the refusal of the call.
fn required_audio(args: &ToolArgs) -> (r: Result<String, ToolError>)
    ensures
        match r {
            Ok(s) => audio_arg(args@) == Some(s@),
            Err(e) => audio_arg(args@) is None && e@ == missing("input_audio"@),
        },
{
    match audio_input(args) {
        Some(s) => Ok(s),
        None => {
            let mut m = String::from_str("missing required field: ");
            m.append("input_audio");
            Err(ToolError::InputValidation(m))
        },
    }
}

/// The clip length in seconds asked for, within `1..=30`, `15` when not given, as text.
pub open spec fn duration_text(a: Seq<(Seq<char>, ArgView)>) -> Seq<char> {
    let d: int = match int_arg(a, "duration"@) {
        Some(d) => d as int,
        None => 15,
    };
    signed_decimal(clamp(d, 1, 30))
}

/// The pitch shift in semitones asked for, within `-24..=24`, `0` when not given, as text.
pub open spec fn pitch_text(a: Seq<(Seq<char>, ArgView)>) -> Seq<char> {
    let p: int = match int_arg(a, "pitch"@) {
        Some(p) => p as int,
        None => 0,
    };
    signed_decimal(clamp(p, -24, 24))
}

/// The text of the integer field `field`, clamped into `lo..=hi`, `default` when not given.
pub fn clamped_int_text(args: &ToolArgs, field: &str, default: i64, lo: i64, hi: i64) -> (s: String)
    requires
        lo <= hi,
    ensures
        s@ == signed_decimal(
            clamp(
                match int_arg(args@, field@) {
                    Some(v) => v as int,
                    None => default as int,
                },
                lo as int,
                hi as int,
            ),
        ),
{
    let v = match args.optional_i64(field) {
        Some(v) => v,
        None => default,
    };
    signed_decimal_text(clamp_i64(v, lo, hi))
}

/// A MusicGen run with the interpreter arguments `args`.
pub open spec fn musicgen_job(c: Config, args: Seq<Seq<char>>) -> JobView {
    JobView {
        venv: c.musicgen_venv@,
        args: args,
        cwd: c.music_studio_dir@,
        timeout_ms: c.generate_timeout_ms,
    }
}

/// The MusicGen arguments for `prompt` and the clip length and model size asked for.
pub open spec fn musicgen_args(c: Config, a: Seq<(Seq<char>, ArgView)>, prompt: Seq<char>) -> Seq<
    Seq<char>,
> {
    seq![
        c.musicgen_script@,
        prompt,
        "--duration"@,
        duration_text(a),
        "--model"@,
        spec_model_size(text_arg(a, "model"@)),
    ]
}

/// The MusicGen run asked for by the arguments `a`.
pub open spec fn spec_generate_plan(c: Config, a: Seq<(Seq<char>, ArgView)>) -> Result<
    JobView,
    ErrorView,
> {
    match first_bad_string(a) {
        Some(m) => Err(ErrorView::Input(m)),
        None => match text_arg(a, "prompt"@) {
            None => Err(missing("prompt"@)),
            Some(prompt) => match text_arg(a, "output_filename"@) {
                None => Ok(musicgen_job(c, musicgen_args(c, a, prompt))),
                Some(f) => if is_plain_filename(f) {
                    Ok(musicgen_job(c, musicgen_args(c, a, prompt) + seq!["--output"@, f]))
                } else {
                    Err(not_plain("output_filename"@))
                },
            },
        },
    }
}

/// The MusicGen arguments for `prompt`.
pub fn musicgen_arguments(c: &Config, args: &ToolArgs, prompt: String) -> (v: Vec<String>)
    ensures
        texts(v@) == musicgen_args(*c, args@, prompt@),
{
    let duration = clamped_int_text(args, "duration", 15, 1, 30);
    let model = validate_model_size(args.optional_string("model"));
    let mut cmd: Vec<String> = Vec::new();
    cmd.push(c.musicgen_script.clone());
    cmd.push(prompt);
    cmd.push(String::from_str("--duration"));
    cmd.push(duration);
    cmd.push(String::from_str("--model"));
    cmd.push(String::from_str(model));
    assert(texts(cmd@) =~= musicgen_args(*c, args@, prompt@));
    cmd
}

/// Generates instrumental music from a text prompt with MusicGen.
pub struct GenerateTool {
    config: Arc<Config>,
}

impl GenerateTool {
    /// The configuration the tool works with.
    pub closed spec fn config(&self) -> Config {
        *self.config
    }

    pub fn new(config: Arc<Config>) -> (t: Self)
        ensures
            t.config() == *config,
    {
        GenerateTool { config }
    }

    /// The MusicGen run that the arguments ask for, or why they are refused.
    pub fn plan(&self, args: &ToolArgs) -> (r: Result<PythonJob, ToolError>)
        ensures
            plan_view(r) == spec_generate_plan(self.config(), args@),
    {
        let c = &*self.config;
        match args.check_strings() {
            Ok(()) => {},
            Err(e) => return Err(e),
        }
        let prompt = match args.require_string("prompt") {
            Ok(p) => p,
            Err(e) => return Err(e),
        };
        let mut cmd = musicgen_arguments(c, args, prompt);
        let ghost base = texts(cmd@);
        match args.optional_string("output_filename") {
            Some(f) => {
                match validate_filename(f.as_str(), "output_filename") {
                    Ok(()) => {},
                    Err(e) => return Err(e),
                }
                cmd.push(String::from_str("--output"));
                cmd.push(f);
                assert(texts(cmd@) =~= base + seq!["--output"@, cmd@[7]@]);
            },
            None => {},
        }
        let job = PythonJob {
            venv: c.musicgen_venv.clone(),
            args: cmd,
            cwd: c.music_studio_dir.clone(),
            timeout_ms: c.generate_timeout_ms,
        };
        Ok(job)
    }
}

/// A Demucs run that separates `input` with the model `model` into the stems `stems`.
pub open spec fn demucs_job(c: Config, input: Seq<char>, model: Seq<char>, stems: Seq<char>) -> JobView {
    JobView {
        venv: c.musicgen_venv@,
        args: seq![
            c.stems_script@,
            input,
            "--model"@,
            model,
            "--stems"@,
            stems,
            "--output-dir"@,
            c.stems_dir@,
        ],
        cwd: c.music_studio_dir@,
        timeout_ms: c.stems_timeout_ms,
    }
}

/// A Demucs run that separates `input` with the model `model` into the stems `stems`.
pub fn demucs_run(c: &Config, input: String, model: &str, stems: &str) -> (j: PythonJob)
    ensures
        j@ == demucs_job(*c, input@, model@, stems@),
{
    let mut cmd: Vec<String> = Vec::new();
    cmd.push(c.stems_script.clone());
    cmd.push(input);
    cmd.push(String::from_str("--model"));
    cmd.push(String::from_str(model));
    cmd.push(String::from_str("--stems"));
    cmd.push(String::from_str(stems));
    cmd.push(String::from_str("--output-dir"));
    cmd.push(c.stems_dir.clone());
    let job = PythonJob {
        venv: c.musicgen_venv.clone(),
        args: cmd,
        cwd: c.music_studio_dir.clone(),
        timeout_ms: c.stems_timeout_ms,
    };
    assert(job@.args =~= demucs_job(*c, input@, model@, stems@).args);
    job
}

/// The Demucs run asked for by the arguments `a`, given what the file system reported about
/// the input audio path.
pub open spec fn spec_separate_plan(c: Config, a: Seq<(Seq<char>, ArgView)>, probe: ProbeView) -> Result<
    JobView,
    ErrorView,
> {
    match first_bad_string(a) {
        Some(m) => Err(ErrorView::Input(m)),
        None => match audio_arg(a) {
            None => Err(missing("input_audio"@)),
            Some(input) => match spec_user_path(input, c.spec_allowed_bases(), probe) {
                Err(e) => Err(ErrorView::Input(e)),
                Ok(_) => Ok(
                    demucs_job(
                        c,
                        input,
                        spec_demucs_model(text_arg(a, "model"@)),
                        spec_stem_type(text_arg(a, "stems"@)),
                    ),
                ),
            },
        },
    }
}

/// Separates an audio file into stems (vocals, drums, bass, other) with Demucs.
pub struct SeparateStemsTool {
    config: Arc<Config>,
}

impl SeparateStemsTool {
    /// The configuration the tool works with.
    pub closed spec fn config(&self) -> Config {
        *self.config
    }

    pub fn new(config: Arc<Config>) -> (t: Self)
        ensures
            t.config() == *config,
    {
        SeparateStemsTool { config }
    }

    /// The Demucs run that the arguments ask for, or why they are refused, given what the file
    /// system reported about the input audio path.
    pub fn plan(&self, args: &ToolArgs, probe: &PathProbe) -> (r: Result<PythonJob, ToolError>)
        ensures
            plan_view(r) == spec_separate_plan(self.config(), args@, probe@),
    {
        let c = &*self.config;
        match args.check_strings() {
            Ok(()) => {},
            Err(e) => return Err(e),
        }
        let input = match required_audio(args) {
            Ok(p) => p,
            Err(e) => return Err(e),
        };
        let allowed = c.allowed_bases();
        match check_user_path(input.as_str(), &allowed, probe) {
            Ok(_) => {},
            Err(e) => return Err(ToolError::InputValidation(e)),
        }
        let model = validate_demucs_model(args.optional_string("model"));
        let stems = validate_stem_type(args.optional_string("stems"));
        Ok(demucs_run(c, input, model, stems))
    }
}

/// The stems directory browsed by the `model` and `track` arguments: the stems directory
/// itself when neither is given; otherwise the folder of the Demucs model (`htdemucs` when
/// only a track is given), and within it the folder of the track when one is given.
pub open spec fn spec_stems_dir(c: Config, a: Seq<(Seq<char>, ArgView)>) -> Result<
    Seq<char>,
    ErrorView,
> {
    match first_bad_string(a) {
        Some(m) => Err(ErrorView::Input(m)),
        None => {
            let model = text_arg(a, "model"@);
            let track = text_arg(a, "track"@);
            if model is None && track is None {
                Ok(c.stems_dir@)
            } else if model matches Some(m) && !is_plain_filename(m) {
                Err(not_plain("model"@))
            } else if track matches Some(t) && !is_plain_filename(t) {
                Err(not_plain("track"@))
            } else {
                let m = match model {
                    Some(m) => m,
                    None => "htdemucs"@,
                };
                let in_model = c.stems_dir@ + "/"@ + m;
                match track {
                    Some(t) => Ok(in_model + "/"@ + t),
                    None => Ok(in_model),
                }
            }
        },
    }
}

/// `dir` and `name` joined with `/`.
pub fn path_in(dir: &str, name: &str) -> (p: String)
    ensures
        p@ == dir@ + "/"@ + name@,
{
    let mut p = String::from_str(dir);
    p.append("/");
    p.append(name);
    p
}

/// The view of a directory choice, or of the refusal of the call.
pub open spec fn dir_view(r: Result<String, ToolError>) -> Result<Seq<char>, ErrorView> {
    match r {
        Ok(d) => Ok(d@),
        Err(e) => Err(e@),
    }
}

/// Lists the results of stem separation, by Demucs model and track.
pub struct ListStemsTool {
    config: Arc<Config>,
}

impl ListStemsTool {
    /// The configuration the tool works with.
    pub closed spec fn config(&self) -> Config {
        *self.config
    }

    pub fn new(config: Arc<Config>) -> (t: Self)
        ensures
            t.config() == *config,
    {
        ListStemsTool { config }
    }

    /// The directory the arguments ask to list, or why they are refused.
    pub fn directory(&self, args: &ToolArgs) -> (r: Result<String, ToolError>)
        ensures
            dir_view(r) == spec_stems_dir(self.config(), args@),
    {
        let c = &*self.config;
        match args.check_strings() {
            Ok(()) => {},
            Err(e) => return Err(e),
        }
        let model = args.optional_string("model");
        let track = args.optional_string("track");
        if model.is_none() && track.is_none() {
            return Ok(c.stems_dir.clone());
        }
        let m = match model {
            Some(m) => {
                match validate_filename(m.as_str(), "model") {
                    Ok(()) => {},
                    Err(e) => return Err(e),
                }
                m
            },
            None => String::from_str("htdemucs"),
        };
        match track {
            Some(t) => {
                match validate_filename(t.as_str(), "track") {
                    Ok(()) => {},
                    Err(e) => return Err(e),
                }
                let in_model = path_in(c.stems_dir.as_str(), m.as_str());
                Ok(path_in(in_model.as_str(), t.as_str()))
            },
            None => Ok(path_in(c.stems_dir.as_str(), m.as_str())),
        }
    }
}

/// Voice conversion can run: the RVC environment, script and weights directory are set.
pub open spec fn rvc_available(c: Config) -> bool {
    c.rvc_venv is Some && c.rvc_infer_script is Some && c.rvc_weights_dir is Some
}

/// The extra RVC arguments for the pitch estimation method asked for, if it is a known one.
pub open spec fn f0_args(a: Seq<(Seq<char>, ArgView)>) -> Seq<Seq<char>> {
    match spec_f0_method(text_arg(a, "f0_method"@)) {
        Some(m) => seq!["--f0-method"@, m],
        None => Seq::empty(),
    }
}

/// The RVC run that converts `input` with the voice model `model_name`.
pub open spec fn conversion_job(
    c: Config,
    a: Seq<(Seq<char>, ArgView)>,
    input: Seq<char>,
    model_name: Seq<char>,
    index_rate: Seq<char>,
) -> JobView {
    JobView {
        venv: opt_text(c.rvc_venv)->Some_0,
        args: seq![
            opt_text(c.rvc_infer_script)->Some_0,
            input,
            "--model"@,
            opt_text(c.rvc_weights_dir)->Some_0 + "/"@ + model_name,
            "--pitch"@,
            pitch_text(a),
            "--index-rate"@,
            index_rate,
            "--output-dir"@,
            c.converted_dir@,
        ] + f0_args(a),
        cwd: match opt_text(c.rvc_dir) {
            Some(d) => d,
            None => Seq::empty(),
        },
        timeout_ms: c.convert_timeout_ms,
    }
}

/// The RVC run that converts `input` with the voice model `model_name`.
pub fn conversion_run(
    c: &Config,
    args: &ToolArgs,
    input: String,
    model_name: &str,
    index_rate: &str,
) -> (j: PythonJob)
    requires
        rvc_available(*c),
    ensures
        j@ == conversion_job(*c, args@, input@, model_name@, index_rate@),
{
    let venv = match &c.rvc_venv {
        Some(v) => v.clone(),
        None => String::new(),
    };
    let script = match &c.rvc_infer_script {
        Some(v) => v.clone(),
        None => String::new(),
    };
    let model_path = match &c.rvc_weights_dir {
        Some(w) => path_in(w.as_str(), model_name),
        None => String::new(),
    };
    let cwd = match &c.rvc_dir {
        Some(d) => d.clone(),
        None => String::new(),
    };
    let pitch = clamped_int_text(args, "pitch", 0, -24, 24);
    let mut cmd: Vec<String> = Vec::new();
    cmd.push(script);
    cmd.push(input);
    cmd.push(String::from_str("--model"));
    cmd.push(model_path);
    cmd.push(String::from_str("--pitch"));
    cmd.push(pitch);
    cmd.push(String::from_str("--index-rate"));
    cmd.push(String::from_str(index_rate));
    cmd.push(String::from_str("--output-dir"));
    cmd.push(c.converted_dir.clone());
    let ghost base = texts(cmd@);
    match validate_f0_method(args.optional_string("f0_method")) {
        Some(m) => {
            cmd.push(String::from_str("--f0-method"));
            cmd.push(String::from_str(m));
            assert(texts(cmd@) =~= base + seq!["--f0-method"@, m@]);
        },
        None => {
            assert(texts(cmd@) =~= base + Seq::<Seq<char>>::empty());
        },
    }
    let job = PythonJob { venv, args: cmd, cwd, timeout_ms: c.convert_timeout_ms };
    assert(job@.args =~= conversion_job(*c, args@, input@, model_name@, index_rate@).args);
    job
}

/// The RVC conversion asked for by the arguments `a`, given what the file system reported
/// about the input audio path and the text of the feature index ratio.
pub open spec fn spec_convert_plan(
    c: Config,
    a: Seq<(Seq<char>, ArgView)>,
    probe: ProbeView,
    index_rate: Seq<char>,
) -> Result<JobView, ErrorView> {
    match first_bad_string(a) {
        Some(m) => Err(ErrorView::Input(m)),
        None => if !rvc_available(c) {
            Err(ErrorView::Config(rvc_missing_message()))
        } else {
            match audio_arg(a) {
                None => Err(missing("input_audio"@)),
                Some(input) => match text_arg(a, "model_name"@) {
                    None => Err(missing("model_name"@)),
                    Some(model_name) => match spec_user_path(input, c.spec_allowed_bases(), probe) {
                        Err(e) => Err(ErrorView::Input(e)),
                        Ok(_) => if !is_plain_filename(model_name) {
                            Err(not_plain("model_name"@))
                        } else {
                            Ok(conversion_job(c, a, input, model_name, index_rate))
                        },
                    },
                },
            }
        },
    }
}

/// Converts the vocals of an audio file to another voice with RVC.
pub struct ConvertVoiceTool {
    config: Arc<Config>,
}

impl ConvertVoiceTool {
    /// The configuration the tool works with.
    pub closed spec fn config(&self) -> Config {
        *self.config
    }

    pub fn new(config: Arc<Config>) -> (t: Self)
        ensures
            t.config() == *config,
    {
        ConvertVoiceTool { config }
    }

    /// The RVC run that the arguments ask for, or why they are refused, given what the file
    /// system reported about the input audio path and the text of the feature index ratio.
    pub fn plan(&self, args: &ToolArgs, probe: &PathProbe, index_rate: &str) -> (r: Result<
        PythonJob,
        ToolError,
    >)
        ensures
            plan_view(r) == spec_convert_plan(self.config(), args@, probe@, index_rate@),
    {
        let c = &*self.config;
        match args.check_strings() {
            Ok(()) => {},
            Err(e) => return Err(e),
        }
        if c.rvc_venv.is_none() || c.rvc_infer_script.is_none() || c.rvc_weights_dir.is_none() {
            return Err(rvc_missing());
        }
        let input = match required_audio(args) {
            Ok(p) => p,
            Err(e) => return Err(e),
        };
        let model_name = match args.require_string("model_name") {
            Ok(p) => p,
            Err(e) => return Err(e),
        };
        let allowed = c.allowed_bases();
        match check_user_path(input.as_str(), &allowed, probe) {
            Ok(_) => {},
            Err(e) => return Err(ToolError::InputValidation(e)),
        }
        match validate_filename(model_name.as_str(), "model_name") {
            Ok(()) => {},
            Err(e) => return Err(e),
        }
        Ok(conversion_run(c, args, input, model_name.as_str(), index_rate))
    }
}

/// The name of the index folder of the voice model `name`: the name without `.pth`.
pub open spec fn model_stem(name: Seq<char>) -> Seq<char> {
    if is_model_file(name) {
        name.subrange(0, name.len() - 4)
    } else {
        name
    }
}

/// Lists the trained RVC voice models with their index files.
pub struct ListVoiceModelsTool {
    config: Arc<Config>,
}

impl ListVoiceModelsTool {
    /// The configuration the tool works with.
    pub closed spec fn config(&self) -> Config {
        *self.config
    }

    pub fn new(config: Arc<Config>) -> (t: Self)
        ensures
            t.config() == *config,
    {
        ListVoiceModelsTool { config }
    }

    /// The directory that holds the voice models, or the refusal when RVC is not configured.
    pub fn models_dir(&self) -> (r: Result<&str, ToolError>)
        ensures
            match r {
                Ok(d) => opt_text(self.config().rvc_weights_dir) == Some(d@),
                Err(e) => self.config().rvc_weights_dir is None && e@ == ErrorView::Config(
                    rvc_missing_message(),
                ),
            },
    {
        match &self.config.rvc_weights_dir {
            Some(d) => Ok(d.as_str()),
            None => Err(rvc_missing()),
        }
    }

    /// The folder that holds the index files of the voice model `model`, or the refusal when
    /// RVC is not configured.
    pub fn index_dir_of(&self, model: &str) -> (r: Result<String, ToolError>)
        ensures
            match r {
                Ok(d) => opt_text(self.config().rvc_index_dir) matches Some(i) && d@ == i + "/"@
                    + model_stem(model@),
                Err(e) => self.config().rvc_index_dir is None && e@ == ErrorView::Config(
                    rvc_missing_message(),
                ),
            },
    {
        match &self.config.rvc_index_dir {
            Some(i) => {
                if ends_with_text(model, ".pth") {
                    let n = model.unicode_len();
                    proof {
                        reveal_strlit(".pth");
                    }
                    let stem = model.substring_char(0, n - 4);
                    Ok(path_in(i.as_str(), stem))
                } else {
                    Ok(path_in(i.as_str(), model))
                }
            },
            None => Err(rvc_missing()),
        }
    }
}

/// The directory that the `subdirectory` argument selects: `stems`, `converted`, or the
/// output directory itself when it is empty or not given.
pub open spec fn spec_listed_dir(c: Config, a: Seq<(Seq<char>, ArgView)>) -> Result<
    Seq<char>,
    ErrorView,
> {
    match first_bad_string(a) {
        Some(m) => Err(ErrorView::Input(m)),
        None => {
            let sub = match text_arg(a, "subdirectory"@) {
                Some(s) => s,
                None => Seq::empty(),
            };
            if sub == "stems"@ {
                Ok(c.stems_dir@)
            } else if sub == "converted"@ {
                Ok(c.converted_dir@)
            } else if sub.len() == 0 {
                Ok(c.output_dir@)
            } else {
                Err(ErrorView::Input("subdirectory must be 'stems', 'converted', or empty"@))
            }
        },
    }
}

/// Lists the generated files in the output directory or one of its subdirectories.
pub struct ListFilesTool {
    config: Arc<Config>,
}

impl ListFilesTool {
    /// The configuration the tool works with.
    pub closed spec fn config(&self) -> Config {
        *self.config
    }

    pub fn new(config: Arc<Config>) -> (t: Self)
        ensures
            t.config() == *config,
    {
        ListFilesTool { config }
    }

    /// The directory that the arguments ask to list, or why they are refused.
    pub fn directory(&self, args: &ToolArgs) -> (r: Result<&str, ToolError>)
        ensures
            match r {
                Ok(d) => spec_listed_dir(self.config(), args@) == Ok::<Seq<char>, ErrorView>(d@),
                Err(e) => spec_listed_dir(self.config(), args@) == Err::<Seq<char>, ErrorView>(
                    e@,
                ),
            },
    {
        let c = &*self.config;
        match args.check_strings() {
            Ok(()) => {},
            Err(e) => return Err(e),
        }
        let sub = match args.optional_string("subdirectory") {
            Some(s) => s,
            None => String::new(),
        };
        if same_text(sub.as_str(), "stems") {
            Ok(c.stems_dir.as_str())
        } else if same_text(sub.as_str(), "converted") {
            Ok(c.converted_dir.as_str())
        } else if sub.as_str().is_empty() {
            Ok(c.output_dir.as_str())
        } else {
            Err(
                ToolError::InputValidation(
                    String::from_str("subdirectory must be 'stems', 'converted', or empty"),
                ),
            )
        }
    }
}

/// The file whose metadata the arguments ask for, given what the file system reported about
/// it: the path as given, once accepted.
pub open spec fn spec_info_target(c: Config, a: Seq<(Seq<char>, ArgView)>, probe: ProbeView) -> Result<
    Seq<char>,
    ErrorView,
> {
    match first_bad_string(a) {
        Some(m) => Err(ErrorView::Input(m)),
        None => match text_arg(a, "file_path"@) {
            None => Err(missing("file_path"@)),
            Some(path) => match spec_user_path(path, c.spec_allowed_bases(), probe) {
                Err(e) => Err(ErrorView::Input(e)),
                Ok(_) => Ok(path),
            },
        },
    }
}

/// The `ffprobe` arguments that print the audio metadata of `path` as `key=value` lines.
pub open spec fn spec_metadata_command(path: Seq<char>) -> Seq<Seq<char>> {
    seq![
        "-v"@,
        "error"@,
        "-select_streams"@,
        "a:0"@,
        "-show_entries"@,
        "stream=codec_name,sample_rate,channels:format=duration,bit_rate"@,
        "-of"@,
        "default=noprint_wrappers=1"@,
        path,
    ]
}

/// The field `name` holding the value of the `key` line of the metadata `out`, if present.
pub open spec fn metadata_field(out: Seq<char>, key: Seq<char>, name: Seq<char>) -> Seq<
    (Seq<char>, JsonView),
> {
    match entry_value(out, key) {
        Some(v) => seq![(name, JsonView::Str(v))],
        None => Seq::empty(),
    }
}

/// The metadata fields of the reply: duration, sample rate, channels, codec and bitrate as
/// `ffprobe` printed them, or why it could not run.
pub open spec fn metadata_fields(meta: Result<Seq<char>, Seq<char>>) -> Seq<(Seq<char>, JsonView)> {
    match meta {
        Ok(out) => metadata_field(out, "duration"@, "duration"@) + metadata_field(
            out,
            "sample_rate"@,
            "sample_rate"@,
        ) + metadata_field(out, "channels"@, "channels"@) + metadata_field(
            out,
            "codec_name"@,
            "codec"@,
        ) + metadata_field(out, "bit_rate"@, "bitrate"@),
        Err(e) => seq![("metadata_error"@, JsonView::Str(redacted(e)))],
    }
}

/// The reply with the metadata of `path`: its size in bytes and its audio metadata, or why
/// it could not be read.
pub open spec fn spec_info_reply(
    path: Seq<char>,
    size: Result<u64, Seq<char>>,
    meta: Result<Seq<char>, Seq<char>>,
) -> ReplyView {
    match size {
        Ok(n) => ReplyView::Json(
            seq![("file"@, JsonView::Str(path)), ("size_bytes"@, JsonView::Num(n))]
                + metadata_fields(meta),
        ),
        Err(e) => ReplyView::Error(redacted("Error reading file: "@ + e)),
    }
}

/// Adds the field `name` holding the value of the `key` line of `out`, if present.
fn push_metadata_field(fields: &mut Vec<(String, JsonValue)>, out: &str, key: &str, name: &str)
    ensures
        fields_view(final(fields)@) == fields_view(old(fields)@) + metadata_field(out@, key@, name@),
{
    let ghost before = fields_view(fields@);
    match find_entry_value(out, key) {
        Some(v) => {
            fields.push(text_field(name, v));
            assert(fields_view(fields@) =~= before + metadata_field(out@, key@, name@));
        },
        None => {
            assert(fields_view(fields@) =~= before + metadata_field(out@, key@, name@));
        },
    }
}

/// Reports metadata about an audio file.
pub struct GetInfoTool {
    config: Arc<Config>,
}

impl GetInfoTool {
    /// The configuration the tool works with.
    pub closed spec fn config(&self) -> Config {
        *self.config
    }

    pub fn new(config: Arc<Config>) -> (t: Self)
        ensures
            t.config() == *config,
    {
        GetInfoTool { config }
    }

    /// The file the arguments ask about, or why they are refused, given what the file system
    /// reported about it.
    pub fn target(&self, args: &ToolArgs, probe: &PathProbe) -> (r: Result<String, ToolError>)
        ensures
            dir_view(r) == spec_info_target(self.config(), args@, probe@),
    {
        match args.check_strings() {
            Ok(()) => {},
            Err(e) => return Err(e),
        }
        let path = match args.require_string("file_path") {
            Ok(p) => p,
            Err(e) => return Err(e),
        };
        let allowed = self.config.allowed_bases();
        match check_user_path(path.as_str(), &allowed, probe) {
            Ok(_) => Ok(path),
            Err(e) => Err(ToolError::InputValidation(e)),
        }
    }
}

/// The `ffprobe` arguments that print the audio metadata of `path`.
pub fn metadata_command(path: &str) -> (v: Vec<String>)
    ensures
        texts(v@) == spec_metadata_command(path@),
{
    let mut v: Vec<String> = Vec::new();
    v.push(String::from_str("-v"));
    v.push(String::from_str("error"));
    v.push(String::from_str("-select_streams"));
    v.push(String::from_str("a:0"));
    v.push(String::from_str("-show_entries"));
    v.push(String::from_str("stream=codec_name,sample_rate,channels:format=duration,bit_rate"));
    v.push(String::from_str("-of"));
    v.push(String::from_str("default=noprint_wrappers=1"));
    v.push(String::from_str(path));
    assert(texts(v@) =~= spec_metadata_command(path@));
    v
}

/// The reply with the metadata of `path`, from its size and the output of `ffprobe`.
pub fn info_reply(path: &str, size: Result<u64, String>, meta: Result<String, String>) -> (r:
    ToolReply)
    ensures
        r@ == spec_info_reply(
            path@,
            match size {
                Ok(n) => Ok(n),
                Err(e) => Err(e@),
            },
            crate::reply::outcome_view(meta),
        ),
        r@ matches ReplyView::Error(e) ==> hides_paths(e),
        size is Ok && meta is Err ==> (r@ matches ReplyView::Json(f) && (f.last().1 matches JsonView::Str(
            t,
        ) && hides_paths(t))),
{
    match size {
        Ok(n) => {
            let mut fields: Vec<(String, JsonValue)> = Vec::new();
            fields.push((String::from_str("file"), JsonValue::Str(String::from_str(path))));
            fields.push((String::from_str("size_bytes"), JsonValue::Num(n)));
            let ghost base = fields_view(fields@);
            assert(base =~= seq![("file"@, JsonView::Str(path@)), ("size_bytes"@, JsonView::Num(n))]);
            match meta {
                Ok(out) => {
                    push_metadata_field(&mut fields, out.as_str(), "duration", "duration");
                    push_metadata_field(&mut fields, out.as_str(), "sample_rate", "sample_rate");
                    push_metadata_field(&mut fields, out.as_str(), "channels", "channels");
                    push_metadata_field(&mut fields, out.as_str(), "codec_name", "codec");
                    push_metadata_field(&mut fields, out.as_str(), "bit_rate", "bitrate");
                    assert(fields_view(fields@) =~= base + metadata_fields(Ok(out@)));
                },
                Err(e) => {
                    let shown = crate::reply::redact(e.as_str());
                    fields.push(text_field("metadata_error", shown));
                    assert(fields_view(fields@) =~= base + metadata_fields(Err(e@)));
                },
            }
            ToolReply::Json(fields)
        },
        Err(e) => ToolReply::Error(redacted_join("Error reading file: ", e.as_str())),
    }
}

} // verus!
