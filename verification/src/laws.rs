//! Properties that hold of every call of the library, stated over the meanings that the
//! functions' contracts use.
use vstd::prelude::*;

use crate::args::{
    clamp, first_bad_string, int_arg, spec_demucs_model, spec_model_size, spec_stem_type, text_arg,
    ArgView,
};
use crate::config::{spec_config_well_derived, Config};
use crate::launch::{dot_dot, spec_launch_check, JobView};
use crate::paths::{is_plain_filename, opt_text, is_within, spec_env_path, spec_user_path, under_some_base, ProbeView};
use crate::pipeline::{
    is_separator_free, saved_path, spec_after_convert, spec_after_generate, spec_after_separate,
    spec_pipeline_generate, vocals_path,
};
use crate::reply::{is_model_file, model_files_of, ErrorView, JsonView};
use crate::text::{contains_seq, is_white, signed_decimal, trim, trim_end, trim_start};
use crate::tools::{
    demucs_job, duration_text, pitch_text, rvc_available, spec_convert_plan, spec_generate_plan,
    spec_info_target, spec_listed_dir, spec_separate_plan, spec_stems_dir,
};

verus! {

/// The MusicGen model size handed to the script is always one of `small`, `medium` and
/// `large`, and choosing again from the chosen size keeps it.
pub proof fn model_size_is_known(input: Option<Seq<char>>)
    ensures
        spec_model_size(input) == "small"@ || spec_model_size(input) == "medium"@
            || spec_model_size(input) == "large"@,
        spec_model_size(Some(spec_model_size(input))) == spec_model_size(input),
{
}

/// The Demucs model handed to the script is always `htdemucs` or `htdemucs_ft`, and choosing
/// again from the chosen model keeps it.
pub proof fn demucs_model_is_known(input: Option<Seq<char>>)
    ensures
        spec_demucs_model(input) == "htdemucs"@ || spec_demucs_model(input) == "htdemucs_ft"@,
        spec_demucs_model(Some(spec_demucs_model(input))) == spec_demucs_model(input),
{
}

/// The stem selection handed to the script is always one of `all`, `vocals`, `drums`,
/// `bass` and `other`, and choosing again from the chosen selection keeps it.
pub proof fn stem_type_is_known(input: Option<Seq<char>>)
    ensures
        spec_stem_type(input) == "all"@ || spec_stem_type(input) == "vocals"@ || spec_stem_type(
            input,
        ) == "drums"@ || spec_stem_type(input) == "bass"@ || spec_stem_type(input) == "other"@,
        spec_stem_type(Some(spec_stem_type(input))) == spec_stem_type(input),
{
}

/// The clip length handed to MusicGen is always the decimal text of a number of seconds
/// within `1..=30`; it is the one asked for when that lies within the bounds, and `15` when
/// none is asked for.
pub proof fn duration_is_bounded(a: Seq<(Seq<char>, ArgView)>)
    ensures
        exists|d: int| 1 <= d <= 30 && duration_text(a) == signed_decimal(d),
        forall|d: i64|
            #![trigger signed_decimal(d as int)]
            int_arg(a, "duration"@) == Some(d) && 1 <= d <= 30 ==> duration_text(a)
                == signed_decimal(d as int),
        int_arg(a, "duration"@) is None ==> duration_text(a) == signed_decimal(15),
{
    let d: int = match int_arg(a, "duration"@) {
        Some(d) => d as int,
        None => 15,
    };
    assert(1 <= clamp(d, 1, 30) <= 30);
    assert(duration_text(a) == signed_decimal(clamp(d, 1, 30)));
}

/// The pitch shift handed to RVC is always the decimal text of a number of semitones within
/// `-24..=24`; it is the one asked for when that lies within the bounds, and `0` when none is
/// asked for.
pub proof fn pitch_is_bounded(a: Seq<(Seq<char>, ArgView)>)
    ensures
        exists|p: int| -24 <= p <= 24 && pitch_text(a) == signed_decimal(p),
        forall|p: i64|
            #![trigger signed_decimal(p as int)]
            int_arg(a, "pitch"@) == Some(p) && -24 <= p <= 24 ==> pitch_text(a) == signed_decimal(
                p as int,
            ),
        int_arg(a, "pitch"@) is None ==> pitch_text(a) == signed_decimal(0),
{
    let p: int = match int_arg(a, "pitch"@) {
        Some(p) => p as int,
        None => 0,
    };
    assert(-24 <= clamp(p, -24, 24) <= 24);
    assert(pitch_text(a) == signed_decimal(clamp(p, -24, 24)));
}

/// A path given by a caller is accepted only when it is non-empty and holds no `..`; when
/// allowed directories are set, every accepted path lies within one of them, component by
/// component: an existing path is replaced by its canonical form, which lies within a base; a
/// missing path is kept as written, and its parent exists and lies within a base.
pub proof fn accepted_paths_are_confined(raw: Seq<char>, bases: Seq<Seq<char>>, probe: ProbeView)
    requires
        spec_user_path(raw, bases, probe) is Ok,
    ensures
        raw.len() > 0,
        !contains_seq(raw, dot_dot()),
        probe.canonical matches Some(c) ==> spec_user_path(raw, bases, probe) == Ok::<
            Seq<char>,
            Seq<char>,
        >(c) && (bases.len() == 0 || under_some_base(bases, c)),
        probe.canonical is None ==> spec_user_path(raw, bases, probe) == Ok::<
            Seq<char>,
            Seq<char>,
        >(raw) && probe.parent_canonical is Some && (bases.len() == 0 || under_some_base(
            bases,
            probe.parent_canonical->Some_0,
        )),
{
}

/// Whatever the tools write lands in directories that the tools accept back as input: a path
/// without `..` whose canonical form lies within the output, stems or converted directory is
/// accepted as that canonical form.
pub proof fn tool_outputs_are_accepted_back(c: Config, raw: Seq<char>, probe: ProbeView)
    requires
        spec_config_well_derived(c),
        raw.len() > 0,
        !contains_seq(raw, dot_dot()),
        probe.canonical is Some,
        is_within(c.output_dir@, probe.canonical->Some_0) || is_within(
            c.stems_dir@,
            probe.canonical->Some_0,
        ) || is_within(c.converted_dir@, probe.canonical->Some_0),
    ensures
        spec_user_path(raw, c.spec_allowed_bases(), probe) == Ok::<Seq<char>, Seq<char>>(
            probe.canonical->Some_0,
        ),
{
    let bases = c.spec_allowed_bases();
    let canonical = probe.canonical->Some_0;
    if is_within(c.output_dir@, canonical) {
        assert(is_within(bases[0], canonical));
    } else if is_within(c.stems_dir@, canonical) {
        assert(is_within(bases[1], canonical));
    } else {
        assert(is_within(bases[2], canonical));
    }
    assert(under_some_base(bases, canonical));
}

/// Checking a configured directory again, once accepted, accepts it unchanged, provided the
/// file system has not changed: the canonical form of a canonical path is itself.
pub proof fn accepted_directory_is_stable(
    raw: Seq<char>,
    label: Seq<char>,
    first: ProbeView,
    again: ProbeView,
)
    requires
        spec_env_path(raw, label, first) is Ok,
        !contains_seq(spec_env_path(raw, label, first)->Ok_0, dot_dot()),
        first.canonical is Some ==> again.canonical == first.canonical,
        first.canonical is None ==> again == first,
    ensures
        spec_env_path(spec_env_path(raw, label, first)->Ok_0, label, again) == spec_env_path(
            raw,
            label,
            first,
        ),
{
}

/// A script starts only when its virtual environment path holds no `..`, its interpreter
/// exists, its working directory is a directory, and none of its arguments holds `..`.
pub proof fn launches_refuse_traversal(job: JobView, python_found: bool, cwd_is_dir: bool)
    requires
        spec_launch_check(job, python_found, cwd_is_dir) is Ok,
    ensures
        !contains_seq(job.venv, dot_dot()),
        python_found,
        cwd_is_dir,
        forall|i: int| 0 <= i < job.args.len() ==> !contains_seq(#[trigger] job.args[i], dot_dot()),
{
    assert forall|i: int| 0 <= i < job.args.len() implies !contains_seq(
        #[trigger] job.args[i],
        dot_dot(),
    ) by {
        if contains_seq(job.args[i], dot_dot()) {
            lemma_first_traversing_arg_exists(job.args, i);
        }
    }
}

/// When some argument holds `..`, a first such argument exists.
proof fn lemma_first_traversing_arg_exists(args: Seq<Seq<char>>, i: int)
    requires
        0 <= i < args.len(),
        contains_seq(args[i], dot_dot()),
    ensures
        exists|k: int| crate::launch::is_first_traversing_arg(args, k),
    decreases i,
{
    if forall|m: int| 0 <= m < i ==> !contains_seq(#[trigger] args[m], dot_dot()) {
        assert(crate::launch::is_first_traversing_arg(args, i));
    } else {
        let m = choose|m: int| 0 <= m < i && contains_seq(#[trigger] args[m], dot_dot());
        lemma_first_traversing_arg_exists(args, m);
    }
}

/// The voice model handed to RVC by the conversion tool is a plain file name directly inside
/// the weights directory.
pub proof fn converted_model_stays_in_weights_dir(
    c: Config,
    a: Seq<(Seq<char>, ArgView)>,
    probe: ProbeView,
    index_rate: Seq<char>,
)
    requires
        spec_convert_plan(c, a, probe, index_rate) is Ok,
    ensures
        exists|name: Seq<char>|
            is_plain_filename(name) && #[trigger] (opt_text(c.rvc_weights_dir)->Some_0 + "/"@ + name)
                == spec_convert_plan(c, a, probe, index_rate)->Ok_0.args[3],
{
    let name = text_arg(a, "model_name"@)->Some_0;
    assert(is_plain_filename(name));
    assert(opt_text(c.rvc_weights_dir)->Some_0 + "/"@ + name == spec_convert_plan(
        c,
        a,
        probe,
        index_rate,
    )->Ok_0.args[3]);
}

/// A call holding a string argument that is too long or holds a NUL character is refused by
/// every tool that plans a run or picks a file, with the same message, before anything else.
pub proof fn bad_strings_are_refused_everywhere(
    c: Config,
    a: Seq<(Seq<char>, ArgView)>,
    probe: ProbeView,
    index_rate: Seq<char>,
)
    requires
        first_bad_string(a) is Some,
    ensures
        spec_generate_plan(c, a) == Err::<JobView, ErrorView>(
            ErrorView::Input(first_bad_string(a)->Some_0),
        ),
        spec_separate_plan(c, a, probe) == Err::<JobView, ErrorView>(
            ErrorView::Input(first_bad_string(a)->Some_0),
        ),
        spec_convert_plan(c, a, probe, index_rate) == Err::<JobView, ErrorView>(
            ErrorView::Input(first_bad_string(a)->Some_0),
        ),
        spec_pipeline_generate(c, a) == Err::<JobView, ErrorView>(
            ErrorView::Input(first_bad_string(a)->Some_0),
        ),
        spec_info_target(c, a, probe) == Err::<Seq<char>, ErrorView>(
            ErrorView::Input(first_bad_string(a)->Some_0),
        ),
        spec_listed_dir(c, a) == Err::<Seq<char>, ErrorView>(
            ErrorView::Input(first_bad_string(a)->Some_0),
        ),
        spec_stems_dir(c, a) == Err::<Seq<char>, ErrorView>(
            ErrorView::Input(first_bad_string(a)->Some_0),
        ),
{
}

/// The full pipeline separates exactly the file that the generation run reported as saved,
/// with the `htdemucs` model into all stems.
pub proof fn pipeline_separates_the_saved_file(c: Config, generated: Result<Seq<char>, Seq<char>>)
    requires
        spec_after_generate(c, generated) is Separate,
    ensures
        generated is Ok,
        saved_path(generated->Ok_0) is Some,
        spec_after_generate(c, generated)->Separate_saved == saved_path(generated->Ok_0)->Some_0,
        spec_after_generate(c, generated)->Separate_job == demucs_job(
            c,
            saved_path(generated->Ok_0)->Some_0,
            "htdemucs"@,
            "all"@,
        ),
{
}

/// The full pipeline converts only the vocals that the stem separation of the saved file
/// produced, only after that separation succeeded, and only with a voice model name free of
/// separators and `..`, placed inside the weights directory.
pub proof fn pipeline_converts_the_separated_vocals(
    c: Config,
    a: Seq<(Seq<char>, ArgView)>,
    saved: Seq<char>,
    fields: Seq<(Seq<char>, JsonView)>,
    separated: Result<Seq<char>, Seq<char>>,
    index_rate: Seq<char>,
)
    requires
        spec_after_separate(c, a, saved, fields, separated, index_rate) is Convert,
    ensures
        separated is Ok,
        rvc_available(c),
        text_arg(a, "voice_model"@) is Some,
        is_separator_free(text_arg(a, "voice_model"@)->Some_0),
        spec_after_separate(c, a, saved, fields, separated, index_rate)->Convert_job.args[1]
            == vocals_path(c, saved),
        spec_after_separate(c, a, saved, fields, separated, index_rate)->Convert_job.args[3]
            == opt_text(c.rvc_weights_dir)->Some_0 + "/"@ + text_arg(a, "voice_model"@)->Some_0,
{
}

/// The answer after the voice conversion keeps every field gathered before it, in order.
pub proof fn conversion_keeps_earlier_fields(
    fields: Seq<(Seq<char>, JsonView)>,
    converted: Result<Seq<char>, Seq<char>>,
)
    ensures
        spec_after_convert(fields, converted) is Json,
        spec_after_convert(fields, converted)->Json_0.len() > fields.len(),
        spec_after_convert(fields, converted)->Json_0.subrange(0, fields.len() as int) == fields,
{
    assert(spec_after_convert(fields, converted)->Json_0.subrange(0, fields.len() as int)
        =~= fields);
}

/// The voice model listing names only `.pth` files, in the order the directory gave them.
pub proof fn listed_models_are_model_files(names: Seq<Seq<char>>)
    ensures
        forall|i: int|
            0 <= i < model_files_of(names).len() ==> is_model_file(
                #[trigger] model_files_of(names)[i],
            ),
{
    broadcast use vstd::seq_lib::group_filter_ensures;

}

/// `trim_start` leaves no white space at the front.
proof fn lemma_trim_start_front(s: Seq<char>)
    ensures
        trim_start(s).len() > 0 ==> !is_white(trim_start(s)[0]),
        trim_start(s).len() <= s.len(),
        trim_start(s) == s.subrange(s.len() - trim_start(s).len(), s.len() as int),
    decreases s.len(),
{
    if s.len() > 0 && is_white(s[0]) {
        lemma_trim_start_front(s.subrange(1, s.len() as int));
        assert(s.subrange(1, s.len() as int).subrange(
            s.len() - 1 - trim_start(s).len(),
            s.len() - 1,
        ) =~= s.subrange(s.len() - trim_start(s).len(), s.len() as int));
    } else {
        assert(s.subrange(0, s.len() as int) =~= s);
    }
}

/// `trim_end` leaves no white space at the back, and keeps a front that is not white space.
proof fn lemma_trim_end_back(s: Seq<char>)
    ensures
        trim_end(s).len() > 0 ==> !is_white(trim_end(s)[trim_end(s).len() - 1]),
        trim_end(s).len() <= s.len(),
        trim_end(s) == s.subrange(0, trim_end(s).len() as int),
    decreases s.len(),
{
    if s.len() > 0 && is_white(s[s.len() - 1]) {
        lemma_trim_end_back(s.subrange(0, s.len() - 1));
        assert(s.subrange(0, s.len() - 1).subrange(0, trim_end(s).len() as int) =~= s.subrange(
            0,
            trim_end(s).len() as int,
        ));
    } else {
        assert(s.subrange(0, s.len() as int) =~= s);
    }
}

/// A trimmed text neither starts nor ends with white space.
pub proof fn trimmed_text_has_no_outer_white_space(s: Seq<char>)
    ensures
        trim(s).len() > 0 ==> !is_white(trim(s)[0]) && !is_white(trim(s)[trim(s).len() - 1]),
{
    lemma_trim_start_front(s);
    lemma_trim_end_back(trim_start(s));
    if trim(s).len() > 0 {
        assert(trim(s)[0] == trim_start(s)[0]);
    }
}

/// The saved file path read from the generation output neither starts nor ends with white
/// space.
pub proof fn saved_path_is_trimmed(out: Seq<char>)
    requires
        saved_path(out) is Some,
    ensures
        saved_path(out)->Some_0.len() > 0 ==> !is_white(saved_path(out)->Some_0[0]) && !is_white(
            saved_path(out)->Some_0[saved_path(out)->Some_0.len() - 1],
        ),
{
    let line = crate::text::first_line_with(out, crate::pipeline::saved_marker())->Some_0;
    trimmed_text_has_no_outer_white_space(crate::text::remove_all(line, crate::pipeline::saved_marker()));
}

} // verus!
