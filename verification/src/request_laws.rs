//! What each run asks the tools to do, stated against the request itself: the choices the
//! caller made are the ones handed to the scripts, and the files handed on are the ones the
//! previous run wrote.
use vstd::prelude::*;

use crate::args::{first_bad_string, int_arg, spec_stem_type, text_arg, ArgView};
use crate::config::{spec_config_well_derived, Config};
use crate::paths::{opt_text, ProbeView};
use crate::pipeline::{spec_after_separate, spec_pipeline_generate, vocals_path};
use crate::reply::{model_line, spec_voice_models_reply, ReplyView};
use crate::paths::is_within;
use crate::text::{
    decimal, file_name, is_suffix, join_lines, join_with, last_index_of, name_stem, signed_decimal,
};
use crate::launch::spec_run_outcome;
use crate::paths::is_plain_filename;
use crate::reply::{spec_listing, ErrorView};
use crate::tools::{
    spec_convert_plan, spec_generate_plan, spec_listed_dir, spec_separate_plan, spec_stems_dir,
};

verus! {

/// A MusicGen model size the tools know.
pub open spec fn is_known_size(m: Seq<char>) -> bool {
    m == "small"@ || m == "medium"@ || m == "large"@
}

/// A stem selection Demucs knows.
pub open spec fn is_known_selection(s: Seq<char>) -> bool {
    s == "all"@ || s == "vocals"@ || s == "drums"@ || s == "bass"@ || s == "other"@
}

/// MusicGen runs with the model size the caller asked for when it is a known one, and with
/// `small` when none is asked for; the same holds of the pipeline's generation run.
pub proof fn generation_uses_the_model_asked_for(c: Config, a: Seq<(Seq<char>, ArgView)>)
    ensures
        spec_generate_plan(c, a) is Ok ==> {
            let args = spec_generate_plan(c, a)->Ok_0.args;
            &&& args[4] == "--model"@
            &&& (text_arg(a, "model"@) is Some && is_known_size(text_arg(a, "model"@)->Some_0))
                ==> args[5] == text_arg(a, "model"@)->Some_0
            &&& text_arg(a, "model"@) is None ==> args[5] == "small"@
        },
        spec_pipeline_generate(c, a) is Ok ==> {
            let args = spec_pipeline_generate(c, a)->Ok_0.args;
            &&& args[4] == "--model"@
            &&& (text_arg(a, "model"@) is Some && is_known_size(text_arg(a, "model"@)->Some_0))
                ==> args[5] == text_arg(a, "model"@)->Some_0
            &&& text_arg(a, "model"@) is None ==> args[5] == "small"@
        },
{
}

/// Every known stem selection is kept as asked, and the Demucs run of a separation request
/// gets the selection the caller asked for when it is a known one, and `all` when none is
/// asked for.
pub proof fn separation_uses_the_stems_asked_for(
    s: Seq<char>,
    c: Config,
    a: Seq<(Seq<char>, ArgView)>,
    probe: ProbeView,
)
    ensures
        is_known_selection(s) ==> spec_stem_type(Some(s)) == s,
        spec_separate_plan(c, a, probe) is Ok ==> {
            let args = spec_separate_plan(c, a, probe)->Ok_0.args;
            &&& args[4] == "--stems"@
            &&& (text_arg(a, "stems"@) is Some && is_known_selection(text_arg(a, "stems"@)->Some_0))
                ==> args[5] == text_arg(a, "stems"@)->Some_0
            &&& text_arg(a, "stems"@) is None ==> args[5] == "all"@
        },
{
}

/// The RVC run shifts the pitch by the number of semitones asked for, kept within
/// `-24..=24`, and does not shift it when none is asked for.
pub proof fn conversion_uses_the_pitch_asked_for(
    c: Config,
    a: Seq<(Seq<char>, ArgView)>,
    probe: ProbeView,
    index_rate: Seq<char>,
)
    requires
        spec_convert_plan(c, a, probe, index_rate) is Ok,
    ensures
        ({
            let args = spec_convert_plan(c, a, probe, index_rate)->Ok_0.args;
            let p = int_arg(a, "pitch"@);
            &&& args[4] == "--pitch"@
            &&& p is None ==> args[5] == signed_decimal(0)
            &&& (p is Some && -24 <= p->Some_0 <= 24) ==> args[5] == signed_decimal(p->Some_0 as int)
            &&& (p is Some && p->Some_0 > 24) ==> args[5] == signed_decimal(24)
            &&& (p is Some && p->Some_0 < -24) ==> args[5] == signed_decimal(-24)
        }),
        signed_decimal(0) == seq!['0'],
{
}

/// `last_index_of` ignores a tail that does not hold the character.
proof fn lemma_last_index_skips(a: Seq<char>, b: Seq<char>, ch: char)
    requires
        !b.contains(ch),
    ensures
        last_index_of(a + b, ch) == last_index_of(a, ch),
    decreases b.len(),
{
    if b.len() == 0 {
        assert(a + b =~= a);
    } else {
        let s = a + b;
        assert(s[s.len() - 1] == b[b.len() - 1]);
        assert(s.subrange(0, s.len() - 1) =~= a + b.subrange(0, b.len() - 1));
        let front = b.subrange(0, b.len() - 1);
        assert forall|k: int| 0 <= k < front.len() implies #[trigger] front[k] != ch by {
            assert(front[k] == b[k]);
        }
        lemma_last_index_skips(a, b.subrange(0, b.len() - 1), ch);
    }
}

/// The last occurrence of a character that ends a text is at its end.
proof fn lemma_last_index_at_end(a: Seq<char>, ch: char)
    ensures
        last_index_of(a.push(ch), ch) == a.len(),
{
    assert(a.push(ch).subrange(0, a.len() as int) =~= a);
}

/// The file name of `dir/name`, where `name` holds no `/`, is `name`.
proof fn lemma_file_name_of(dir: Seq<char>, name: Seq<char>)
    requires
        !name.contains('/'),
    ensures
        file_name(dir + seq!['/'] + name) == name,
{
    let p = dir + seq!['/'] + name;
    assert(dir + seq!['/'] =~= dir.push('/'));
    lemma_last_index_at_end(dir, '/');
    lemma_last_index_skips(dir.push('/'), name, '/');
    assert(p.subrange(dir.len() as int + 1, p.len() as int) =~= name);
}

/// Demucs puts the vocals of the file `dir/track.ext` in the stems directory, under the
/// `htdemucs` model folder and a folder named `track`: the file name with only its extension
/// removed, every other character kept in order. The pipeline converts exactly that file.
pub proof fn pipeline_converts_the_vocals_of_the_track(
    c: Config,
    a: Seq<(Seq<char>, ArgView)>,
    dir: Seq<char>,
    track: Seq<char>,
    ext: Seq<char>,
    fields: Seq<(Seq<char>, crate::reply::JsonView)>,
    separated: Result<Seq<char>, Seq<char>>,
    index_rate: Seq<char>,
)
    requires
        track.len() > 0,
        !track.contains('/'),
        !ext.contains('/'),
        !ext.contains('.'),
    ensures
        vocals_path(c, dir + seq!['/'] + track + seq!['.'] + ext) == c.stems_dir@ + "/"@
            + "htdemucs"@ + "/"@ + track + "/vocals.wav"@,
        spec_after_separate(
            c,
            a,
            dir + seq!['/'] + track + seq!['.'] + ext,
            fields,
            separated,
            index_rate,
        ) is Convert ==> spec_after_separate(
            c,
            a,
            dir + seq!['/'] + track + seq!['.'] + ext,
            fields,
            separated,
            index_rate,
        )->Convert_job.args[1] == c.stems_dir@ + "/"@ + "htdemucs"@ + "/"@ + track
            + "/vocals.wav"@,
{
    let name = track + seq!['.'] + ext;
    assert(dir + seq!['/'] + track + seq!['.'] + ext =~= dir + seq!['/'] + name);
    assert(!name.contains('/')) by {
        assert forall|k: int| 0 <= k < name.len() implies name[k] != '/' by {
            if k < track.len() {
                assert(name[k] == track[k]);
            } else if k > track.len() {
                assert(name[k] == ext[k - track.len() - 1]);
            }
        }
    }
    lemma_file_name_of(dir, name);
    assert(track + seq!['.'] =~= track.push('.'));
    assert(name =~= track.push('.') + ext);
    lemma_last_index_at_end(track, '.');
    lemma_last_index_skips(track.push('.'), ext, '.');
    assert(name.subrange(0, track.len() as int) =~= track);
    assert(name_stem(name) == track);
}

/// Demucs names the folder of a file without an extension after the whole file name; the
/// pipeline converts the vocals found there.
pub proof fn pipeline_converts_the_vocals_of_an_extensionless_track(
    c: Config,
    dir: Seq<char>,
    track: Seq<char>,
)
    requires
        !track.contains('/'),
        !track.contains('.'),
    ensures
        vocals_path(c, dir + seq!['/'] + track) == c.stems_dir@ + "/"@ + "htdemucs"@ + "/"@
            + track + "/vocals.wav"@,
{
    lemma_file_name_of(dir, track);
    lemma_last_index_skips(Seq::empty(), track, '.');
    assert(Seq::<char>::empty() + track =~= track);
}

/// The voice model listing names every entry of the models directory when each is a `.pth`
/// file: its count is their number and its lines follow the directory order, one per entry.
pub proof fn every_model_file_is_listed(entries: Seq<(Seq<char>, Seq<Seq<char>>)>)
    requires
        entries.len() > 0,
        forall|i: int| 0 <= i < entries.len() ==> is_suffix(".pth"@, #[trigger] entries[i].0),
    ensures
        spec_voice_models_reply(Ok(entries)) == ReplyView::Text(
            "Voice models ("@ + decimal(entries.len()) + "):\n"@ + join_lines(
                entries.map_values(|e: (Seq<char>, Seq<Seq<char>>)| model_line(e.0, e.1)),
            ),
        ),
{
    lemma_filter_keeps_all(entries);
}

/// Filtering by "is a model file" keeps a sequence of model files whole.
proof fn lemma_filter_keeps_all(entries: Seq<(Seq<char>, Seq<Seq<char>>)>)
    requires
        forall|i: int| 0 <= i < entries.len() ==> is_suffix(".pth"@, #[trigger] entries[i].0),
    ensures
        entries.filter(|e: (Seq<char>, Seq<Seq<char>>)| crate::reply::is_model_file(e.0))
            == entries,
    decreases entries.len(),
{
    reveal(Seq::filter);
    if entries.len() > 0 {
        let rest = entries.drop_last();
        assert forall|i: int| 0 <= i < rest.len() implies is_suffix(".pth"@, #[trigger] rest[i].0) by {
            assert(rest[i] == entries[i]);
        }
        lemma_filter_keeps_all(rest);
        assert(is_suffix(".pth"@, entries[entries.len() - 1].0));
        assert(rest.push(entries.last()) =~= entries);
    }
}

/// An entry of the models directory that is not a `.pth` file changes nothing in the
/// listing, wherever it stands.
pub proof fn other_entries_are_not_listed(
    found: Result<Seq<(Seq<char>, Seq<Seq<char>>)>, Seq<char>>,
    i: int,
    e: (Seq<char>, Seq<Seq<char>>),
)
    requires
        found is Ok,
        0 <= i <= found->Ok_0.len(),
        !is_suffix(".pth"@, e.0),
    ensures
        spec_voice_models_reply(Ok(found->Ok_0.insert(i, e))) == spec_voice_models_reply(found),
{
    let entries = found->Ok_0;
    let pred = |x: (Seq<char>, Seq<Seq<char>>)| crate::reply::is_model_file(x.0);
    let front = entries.subrange(0, i);
    let back = entries.subrange(i, entries.len() as int);
    assert(entries.insert(i, e) =~= front + (seq![e] + back));
    assert(entries =~= front + back);
    Seq::filter_distributes_over_add(front, seq![e] + back, pred);
    Seq::filter_distributes_over_add(seq![e], back, pred);
    Seq::filter_distributes_over_add(front, back, pred);
    reveal(Seq::filter);
    let none = Seq::<(Seq<char>, Seq<Seq<char>>)>::empty();
    assert(seq![e].drop_last() =~= none);
    assert(none.filter(pred) == none);
    assert(!pred(seq![e].last()));
    assert(seq![e].filter(pred) =~= Seq::<(Seq<char>, Seq<Seq<char>>)>::empty());
    assert(seq![e].filter(pred) + back.filter(pred) =~= back.filter(pred));
}

/// A MusicGen run is the generation script on the prompt asked for, for the clip length asked
/// for kept within `1..=30` seconds (`15` when none is asked for), saved under the file name
/// asked for when one is given, in the studio directory with the generation time budget.
pub proof fn generation_runs_the_prompt_asked_for(c: Config, a: Seq<(Seq<char>, ArgView)>)
    requires
        spec_generate_plan(c, a) is Ok,
    ensures
        ({
            let job = spec_generate_plan(c, a)->Ok_0;
            let d = int_arg(a, "duration"@);
            let f = text_arg(a, "output_filename"@);
            &&& job.venv == c.musicgen_venv@
            &&& job.cwd == c.music_studio_dir@
            &&& job.timeout_ms == c.generate_timeout_ms
            &&& job.args[0] == c.musicgen_script@
            &&& text_arg(a, "prompt"@) == Some(job.args[1])
            &&& job.args[2] == "--duration"@
            &&& d is None ==> job.args[3] == signed_decimal(15)
            &&& (d is Some && 1 <= d->Some_0 <= 30) ==> job.args[3] == signed_decimal(d->Some_0 as int)
            &&& (d is Some && d->Some_0 > 30) ==> job.args[3] == signed_decimal(30)
            &&& (d is Some && d->Some_0 < 1) ==> job.args[3] == signed_decimal(1)
            &&& f is None ==> job.args.len() == 6
            &&& f is Some ==> job.args.len() == 8 && job.args[6] == "--output"@ && job.args[7]
                == f->Some_0
        }),
{
}

/// A Demucs run separates the input file asked for (`input_audio`, else `input_file`) with the
/// Demucs model asked for when it is a known one (`htdemucs` when none is asked for), into the
/// stems directory, in the studio directory with the separation time budget.
pub proof fn separation_runs_on_the_file_asked_for(
    c: Config,
    a: Seq<(Seq<char>, ArgView)>,
    probe: ProbeView,
)
    requires
        spec_separate_plan(c, a, probe) is Ok,
    ensures
        ({
            let job = spec_separate_plan(c, a, probe)->Ok_0;
            let m = text_arg(a, "model"@);
            &&& job.venv == c.musicgen_venv@
            &&& job.cwd == c.music_studio_dir@
            &&& job.timeout_ms == c.stems_timeout_ms
            &&& job.args.len() == 8
            &&& job.args[0] == c.stems_script@
            &&& text_arg(a, "input_audio"@) is Some ==> job.args[1] == text_arg(a, "input_audio"@)->Some_0
            &&& text_arg(a, "input_audio"@) is None ==> text_arg(a, "input_file"@) == Some(job.args[1])
            &&& job.args[2] == "--model"@
            &&& (m is Some && (m->Some_0 == "htdemucs"@ || m->Some_0 == "htdemucs_ft"@)) ==> job.args[3]
                == m->Some_0
            &&& m is None ==> job.args[3] == "htdemucs"@
            &&& job.args[6] == "--output-dir"@
            &&& job.args[7] == c.stems_dir@
        }),
{
}

/// An RVC run converts the input file asked for (`input_audio`, else `input_file`) with the
/// voice model asked for, taken from the weights directory, with the feature index ratio
/// given, into the converted directory, adding the pitch estimation method asked for when RVC
/// knows it; it runs in the RVC directory with the conversion time budget.
pub proof fn conversion_runs_on_the_file_and_model_asked_for(
    c: Config,
    a: Seq<(Seq<char>, ArgView)>,
    probe: ProbeView,
    index_rate: Seq<char>,
)
    requires
        spec_config_well_derived(c),
        spec_convert_plan(c, a, probe, index_rate) is Ok,
    ensures
        ({
            let job = spec_convert_plan(c, a, probe, index_rate)->Ok_0;
            let f0 = text_arg(a, "f0_method"@);
            let known_f0 = f0 is Some && (f0->Some_0 == "pm"@ || f0->Some_0 == "harvest"@
                || f0->Some_0 == "crepe"@ || f0->Some_0 == "rmvpe"@);
            &&& c.rvc_dir is Some && opt_text(c.rvc_dir) == Some(job.cwd)
            &&& opt_text(c.rvc_venv) == Some(job.venv)
            &&& job.timeout_ms == c.convert_timeout_ms
            &&& opt_text(c.rvc_infer_script) == Some(job.args[0])
            &&& text_arg(a, "input_audio"@) is Some ==> job.args[1] == text_arg(a, "input_audio"@)->Some_0
            &&& text_arg(a, "input_audio"@) is None ==> text_arg(a, "input_file"@) == Some(job.args[1])
            &&& job.args[2] == "--model"@
            &&& job.args[3] == opt_text(c.rvc_weights_dir)->Some_0 + "/"@ + text_arg(a, "model_name"@)->Some_0
            &&& job.args[6] == "--index-rate"@
            &&& job.args[7] == index_rate
            &&& job.args[8] == "--output-dir"@
            &&& job.args[9] == c.converted_dir@
            &&& known_f0 ==> job.args.len() == 12 && job.args[10] == "--f0-method"@ && job.args[11]
                == f0->Some_0
            &&& !known_f0 ==> job.args.len() == 10
        }),
{
}

/// A path lies within a directory exactly when, component by component, the directory is a
/// leading part of it: the directory itself and anything below it are within, while a path
/// that merely continues the directory's last name (as `/out2` continues `/out`) is not.
pub proof fn within_means_below_the_directory(base: Seq<char>, rest: Seq<char>, other: Seq<char>)
    requires
        base.len() > 1,
        base[0] == '/',
        base[base.len() - 1] != '/',
        other.len() > 0,
        other[0] != '/',
    ensures
        is_within(base, base),
        is_within(base, base + seq!['/'] + rest),
        !is_within(base, base + other),
        rest.len() < base.len() ==> !is_within(base, rest),
{
    assert(crate::paths::strip_trailing_slashes(base) == base);
    assert(base != seq!['/']) by {
        assert(base.len() != 1);
    }
    assert((base + seq!['/'] + rest).subrange(0, base.len() as int) =~= base);
    assert((base + seq!['/'] + rest)[base.len() as int] == '/');
    assert((base + other).subrange(0, base.len() as int) =~= base);
    assert((base + other)[base.len() as int] == other[0]);
    assert(base.subrange(0, base.len() as int) =~= base);
}

/// The line of a voice model names its index files: the model alone when its index folder
/// holds no `.index` file, and the model followed by every entry of the folder when each is an
/// `.index` file, in the folder's order.
pub proof fn model_lines_name_the_index_files(model: Seq<char>, folder: Seq<Seq<char>>)
    ensures
        (forall|i: int| 0 <= i < folder.len() ==> !is_suffix(".index"@, #[trigger] folder[i]))
            ==> model_line(model, folder) == model,
        (folder.len() > 0 && forall|i: int| 0 <= i < folder.len() ==> is_suffix(".index"@, #[trigger] folder[i]))
            ==> model_line(model, folder) == model + " (index: "@ + join_with(folder, ", "@) + ")"@,
{
    lemma_index_filter(folder);
}

/// Filtering by "is an index file" keeps a folder of index files whole and empties one that
/// holds none.
proof fn lemma_index_filter(folder: Seq<Seq<char>>)
    ensures
        (forall|i: int| 0 <= i < folder.len() ==> !is_suffix(".index"@, #[trigger] folder[i]))
            ==> crate::reply::index_files_of(folder).len() == 0,
        (forall|i: int| 0 <= i < folder.len() ==> is_suffix(".index"@, #[trigger] folder[i]))
            ==> crate::reply::index_files_of(folder) == folder,
    decreases folder.len(),
{
    reveal(Seq::filter);
    if folder.len() > 0 {
        let rest = folder.drop_last();
        lemma_index_filter(rest);
        if forall|i: int| 0 <= i < folder.len() ==> !is_suffix(".index"@, #[trigger] folder[i]) {
            assert forall|i: int| 0 <= i < rest.len() implies !is_suffix(".index"@, #[trigger] rest[i]) by {
                assert(rest[i] == folder[i]);
            }
            assert(!is_suffix(".index"@, folder[folder.len() - 1]));
        }
        if forall|i: int| 0 <= i < folder.len() ==> is_suffix(".index"@, #[trigger] folder[i]) {
            assert forall|i: int| 0 <= i < rest.len() implies is_suffix(".index"@, #[trigger] rest[i]) by {
                assert(rest[i] == folder[i]);
            }
            assert(is_suffix(".index"@, folder[folder.len() - 1]));
            assert(rest.push(folder.last()) =~= folder);
        }
    }
}

/// The stems listing browses the folder of the Demucs model asked for (`htdemucs` when only a
/// track is asked for), and within it the folder of the track asked for; with neither, the
/// stems directory itself. A model or track that is not a plain file name is refused.
pub proof fn stems_listing_browses_model_and_track(c: Config, a: Seq<(Seq<char>, ArgView)>)
    requires
        first_bad_string(a) is None,
    ensures
        ({
            let m = text_arg(a, "model"@);
            let t = text_arg(a, "track"@);
            let r = spec_stems_dir(c, a);
            &&& (m is None && t is None) ==> r == Ok::<Seq<char>, ErrorView>(c.stems_dir@)
            &&& (m is Some && is_plain_filename(m->Some_0) && t is None) ==> r == Ok::<
                Seq<char>,
                ErrorView,
            >(c.stems_dir@ + "/"@ + m->Some_0)
            &&& (m is None && t is Some && is_plain_filename(t->Some_0)) ==> r == Ok::<
                Seq<char>,
                ErrorView,
            >(c.stems_dir@ + "/"@ + "htdemucs"@ + "/"@ + t->Some_0)
            &&& (m is Some && is_plain_filename(m->Some_0) && t is Some && is_plain_filename(
                t->Some_0,
            )) ==> r == Ok::<Seq<char>, ErrorView>(c.stems_dir@ + "/"@ + m->Some_0 + "/"@ + t->Some_0)
            &&& (m is Some && !is_plain_filename(m->Some_0)) ==> r is Err
            &&& (t is Some && !is_plain_filename(t->Some_0)) ==> r is Err
        }),
{
}

/// The file listing lists the stems directory for `stems`, the converted directory for
/// `converted`, the output directory when no subdirectory or an empty one is asked for, and
/// refuses any other.
pub proof fn file_listing_picks_the_subdirectory(c: Config, a: Seq<(Seq<char>, ArgView)>)
    requires
        first_bad_string(a) is None,
    ensures
        ({
            let sub = text_arg(a, "subdirectory"@);
            let r = spec_listed_dir(c, a);
            &&& sub == Some("stems"@) ==> r == Ok::<Seq<char>, ErrorView>(c.stems_dir@)
            &&& sub == Some("converted"@) ==> r == Ok::<Seq<char>, ErrorView>(c.converted_dir@)
            &&& (sub is None || sub == Some(Seq::<char>::empty())) ==> r == Ok::<Seq<char>, ErrorView>(
                c.output_dir@,
            )
            &&& (sub is Some && sub->Some_0.len() > 0 && sub != Some("stems"@) && sub != Some(
                "converted"@,
            )) ==> r is Err
        }),
{
    reveal_strlit("stems");
    reveal_strlit("converted");
    assert("converted"@.len() != "stems"@.len());
    assert(Seq::<char>::empty().len() != "stems"@.len());
    assert(Seq::<char>::empty().len() != "converted"@.len());
}

/// A directory listing counts every entry and names each on a line of its own, in the order
/// the directory gave them.
pub proof fn listings_count_and_name_every_entry(dir: Seq<char>, names: Seq<Seq<char>>)
    ensures
        names.len() == 0 ==> spec_listing(dir, Ok(names)) == "No files in "@ + dir,
        names.len() > 0 ==> spec_listing(dir, Ok(names)) == "Files in "@ + dir + " ("@ + decimal(
            names.len(),
        ) + "):\n"@ + join_with(names, seq!['\n']),
{
}

/// A finished run is read from its streams: on success its output, with its error stream
/// appended under `Warnings:` when there is one; on failure its exit code (`-1` when it has
/// none) with its output, or with its error stream when the output is empty.
pub proof fn finished_runs_are_read_from_their_streams(
    code: Option<i32>,
    stdout: Seq<char>,
    stderr: Seq<char>,
)
    ensures
        spec_run_outcome(true, code, stdout, Seq::empty()) == Ok::<Seq<char>, Seq<char>>(stdout),
        stderr.len() > 0 ==> spec_run_outcome(true, code, stdout, stderr) == Ok::<
            Seq<char>,
            Seq<char>,
        >(stdout + "\n\nWarnings:\n"@ + stderr),
        (code is Some && stdout.len() > 0) ==> spec_run_outcome(false, code, stdout, stderr) == Err::<
            Seq<char>,
            Seq<char>,
        >("Exit "@ + signed_decimal(code->Some_0 as int) + ": "@ + stdout),
        (code is Some && stdout.len() == 0) ==> spec_run_outcome(false, code, stdout, stderr)
            == Err::<Seq<char>, Seq<char>>(
            "Exit "@ + signed_decimal(code->Some_0 as int) + ": "@ + stderr,
        ),
        code is None ==> spec_run_outcome(false, code, Seq::empty(), stderr) == Err::<
            Seq<char>,
            Seq<char>,
        >("Exit "@ + signed_decimal(-1) + ": "@ + stderr),
{
}

} // verus!
