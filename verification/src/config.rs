//! Where the tools, their virtual environments, their scripts and their outputs live, and how
//! long each kind of run may take.
use vstd::prelude::*;

use crate::paths::{opt_text, str_texts};
use crate::text::chars_of;

verus! {

/// The directories and scripts that the tools use, derived from the studio directory, the
/// optional RVC directory and the output directory, with the time budgets of the runs.
#[derive(Debug, PartialEq, Eq)]
pub struct Config {
    pub music_studio_dir: String,
    pub rvc_dir: Option<String>,
    pub output_dir: String,
    pub stems_dir: String,
    pub converted_dir: String,
    pub musicgen_venv: String,
    pub rvc_venv: Option<String>,
    pub musicgen_script: String,
    pub stems_script: String,
    pub rvc_infer_script: Option<String>,
    pub rvc_weights_dir: Option<String>,
    pub rvc_index_dir: Option<String>,
    pub generate_timeout_ms: u64,
    pub stems_timeout_ms: u64,
    pub convert_timeout_ms: u64,
}

/// `base` followed by `suffix` when `base` is set.
pub open spec fn opt_join(base: Option<Seq<char>>, suffix: Seq<char>) -> Option<Seq<char>> {
    match base {
        Some(b) => Some(b + suffix),
        None => None,
    }
}

/// The configuration derived from its base directories.
pub open spec fn spec_config_well_derived(c: Config) -> bool {
    &&& c.stems_dir@ == c.output_dir@ + "/stems"@
    &&& c.converted_dir@ == c.output_dir@ + "/converted"@
    &&& c.musicgen_venv@ == c.music_studio_dir@ + "/.venv"@
    &&& c.musicgen_script@ == c.music_studio_dir@ + "/generate-music.py"@
    &&& c.stems_script@ == c.music_studio_dir@ + "/separate-stems.py"@
    &&& opt_text(c.rvc_venv) == opt_join(opt_text(c.rvc_dir), "/.venv"@)
    &&& opt_text(c.rvc_infer_script) == opt_join(opt_text(c.rvc_dir), "/tools/cmd/infer_cli.py"@)
    &&& opt_text(c.rvc_weights_dir) == opt_join(opt_text(c.rvc_dir), "/assets/weights"@)
    &&& opt_text(c.rvc_index_dir) == opt_join(opt_text(c.rvc_dir), "/logs"@)
}

/// The message for a required setting that is not set.
pub open spec fn missing_setting_message(name: Seq<char>) -> Seq<char> {
    name + " is required but not set"@
}

/// A required setting: its value, or why the server cannot start without it.
pub fn required_setting(name: &str, value: Option<String>) -> (r: Result<String, String>)
    ensures
        match r {
            Ok(v) => value matches Some(x) && v@ == x@,
            Err(e) => value is None && e@ == missing_setting_message(name@),
        },
{
    match value {
        Some(v) => Ok(v),
        None => {
            let mut e = String::from_str(name);
            e.append(" is required but not set");
            Err(e)
        },
    }
}

/// The output directory used when none is configured, for the home directory `home`.
pub fn default_output_dir(home: &str) -> (d: String)
    ensures
        d@ == home@ + "/Desktop/AI-Music"@,
{
    let mut d = String::from_str(home);
    d.append("/Desktop/AI-Music");
    d
}

/// The value of a decimal digit character.
pub open spec fn digit_value(c: char) -> int {
    (c as u32) - ('0' as u32)
}

/// A decimal digit character.
pub open spec fn is_digit(c: char) -> bool {
    '0' as u32 <= c as u32 <= '9' as u32
}

/// The number written by the decimal digits `s`.
pub open spec fn digits_value(s: Seq<char>) -> int
    decreases s.len(),
{
    if s.len() == 0 {
        0
    } else {
        digits_value(s.subrange(0, s.len() - 1)) * 10 + digit_value(s[s.len() - 1])
    }
}

/// The number of milliseconds that `s` writes: one or more decimal digits whose value fits
/// in a `u64`.
pub open spec fn parse_millis(s: Seq<char>) -> Option<u64> {
    if s.len() > 0 && (forall|i: int| 0 <= i < s.len() ==> is_digit(#[trigger] s[i]))
        && digits_value(s) <= u64::MAX {
        Some(digits_value(s) as u64)
    } else {
        None
    }
}

/// A longer run of digits writes at least as much as its beginning.
proof fn lemma_digits_grow(s: Seq<char>, i: int, j: int)
    requires
        0 <= i <= j <= s.len(),
        forall|k: int| 0 <= k < s.len() ==> is_digit(#[trigger] s[k]),
    ensures
        digits_value(s.subrange(0, i)) <= digits_value(s.subrange(0, j)),
        digits_value(s.subrange(0, i)) >= 0,
    decreases j,
{
    if j > 0 {
        let k = if i < j { i } else { j - 1 };
        lemma_digits_grow(s, k, j - 1);
        assert(s.subrange(0, j).subrange(0, j - 1) =~= s.subrange(0, j - 1));
        assert(s.subrange(0, j)[j - 1] == s[j - 1]);
        assert(is_digit(s[j - 1]));
    }
}

/// The number of milliseconds that `s` writes, if it is a decimal number within `u64`.
pub fn parse_millis_text(s: &str) -> (r: Option<u64>)
    ensures
        r == parse_millis(s@),
{
    let cs = chars_of(s);
    let n = cs.len();
    if n == 0 {
        return None;
    }
    let mut i: usize = 0;
    while i < n
        invariant
            n == cs.len(),
            cs@ == s@,
            i <= n,
            forall|k: int| 0 <= k < i ==> is_digit(#[trigger] s@[k]),
        decreases n - i,
    {
        if !((cs[i] as u32) >= ('0' as u32) && (cs[i] as u32) <= ('9' as u32)) {
            assert(!is_digit(s@[i as int]));
            return None;
        }
        i = i + 1;
    }
    let mut acc: u64 = 0;
    let mut j: usize = 0;
    assert(s@.subrange(0, 0).len() == 0);
    while j < n
        invariant
            n == cs.len(),
            n > 0,
            cs@ == s@,
            j <= n,
            forall|k: int| 0 <= k < n ==> is_digit(#[trigger] s@[k]),
            acc as int == digits_value(s@.subrange(0, j as int)),
        decreases n - j,
    {
        let d: u64 = ((cs[j] as u32) - ('0' as u32)) as u64;
        assert(s@.subrange(0, j + 1).subrange(0, j as int) =~= s@.subrange(0, j as int));
        assert(s@.subrange(0, j + 1)[j as int] == s@[j as int]);
        let next = match acc.checked_mul(10) {
            Some(m) => m.checked_add(d),
            None => None,
        };
        match next {
            Some(v) => {
                acc = v;
            },
            None => {
                proof {
                    lemma_digits_grow(s@, j + 1, n as int);
                    assert(s@.subrange(0, n as int) =~= s@);
                }
                return None;
            },
        }
        j = j + 1;
    }
    assert(s@.subrange(0, n as int) =~= s@);
    Some(acc)
}

/// A time budget setting in milliseconds: its value when it is a decimal number within
/// `u64`, otherwise `default_ms`.
pub open spec fn spec_timeout_setting(value: Option<Seq<char>>, default_ms: u64) -> u64 {
    match value {
        Some(v) => match parse_millis(v) {
            Some(ms) => ms,
            None => default_ms,
        },
        None => default_ms,
    }
}

/// A time budget setting in milliseconds.
pub fn timeout_setting(value: Option<String>, default_ms: u64) -> (ms: u64)
    ensures
        ms == spec_timeout_setting(opt_text(value), default_ms),
{
    match &value {
        Some(v) => match parse_millis_text(v.as_str()) {
            Some(ms) => ms,
            None => default_ms,
        },
        None => default_ms,
    }
}

/// The time budget of a MusicGen run when none is configured.
pub const DEFAULT_GENERATE_TIMEOUT_MS: u64 = 600000;

/// The time budget of a Demucs run when none is configured.
pub const DEFAULT_STEMS_TIMEOUT_MS: u64 = 600000;

/// The time budget of an RVC run when none is configured.
pub const DEFAULT_CONVERT_TIMEOUT_MS: u64 = 300000;

/// `base` followed by `suffix`.
fn joined(base: &String, suffix: &str) -> (s: String)
    ensures
        s@ == base@ + suffix@,
{
    let mut s = base.clone();
    s.append(suffix);
    s
}

/// `base` followed by `suffix` when `base` is set.
fn opt_joined(base: &Option<String>, suffix: &str) -> (s: Option<String>)
    ensures
        opt_text(s) == opt_join(opt_text(*base), suffix@),
{
    match base {
        Some(b) => Some(joined(b, suffix)),
        None => None,
    }
}

impl Config {
    /// The configuration for the given studio, RVC and output directories and time budgets.
    pub fn from_settings(
        music_studio_dir: String,
        rvc_dir: Option<String>,
        output_dir: String,
        generate_timeout_ms: u64,
        stems_timeout_ms: u64,
        convert_timeout_ms: u64,
    ) -> (c: Config)
        ensures
            c.music_studio_dir@ == music_studio_dir@,
            opt_text(c.rvc_dir) == opt_text(rvc_dir),
            c.output_dir@ == output_dir@,
            c.generate_timeout_ms == generate_timeout_ms,
            c.stems_timeout_ms == stems_timeout_ms,
            c.convert_timeout_ms == convert_timeout_ms,
            spec_config_well_derived(c),
    {
        Config {
            stems_dir: joined(&output_dir, "/stems"),
            converted_dir: joined(&output_dir, "/converted"),
            musicgen_venv: joined(&music_studio_dir, "/.venv"),
            rvc_venv: opt_joined(&rvc_dir, "/.venv"),
            musicgen_script: joined(&music_studio_dir, "/generate-music.py"),
            stems_script: joined(&music_studio_dir, "/separate-stems.py"),
            rvc_infer_script: opt_joined(&rvc_dir, "/tools/cmd/infer_cli.py"),
            rvc_weights_dir: opt_joined(&rvc_dir, "/assets/weights"),
            rvc_index_dir: opt_joined(&rvc_dir, "/logs"),
            music_studio_dir,
            rvc_dir,
            output_dir,
            generate_timeout_ms,
            stems_timeout_ms,
            convert_timeout_ms,
        }
    }

    /// The directories that paths given by callers may lie in.
    pub open spec fn spec_allowed_bases(&self) -> Seq<Seq<char>> {
        seq![
            self.output_dir@,
            self.stems_dir@,
            self.converted_dir@,
            self.music_studio_dir@,
        ] + match self.rvc_dir {
            Some(d) => seq![d@],
            None => Seq::empty(),
        }
    }

    /// The directories that paths given by callers may lie in: the output directory, its stems
    /// and converted directories, the studio directory and, when set, the RVC directory.
    pub fn allowed_bases(&self) -> (v: Vec<&str>)
        ensures
            str_texts(v@) == self.spec_allowed_bases(),
    {
        let mut v: Vec<&str> = Vec::new();
        v.push(self.output_dir.as_str());
        v.push(self.stems_dir.as_str());
        v.push(self.converted_dir.as_str());
        v.push(self.music_studio_dir.as_str());
        match &self.rvc_dir {
            Some(d) => v.push(d.as_str()),
            None => {},
        }
        assert(str_texts(v@) =~= self.spec_allowed_bases());
        v
    }
}

} // verus!
