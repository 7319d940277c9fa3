//! Which paths and file names are accepted, decided from the text of the path and from what
//! the file system reported about it.
use vstd::prelude::*;

use crate::launch::dot_dot;
use crate::reply::{ErrorView, ToolError};
use crate::text::{chars_of, contains_char, contains_seq, contains_text, is_prefix};

verus! {

/// What the file system reported about a path: its canonical form when it exists, whether
/// the path has a parent at all, and the canonical form of that parent when it exists.
#[derive(Debug, PartialEq, Eq)]
pub struct PathProbe {
    pub canonical: Option<String>,
    pub has_parent: bool,
    pub parent_canonical: Option<String>,
}

/// The mathematical meaning of a [`PathProbe`].
pub struct ProbeView {
    pub canonical: Option<Seq<char>>,
    pub has_parent: bool,
    pub parent_canonical: Option<Seq<char>>,
}

/// The view of an optional string.
pub open spec fn opt_text(o: Option<String>) -> Option<Seq<char>> {
    match o {
        Some(s) => Some(s@),
        None => None,
    }
}

impl View for PathProbe {
    type V = ProbeView;

    open spec fn view(&self) -> ProbeView {
        ProbeView {
            canonical: opt_text(self.canonical),
            has_parent: self.has_parent,
            parent_canonical: opt_text(self.parent_canonical),
        }
    }
}

/// The views of a sequence of string slices.
pub open spec fn str_texts(v: Seq<&str>) -> Seq<Seq<char>> {
    v.map_values(|s: &str| s@)
}

/// The view of a result that carries a string on success and text on failure.
pub open spec fn path_result_view(r: Result<String, String>) -> Result<Seq<char>, Seq<char>> {
    match r {
        Ok(s) => Ok(s@),
        Err(e) => Err(e@),
    }
}

/// Whether a configured directory is accepted: paths holding `..` are refused; an existing
/// path stands for its canonical form; a missing one is kept as written when its parent
/// exists, so that it can still be created.
pub open spec fn spec_env_path(raw: Seq<char>, label: Seq<char>, probe: ProbeView) -> Result<
    Seq<char>,
    Seq<char>,
> {
    if contains_seq(raw, dot_dot()) {
        Err(label + ": path contains traversal sequence (..): "@ + raw)
    } else {
        match probe.canonical {
            Some(c) => Ok(c),
            None => if !probe.has_parent {
                Err(label + ": invalid path: "@ + raw)
            } else if probe.parent_canonical is Some {
                Ok(raw)
            } else {
                Err(label + ": path does not exist: "@ + raw)
            },
        }
    }
}

/// Checks a configured directory `raw`, named `label` in messages, given what the file system
/// reported about it.
pub fn check_env_path(raw: &str, label: &str, probe: &PathProbe) -> (r: Result<String, String>)
    ensures
        path_result_view(r) == spec_env_path(raw@, label@, probe@),
{
    proof {
        reveal_strlit("..");
        assert(".."@ =~= dot_dot());
    }
    if contains_text(raw, "..") {
        let mut e = String::from_str(label);
        e.append(": path contains traversal sequence (..): ");
        e.append(raw);
        return Err(e);
    }
    match &probe.canonical {
        Some(c) => Ok(c.clone()),
        None => {
            if !probe.has_parent {
                let mut e = String::from_str(label);
                e.append(": invalid path: ");
                e.append(raw);
                Err(e)
            } else if probe.parent_canonical.is_some() {
                Ok(String::from_str(raw))
            } else {
                let mut e = String::from_str(label);
                e.append(": path does not exist: ");
                e.append(raw);
                Err(e)
            }
        },
    }
}

/// `b` without trailing `/` characters, keeping a lone `/`.
pub open spec fn strip_trailing_slashes(b: Seq<char>) -> Seq<char>
    decreases b.len(),
{
    if b.len() > 1 && b[b.len() - 1] == '/' {
        strip_trailing_slashes(b.subrange(0, b.len() - 1))
    } else {
        b
    }
}

/// The canonical path `p` is the directory `base` or lies inside it, compared component by
/// component: `/out2/x` is not inside `/out`, `/out/x` is, and so is `/out` itself.
pub open spec fn is_within(base: Seq<char>, p: Seq<char>) -> bool {
    let b = strip_trailing_slashes(base);
    if b.len() == 0 {
        true
    } else if b == seq!['/'] {
        p.len() > 0 && p[0] == '/'
    } else {
        is_prefix(b, p) && (p.len() == b.len() || p[b.len() as int] == '/')
    }
}

/// Whether the canonical path `p` is the directory `base` or lies inside it.
pub fn within_text(base: &str, p: &str) -> (r: bool)
    ensures
        r == is_within(base@, p@),
{
    let bs = chars_of(base);
    let ps = chars_of(p);
    let mut e: usize = bs.len();
    assert(base@.subrange(0, e as int) =~= base@);
    while e > 1 && bs[e - 1] == '/'
        invariant
            bs@ == base@,
            e <= bs.len(),
            strip_trailing_slashes(base@) == strip_trailing_slashes(base@.subrange(0, e as int)),
        decreases e,
    {
        assert(base@.subrange(0, e as int).subrange(0, e - 1) =~= base@.subrange(0, e - 1));
        e = e - 1;
    }
    let ghost b = base@.subrange(0, e as int);
    assert(strip_trailing_slashes(base@) == b);
    if e == 0 {
        return true;
    }
    if e == 1 && bs[0] == '/' {
        assert(b =~= seq!['/']);
        return ps.len() > 0 && ps[0] == '/';
    }
    assert(b != seq!['/']);
    if e > ps.len() {
        assert(b.len() > p@.len());
        return false;
    }
    let mut i: usize = 0;
    while i < e
        invariant
            bs@ == base@,
            ps@ == p@,
            e <= bs.len(),
            e <= ps.len(),
            i <= e,
            b == base@.subrange(0, e as int),
            strip_trailing_slashes(base@) == b,
            b.len() > 0,
            b != seq!['/'],
            forall|k: int| 0 <= k < i ==> bs@[k] == ps@[k],
        decreases e - i,
    {
        if bs[i] != ps[i] {
            assert(p@.subrange(0, e as int)[i as int] != b[i as int]);
            return false;
        }
        i = i + 1;
    }
    assert(p@.subrange(0, e as int) =~= b);
    ps.len() == e || ps[e] == '/'
}

/// `p` lies within one of `bases`.
pub open spec fn under_some_base(bases: Seq<Seq<char>>, p: Seq<char>) -> bool {
    exists|i: int| 0 <= i < bases.len() && is_within(#[trigger] bases[i], p)
}

/// Whether a path given by a caller is accepted: it must be non-empty and hold no `..`. An
/// existing path stands for its canonical form, which must lie within one of `bases` unless
/// there are none. A missing path is kept as written when its parent exists and the parent's
/// canonical form lies within one of `bases` (or there are none).
pub open spec fn spec_user_path(raw: Seq<char>, bases: Seq<Seq<char>>, probe: ProbeView) -> Result<
    Seq<char>,
    Seq<char>,
> {
    if raw.len() == 0 {
        Err("Path cannot be empty"@)
    } else if contains_seq(raw, dot_dot()) {
        Err("Path contains traversal sequence (..): "@ + raw)
    } else {
        match probe.canonical {
            Some(c) => if bases.len() == 0 || under_some_base(bases, c) {
                Ok(c)
            } else {
                Err("Path "@ + raw + " resolves outside allowed directories"@)
            },
            None => match probe.parent_canonical {
                Some(pc) => if bases.len() == 0 || under_some_base(bases, pc) {
                    Ok(raw)
                } else {
                    Err("Path "@ + raw + " resolves outside allowed directories"@)
                },
                None => Err("Path does not exist: "@ + raw),
            },
        }
    }
}

/// Whether `p` lies within one of `bases`.
fn under_some_base_text(bases: &Vec<&str>, p: &str) -> (b: bool)
    ensures
        b == under_some_base(str_texts(bases@), p@),
{
    let ghost views = str_texts(bases@);
    let n = bases.len();
    let mut i: usize = 0;
    while i < n
        invariant
            n == bases.len(),
            i <= n,
            views == str_texts(bases@),
            forall|k: int| 0 <= k < i ==> !is_within(#[trigger] views[k], p@),
        decreases n - i,
    {
        assert(views[i as int] == bases@[i as int]@);
        if within_text(bases[i], p) {
            return true;
        }
        i = i + 1;
    }
    false
}

/// Whether `p` may be used given the allowed directories: there are none, or it lies within
/// one of them.
fn allowed_by(bases: &Vec<&str>, p: &str) -> (b: bool)
    ensures
        b == (bases@.len() == 0 || under_some_base(str_texts(bases@), p@)),
{
    bases.len() == 0 || under_some_base_text(bases, p)
}

/// Checks a path given by a caller against the directories it may lie in, given what the
/// file system reported about it.
pub fn check_user_path(raw: &str, allowed_bases: &Vec<&str>, probe: &PathProbe) -> (r: Result<
    String,
    String,
>)
    ensures
        path_result_view(r) == spec_user_path(raw@, str_texts(allowed_bases@), probe@),
        r is Ok ==> raw@.len() > 0 && !contains_seq(raw@, dot_dot()),
{
    proof {
        reveal_strlit("..");
        assert(".."@ =~= dot_dot());
    }
    if raw.is_empty() {
        return Err(String::from_str("Path cannot be empty"));
    }
    if contains_text(raw, "..") {
        let mut e = String::from_str("Path contains traversal sequence (..): ");
        e.append(raw);
        return Err(e);
    }
    let target = match &probe.canonical {
        Some(c) => c,
        None => match &probe.parent_canonical {
            Some(pc) => pc,
            None => {
                let mut e = String::from_str("Path does not exist: ");
                e.append(raw);
                return Err(e);
            },
        },
    };
    if allowed_by(allowed_bases, target.as_str()) {
        match &probe.canonical {
            Some(c) => Ok(c.clone()),
            None => Ok(String::from_str(raw)),
        }
    } else {
        let mut e = String::from_str("Path ");
        e.append(raw);
        e.append(" resolves outside allowed directories");
        Err(e)
    }
}

/// A plain file name: non-empty, with no separator of either kind and no `..`.
pub open spec fn is_plain_filename(name: Seq<char>) -> bool {
    &&& name.len() > 0
    &&& !name.contains('/')
    &&& !name.contains('\\')
    &&& !contains_seq(name, dot_dot())
}

/// Checks that `name`, called `label` in the message, is a plain file name.
pub fn validate_filename(name: &str, label: &str) -> (r: Result<(), ToolError>)
    ensures
        r is Ok <==> is_plain_filename(name@),
        r matches Err(e) ==> e@ == ErrorView::Input(
            label@ + " must be a plain filename (e.g. 'matthew.pth')"@,
        ),
{
    proof {
        reveal_strlit("..");
        assert(".."@ =~= dot_dot());
    }
    if name.is_empty() || contains_char(name, '/') || contains_char(name, '\\') || contains_text(
        name,
        "..",
    ) {
        let mut m = String::from_str(label);
        m.append(" must be a plain filename (e.g. 'matthew.pth')");
        return Err(ToolError::InputValidation(m));
    }
    Ok(())
}

} // verus!
