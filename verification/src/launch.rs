//! Running a Python script of a virtual environment: what is run, the checks made before it
//! starts, and how its exit is read.
use vstd::prelude::*;

use crate::reply::texts;
use crate::text::{contains_seq, contains_text, decimal, decimal_text, signed_decimal, signed_decimal_text};

verus! {

/// A Python script run: the virtual environment whose interpreter runs it, the interpreter's
/// arguments (the script first), the working directory, and a time budget in milliseconds.
#[derive(Debug, PartialEq, Eq)]
pub struct PythonJob {
    pub venv: String,
    pub args: Vec<String>,
    pub cwd: String,
    pub timeout_ms: u64,
}

/// The mathematical meaning of a [`PythonJob`].
pub struct JobView {
    pub venv: Seq<char>,
    pub args: Seq<Seq<char>>,
    pub cwd: Seq<char>,
    pub timeout_ms: u64,
}

impl View for PythonJob {
    type V = JobView;

    open spec fn view(&self) -> JobView {
        JobView {
            venv: self.venv@,
            args: texts(self.args@),
            cwd: self.cwd@,
            timeout_ms: self.timeout_ms,
        }
    }
}

/// The two dots that step up a directory.
pub open spec fn dot_dot() -> Seq<char> {
    seq!['.', '.']
}

/// The interpreter of the virtual environment `venv`: `bin/python` joined to it as a path.
pub open spec fn spec_python_binary(venv: Seq<char>) -> Seq<char> {
    if venv.len() == 0 {
        "bin/python"@
    } else if venv[venv.len() - 1] == '/' {
        venv + "bin/python"@
    } else {
        venv + "/bin/python"@
    }
}

/// The interpreter of the virtual environment `venv`.
pub fn python_binary_path(venv: &str) -> (p: String)
    ensures
        p@ == spec_python_binary(venv@),
{
    let n = venv.unicode_len();
    if n == 0 {
        String::from_str("bin/python")
    } else if venv.get_char(n - 1) == '/' {
        let mut p = String::from_str(venv);
        p.append("bin/python");
        p
    } else {
        let mut p = String::from_str(venv);
        p.append("/bin/python");
        p
    }
}

/// `i` is the first argument that holds `..`.
pub open spec fn is_first_traversing_arg(args: Seq<Seq<char>>, i: int) -> bool {
    &&& 0 <= i < args.len()
    &&& contains_seq(args[i], dot_dot())
    &&& forall|k: int| 0 <= k < i ==> !contains_seq(#[trigger] args[k], dot_dot())
}

/// Whether `job` may start, given whether its interpreter exists and whether its working
/// directory is a directory; when it may not, the reason.
pub open spec fn spec_launch_check(job: JobView, python_found: bool, cwd_is_dir: bool) -> Result<
    (),
    Seq<char>,
> {
    if contains_seq(job.venv, dot_dot()) {
        Err("Venv path contains traversal sequence"@)
    } else if !python_found {
        Err("Python binary not found in the configured environment"@)
    } else if !cwd_is_dir {
        Err("Working directory does not exist"@)
    } else if exists|i: int| is_first_traversing_arg(job.args, i) {
        let i = choose|i: int| is_first_traversing_arg(job.args, i);
        Err("Argument contains path traversal: "@ + job.args[i])
    } else {
        Ok(())
    }
}

/// Checks `job` before it starts, given whether its interpreter exists and whether its
/// working directory is a directory. The reasons name no configured path.
pub fn check_python_launch(job: &PythonJob, python_found: bool, cwd_is_dir: bool) -> (r: Result<
    (),
    String,
>)
    ensures
        match r {
            Ok(()) => spec_launch_check(job@, python_found, cwd_is_dir) is Ok,
            Err(e) => spec_launch_check(job@, python_found, cwd_is_dir) == Err::<(), Seq<char>>(
                e@,
            ),
        },
        r is Ok ==> forall|i: int|
            0 <= i < job.args@.len() ==> !contains_seq(#[trigger] job.args@[i]@, dot_dot()),
{
    proof {
        reveal_strlit("..");
        assert(".."@ =~= dot_dot());
    }
    if contains_text(job.venv.as_str(), "..") {
        return Err(String::from_str("Venv path contains traversal sequence"));
    }
    if !python_found {
        return Err(String::from_str("Python binary not found in the configured environment"));
    }
    if !cwd_is_dir {
        return Err(String::from_str("Working directory does not exist"));
    }
    let ghost args = texts(job.args@);
    let n = job.args.len();
    let mut i: usize = 0;
    while i < n
        invariant
            n == job.args.len(),
            i <= n,
            args == texts(job.args@),
            !contains_seq(job.venv@, dot_dot()),
            python_found,
            cwd_is_dir,
            forall|k: int| 0 <= k < i ==> !contains_seq(#[trigger] args[k], dot_dot()),
        decreases n - i,
    {
        proof {
            reveal_strlit("..");
            assert(".."@ =~= dot_dot());
            assert(args[i as int] == job.args@[i as int]@);
        }
        if contains_text(job.args[i].as_str(), "..") {
            proof {
                assert(is_first_traversing_arg(args, i as int));
                let j = choose|j: int| is_first_traversing_arg(args, j);
                if j < i {
                    assert(!contains_seq(args[j], dot_dot()));
                } else if j > i {
                    assert(!contains_seq(args[i as int], dot_dot()));
                }
                assert(j == i);
            }
            let mut e = String::from_str("Argument contains path traversal: ");
            e.append(job.args[i].as_str());
            assert(job@.args == args);
            assert(e@ == "Argument contains path traversal: "@ + args[i as int]);
            return Err(e);
        }
        i = i + 1;
    }
    proof {
        assert forall|i: int| !is_first_traversing_arg(args, i) by {
            if 0 <= i < args.len() {
                assert(!contains_seq(args[i], dot_dot()));
            }
        }
        assert forall|i: int| 0 <= i < job.args@.len() implies !contains_seq(
            #[trigger] job.args@[i]@,
            dot_dot(),
        ) by {
            assert(args[i] == job.args@[i]@);
        }
    }
    Ok(())
}

/// How a finished run is read: on success its standard output, followed by its standard
/// error under `Warnings:` when there is any; otherwise its exit code (`-1` when it has
/// none) with its standard output, or its standard error when the output is empty.
pub open spec fn spec_run_outcome(
    success: bool,
    code: Option<i32>,
    stdout: Seq<char>,
    stderr: Seq<char>,
) -> Result<Seq<char>, Seq<char>> {
    if success {
        if stderr.len() == 0 {
            Ok(stdout)
        } else {
            Ok(stdout + "\n\nWarnings:\n"@ + stderr)
        }
    } else {
        let c: int = match code {
            Some(c) => c as int,
            None => -1,
        };
        Err("Exit "@ + signed_decimal(c) + ": "@ + if stdout.len() == 0 {
            stderr
        } else {
            stdout
        })
    }
}

/// Reads a finished run from its exit status and its two output streams.
pub fn run_outcome(success: bool, code: Option<i32>, stdout: String, stderr: String) -> (r: Result<
    String,
    String,
>)
    ensures
        crate::reply::outcome_view(r) == spec_run_outcome(success, code, stdout@, stderr@),
{
    if success {
        if stderr.as_str().is_empty() {
            Ok(stdout)
        } else {
            let mut s = stdout;
            s.append("\n\nWarnings:\n");
            s.append(stderr.as_str());
            Ok(s)
        }
    } else {
        let c: i64 = match code {
            Some(c) => c as i64,
            None => -1,
        };
        let mut e = String::from_str("Exit ");
        let num = signed_decimal_text(c);
        e.append(num.as_str());
        e.append(": ");
        if stdout.as_str().is_empty() {
            e.append(stderr.as_str());
        } else {
            e.append(stdout.as_str());
        }
        Err(e)
    }
}

/// How a run that exceeded its time budget of `timeout_ms` milliseconds is read.
pub open spec fn spec_timed_out(timeout_ms: u64) -> Result<Seq<char>, Seq<char>> {
    Err("Timed out after "@ + decimal(timeout_ms as nat) + "ms"@)
}

/// Reads a run that was stopped because it exceeded its time budget.
pub fn timed_out_outcome(timeout_ms: u64) -> (r: Result<String, String>)
    ensures
        crate::reply::outcome_view(r) == spec_timed_out(timeout_ms),
{
    let mut e = String::from_str("Timed out after ");
    let num = decimal_text(timeout_ms);
    e.append(num.as_str());
    e.append("ms");
    Err(e)
}

} // verus!
