//! The command line of the worker process, shared by planning and agent runs.
use vstd::prelude::*;
use crate::text::push_str;

verus! {

/// Sandbox mode the worker runs under.
pub const WORKER_SANDBOX: &'static str = "danger-full-access";

/// Model the worker is asked to use.
pub const WORKER_MODEL: &'static str = "gpt-5-codex-high";

/// The views of a list of strings.
pub open spec fn views(v: Seq<String>) -> Seq<Seq<char>> {
    v.map_values(|s: String| s@)
}

/// Arguments of a worker run that resumes a clone of `parent`'s conversation
/// with `prompt`; `id_output`, when given, names the side-channel file where
/// the worker writes its new session id and transcript path.
pub open spec fn worker_args(id_output: Option<Seq<char>>, parent: Seq<char>, prompt: Seq<char>) -> Seq<
    Seq<char>,
> {
    let head = seq!["exec"@, "--print-rollout-path"@, "--skip-git-repo-check"@];
    let side = match id_output {
        Some(p) => seq!["--id-output="@ + p],
        None => Seq::empty(),
    };
    head + side + seq![
        "--sandbox"@,
        WORKER_SANDBOX@,
        "--model"@,
        WORKER_MODEL@,
        "resume-clone"@,
        parent,
        prompt,
    ]
}

/// The worker's arguments (see `worker_args`).
pub fn worker_command_args(id_output: Option<&str>, parent: &str, prompt: &str) -> (r: Vec<String>)
    ensures
        views(r@) == worker_args(
            match id_output {
                Some(p) => Some(p@),
                None => None,
            },
            parent@,
            prompt@,
        ),
{
    let mut v: Vec<String> = Vec::new();
    v.push("exec".to_owned());
    v.push("--print-rollout-path".to_owned());
    v.push("--skip-git-repo-check".to_owned());
    match id_output {
        Some(p) => {
            let mut a = "--id-output=".to_owned();
            push_str(&mut a, p);
            v.push(a);
        },
        None => {},
    }
    v.push("--sandbox".to_owned());
    v.push(WORKER_SANDBOX.to_owned());
    v.push("--model".to_owned());
    v.push(WORKER_MODEL.to_owned());
    v.push("resume-clone".to_owned());
    v.push(parent.to_owned());
    v.push(prompt.to_owned());
    assert(views(v@) =~= worker_args(
        match id_output {
            Some(p) => Some(p@),
            None => None,
        },
        parent@,
        prompt@,
    ));
    v
}

} // verus!
