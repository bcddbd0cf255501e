//! Editor launching, up to the spawn itself: resolving which command to run,
//! splitting it into words, and assembling the program, its arguments and
//! the target path. Spawning the process is a collaborator's job.

use vstd::prelude::*;

verus! {

/// What shell-style word splitting makes of a command line, `None` when the
/// line cannot be parsed; the outcome depends on the text alone.
pub uninterp spec fn shell_split(s: Seq<char>) -> Option<Seq<Seq<char>>>;

/// Relies on `shlex::split`: POSIX-like word splitting of a command line,
/// `None` on erroneous input (an unclosed quote or a dangling backslash).
#[verifier::external_body]
fn shlex_split(s: &str) -> (r: Option<Vec<String>>)
    ensures
        r is Some <==> shell_split(s@) is Some,
        r is Some ==> r->0@.map_values(|x: String| x@) == shell_split(s@)->0,
{
    shlex::split(s)
}

/// Why no editor could be launched for an entry.
#[derive(Debug)]
pub enum LaunchError {
    /// No command anywhere: the entry has no override and the environment
    /// offered no fallback.
    NoEditor,
    /// The command could not be split into words; it is carried along.
    Unparsable(String),
    /// The command split into no words at all.
    EmptyCommand,
}

/// The status text each launch error carries.
pub open spec fn error_message(e: LaunchError) -> Seq<char> {
    match e {
        LaunchError::NoEditor => "no editor set. provide one in the entry or set QUICKSWITCH_EDITOR/EDITOR"@,
        LaunchError::Unparsable(c) => "failed to parse editor command: "@ + c@,
        LaunchError::EmptyCommand => "editor command is empty"@,
    }
}

impl LaunchError {
    /// The error text a status message shows, exactly as `error_message`
    /// states it.
    pub fn message(&self) -> (r: String)
        ensures
            r@ == error_message(*self),
    {
        match self {
            LaunchError::NoEditor => String::from_str(
                "no editor set. provide one in the entry or set QUICKSWITCH_EDITOR/EDITOR",
            ),
            LaunchError::Unparsable(c) => {
                let mut out = String::from_str("failed to parse editor command: ");
                out.append(c.as_str());
                out
            },
            LaunchError::EmptyCommand => String::from_str("editor command is empty"),
        }
    }
}

/// A command ready to spawn: the program and its arguments, the target path
/// last.
#[derive(Debug)]
pub struct LaunchPlan {
    pub program: String,
    pub args: Vec<String>,
}

/// Assembles a launch plan from the split command words: the first word is
/// the program, the rest are arguments, and the target path comes last. No
/// words at all is an error.
pub fn plan_from_parts(parts: Vec<String>, path: &String) -> (r: Result<LaunchPlan, LaunchError>)
    ensures
        parts@.len() == 0 ==> r is Err && r->Err_0 is EmptyCommand,
        parts@.len() > 0 ==> r is Ok && {
            let plan = r->Ok_0;
            &&& plan.program@ == parts@[0]@
            &&& plan.args@.len() == parts@.len()
            &&& forall|i: int| 0 <= i < parts@.len() - 1 ==> #[trigger] plan.args@[i]@ == parts@[i
                + 1]@
            &&& plan.args@[parts@.len() - 1]@ == path@
        },
{
    if parts.len() == 0 {
        return Err(LaunchError::EmptyCommand);
    }
    let program = parts[0].clone();
    let mut args: Vec<String> = Vec::new();
    let mut i: usize = 1;
    while i < parts.len()
        invariant
            1 <= i <= parts@.len(),
            args@.len() == i - 1,
            forall|j: int| 0 <= j < i - 1 ==> #[trigger] args@[j]@ == parts@[j + 1]@,
        decreases parts.len() - i,
    {
        args.push(parts[i].clone());
        i = i + 1;
    }
    args.push(path.clone());
    Ok(LaunchPlan { program, args })
}

/// Exactly which plan or error comes out of resolving and splitting an
/// entry's editor command — its own override, else the environment fallback —
/// against a target path.
pub open spec fn plan_outcome(
    entry_editor: Option<Seq<char>>,
    env_editor: Option<Seq<char>>,
    path: Seq<char>,
    r: Result<LaunchPlan, LaunchError>,
) -> bool {
    if entry_editor is None && env_editor is None {
        r is Err && r->Err_0 is NoEditor
    } else {
        let cmd = if entry_editor is Some {
            entry_editor->0
        } else {
            env_editor->0
        };
        match shell_split(cmd) {
            Option::None => r is Err && r->Err_0 is Unparsable && r->Err_0->Unparsable_0@ == cmd,
            Option::Some(words) => {
                if words.len() == 0 {
                    r is Err && r->Err_0 is EmptyCommand
                } else {
                    r is Ok && {
                        let plan = r->Ok_0;
                        &&& plan.program@ == words[0]
                        &&& plan.args@.len() == words.len()
                        &&& forall|i: int| 0 <= i < words.len() - 1 ==> #[trigger] plan.args@[i]@
                            == words[i + 1]
                        &&& plan.args@[words.len() - 1]@ == path
                    }
                }
            },
        }
    }
}

/// Resolves the command to launch for an entry — its own override, else the
/// environment fallback — splits it into words, and assembles the plan; each
/// failure names its reason. `plan_outcome` states the result exactly.
pub fn build_launch_plan(
    entry_editor: &Option<String>,
    env_editor: &Option<String>,
    path: &String,
) -> (r: Result<LaunchPlan, LaunchError>)
    ensures
        plan_outcome(
            crate::paths::opt_view(*entry_editor),
            crate::paths::opt_view(*env_editor),
            path@,
            r,
        ),
{
    let command = match entry_editor {
        Some(c) => c.clone(),
        None => match env_editor {
            Some(c) => c.clone(),
            None => {
                return Err(LaunchError::NoEditor);
            },
        },
    };
    match shlex_split(command.as_str()) {
        None => Err(LaunchError::Unparsable(command)),
        Some(parts) => {
            let ghost words = shell_split(command@)->0;
            proof {
                assert(parts@.map_values(|x: String| x@).len() == words.len());
                assert forall|i: int| 0 <= i < parts@.len() implies #[trigger] parts@[i]@
                    == words[i] by {
                    assert(parts@.map_values(|x: String| x@)[i] == words[i]);
                }
            }
            plan_from_parts(parts, path)
        },
    }
}

} // verus!
