use vstd::prelude::*;

use crate::text::ends_with_ci;
use crate::text::ends_with_ci4;
use crate::text::opt_view;
use crate::text::str_views;

verus! {

/// Request to run the external agent once.
///
/// The agent-type label is informational only; the prompt is handed to the
/// agent; `flags` are opaque extra arguments appended verbatim and last;
/// `tools_allowed` restricts the agent's tools; `system_append` is optional
/// text added to the system prompt; `resume_id` resumes an earlier session.
#[derive(Debug)]
pub struct AgentRequest {
    pub agent_type: String,
    pub prompt: String,
    pub flags: Vec<String>,
    pub tools_allowed: Vec<String>,
    pub system_append: Option<String>,
    pub resume_id: Option<String>,
}

/// Spawns and manages processes of the external agent executable.
pub struct AgentRunner {
    pub claude_path: String,
}

/// The operating-system family the invocation is prepared for. On `Windows`
/// script files cannot be launched directly by the process-creation
/// primitive and are wrapped through the command interpreter.
#[derive(Debug, Clone, Copy, PartialEq, Eq, Structural)]
pub enum Platform {
    Unix,
    Windows,
}

/// The items of `ts` joined with a single comma between neighbours, in
/// input order.
pub open spec fn comma_joined(ts: Seq<Seq<char>>) -> Seq<char>
    decreases ts.len(),
{
    if ts.len() == 0 {
        Seq::empty()
    } else if ts.len() == 1 {
        ts[0]
    } else {
        comma_joined(ts.drop_last()) + ","@ + ts.last()
    }
}

/// The argument vector derived from one request: the fixed-position
/// arguments first (prompt flag and prompt, streaming output format,
/// verbosity), then, each only when applicable and in this order, the
/// allowed-tools flag with the comma-joined tool list, the system-prompt
/// append flag with its text, the resume flag with its identifier, and
/// finally the caller's free-form flags verbatim.
pub open spec fn built_args(
    prompt: Seq<char>,
    flags: Seq<Seq<char>>,
    tools: Seq<Seq<char>>,
    system_append: Option<Seq<char>>,
    resume_id: Option<Seq<char>>,
) -> Seq<Seq<char>> {
    seq!["-p"@, prompt, "--output-format"@, "stream-json"@, "--verbose"@] + (if tools.len() > 0 {
        seq!["--allowedTools"@, comma_joined(tools)]
    } else {
        Seq::empty()
    }) + (match system_append {
        Some(s) => seq!["--append-system-prompt"@, s],
        None => Seq::empty(),
    }) + (match resume_id {
        Some(r) => seq!["--resume"@, r],
        None => Seq::empty(),
    }) + flags
}

/// The arguments that `build_command` produces for `request`.
pub open spec fn built_args_of(request: AgentRequest) -> Seq<Seq<char>> {
    built_args(
        request.prompt@,
        str_views(request.flags@),
        str_views(request.tools_allowed@),
        opt_view(request.system_append),
        opt_view(request.resume_id),
    )
}

/// Joins strings with a comma between neighbours, in input order.
pub fn join_comma(items: &Vec<String>) -> (r: String)
    ensures
        r@ == comma_joined(str_views(items@)),
{
    let ghost ts = str_views(items@);
    let mut r = String::new();
    let mut i: usize = 0;
    while i < items.len()
        invariant
            ts == str_views(items@),
            i <= items.len(),
            r@ == comma_joined(ts.subrange(0, i as int)),
        decreases items.len() - i,
    {
        if i > 0 {
            r.append(",");
        }
        r.append(items[i].as_str());
        proof {
            let pre = ts.subrange(0, i as int);
            let pre1 = ts.subrange(0, i + 1);
            assert(pre1.drop_last() =~= pre);
            assert(pre1.last() == ts[i as int]);
            assert(ts[i as int] == items@[i as int]@);
            if i == 0 {
                assert(comma_joined(pre1) == pre1[0]);
            } else {
                assert(comma_joined(pre1) == comma_joined(pre) + ","@ + pre1.last());
            }
        }
        i += 1;
    }
    proof {
        assert(ts.subrange(0, items@.len() as int) =~= ts);
    }
    r
}

/// Copies a vector of strings.
fn clone_strings(v: &Vec<String>) -> (r: Vec<String>)
    ensures
        str_views(r@) == str_views(v@),
{
    let mut r: Vec<String> = Vec::new();
    let mut i: usize = 0;
    while i < v.len()
        invariant
            i <= v.len(),
            r@.len() == i,
            forall|k: int| 0 <= k < i ==> r@[k]@ == v@[k]@,
        decreases v.len() - i,
    {
        r.push(v[i].clone());
        i += 1;
    }
    proof {
        assert(str_views(r@) =~= str_views(v@));
    }
    r
}

impl AgentRunner {
    pub fn new(claude_path: String) -> (r: AgentRunner)
        ensures
            r.claude_path == claude_path,
    {
        AgentRunner { claude_path }
    }

    /// Builds the argument list for the external agent executable. This is a
    /// pure, total function of the request: the exact list is `built_args_of`,
    /// and `lemma_build_command_layout` spells out its layout.
    pub fn build_command(&self, request: &AgentRequest) -> (args: Vec<String>)
        ensures
            str_views(args@) == built_args_of(*request),
    {
        let ghost goal = built_args_of(*request);
        let mut args: Vec<String> = Vec::new();
        args.push(String::from_str("-p"));
        args.push(request.prompt.clone());
        args.push(String::from_str("--output-format"));
        args.push(String::from_str("stream-json"));
        args.push(String::from_str("--verbose"));

        if request.tools_allowed.len() > 0 {
            args.push(String::from_str("--allowedTools"));
            args.push(join_comma(&request.tools_allowed));
        }
        match &request.system_append {
            Some(s) => {
                args.push(String::from_str("--append-system-prompt"));
                args.push(s.clone());
            },
            None => {},
        }
        match &request.resume_id {
            Some(rid) => {
                args.push(String::from_str("--resume"));
                args.push(rid.clone());
            },
            None => {},
        }
        let ghost fixed_len = args@.len() as int;
        proof {
            assert(fixed_len + request.flags@.len() == goal.len());
            assert(forall|k: int| 0 <= k < fixed_len ==> args@[k]@ == goal[k]);
            assert(forall|k: int|
                0 <= k < request.flags@.len() ==> goal[fixed_len + k] == request.flags@[k]@);
        }
        let mut i: usize = 0;
        while i < request.flags.len()
            invariant
                args@.len() == fixed_len + i,
                i <= request.flags.len(),
                fixed_len + request.flags@.len() == goal.len(),
                forall|k: int| 0 <= k < args@.len() ==> args@[k]@ == goal[k],
                forall|k: int|
                    0 <= k < request.flags@.len() ==> goal[fixed_len + k] == request.flags@[k]@,
            decreases request.flags.len() - i,
        {
            args.push(request.flags[i].clone());
            i += 1;
        }
        proof {
            assert(str_views(args@) =~= goal);
        }
        args
    }

    /// Resolves the actual executable and argument vector to invoke. On
    /// `Windows`, a path whose extension denotes a shell-script type is
    /// wrapped through the command interpreter: interpreter executable, its
    /// flag, the original path, then the original arguments. Everything else
    /// is invoked directly with the unwrapped arguments.
    pub fn prepare_platform_command(&self, platform: Platform, args: &Vec<String>) -> (r: (
        String,
        Vec<String>,
    ))
        ensures
            platform == Platform::Windows && script_path(self.claude_path@) ==> r.0@ == "cmd.exe"@
                && str_views(r.1@) == seq!["/c"@, self.claude_path@] + str_views(args@),
            !(platform == Platform::Windows && script_path(self.claude_path@)) ==> r.0@
                == self.claude_path@ && str_views(r.1@) == str_views(args@),
    {
        let wrap = match platform {
            Platform::Windows => {
                ends_with_ci4(self.claude_path.as_str(), '.', 'c', 'm', 'd') || ends_with_ci4(
                    self.claude_path.as_str(),
                    '.',
                    'b',
                    'a',
                    't',
                )
            },
            Platform::Unix => false,
        };
        if wrap {
            let mut cmd_args: Vec<String> = Vec::new();
            cmd_args.push(String::from_str("/c"));
            cmd_args.push(self.claude_path.clone());
            let mut rest = clone_strings(args);
            cmd_args.append(&mut rest);
            proof {
                assert(str_views(cmd_args@) =~= seq!["/c"@, self.claude_path@] + str_views(
                    args@,
                ));
            }
            (String::from_str("cmd.exe"), cmd_args)
        } else {
            (self.claude_path.clone(), clone_strings(args))
        }
    }
}

/// The layout of the built argument list, spelled out: the prompt flag is
/// immediately followed by the exact prompt text, the streaming-format and
/// verbosity flags are always present, the allowed-tools flag appears
/// exactly when the tool list is non-empty and is followed by the tools
/// comma-joined in input order, the system-append and resume flags appear
/// exactly when those fields are present, each followed by its value, and
/// the list ends with the caller's free-form flags in their original order.
pub proof fn lemma_build_command_layout(request: AgentRequest)
    ensures
        ({
            let args = built_args_of(request);
            let tools = str_views(request.tools_allowed@);
            let flags = str_views(request.flags@);
            let t: int = if tools.len() > 0 { 2 } else { 0 };
            let s: int = if request.system_append is Some { 2 } else { 0 };
            let z: int = if request.resume_id is Some { 2 } else { 0 };
            &&& args.len() == 5 + t + s + z + flags.len()
            &&& args[0] == "-p"@
            &&& args[1] == request.prompt@
            &&& args[2] == "--output-format"@
            &&& args[3] == "stream-json"@
            &&& args[4] == "--verbose"@
            &&& tools.len() > 0 ==> args[5] == "--allowedTools"@ && args[6] == comma_joined(tools)
            &&& match opt_view(request.system_append) {
                Some(sa) => args[5 + t] == "--append-system-prompt"@ && args[6 + t] == sa,
                None => true,
            }
            &&& match opt_view(request.resume_id) {
                Some(rid) => args[5 + t + s] == "--resume"@ && args[6 + t + s] == rid,
                None => true,
            }
            &&& args.subrange(args.len() - flags.len(), args.len() as int) =~= flags
        }),
{
    let args = built_args_of(request);
    let flags = str_views(request.flags@);
    assert(args.subrange(args.len() - flags.len(), args.len() as int) =~= flags);
}

/// The path names a script that the process-creation primitive cannot launch
/// directly: its extension is `.cmd` or `.bat` in any character case.
pub open spec fn script_path(path: Seq<char>) -> bool {
    ends_with_ci(path, seq!['.', 'c', 'm', 'd']) || ends_with_ci(path, seq!['.', 'b', 'a', 't'])
}

} // verus!
