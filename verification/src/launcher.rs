//! What to run for a session and how to stop it: the command line, the
//! environment and the steps of a termination, as plain data for the
//! caller to carry out.

use vstd::prelude::*;
use vstd::string::StringExecFns;
use crate::config::{Config, Platform};
use crate::text::{copy_optional, optional_text, texts};

verus! {

/// Whether a launch opens a new session or resumes the one with the given
/// native id.
#[derive(Debug, Clone, PartialEq, Eq)]
pub enum LaunchMode {
    Start,
    Resume(String),
}

/// A process to start: the program, its arguments one by one, where to
/// run it, what to add to its environment, whether to keep a console
/// window from showing, and whether the child is to lead a process group
/// of its own, whose id is then the child's process id. Both output
/// streams are always piped.
#[derive(Debug, Clone, PartialEq, Eq)]
pub struct LaunchPlan {
    pub program: String,
    pub args: Vec<String>,
    pub work_dir: Option<String>,
    pub env: Vec<(String, String)>,
    pub hide_window: bool,
    pub own_group: bool,
}

/// One step of stopping a process tree.
#[derive(Debug, Clone, PartialEq, Eq)]
pub enum TerminateStep {
    /// Run a command to its end and ignore how it ends.
    Run { program: String, args: Vec<String> },
    /// Let the given number of milliseconds pass.
    Wait { millis: u64 },
}

/// The mathematical value of a termination step.
pub enum StepModel {
    Run { program: Seq<char>, args: Seq<Seq<char>> },
    Wait { millis: u64 },
}

/// The characters of each name and value of a list of pairs.
pub open spec fn pairs(list: Seq<(String, String)>) -> Seq<(Seq<char>, Seq<char>)> {
    Seq::new(list.len(), |i: int| (list[i].0@, list[i].1@))
}

impl View for TerminateStep {
    type V = StepModel;

    open spec fn view(&self) -> StepModel {
        match *self {
            TerminateStep::Run { program, args } => StepModel::Run {
                program: program@,
                args: texts(args@),
            },
            TerminateStep::Wait { millis } => StepModel::Wait { millis },
        }
    }
}

/// The models of a list of steps.
pub open spec fn steps(list: Seq<TerminateStep>) -> Seq<StepModel> {
    Seq::new(list.len(), |i: int| list[i]@)
}

/// The decimal digit for a number below ten.
pub open spec fn digit(d: nat) -> char {
    if d == 0 {
        '0'
    } else if d == 1 {
        '1'
    } else if d == 2 {
        '2'
    } else if d == 3 {
        '3'
    } else if d == 4 {
        '4'
    } else if d == 5 {
        '5'
    } else if d == 6 {
        '6'
    } else if d == 7 {
        '7'
    } else if d == 8 {
        '8'
    } else {
        '9'
    }
}

/// A number in decimal, without sign or leading zeros.
pub open spec fn decimal(n: nat) -> Seq<char>
    decreases n,
{
    if n < 10 {
        seq![digit(n)]
    } else {
        decimal(n / 10).push(digit(n % 10))
    }
}

/// The arguments that select the structured output stream and carry the
/// permission mode and the message: the message comes last, a resume
/// directive first.
pub open spec fn session_args(
    permission_mode: Seq<char>,
    resume: Option<Seq<char>>,
    message: Seq<char>,
) -> Seq<Seq<char>> {
    let common = seq![
        "--print"@,
        "--verbose"@,
        "--output-format"@,
        "stream-json"@,
        "--permission-mode"@,
        permission_mode,
        message,
    ];
    match resume {
        Some(id) => seq!["--resume"@, id] + common,
        None => common,
    }
}

/// The native session id that a mode resumes, if it resumes one.
pub open spec fn resumed(mode: LaunchMode) -> Option<Seq<char>> {
    match mode {
        LaunchMode::Start => None,
        LaunchMode::Resume(id) => Some(id@),
    }
}

/// The program that a launch starts: on Windows the command interpreter,
/// which then runs the configured command; elsewhere the command itself.
pub open spec fn launch_program(platform: Platform, command: Seq<char>) -> Seq<char> {
    match platform {
        Platform::Windows => "cmd"@,
        Platform::Unix => command,
    }
}

/// The arguments of a launch: on Windows the interpreter's `/c` and the
/// configured command go before the session's arguments.
pub open spec fn launch_args(
    platform: Platform,
    command: Seq<char>,
    permission_mode: Seq<char>,
    resume: Option<Seq<char>>,
    message: Seq<char>,
) -> Seq<Seq<char>> {
    match platform {
        Platform::Windows => seq!["/c"@, command] + session_args(permission_mode, resume, message),
        Platform::Unix => session_args(permission_mode, resume, message),
    }
}

/// What a launch adds to the child's environment: the helper shell's
/// path, where one is configured.
pub open spec fn launch_env(helper: Option<Seq<char>>) -> Seq<(Seq<char>, Seq<char>)> {
    match helper {
        Some(path) => seq![("CLAUDE_CODE_GIT_BASH_PATH"@, path)],
        None => Seq::empty(),
    }
}

/// Whether a launch on this platform makes the child the leader of a
/// process group of its own: where the host has no command that kills a
/// tree, the group stands for the tree.
pub open spec fn leads_group(platform: Platform) -> bool {
    platform == Platform::Unix
}

/// How the `kill` command is told to signal every process of the group
/// that `pid` leads: the id with a hyphen before it.
pub open spec fn group_of(pid: u32) -> Seq<char> {
    "-"@ + decimal(pid as nat)
}

/// The steps that stop the process tree rooted at `pid`.
///
/// On Windows one forced kill of the tree. Elsewhere the tree is the
/// process group that the child leads since its launch: a request to
/// end to every process of the group, half a second of grace, and a
/// forced kill of every process of the group; a descendant that has
/// left the group of its own accord is not reached. There no child has
/// the id 0 or 1, which as groups mean the caller's own group and every
/// process, so for them there is no step. Every step is safe to take
/// when the processes are gone already.
pub open spec fn stop_steps(platform: Platform, pid: u32) -> Seq<StepModel> {
    match platform {
        Platform::Windows => seq![
            StepModel::Run {
                program: "taskkill"@,
                args: seq!["/F"@, "/T"@, "/PID"@, decimal(pid as nat)],
            },
        ],
        Platform::Unix => if pid <= 1 {
            Seq::empty()
        } else {
            seq![
                StepModel::Run { program: "kill"@, args: seq!["-TERM"@, "--"@, group_of(pid)] },
                StepModel::Wait { millis: 500 },
                StepModel::Run { program: "kill"@, args: seq!["-9"@, "--"@, group_of(pid)] },
            ]
        },
    }
}

/// The one-character text of a decimal digit.
fn digit_text(d: u32) -> (text: &'static str)
    requires
        d < 10,
    ensures
        text@ == seq![digit(d as nat)],
{
    proof {
        reveal_strlit("0");
        reveal_strlit("1");
        reveal_strlit("2");
        reveal_strlit("3");
        reveal_strlit("4");
        reveal_strlit("5");
        reveal_strlit("6");
        reveal_strlit("7");
        reveal_strlit("8");
        reveal_strlit("9");
    }
    let text = if d == 0 {
        "0"
    } else if d == 1 {
        "1"
    } else if d == 2 {
        "2"
    } else if d == 3 {
        "3"
    } else if d == 4 {
        "4"
    } else if d == 5 {
        "5"
    } else if d == 6 {
        "6"
    } else if d == 7 {
        "7"
    } else if d == 8 {
        "8"
    } else {
        "9"
    };
    assert(text@ =~= seq![digit(d as nat)]);
    text
}

/// A process id in decimal.
pub fn decimal_text(n: u32) -> (text: String)
    ensures
        text@ == decimal(n as nat),
    decreases n,
{
    if n < 10 {
        String::from_str(digit_text(n))
    } else {
        let text = decimal_text(n / 10).concat(digit_text(n % 10));
        assert(text@ =~= decimal((n / 10) as nat).push(digit((n % 10) as nat)));
        text
    }
}

/// The command that starts the child for one message of a session.
///
/// Arguments are kept apart, never joined into one string; the helper
/// shell's path goes into the environment, not among the arguments.
pub fn plan_launch(platform: Platform, config: &Config, mode: &LaunchMode, message: &str) -> (plan:
    LaunchPlan)
    ensures
        plan.program@ == launch_program(platform, config.claude_cmd@),
        texts(plan.args@) == launch_args(
            platform,
            config.claude_cmd@,
            config.permission_mode@,
            resumed(*mode),
            message@,
        ),
        plan.work_dir == config.work_dir,
        pairs(plan.env@) == launch_env(optional_text(config.git_bin_path)),
        plan.hide_window == (platform == Platform::Windows),
        plan.own_group == leads_group(platform),
{
    let mut args: Vec<String> = Vec::new();
    let program = match platform {
        Platform::Windows => {
            args.push(String::from_str("/c"));
            args.push(config.claude_cmd.clone());
            String::from_str("cmd")
        },
        Platform::Unix => config.claude_cmd.clone(),
    };
    match mode {
        LaunchMode::Resume(id) => {
            args.push(String::from_str("--resume"));
            args.push(id.clone());
        },
        LaunchMode::Start => {},
    }
    args.push(String::from_str("--print"));
    args.push(String::from_str("--verbose"));
    args.push(String::from_str("--output-format"));
    args.push(String::from_str("stream-json"));
    args.push(String::from_str("--permission-mode"));
    args.push(config.permission_mode.clone());
    args.push(String::from_str(message));
    let mut env: Vec<(String, String)> = Vec::new();
    match &config.git_bin_path {
        Some(path) => {
            env.push((String::from_str("CLAUDE_CODE_GIT_BASH_PATH"), path.clone()));
        },
        None => {},
    }
    proof {
        assert(texts(args@) =~= launch_args(
            platform,
            config.claude_cmd@,
            config.permission_mode@,
            resumed(*mode),
            message@,
        ));
        assert(pairs(env@) =~= launch_env(optional_text(config.git_bin_path)));
    }
    LaunchPlan {
        program,
        args,
        work_dir: copy_optional(&config.work_dir),
        env,
        hide_window: platform == Platform::Windows,
        own_group: platform == Platform::Unix,
    }
}

/// What a plain run of the tool adds to the child's environment: on
/// Windows the path of the helper binary, `git` where none is
/// configured; elsewhere nothing.
pub open spec fn process_env(platform: Platform, helper: Option<Seq<char>>) -> Seq<
    (Seq<char>, Seq<char>),
> {
    match platform {
        Platform::Windows => seq![
            (
                "CLAUDE_CODE_GIT_BIN_PATH"@,
                match helper {
                    Some(path) => path,
                    None => "git"@,
                },
            ),
        ],
        Platform::Unix => Seq::empty(),
    }
}

/// The command that runs the tool itself with the given arguments, in
/// the configured directory where that exists.
pub fn plan_process(
    platform: Platform,
    config: &Config,
    args: &Vec<String>,
    work_dir_exists: bool,
) -> (plan: LaunchPlan)
    ensures
        plan.program@ == config.claude_cmd@,
        texts(plan.args@) == texts(args@),
        plan.work_dir == if work_dir_exists {
            config.work_dir
        } else {
            None
        },
        pairs(plan.env@) == process_env(platform, optional_text(config.git_bin_path)),
        !plan.hide_window,
        !plan.own_group,
{
    let mut copies: Vec<String> = Vec::new();
    let mut i: usize = 0;
    while i < args.len()
        invariant
            i <= args.len(),
            copies.len() == i,
            forall|j: int| 0 <= j < i ==> copies@[j]@ == args@[j]@,
        decreases args.len() - i,
    {
        copies.push(args[i].clone());
        i += 1;
    }
    assert(texts(copies@) =~= texts(args@));
    let mut env: Vec<(String, String)> = Vec::new();
    match platform {
        Platform::Windows => {
            let helper = match &config.git_bin_path {
                Some(path) => path.clone(),
                None => String::from_str("git"),
            };
            env.push((String::from_str("CLAUDE_CODE_GIT_BIN_PATH"), helper));
        },
        Platform::Unix => {},
    }
    assert(pairs(env@) =~= process_env(platform, optional_text(config.git_bin_path)));
    LaunchPlan {
        program: config.claude_cmd.clone(),
        args: copies,
        work_dir: if work_dir_exists {
            copy_optional(&config.work_dir)
        } else {
            None
        },
        env,
        hide_window: false,
        own_group: false,
    }
}

/// How the `kill` command is told to signal the group that `pid` leads.
pub fn group_text(pid: u32) -> (text: String)
    ensures
        text@ == group_of(pid),
{
    String::from_str("-").concat(decimal_text(pid).as_str())
}

/// The steps that stop the process tree rooted at `pid`: the child of a
/// launch planned by `plan_launch`, with whatever it has started since.
pub fn terminate_plan(platform: Platform, pid: u32) -> (plan: Vec<TerminateStep>)
    ensures
        steps(plan@) == stop_steps(platform, pid),
{
    let mut plan: Vec<TerminateStep> = Vec::new();
    match platform {
        Platform::Windows => {
            let mut args: Vec<String> = Vec::new();
            args.push(String::from_str("/F"));
            args.push(String::from_str("/T"));
            args.push(String::from_str("/PID"));
            args.push(decimal_text(pid));
            assert(texts(args@) =~= seq!["/F"@, "/T"@, "/PID"@, decimal(pid as nat)]);
            plan.push(TerminateStep::Run { program: String::from_str("taskkill"), args });
        },
        Platform::Unix => {
            if pid > 1 {
                let mut ask: Vec<String> = Vec::new();
                ask.push(String::from_str("-TERM"));
                ask.push(String::from_str("--"));
                ask.push(group_text(pid));
                assert(texts(ask@) =~= seq!["-TERM"@, "--"@, group_of(pid)]);
                let mut force: Vec<String> = Vec::new();
                force.push(String::from_str("-9"));
                force.push(String::from_str("--"));
                force.push(group_text(pid));
                assert(texts(force@) =~= seq!["-9"@, "--"@, group_of(pid)]);
                plan.push(TerminateStep::Run { program: String::from_str("kill"), args: ask });
                plan.push(TerminateStep::Wait { millis: 500 });
                plan.push(TerminateStep::Run { program: String::from_str("kill"), args: force });
            }
        },
    }
    assert(steps(plan@) =~= stop_steps(platform, pid));
    plan
}

/// Where the steps of a stop address a group, the launch of a session
/// made the child the leader of that group; and each step that runs a
/// command there addresses the group, never the one process.
pub proof fn lemma_stop_reaches_the_group(pid: u32, at: int)
    requires
        pid > 1,
        0 <= at < 3,
    ensures
        leads_group(Platform::Unix),
        !leads_group(Platform::Windows),
        stop_steps(Platform::Unix, pid).len() == 3,
        stop_steps(Platform::Unix, pid)[at] matches StepModel::Run { program, args }
            ==> program == "kill"@ && args.last() == group_of(pid),
        stop_steps(Platform::Unix, pid)[1] == (StepModel::Wait { millis: 500 }),
        stop_steps(Platform::Windows, pid) == seq![
            StepModel::Run {
                program: "taskkill"@,
                args: seq!["/F"@, "/T"@, "/PID"@, decimal(pid as nat)],
            },
        ],
{
}

/// The message is always the last argument of a launch.
pub proof fn lemma_message_last(
    platform: Platform,
    command: Seq<char>,
    permission_mode: Seq<char>,
    resume: Option<Seq<char>>,
    message: Seq<char>,
)
    ensures
        launch_args(platform, command, permission_mode, resume, message).last() == message,
{
}

} // verus!
