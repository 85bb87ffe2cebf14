//! The two-phase launch: a discovery run of the runtime that prints where the
//! system image lives, then the interactive run configured from that answer.
//! The decisions are a state machine; the caller performs each action and
//! reports its outcome as the next event.
use vstd::prelude::*;
use crate::config::{Config, parse_config, resolve_payload};
use crate::error::{LaunchError, message_text};
use crate::validate::{
    validate_identifier,
    validate_version,
    is_ascii_identifier,
    semver_accepts,
    IDENTIFIER_MESSAGE,
    VERSION_MESSAGE,
};

verus! {

/// The runtime executable, for both runs.
pub const RUNTIME_PROGRAM: &'static str = "julia";

/// Environment variable that receives the depot path.
pub const DEPOT_VARIABLE: &'static str = "JULIA_DEPOT_PATH";

/// Environment variable that receives the load path.
pub const LOAD_PATH_VARIABLE: &'static str = "JULIA_LOAD_PATH";

/// File name of the discovery script in the temporary-files directory.
pub const SCRIPT_FILE_NAME: &'static str = "system-image-loader.jl";

/// What the user asked for, validated.
#[derive(Debug)]
pub struct Request {
    pub julia: String,
    pub image: String,
    pub package: String,
    pub julia_args: Vec<String>,
}

/// The views of a sequence of strings.
pub open spec fn views_of(v: Seq<String>) -> Seq<Seq<char>> {
    v.map_values(|s: String| s@)
}

/// The views of a sequence of environment assignments.
pub open spec fn env_views_of(v: Seq<(String, String)>) -> Seq<(Seq<char>, Seq<char>)> {
    v.map_values(|p: (String, String)| (p.0@, p.1@))
}

impl Request {
    /// The version parses and both names are ASCII identifiers.
    pub open spec fn is_valid(&self) -> bool {
        &&& semver_accepts(self.julia@)
        &&& is_ascii_identifier(self.image@)
        &&& is_ascii_identifier(self.package@)
    }

    /// Validates the version, then the image name, then the package name;
    /// the first malformed one is reported as `InvalidInput`.
    pub fn new(julia: &str, image: &str, package: &str, julia_args: Vec<String>) -> (r: Result<
        Request,
        LaunchError,
    >)
        ensures
            r is Ok <==> semver_accepts(julia@) && is_ascii_identifier(image@)
                && is_ascii_identifier(package@),
            r matches Ok(q) ==> q.julia@ == julia@ && q.image@ == image@ && q.package@
                == package@ && q.julia_args == julia_args,
            r matches Err(e) ==> e matches LaunchError::InvalidInput { value, expected } && (if !semver_accepts(julia@) {
                value@ == julia@ && expected@ == VERSION_MESSAGE@
            } else if !is_ascii_identifier(image@) {
                value@ == image@ && expected@ == IDENTIFIER_MESSAGE@
            } else {
                value@ == package@ && expected@ == IDENTIFIER_MESSAGE@
            }),
    {
        let julia = match validate_version(julia) {
            Ok(v) => v,
            Err(m) => {
                return Err(invalid_input(julia, m));
            },
        };
        let image = match validate_identifier(image) {
            Ok(v) => v,
            Err(m) => {
                return Err(invalid_input(image, m));
            },
        };
        let package = match validate_identifier(package) {
            Ok(v) => v,
            Err(m) => {
                return Err(invalid_input(package, m));
            },
        };
        Ok(Request { julia, image, package, julia_args })
    }
}

fn invalid_input(value: &str, expected: &str) -> (e: LaunchError)
    ensures
        e matches LaunchError::InvalidInput { value: v, expected: x } && v@ == value@ && x@
            == expected@,
{
    LaunchError::InvalidInput { value: value.to_owned(), expected: expected.to_owned() }
}

/// The discovery script: import the package, ask it for the configuration of
/// the image and print that configuration as TOML.
pub open spec fn script_text(package: Seq<char>, image: Seq<char>) -> Seq<char> {
    "import "@ + package + "; "@ + package + ".SystemImageLoader.toml("@ + package + ".config(:"@
        + image + "))"@
}

/// The text of the discovery script for `package` and `image`.
pub fn discovery_script(package: &str, image: &str) -> (r: String)
    ensures
        r@ == script_text(package@, image@),
{
    let mut s = String::from_str("import ");
    s.append(package);
    s.append("; ");
    s.append(package);
    s.append(".SystemImageLoader.toml(");
    s.append(package);
    s.append(".config(:");
    s.append(image);
    s.append("))");
    s
}

/// Arguments of the discovery run: the runtime version, a fast start (no
/// startup file, minimal compilation, no colour) and the script's path.
pub open spec fn discovery_arguments(julia: Seq<char>, script_path: Seq<char>) -> Seq<Seq<char>> {
    seq!["+"@ + julia, "--startup-file=no"@, "--compile=min"@, "--color=no"@, script_path]
}

/// The arguments of the discovery run.
pub fn discovery_args(julia: &str, script_path: &str) -> (r: Vec<String>)
    ensures
        views_of(r@) == discovery_arguments(julia@, script_path@),
{
    let mut version = String::from_str("+");
    version.append(julia);
    let r = vec![
        version,
        String::from_str("--startup-file=no"),
        String::from_str("--compile=min"),
        String::from_str("--color=no"),
        script_path.to_owned(),
    ];
    assert(views_of(r@) =~= discovery_arguments(julia@, script_path@));
    r
}

/// Arguments of the interactive run: the user's arguments in order, then the
/// system image.
pub open spec fn child_arguments(julia_args: Seq<Seq<char>>, image: Seq<char>) -> Seq<Seq<char>> {
    julia_args.push("--sysimage="@ + image)
}

/// The arguments of the interactive run.
pub fn child_args(julia_args: &Vec<String>, image: &str) -> (r: Vec<String>)
    ensures
        views_of(r@) == child_arguments(views_of(julia_args@), image@),
{
    let mut r: Vec<String> = Vec::new();
    let mut i: usize = 0;
    while i < julia_args.len()
        invariant
            i <= julia_args@.len(),
            r@.len() == i,
            forall|j: int| 0 <= j < i ==> #[trigger] r@[j]@ == julia_args@[j]@,
        decreases julia_args@.len() - i,
    {
        r.push(julia_args[i].clone());
        i = i + 1;
    }
    let mut flag = String::from_str("--sysimage=");
    flag.append(image);
    r.push(flag);
    assert(views_of(r@) =~= child_arguments(views_of(julia_args@), image@));
    r
}

/// Environment of the interactive run: the depot and the load path.
pub open spec fn child_environment(depot: Seq<char>, load_path: Seq<char>) -> Seq<
    (Seq<char>, Seq<char>),
> {
    seq![(DEPOT_VARIABLE@, depot), (LOAD_PATH_VARIABLE@, load_path)]
}

/// The environment assignments of the interactive run.
pub fn child_env(depot: &str, load_path: &str) -> (r: Vec<(String, String)>)
    ensures
        env_views_of(r@) == child_environment(depot@, load_path@),
{
    let r = vec![
        (String::from_str(DEPOT_VARIABLE), depot.to_owned()),
        (String::from_str(LOAD_PATH_VARIABLE), load_path.to_owned()),
    ];
    assert(env_views_of(r@) =~= child_environment(depot@, load_path@));
    r
}

/// The exit code of a finished run: the runtime's own code, or 1 where it
/// was ended by a signal and has none.
pub open spec fn exit_code_of(code: Option<i32>) -> i32 {
    match code {
        Some(c) => c,
        None => 1,
    }
}

/// The exit code for how the interactive run ended.
pub fn exit_code(code: Option<i32>) -> (r: i32)
    ensures
        r == exit_code_of(code),
{
    match code {
        Some(c) => c,
        None => 1,
    }
}

/// Where a run stands. Each non-terminal phase waits for the outcome of the
/// action issued on entering it.
#[derive(Clone, Copy, PartialEq, Eq, Structural, Debug)]
pub enum Phase {
    /// The request is valid; the script is being written.
    Validated,
    /// The script is written; the discovery run is under way.
    ScriptWritten,
    /// The configuration is decoded; the interrupt handler is being installed.
    ConfigParsed,
    /// The interactive run is under way.
    ChildRunning,
    /// The run is over with this exit code.
    Done(i32),
    /// The run is over with an error.
    Failed,
}

/// The outcome of the action last issued.
#[derive(Debug)]
pub enum Event {
    ScriptWritten,
    ScriptWriteFailed { cause: String },
    DiscoveryExited { success: bool, stdout: String, stderr: String },
    DiscoverySpawnFailed { cause: String },
    HandlerInstalled,
    HandlerFailed { cause: String },
    ChildExited { code: Option<i32> },
    ChildSpawnFailed { cause: String },
    ChildWaitFailed { cause: String },
}

/// What the caller is to do next.
#[derive(Debug)]
pub enum Action {
    /// Write `contents` to the file at `path`.
    WriteScript { path: String, contents: String },
    /// Run `program` with `args`, capturing its status and output.
    RunDiscovery { program: String, args: Vec<String> },
    /// Install an interrupt handler that does nothing.
    InstallInterruptHandler,
    /// Start `program` with `args` and `env` added to the inherited environment, and wait.
    SpawnChild { program: String, args: Vec<String>, env: Vec<(String, String)> },
    /// End the process with `code`.
    Exit { code: i32 },
    /// Report `error` and end the process unsuccessfully.
    Abort { error: LaunchError },
}

/// Whether `phase` waits for `event`.
pub open spec fn expects(phase: Phase, event: Event) -> bool {
    match phase {
        Phase::Validated => event is ScriptWritten || event is ScriptWriteFailed,
        Phase::ScriptWritten => event is DiscoveryExited || event is DiscoverySpawnFailed,
        Phase::ConfigParsed => event is HandlerInstalled || event is HandlerFailed,
        Phase::ChildRunning => event is ChildExited || event is ChildSpawnFailed
            || event is ChildWaitFailed,
        _ => false,
    }
}

/// One run of the launcher.
#[derive(Debug)]
pub struct Launcher {
    pub request: Request,
    pub script_path: String,
    pub phase: Phase,
    /// The decoded configuration, once discovery has answered.
    pub config: Option<Config>,
}

impl Launcher {
    /// A valid request, and a configuration once discovery has answered.
    pub open spec fn well_formed(&self) -> bool {
        &&& self.request.is_valid()
        &&& (self.phase == Phase::ConfigParsed || self.phase == Phase::ChildRunning)
            ==> self.config is Some
    }

    /// Starts a run of `request` whose discovery script lives at `script_path`;
    /// the first action writes the script.
    pub fn new(request: Request, script_path: String) -> (r: (Launcher, Action))
        requires
            request.is_valid(),
        ensures
            r.0.well_formed(),
            r.0.request == request,
            r.0.script_path == script_path,
            r.0.phase == Phase::Validated,
            r.0.config is None,
            r.1 matches Action::WriteScript { path, contents } && path@ == script_path@
                && contents@ == script_text(request.package@, request.image@),
    {
        let contents = discovery_script(request.package.as_str(), request.image.as_str());
        let path = script_path.clone();
        (
            Launcher { request, script_path, phase: Phase::Validated, config: None },
            Action::WriteScript { path, contents },
        )
    }

    /// Whether the run waits for `event` now.
    pub fn expects(&self, event: &Event) -> (r: bool)
        ensures
            r == expects(self.phase, *event),
    {
        match self.phase {
            Phase::Validated => match event {
                Event::ScriptWritten | Event::ScriptWriteFailed { .. } => true,
                _ => false,
            },
            Phase::ScriptWritten => match event {
                Event::DiscoveryExited { .. } | Event::DiscoverySpawnFailed { .. } => true,
                _ => false,
            },
            Phase::ConfigParsed => match event {
                Event::HandlerInstalled | Event::HandlerFailed { .. } => true,
                _ => false,
            },
            Phase::ChildRunning => match event {
                Event::ChildExited { .. } | Event::ChildSpawnFailed { .. }
                | Event::ChildWaitFailed { .. } => true,
                _ => false,
            },
            _ => false,
        }
    }

    /// Takes the outcome of the last action and returns the next one.
    pub fn step(&mut self, event: Event) -> (r: Action)
        requires
            old(self).well_formed(),
            expects(old(self).phase, event),
        ensures
            final(self).well_formed(),
            final(self).request == old(self).request,
            final(self).script_path == old(self).script_path,
            step_taken(*old(self), event, *final(self), r),
    {
        match event {
            Event::ScriptWritten => {
                self.phase = Phase::ScriptWritten;
                let program = String::from_str(RUNTIME_PROGRAM);
                let args = discovery_args(
                    self.request.julia.as_str(),
                    self.script_path.as_str(),
                );
                Action::RunDiscovery { program, args }
            },
            Event::ScriptWriteFailed { cause } => {
                self.phase = Phase::Failed;
                Action::Abort {
                    error: LaunchError::ScriptWrite { path: self.script_path.clone(), cause },
                }
            },
            Event::DiscoveryExited { success, stdout, stderr } => {
                if !success {
                    self.phase = Phase::Failed;
                    return Action::Abort { error: LaunchError::DiscoveryFailure { stderr } };
                }
                match parse_config(stdout.as_str()) {
                    Ok(config) => {
                        self.phase = Phase::ConfigParsed;
                        self.config = Some(config);
                        Action::InstallInterruptHandler
                    },
                    Err(error) => {
                        self.phase = Phase::Failed;
                        Action::Abort { error }
                    },
                }
            },
            Event::DiscoverySpawnFailed { cause } => {
                self.phase = Phase::Failed;
                Action::Abort { error: LaunchError::DiscoverySpawn { cause } }
            },
            Event::HandlerInstalled => {
                self.phase = Phase::ChildRunning;
                let config = self.config.as_ref().unwrap();
                let program = String::from_str(RUNTIME_PROGRAM);
                let args = child_args(&self.request.julia_args, config.image.as_str());
                let env = child_env(config.depot.as_str(), config.load_path.as_str());
                Action::SpawnChild { program, args, env }
            },
            Event::HandlerFailed { cause } => {
                self.phase = Phase::Failed;
                Action::Abort { error: LaunchError::SignalHandler { cause } }
            },
            Event::ChildExited { code } => {
                let code = exit_code(code);
                self.phase = Phase::Done(code);
                Action::Exit { code }
            },
            Event::ChildSpawnFailed { cause } => {
                self.phase = Phase::Failed;
                Action::Abort { error: LaunchError::ChildSpawn { cause } }
            },
            Event::ChildWaitFailed { cause } => {
                self.phase = Phase::Failed;
                Action::Abort { error: LaunchError::ChildWait { cause } }
            },
        }
    }
}

/// How one event moves a run from `pre` to `post`, issuing `action`.
pub open spec fn step_taken(pre: Launcher, event: Event, post: Launcher, action: Action) -> bool {
    match event {
        Event::ScriptWritten => {
            &&& post.phase == Phase::ScriptWritten
            &&& post.config == pre.config
            &&& action matches Action::RunDiscovery { program, args } && program@
                == RUNTIME_PROGRAM@ && views_of(args@) == discovery_arguments(
                pre.request.julia@,
                pre.script_path@,
            )
        },
        Event::ScriptWriteFailed { cause } => {
            &&& post.phase == Phase::Failed
            &&& post.config == pre.config
            &&& action matches Action::Abort {
                error: LaunchError::ScriptWrite { path, cause: c },
            } && path@ == pre.script_path@ && c == cause
        },
        Event::DiscoveryExited { success, stdout, stderr } => if !success {
            &&& post.phase == Phase::Failed
            &&& post.config == pre.config
            &&& action matches Action::Abort { error: LaunchError::DiscoveryFailure { stderr: e } }
                && e == stderr
        } else {
            match resolve_payload(stdout@) {
                Some(c) => {
                    &&& post.phase == Phase::ConfigParsed
                    &&& post.config matches Some(pc) && pc@ == c
                    &&& action is InstallInterruptHandler
                },
                None => {
                    &&& post.phase == Phase::Failed
                    &&& post.config == pre.config
            &&& post.config == pre.config
                    &&& action matches Action::Abort {
                        error: LaunchError::ConfigParse { payload },
                    } && payload@ == stdout@
                },
            }
        },
        Event::DiscoverySpawnFailed { cause } => {
            &&& post.phase == Phase::Failed
            &&& post.config == pre.config
            &&& action matches Action::Abort { error: LaunchError::DiscoverySpawn { cause: c } }
                && c == cause
        },
        Event::HandlerInstalled => {
            &&& post.phase == Phase::ChildRunning
            &&& post.config == pre.config
            &&& pre.config matches Some(c) && action matches Action::SpawnChild {
                program,
                args,
                env,
            } && program@ == RUNTIME_PROGRAM@ && views_of(args@) == child_arguments(
                views_of(pre.request.julia_args@),
                c.image@,
            ) && env_views_of(env@) == child_environment(c.depot@, c.load_path@)
        },
        Event::HandlerFailed { cause } => {
            &&& post.phase == Phase::Failed
            &&& post.config == pre.config
            &&& action matches Action::Abort { error: LaunchError::SignalHandler { cause: c } }
                && c == cause
        },
        Event::ChildExited { code } => {
            &&& post.phase == Phase::Done(exit_code_of(code))
            &&& post.config == pre.config
            &&& action == Action::Exit { code: exit_code_of(code) }
        },
        Event::ChildSpawnFailed { cause } => {
            &&& post.phase == Phase::Failed
            &&& post.config == pre.config
            &&& action matches Action::Abort { error: LaunchError::ChildSpawn { cause: c } }
                && c == cause
        },
        Event::ChildWaitFailed { cause } => {
            &&& post.phase == Phase::Failed
            &&& post.config == pre.config
            &&& action matches Action::Abort { error: LaunchError::ChildWait { cause: c } }
                && c == cause
        },
    }
}

/// A discovery run that exits unsuccessfully ends the run: the reported error
/// carries the captured standard error, its message ends with that text as
/// captured, and the run accepts no later event, so the interactive runtime is
/// never started.
pub proof fn lemma_failed_discovery_ends_run(
    pre: Launcher,
    stdout: String,
    stderr: String,
    post: Launcher,
    action: Action,
    later: Event,
)
    requires
        step_taken(pre, Event::DiscoveryExited { success: false, stdout, stderr }, post, action),
    ensures
        post.phase == Phase::Failed,
        !expects(post.phase, later),
        !(action is SpawnChild),
        action matches Action::Abort { error } && ({
            let m = message_text(error);
            m.len() >= stderr@.len() && m.subrange(m.len() - stderr@.len(), m.len() as int)
                == stderr@
        }),
{
    if let Action::Abort { error } = action {
        let m = message_text(error);
        assert(m.subrange(m.len() - stderr@.len(), m.len() as int) =~= stderr@);
    }
}

/// Runs are reproducible: two runs of the same request write the same script
/// and start discovery with the same arguments, and the same discovery
/// outcome leads both to the same phase and the same configuration; nothing
/// is kept from one run to the next.
pub proof fn lemma_same_request_same_configuration(
    a: Launcher,
    b: Launcher,
    event: Event,
    a_post: Launcher,
    a_action: Action,
    b_post: Launcher,
    b_action: Action,
)
    requires
        a.request.julia@ == b.request.julia@,
        a.request.image@ == b.request.image@,
        a.request.package@ == b.request.package@,
        a.script_path@ == b.script_path@,
        a.phase == Phase::ScriptWritten,
        b.phase == Phase::ScriptWritten,
        a.config is None,
        b.config is None,
        event is DiscoveryExited,
        step_taken(a, event, a_post, a_action),
        step_taken(b, event, b_post, b_action),
    ensures
        script_text(a.request.package@, a.request.image@) == script_text(
            b.request.package@,
            b.request.image@,
        ),
        discovery_arguments(a.request.julia@, a.script_path@) == discovery_arguments(
            b.request.julia@,
            b.script_path@,
        ),
        a_post.phase == b_post.phase,
        a_post.config is Some <==> b_post.config is Some,
        a_post.config matches Some(ca) ==> (b_post.config matches Some(cb) && ca@ == cb@),
{
}

} // verus!
