//! What a new session runs: the program, its arguments, and the command the
//! pseudo-terminal library spawns from them.
use vstd::prelude::*;
use vstd::string::StringExecFns;
use portable_pty::CommandBuilder;
use crate::geometry::{Geometry, INITIAL_COLS, INITIAL_ROWS};

verus! {

/// The family of operating system that the host runs on.
#[derive(Clone, Copy, Debug, PartialEq, Eq, Structural)]
pub enum Platform {
    /// Windows, where the default program is fixed.
    Windows,
    /// Every other system, where the user's configured shell is the default.
    Posix,
}

/// The program of a session that names none: `cmd.exe` on Windows; elsewhere
/// the user's configured shell, and `bash` where none is configured.
pub open spec fn default_program(platform: Platform, shell: Option<Seq<char>>) -> Seq<char> {
    match platform {
        Platform::Windows => "cmd.exe"@,
        Platform::Posix => match shell {
            Some(configured) => configured,
            None => "bash"@,
        },
    }
}

/// The program of a session: the one asked for, else the platform's default.
pub open spec fn resolved_program(
    command: Option<Seq<char>>,
    platform: Platform,
    shell: Option<Seq<char>>,
) -> Seq<char> {
    match command {
        Some(asked) => asked,
        None => default_program(platform, shell),
    }
}

/// Picks the program to run. `shell` is the user's configured shell (the value
/// of `SHELL`), if the host found one.
pub fn resolve_program(
    command: Option<String>,
    platform: Platform,
    shell: Option<String>,
) -> (program: String)
    ensures
        program@ == resolved_program(command.deep_view(), platform, shell.deep_view()),
{
    match command {
        Some(asked) => asked,
        None => match platform {
            Platform::Windows => String::from_str("cmd.exe"),
            Platform::Posix => match shell {
                Some(configured) => configured,
                None => String::from_str("bash"),
            },
        },
    }
}

/// Everything the host needs to start the process of a new session.
#[derive(Debug, PartialEq, Eq)]
pub struct SpawnRequest {
    /// The program to run.
    pub program: String,
    /// Its arguments, in order, without the program itself.
    pub args: Vec<String>,
    /// The geometry to open the pseudo-terminal with.
    pub size: Geometry,
}

/// A spawn request as plain values.
pub struct SpawnRequestView {
    pub program: Seq<char>,
    pub args: Seq<Seq<char>>,
    pub size: Geometry,
}

impl View for SpawnRequest {
    type V = SpawnRequestView;

    open spec fn view(&self) -> SpawnRequestView {
        SpawnRequestView {
            program: self.program@,
            args: self.args.deep_view(),
            size: self.size,
        }
    }
}

/// The request that creating a session makes: the resolved program, the
/// arguments given (none where they are omitted), and the initial geometry.
pub open spec fn spawn_request(
    command: Option<Seq<char>>,
    args: Option<Seq<Seq<char>>>,
    platform: Platform,
    shell: Option<Seq<char>>,
) -> SpawnRequestView {
    SpawnRequestView {
        program: resolved_program(command, platform, shell),
        args: match args {
            Some(given) => given,
            None => Seq::empty(),
        },
        size: Geometry::cells(INITIAL_ROWS, INITIAL_COLS),
    }
}

/// `portable_pty::CommandBuilder`, a command prepared for spawning into a
/// pseudo-terminal. Nothing inside it is visible here.
#[verifier::external_type_specification]
#[verifier::external_body]
pub struct ExCommandBuilder(CommandBuilder);

/// The argument vector that a command holds, program first, each entry as text.
pub uninterp spec fn command_argv(command: CommandBuilder) -> Seq<Seq<char>>;

/// `CommandBuilder::new`: the new command's argument vector holds the program
/// and nothing else. Its environment is the host's and is not described.
#[verifier::external_body]
fn command_new(program: &str) -> (command: CommandBuilder)
    ensures
        command_argv(command) == seq![program@],
{
    CommandBuilder::new(program)
}

/// `CommandBuilder::args`: appends the arguments, in order, to the argument
/// vector. The method panics on a command that was made without a program,
/// which the precondition leaves out.
#[verifier::external_body]
fn command_args(command: &mut CommandBuilder, args: &Vec<String>)
    requires
        command_argv(*old(command)).len() > 0,
    ensures
        command_argv(*final(command)) == command_argv(*old(command)) + args.deep_view(),
{
    command.args(args)
}

impl SpawnRequest {
    /// The request for a session created with `command` and `args`.
    pub fn new(
        command: Option<String>,
        args: Option<Vec<String>>,
        platform: Platform,
        shell: Option<String>,
    ) -> (request: SpawnRequest)
        ensures
            request@ == spawn_request(
                command.deep_view(),
                args.deep_view(),
                platform,
                shell.deep_view(),
            ),
    {
        let ghost expected = spawn_request(
            command.deep_view(),
            args.deep_view(),
            platform,
            shell.deep_view(),
        );
        let program = resolve_program(command, platform, shell);
        let args = match args {
            Some(given) => given,
            None => Vec::new(),
        };
        let request = SpawnRequest { program, args, size: Geometry::initial() };
        assert(request@.args =~= expected.args);
        request
    }

    /// The argument vector of the process: the program, then the arguments.
    pub open spec fn argv(&self) -> Seq<Seq<char>> {
        seq![self.program@] + self.args.deep_view()
    }

    /// The command to hand to the pseudo-terminal for spawning.
    pub fn command(&self) -> (command: CommandBuilder)
        ensures
            command_argv(command) == self.argv(),
    {
        let mut command = command_new(self.program.as_str());
        command_args(&mut command, &self.args);
        command
    }
}

} // verus!
