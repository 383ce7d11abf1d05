//! The command lines of the two kinds of run, and of showing a directory to
//! the user.

use vstd::prelude::*;
use vstd::string::StringExecFns;

verus! {

/// The system the tool runs on, which decides the names of the engine's
/// scripts.
#[derive(Clone, Copy, Debug, PartialEq, Eq, Structural)]
pub enum Host {
    Windows,
    MacOs,
}

/// The platform that a project is built or packaged for.
#[derive(Clone, Copy, Debug, PartialEq, Eq, Structural)]
pub enum Platform {
    Win64,
    Linux,
    Mac,
    Android,
    IOS,
    PS4,
    PS5,
    XBoxOne,
    XBoxSeries,
    Switch,
}

/// How far a build is optimized.
#[derive(Clone, Copy, Debug, PartialEq, Eq, Structural)]
pub enum BuildMode {
    Debug,
    Development,
    Shipping,
}

/// How a program is handed to the system.
#[derive(Clone, Copy, Debug, PartialEq, Eq, Structural)]
pub enum ShellWrap {
    /// The program is started as it stands.
    Direct,
    /// The program is a script, run by the command interpreter `cmd`.
    CommandInterpreter,
}

/// A command: the program, its arguments in order, and the directory it
/// runs in.
#[derive(Clone, Debug, PartialEq, Eq)]
pub struct CommandSpec {
    pub program: String,
    pub args: Vec<String>,
    pub working_dir: String,
    pub shell: ShellWrap,
}

/// A command with its texts as sequences of characters.
pub struct CommandView {
    pub program: Seq<char>,
    pub args: Seq<Seq<char>>,
    pub working_dir: Seq<char>,
    pub shell: ShellWrap,
}

impl View for CommandSpec {
    type V = CommandView;

    open spec fn view(&self) -> CommandView {
        CommandView {
            program: self.program@,
            args: self.args.deep_view(),
            working_dir: self.working_dir@,
            shell: self.shell,
        }
    }
}

/// Why a command was not started.
#[derive(Clone, Debug, PartialEq, Eq)]
pub enum LaunchError {
    /// The command names no program.
    EmptyProgram,
    /// The working directory of the command does not exist.
    MissingWorkingDirectory,
    /// The system refused to start the program; the text is its reason.
    Os(String),
}

impl Platform {
    /// The platform's name on the command line of the engine's scripts.
    pub open spec fn name_text(self) -> Seq<char> {
        match self {
            Platform::Win64 => "Win64"@,
            Platform::Linux => "Linux"@,
            Platform::Mac => "Mac"@,
            Platform::Android => "Android"@,
            Platform::IOS => "iOS"@,
            Platform::PS4 => "PS4"@,
            Platform::PS5 => "PS5"@,
            Platform::XBoxOne => "XBoxOne"@,
            Platform::XBoxSeries => "XBoxSeries"@,
            Platform::Switch => "Switch"@,
        }
    }

    /// The platform's name on the command line of the engine's scripts.
    pub fn name(self) -> (name: &'static str)
        ensures
            name@ == self.name_text(),
    {
        match self {
            Platform::Win64 => "Win64",
            Platform::Linux => "Linux",
            Platform::Mac => "Mac",
            Platform::Android => "Android",
            Platform::IOS => "iOS",
            Platform::PS4 => "PS4",
            Platform::PS5 => "PS5",
            Platform::XBoxOne => "XBoxOne",
            Platform::XBoxSeries => "XBoxSeries",
            Platform::Switch => "Switch",
        }
    }
}

impl BuildMode {
    /// The mode's name on the command line of the engine's scripts.
    pub open spec fn name_text(self) -> Seq<char> {
        match self {
            BuildMode::Debug => "Debug"@,
            BuildMode::Development => "Development"@,
            BuildMode::Shipping => "Shipping"@,
        }
    }

    /// The mode's name on the command line of the engine's scripts.
    pub fn name(self) -> (name: &'static str)
        ensures
            name@ == self.name_text(),
    {
        match self {
            BuildMode::Debug => "Debug",
            BuildMode::Development => "Development",
            BuildMode::Shipping => "Shipping",
        }
    }
}

impl Host {
    /// The name of the engine's build script, below its batch files.
    pub open spec fn build_script_text(self) -> Seq<char> {
        match self {
            Host::Windows => "Build.bat"@,
            Host::MacOs => "Mac/Build.sh"@,
        }
    }

    /// The name of the engine's automation script, below its batch files.
    pub open spec fn automation_script_text(self) -> Seq<char> {
        match self {
            Host::Windows => "RunUAT.bat"@,
            Host::MacOs => "RunUAT.sh"@,
        }
    }

    /// The program that shows a directory to the user.
    pub open spec fn file_browser_text(self) -> Seq<char> {
        match self {
            Host::Windows => "explorer"@,
            Host::MacOs => "open"@,
        }
    }

    /// The name of the engine's build script, below its batch files.
    pub fn build_script(self) -> (name: &'static str)
        ensures
            name@ == self.build_script_text(),
    {
        match self {
            Host::Windows => "Build.bat",
            Host::MacOs => "Mac/Build.sh",
        }
    }

    /// The name of the engine's automation script, below its batch files.
    pub fn automation_script(self) -> (name: &'static str)
        ensures
            name@ == self.automation_script_text(),
    {
        match self {
            Host::Windows => "RunUAT.bat",
            Host::MacOs => "RunUAT.sh",
        }
    }

    /// The program that shows a directory to the user.
    pub fn file_browser(self) -> (name: &'static str)
        ensures
            name@ == self.file_browser_text(),
    {
        match self {
            Host::Windows => "explorer",
            Host::MacOs => "open",
        }
    }
}

/// The path of a script among the engine's batch files.
pub open spec fn batch_file(engine_root: Seq<char>, script: Seq<char>) -> Seq<char> {
    engine_root + "\\Engine\\Build\\BatchFiles\\"@ + script
}

/// The directory that a package run stages its output in.
pub open spec fn staging_directory_of(project_dir: Seq<char>) -> Seq<char> {
    project_dir + "\\Builds"@
}

/// The arguments of the build script.
pub open spec fn build_args(
    project_name: Seq<char>,
    platform: Seq<char>,
    optimization_type: Seq<char>,
    uproject_location: Seq<char>,
) -> Seq<Seq<char>> {
    seq![project_name, platform, optimization_type, uproject_location, "-waitmutex"@]
}

/// The arguments of the automation script for a package run.
pub open spec fn package_args(
    platform: Seq<char>,
    optimization_type: Seq<char>,
    uproject_location: Seq<char>,
    project_dir: Seq<char>,
) -> Seq<Seq<char>> {
    seq![
        "BuildCookRun"@,
        "-project="@ + uproject_location,
        "-noP4"@,
        "-platform="@ + platform,
        "-clientconfig="@ + optimization_type,
        "-serverconfig="@ + optimization_type,
        "-nocompileeditor"@,
        "-cook"@,
        "-allmaps"@,
        "-build"@,
        "-CookCultures=en"@,
        "-unversionedcookedcontent"@,
        "-stage"@,
        "-package"@,
        "-stagingdirectory="@ + staging_directory_of(project_dir),
    ]
}

/// The command that builds a project.
pub open spec fn build_command(
    host: Host,
    engine_root: Seq<char>,
    project_name: Seq<char>,
    platform: Seq<char>,
    optimization_type: Seq<char>,
    uproject_location: Seq<char>,
    project_dir: Seq<char>,
) -> CommandView {
    CommandView {
        program: batch_file(engine_root, host.build_script_text()),
        args: build_args(project_name, platform, optimization_type, uproject_location),
        working_dir: project_dir,
        shell: ShellWrap::CommandInterpreter,
    }
}

/// The command that packages a project.
pub open spec fn package_command(
    host: Host,
    engine_root: Seq<char>,
    platform: Seq<char>,
    optimization_type: Seq<char>,
    uproject_location: Seq<char>,
    project_dir: Seq<char>,
) -> CommandView {
    CommandView {
        program: batch_file(engine_root, host.automation_script_text()),
        args: package_args(platform, optimization_type, uproject_location, project_dir),
        working_dir: project_dir,
        shell: ShellWrap::CommandInterpreter,
    }
}

/// The command that shows `directory` to the user.
pub open spec fn reveal_command_of(host: Host, directory: Seq<char>) -> CommandView {
    CommandView {
        program: host.file_browser_text(),
        args: seq![directory],
        working_dir: Seq::empty(),
        shell: ShellWrap::Direct,
    }
}

/// The program and the arguments that the system is given for a command.
pub open spec fn invocation_of(command: CommandView) -> (Seq<char>, Seq<Seq<char>>) {
    match command.shell {
        ShellWrap::Direct => (command.program, command.args),
        ShellWrap::CommandInterpreter => ("cmd"@, seq!["/C"@, command.program] + command.args),
    }
}

/// What stands in the way of starting a command, given whether its working
/// directory exists.
pub open spec fn launch_obstacle(command: CommandView, working_dir_exists: bool) -> Option<
    LaunchError,
> {
    if command.program.len() == 0 {
        Some(LaunchError::EmptyProgram)
    } else if !working_dir_exists {
        Some(LaunchError::MissingWorkingDirectory)
    } else {
        None
    }
}

/// `first` followed by `second`.
fn joined(first: &str, second: &str) -> (text: String)
    ensures
        text@ == first@ + second@,
{
    let mut text = first.to_owned();
    text.append(second);
    text
}

/// The path of a script among the engine's batch files.
fn batch_file_path(engine_root: &str, script: &str) -> (path: String)
    ensures
        path@ == batch_file(engine_root@, script@),
{
    let mut path = joined(engine_root, "\\Engine\\Build\\BatchFiles\\");
    path.append(script);
    path
}

/// The directory that a package run of the project in `project_dir` stages
/// its output in.
pub fn staging_directory(project_dir: &str) -> (directory: String)
    ensures
        directory@ == staging_directory_of(project_dir@),
{
    joined(project_dir, "\\Builds")
}

/// The command that builds a project: the engine's build script with the
/// project's name, the platform, the optimization type and the project file,
/// run in the project's directory. `engine_root` is the directory that holds
/// the engine, `project_dir` the one that holds the project file.
pub fn create_build_command(
    host: Host,
    engine_root: &str,
    project_name: &str,
    platform: &str,
    optimization_type: &str,
    uproject_location: &str,
    project_dir: &str,
) -> (command: CommandSpec)
    ensures
        command@ == build_command(
            host,
            engine_root@,
            project_name@,
            platform@,
            optimization_type@,
            uproject_location@,
            project_dir@,
        ),
{
    let mut args: Vec<String> = Vec::new();
    args.push(project_name.to_owned());
    args.push(platform.to_owned());
    args.push(optimization_type.to_owned());
    args.push(uproject_location.to_owned());
    args.push("-waitmutex".to_owned());
    assert(args.deep_view() =~= build_args(
        project_name@,
        platform@,
        optimization_type@,
        uproject_location@,
    ));
    CommandSpec {
        program: batch_file_path(engine_root, host.build_script()),
        args,
        working_dir: project_dir.to_owned(),
        shell: ShellWrap::CommandInterpreter,
    }
}

/// The command that packages a project: the engine's automation script,
/// told to build, cook, stage and package the project for the platform, run
/// in the project's directory.
pub fn create_package_command(
    host: Host,
    engine_root: &str,
    platform: &str,
    optimization_type: &str,
    uproject_location: &str,
    project_dir: &str,
) -> (command: CommandSpec)
    ensures
        command@ == package_command(
            host,
            engine_root@,
            platform@,
            optimization_type@,
            uproject_location@,
            project_dir@,
        ),
{
    let staging = staging_directory(project_dir);
    let mut args: Vec<String> = Vec::new();
    args.push("BuildCookRun".to_owned());
    args.push(joined("-project=", uproject_location));
    args.push("-noP4".to_owned());
    args.push(joined("-platform=", platform));
    args.push(joined("-clientconfig=", optimization_type));
    args.push(joined("-serverconfig=", optimization_type));
    args.push("-nocompileeditor".to_owned());
    args.push("-cook".to_owned());
    args.push("-allmaps".to_owned());
    args.push("-build".to_owned());
    args.push("-CookCultures=en".to_owned());
    args.push("-unversionedcookedcontent".to_owned());
    args.push("-stage".to_owned());
    args.push("-package".to_owned());
    args.push(joined("-stagingdirectory=", staging.as_str()));
    assert(args.deep_view() =~= package_args(
        platform@,
        optimization_type@,
        uproject_location@,
        project_dir@,
    ));
    CommandSpec {
        program: batch_file_path(engine_root, host.automation_script()),
        args,
        working_dir: project_dir.to_owned(),
        shell: ShellWrap::CommandInterpreter,
    }
}

/// The command that shows `directory` to the user in the system's file
/// browser. It names no working directory: it runs where its caller runs.
pub fn reveal_command(host: Host, directory: &str) -> (command: CommandSpec)
    ensures
        command@ == reveal_command_of(host, directory@),
{
    let mut args: Vec<String> = Vec::new();
    args.push(directory.to_owned());
    assert(args.deep_view() =~= seq![directory@]);
    CommandSpec {
        program: host.file_browser().to_owned(),
        args,
        working_dir: String::new(),
        shell: ShellWrap::Direct,
    }
}

impl CommandSpec {
    /// The program and the arguments that the system is given: the command
    /// itself, or the command interpreter with the script and its arguments.
    pub fn invocation(&self) -> (r: (String, Vec<String>))
        ensures
            (r.0@, r.1.deep_view()) == invocation_of(self@),
    {
        match self.shell {
            ShellWrap::Direct => {
                let args = self.args.clone();
                assert(args.deep_view() =~= self.args.deep_view());
                (self.program.clone(), args)
            },
            ShellWrap::CommandInterpreter => {
                let mut args: Vec<String> = Vec::new();
                args.push("/C".to_owned());
                args.push(self.program.clone());
                let mut i: usize = 0;
                while i < self.args.len()
                    invariant
                        i <= self.args.len(),
                        args.deep_view() == seq!["/C"@, self.program@] + self.args.deep_view().take(
                            i as int,
                        ),
                    decreases self.args.len() - i,
                {
                    let ghost before = args.deep_view();
                    args.push(self.args[i].clone());
                    assert(args.deep_view() =~= before.push(self.args@[i as int]@));
                    assert(self.args.deep_view().take(i + 1) =~= self.args.deep_view().take(
                        i as int,
                    ).push(self.args@[i as int]@));
                    i += 1;
                }
                assert(self.args.deep_view().take(i as int) =~= self.args.deep_view());
                ("cmd".to_owned(), args)
            },
        }
    }

    /// Whether the command can be started, given whether its working
    /// directory exists.
    pub fn validate(&self, working_dir_exists: bool) -> (r: Result<(), LaunchError>)
        ensures
            match r {
                Ok(_) => launch_obstacle(self@, working_dir_exists) is None,
                Err(e) => launch_obstacle(self@, working_dir_exists) == Some(e),
            },
    {
        if self.program.as_str().is_empty() {
            Err(LaunchError::EmptyProgram)
        } else if !working_dir_exists {
            Err(LaunchError::MissingWorkingDirectory)
        } else {
            Ok(())
        }
    }
}

} // verus!
