use vstd::prelude::*;

verus! {

/// The directory a command runs in.
#[derive(Debug, Clone, Copy, PartialEq, Eq, Structural)]
pub enum WorkDir {
    /// The app's data directory.
    DataDir,
    /// The whisper.cpp checkout inside the data directory.
    RepoDir,
    /// The system's temporary directory.
    TempDir,
}

/// A program to run, with its arguments and working directory.
#[derive(Debug)]
pub struct CommandSpec {
    pub program: String,
    pub args: Vec<String>,
    pub cwd: WorkDir,
}

/// A command as plain values.
pub struct CommandView {
    pub program: Seq<char>,
    pub args: Seq<Seq<char>>,
    pub cwd: WorkDir,
}

impl View for CommandSpec {
    type V = CommandView;

    open spec fn view(&self) -> CommandView {
        CommandView { program: self.program@, args: self.args.deep_view(), cwd: self.cwd }
    }
}

impl DeepView for CommandSpec {
    type V = CommandView;

    open spec fn deep_view(&self) -> CommandView {
        self@
    }
}

/// The command with these parts.
pub open spec fn command_view(program: Seq<char>, args: Seq<Seq<char>>, cwd: WorkDir) -> CommandView {
    CommandView { program, args, cwd }
}

impl CommandSpec {
    /// A copy with the same contents.
    pub fn duplicate(&self) -> (c: CommandSpec)
        ensures
            c@ == self@,
    {
        let args = self.args.clone();
        proof {
            assert forall|i: int| 0 <= i < args.len() implies args@[i] == self.args@[i] by {
                assert(cloned::<String>(self.args[i], args[i]));
            }
            assert(args.deep_view() =~= self.args.deep_view());
        }
        CommandSpec { program: self.program.clone(), args, cwd: self.cwd }
    }
}

/// Where the whisper.cpp sources are fetched from.
pub open spec fn repo_url() -> Seq<char> {
    "https://github.com/ggerganov/whisper.cpp.git"@
}

/// A shallow clone of the whisper.cpp repository into the data directory.
pub open spec fn clone_command() -> CommandView {
    command_view("git"@, seq!["clone"@, "--depth"@, "1"@, repo_url()], WorkDir::DataDir)
}

/// The CMake configure step; on macOS it enables Metal acceleration.
pub open spec fn configure_command(is_macos: bool) -> CommandView {
    command_view(
        "cmake"@,
        if is_macos {
            seq!["-B"@, "build"@, "-DWHISPER_METAL=ON"@]
        } else {
            seq!["-B"@, "build"@]
        },
        WorkDir::RepoDir,
    )
}

/// The parallel CMake build.
pub open spec fn build_command() -> CommandView {
    command_view("cmake"@, seq!["--build"@, "build"@, "-j"@], WorkDir::RepoDir)
}

/// The download of a model's weights with the repository's script.
pub open spec fn download_command(model: Seq<char>) -> CommandView {
    command_view("bash"@, seq!["models/download-ggml-model.sh"@, model], WorkDir::RepoDir)
}

/// A fast-forward-only pull of the checkout.
pub open spec fn pull_command() -> CommandView {
    command_view("git"@, seq!["pull"@, "--ff-only"@], WorkDir::RepoDir)
}

/// The version query of a tool, run in the temporary directory.
pub open spec fn probe_command(program: Seq<char>, flag: Seq<char>) -> CommandView {
    command_view(program, seq![flag], WorkDir::TempDir)
}

/// Builds the clone command.
pub fn git_clone() -> (c: CommandSpec)
    ensures
        c@ == clone_command(),
{
    let mut args: Vec<String> = Vec::new();
    args.push(String::from_str("clone"));
    args.push(String::from_str("--depth"));
    args.push(String::from_str("1"));
    args.push(String::from_str("https://github.com/ggerganov/whisper.cpp.git"));
    proof {
        assert(args.deep_view() =~= clone_command().args);
    }
    CommandSpec { program: String::from_str("git"), args, cwd: WorkDir::DataDir }
}

/// Builds the configure command.
pub fn cmake_configure(is_macos: bool) -> (c: CommandSpec)
    ensures
        c@ == configure_command(is_macos),
{
    let mut args: Vec<String> = Vec::new();
    args.push(String::from_str("-B"));
    args.push(String::from_str("build"));
    if is_macos {
        args.push(String::from_str("-DWHISPER_METAL=ON"));
    }
    proof {
        assert(args.deep_view() =~= configure_command(is_macos).args);
    }
    CommandSpec { program: String::from_str("cmake"), args, cwd: WorkDir::RepoDir }
}

/// Builds the build command.
pub fn cmake_build() -> (c: CommandSpec)
    ensures
        c@ == build_command(),
{
    let mut args: Vec<String> = Vec::new();
    args.push(String::from_str("--build"));
    args.push(String::from_str("build"));
    args.push(String::from_str("-j"));
    proof {
        assert(args.deep_view() =~= build_command().args);
    }
    CommandSpec { program: String::from_str("cmake"), args, cwd: WorkDir::RepoDir }
}

/// Builds the model download command.
pub fn download_model(model: &str) -> (c: CommandSpec)
    ensures
        c@ == download_command(model@),
{
    let mut args: Vec<String> = Vec::new();
    args.push(String::from_str("models/download-ggml-model.sh"));
    args.push(String::from_str(model));
    proof {
        assert(args.deep_view() =~= download_command(model@).args);
    }
    CommandSpec { program: String::from_str("bash"), args, cwd: WorkDir::RepoDir }
}

/// Builds the pull command.
pub fn git_pull() -> (c: CommandSpec)
    ensures
        c@ == pull_command(),
{
    let mut args: Vec<String> = Vec::new();
    args.push(String::from_str("pull"));
    args.push(String::from_str("--ff-only"));
    proof {
        assert(args.deep_view() =~= pull_command().args);
    }
    CommandSpec { program: String::from_str("git"), args, cwd: WorkDir::RepoDir }
}

/// Builds the version query of one tool.
pub fn probe(program: &str, flag: &str) -> (c: CommandSpec)
    ensures
        c@ == probe_command(program@, flag@),
{
    let mut args: Vec<String> = Vec::new();
    args.push(String::from_str(flag));
    proof {
        assert(args.deep_view() =~= probe_command(program@, flag@).args);
    }
    CommandSpec { program: String::from_str(program), args, cwd: WorkDir::TempDir }
}

} // verus!
