use vstd::prelude::*;
use crate::commands::{
    build_command, clone_command, cmake_build, cmake_configure, configure_command, download_command,
    download_model, git_clone, git_pull, pull_command, CommandSpec, CommandView, WorkDir,
};
use crate::job::{Job, JobStep, JobView, StepView};
use crate::payloads::{progress_view, ProgressPayload, ProgressView};

verus! {

/// A step as plain values, from its parts.
pub open spec fn step_view(
    stage: Seq<char>,
    announce: Seq<char>,
    command: CommandView,
    failure_note: Seq<char>,
    failure_error: Seq<char>,
    success_note: Option<Seq<char>>,
) -> StepView {
    StepView { stage, announce, command, failure_note, failure_error, success_note }
}

/// Cloning the repository.
pub open spec fn clone_step() -> StepView {
    step_view(
        "clone"@,
        "Cloning whisper.cpp repository..."@,
        clone_command(),
        "Clone failed: "@,
        "git clone failed: "@,
        Some("Repository cloned successfully"@),
    )
}

/// Configuring the build of a fresh install.
pub open spec fn configure_step(is_macos: bool) -> StepView {
    step_view(
        "configure"@,
        "Configuring build with CMake..."@,
        configure_command(is_macos),
        "CMake configure failed: "@,
        "cmake configure failed: "@,
        Some("CMake configured successfully"@),
    )
}

/// Building a fresh install.
pub open spec fn build_step() -> StepView {
    step_view(
        "build"@,
        "Building whisper.cpp (this may take a few minutes)..."@,
        build_command(),
        "Build failed: "@,
        "cmake build failed: "@,
        Some("Build completed successfully"@),
    )
}

/// Downloading the model's weights.
pub open spec fn model_step(model: Seq<char>) -> StepView {
    step_view(
        "model"@,
        "Downloading model: "@ + model + "..."@,
        download_command(model),
        "Model download failed: "@,
        "Model download failed: "@,
        Some("Model "@ + model + " downloaded successfully"@),
    )
}

/// The report that the existing checkout is used as it is.
pub open spec fn clone_skipped() -> ProgressView {
    progress_view("clone"@, "Repository already exists, skipping clone"@, false, false)
}

/// The install of whisper.cpp with the given model: clone the repository unless
/// it is there already, configure, build, and download the model.
pub open spec fn install_plan_view(model: Seq<char>, repo_present: bool, is_macos: bool) -> JobView {
    JobView {
        intro: if repo_present { seq![clone_skipped()] } else { Seq::empty() },
        steps: if repo_present {
            seq![configure_step(is_macos), build_step(), model_step(model)]
        } else {
            seq![clone_step(), configure_step(is_macos), build_step(), model_step(model)]
        },
        finale: progress_view("done"@, "Installation complete!"@, true, false),
    }
}

/// Pulling the latest sources.
pub open spec fn pull_step() -> StepView {
    step_view(
        "update"@,
        "Pulling latest changes..."@,
        pull_command(),
        "Git pull failed: "@,
        "git pull failed: "@,
        Some("Pulled latest changes"@),
    )
}

/// Configuring the build again after a pull.
pub open spec fn reconfigure_step(is_macos: bool) -> StepView {
    step_view(
        "build"@,
        "Reconfiguring build with CMake..."@,
        configure_command(is_macos),
        "CMake configure failed: "@,
        "cmake configure failed: "@,
        None,
    )
}

/// Building again after a pull.
pub open spec fn rebuild_step() -> StepView {
    step_view("build"@, "Rebuilding whisper.cpp..."@, build_command(), "Build failed: "@, "Build failed: "@, None)
}

/// The update of an installed whisper.cpp: pull, configure, build.
pub open spec fn update_plan_view(is_macos: bool) -> JobView {
    JobView {
        intro: Seq::empty(),
        steps: seq![pull_step(), reconfigure_step(is_macos), rebuild_step()],
        finale: progress_view("done"@, "Update complete!"@, true, false),
    }
}

/// The error of an update when nothing is installed.
pub open spec fn not_installed_error() -> Seq<char> {
    "whisper.cpp is not installed"@
}

fn make_step(
    stage: &str,
    announce: String,
    command: CommandSpec,
    failure_note: &str,
    failure_error: &str,
    success_note: Option<String>,
) -> (s: JobStep)
    ensures
        s@ == step_view(
            stage@,
            announce@,
            command@,
            failure_note@,
            failure_error@,
            match success_note {
                Some(m) => Some(m@),
                None => None,
            },
        ),
{
    JobStep {
        stage: String::from_str(stage),
        announce,
        command,
        failure_note: String::from_str(failure_note),
        failure_error: String::from_str(failure_error),
        success_note,
    }
}

/// Builds the install job for the given model. `repo_present` tells whether the
/// checkout exists already; `is_macos` whether the build targets macOS.
pub fn install_plan(model: &str, repo_present: bool, is_macos: bool) -> (job: Job)
    ensures
        job@ == install_plan_view(model@, repo_present, is_macos),
{
    let mut intro: Vec<ProgressPayload> = Vec::new();
    let mut steps: Vec<JobStep> = Vec::new();
    if repo_present {
        intro.push(ProgressPayload::new("clone", "Repository already exists, skipping clone", false, false));
    } else {
        steps.push(make_step(
            "clone",
            String::from_str("Cloning whisper.cpp repository..."),
            git_clone(),
            "Clone failed: ",
            "git clone failed: ",
            Some(String::from_str("Repository cloned successfully")),
        ));
    }
    let ghost first = steps.deep_view();
    steps.push(make_step(
        "configure",
        String::from_str("Configuring build with CMake..."),
        cmake_configure(is_macos),
        "CMake configure failed: ",
        "cmake configure failed: ",
        Some(String::from_str("CMake configured successfully")),
    ));
    steps.push(make_step(
        "build",
        String::from_str("Building whisper.cpp (this may take a few minutes)..."),
        cmake_build(),
        "Build failed: ",
        "cmake build failed: ",
        Some(String::from_str("Build completed successfully")),
    ));
    let announce = String::from_str("Downloading model: ").concat(model).concat("...");
    let done_note = String::from_str("Model ").concat(model).concat(" downloaded successfully");
    steps.push(make_step(
        "model",
        announce,
        download_model(model),
        "Model download failed: ",
        "Model download failed: ",
        Some(done_note),
    ));
    proof {
        if !repo_present {
            assert(steps.deep_view()[0] == first[0]);
        }
        assert(steps.deep_view() =~= install_plan_view(model@, repo_present, is_macos).steps);
        assert(intro.deep_view() =~= install_plan_view(model@, repo_present, is_macos).intro);
    }
    Job { intro, steps, finale: ProgressPayload::new("done", "Installation complete!", true, false) }
}

/// Builds the update job, or says that there is nothing to update when the
/// checkout is missing.
pub fn update_plan(repo_present: bool, is_macos: bool) -> (r: Result<Job, String>)
    ensures
        !repo_present ==> (r matches Err(e) && e@ == not_installed_error()),
        repo_present ==> (r matches Ok(job) && job@ == update_plan_view(is_macos)),
{
    if !repo_present {
        return Err(String::from_str("whisper.cpp is not installed"));
    }
    let intro: Vec<ProgressPayload> = Vec::new();
    let mut steps: Vec<JobStep> = Vec::new();
    steps.push(make_step(
        "update",
        String::from_str("Pulling latest changes..."),
        git_pull(),
        "Git pull failed: ",
        "git pull failed: ",
        Some(String::from_str("Pulled latest changes")),
    ));
    steps.push(make_step(
        "build",
        String::from_str("Reconfiguring build with CMake..."),
        cmake_configure(is_macos),
        "CMake configure failed: ",
        "cmake configure failed: ",
        None,
    ));
    steps.push(make_step(
        "build",
        String::from_str("Rebuilding whisper.cpp..."),
        cmake_build(),
        "Build failed: ",
        "Build failed: ",
        None,
    ));
    proof {
        assert(steps.deep_view() =~= update_plan_view(is_macos).steps);
        assert(intro.deep_view() =~= update_plan_view(is_macos).intro);
    }
    Ok(Job { intro, steps, finale: ProgressPayload::new("done", "Update complete!", true, false) })
}


/// The configure arguments: Metal acceleration is switched on exactly on macOS.
pub open spec fn literal_configure_args(is_macos: bool) -> Seq<Seq<char>> {
    if is_macos {
        seq!["-B"@, "build"@, "-DWHISPER_METAL=ON"@]
    } else {
        seq!["-B"@, "build"@]
    }
}

/// An install configures with CMake in the checkout (Metal on macOS, whether or
/// not the checkout had to be cloned), builds with `cmake --build build -j`, and
/// ends by downloading exactly the model asked for with the repository's script.
pub proof fn law_install_commands(model: Seq<char>, repo_present: bool, is_macos: bool)
    ensures
        ({
            let steps = install_plan_view(model, repo_present, is_macos).steps;
            let n = steps.len();
            &&& n >= 3
            &&& steps[n - 3].command == (CommandView {
                program: "cmake"@,
                args: literal_configure_args(is_macos),
                cwd: WorkDir::RepoDir,
            })
            &&& steps[n - 2].command == (CommandView {
                program: "cmake"@,
                args: seq!["--build"@, "build"@, "-j"@],
                cwd: WorkDir::RepoDir,
            })
            &&& steps[n - 1].command == (CommandView {
                program: "bash"@,
                args: seq!["models/download-ggml-model.sh"@, model],
                cwd: WorkDir::RepoDir,
            })
        }),
{
}

/// An install into a missing checkout first clones the repository into the data
/// directory and then does exactly what an install into an existing checkout does;
/// an install into an existing checkout runs three commands and clones nothing.
pub proof fn law_install_clones_only_when_missing(model: Seq<char>, is_macos: bool)
    ensures
        install_plan_view(model, true, is_macos).steps.len() == 3,
        install_plan_view(model, false, is_macos).steps == seq![install_plan_view(model, false, is_macos).steps[0]]
            + install_plan_view(model, true, is_macos).steps,
        install_plan_view(model, false, is_macos).steps[0].command == (CommandView {
            program: "git"@,
            args: seq!["clone"@, "--depth"@, "1"@, "https://github.com/ggerganov/whisper.cpp.git"@],
            cwd: WorkDir::DataDir,
        }),
        install_plan_view(model, false, is_macos).intro.len() == 0,
        install_plan_view(model, true, is_macos).intro.len() == 1,
        install_plan_view(model, false, is_macos).finale == install_plan_view(model, true, is_macos).finale,
{
    assert(install_plan_view(model, false, is_macos).steps =~= seq![install_plan_view(model, false, is_macos).steps[0]]
        + install_plan_view(model, true, is_macos).steps);
}

/// An update runs, in order and in the checkout, a fast-forward pull, the CMake
/// configure (Metal exactly on macOS) and the build.
pub proof fn law_update_commands(is_macos: bool)
    ensures
        update_plan_view(is_macos).steps.len() == 3,
        update_plan_view(is_macos).steps[0].command == (CommandView {
            program: "git"@,
            args: seq!["pull"@, "--ff-only"@],
            cwd: WorkDir::RepoDir,
        }),
        update_plan_view(is_macos).steps[1].command == (CommandView {
            program: "cmake"@,
            args: literal_configure_args(is_macos),
            cwd: WorkDir::RepoDir,
        }),
        update_plan_view(is_macos).steps[2].command == (CommandView {
            program: "cmake"@,
            args: seq!["--build"@, "build"@, "-j"@],
            cwd: WorkDir::RepoDir,
        }),
{
}


/// What an install reports: the stage, the announcement, the notes before a
/// failed command's error output in the report and in the error, and the note of
/// success, for configure, build and model download; the download is announced
/// and confirmed with the model's name, and the install closes with a done report.
pub proof fn law_install_reports(model: Seq<char>, repo_present: bool, is_macos: bool)
    ensures
        ({
            let job = install_plan_view(model, repo_present, is_macos);
            let steps = job.steps;
            let n = steps.len();
            &&& n >= 3
            &&& steps[n - 3].stage == "configure"@
            &&& steps[n - 3].announce == "Configuring build with CMake..."@
            &&& steps[n - 3].failure_note == "CMake configure failed: "@
            &&& steps[n - 3].failure_error == "cmake configure failed: "@
            &&& steps[n - 3].success_note == Some("CMake configured successfully"@)
            &&& steps[n - 2].stage == "build"@
            &&& steps[n - 2].announce == "Building whisper.cpp (this may take a few minutes)..."@
            &&& steps[n - 2].failure_note == "Build failed: "@
            &&& steps[n - 2].failure_error == "cmake build failed: "@
            &&& steps[n - 2].success_note == Some("Build completed successfully"@)
            &&& steps[n - 1].stage == "model"@
            &&& steps[n - 1].announce == "Downloading model: "@ + model + "..."@
            &&& steps[n - 1].failure_note == "Model download failed: "@
            &&& steps[n - 1].failure_error == "Model download failed: "@
            &&& steps[n - 1].success_note == Some("Model "@ + model + " downloaded successfully"@)
            &&& job.finale == (ProgressView { stage: "done"@, message: "Installation complete!"@, done: true, error: false })
            &&& repo_present ==> job.intro == seq![
                ProgressView {
                    stage: "clone"@,
                    message: "Repository already exists, skipping clone"@,
                    done: false,
                    error: false,
                },
            ]
            &&& !repo_present ==> {
                &&& steps[0].stage == "clone"@
                &&& steps[0].announce == "Cloning whisper.cpp repository..."@
                &&& steps[0].failure_note == "Clone failed: "@
                &&& steps[0].failure_error == "git clone failed: "@
                &&& steps[0].success_note == Some("Repository cloned successfully"@)
            }
        }),
{
}

/// What an update reports: pulling under the stage "update", then reconfiguring
/// and rebuilding under "build" with no note of success, and a done report at the end.
pub proof fn law_update_reports(is_macos: bool)
    ensures
        ({
            let job = update_plan_view(is_macos);
            let steps = job.steps;
            &&& steps.len() == 3
            &&& job.intro.len() == 0
            &&& steps[0].stage == "update"@
            &&& steps[0].announce == "Pulling latest changes..."@
            &&& steps[0].failure_note == "Git pull failed: "@
            &&& steps[0].failure_error == "git pull failed: "@
            &&& steps[0].success_note == Some("Pulled latest changes"@)
            &&& steps[1].stage == "build"@
            &&& steps[1].announce == "Reconfiguring build with CMake..."@
            &&& steps[1].failure_note == "CMake configure failed: "@
            &&& steps[1].failure_error == "cmake configure failed: "@
            &&& steps[1].success_note is None
            &&& steps[2].stage == "build"@
            &&& steps[2].announce == "Rebuilding whisper.cpp..."@
            &&& steps[2].failure_note == "Build failed: "@
            &&& steps[2].failure_error == "Build failed: "@
            &&& steps[2].success_note is None
            &&& job.finale == (ProgressView { stage: "done"@, message: "Update complete!"@, done: true, error: false })
        }),
{
}

} // verus!
