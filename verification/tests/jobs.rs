use whisper_manager::commands::WorkDir;
use whisper_manager::job::{CommandOutcome, Directive, JobRunner, NextAction};
use whisper_manager::payloads::ProgressPayload;
use whisper_manager::plans::{install_plan, update_plan};

fn ok() -> CommandOutcome {
    CommandOutcome::Exited { success: true, stderr: Vec::new() }
}

fn fail(text: &str) -> CommandOutcome {
    CommandOutcome::Exited { success: false, stderr: text.as_bytes().to_vec() }
}

fn reports(d: &Directive) -> Vec<(String, String, bool, bool)> {
    d.progress.iter().map(|p: &ProgressPayload| (p.stage.clone(), p.message.clone(), p.done, p.error)).collect()
}

fn r(stage: &str, message: &str, done: bool, error: bool) -> (String, String, bool, bool) {
    (stage.to_string(), message.to_string(), done, error)
}

fn command_of(d: &Directive) -> (String, Vec<String>, WorkDir) {
    match &d.next {
        NextAction::Run(c) => (c.program.clone(), c.args.clone(), c.cwd),
        NextAction::Complete(_) => panic!("expected a command"),
    }
}

fn strings(v: &[&str]) -> Vec<String> {
    v.iter().map(|s| s.to_string()).collect()
}

#[test]
fn fresh_install_runs_every_step() {
    let mut runner = JobRunner::new(install_plan("base.en", false, false));
    let d = runner.start();
    assert_eq!(reports(&d), vec![r("clone", "Cloning whisper.cpp repository...", false, false)]);
    assert_eq!(
        command_of(&d),
        ("git".to_string(), strings(&["clone", "--depth", "1", "https://github.com/ggerganov/whisper.cpp.git"]), WorkDir::DataDir)
    );
    let d = runner.record(ok());
    assert_eq!(
        reports(&d),
        vec![
            r("clone", "Repository cloned successfully", false, false),
            r("configure", "Configuring build with CMake...", false, false)
        ]
    );
    assert_eq!(command_of(&d), ("cmake".to_string(), strings(&["-B", "build"]), WorkDir::RepoDir));
    let d = runner.record(ok());
    assert_eq!(
        reports(&d),
        vec![
            r("configure", "CMake configured successfully", false, false),
            r("build", "Building whisper.cpp (this may take a few minutes)...", false, false)
        ]
    );
    assert_eq!(command_of(&d), ("cmake".to_string(), strings(&["--build", "build", "-j"]), WorkDir::RepoDir));
    let d = runner.record(ok());
    assert_eq!(
        reports(&d),
        vec![
            r("build", "Build completed successfully", false, false),
            r("model", "Downloading model: base.en...", false, false)
        ]
    );
    assert_eq!(
        command_of(&d),
        ("bash".to_string(), strings(&["models/download-ggml-model.sh", "base.en"]), WorkDir::RepoDir)
    );
    assert!(runner.is_running());
    let d = runner.record(ok());
    assert_eq!(
        reports(&d),
        vec![
            r("model", "Model base.en downloaded successfully", false, false),
            r("done", "Installation complete!", true, false)
        ]
    );
    assert!(matches!(d.next, NextAction::Complete(Ok(()))));
    assert!(!runner.is_running());
}

#[test]
fn install_over_existing_checkout_skips_clone() {
    let mut runner = JobRunner::new(install_plan("tiny", true, true));
    let d = runner.start();
    assert_eq!(
        reports(&d),
        vec![
            r("clone", "Repository already exists, skipping clone", false, false),
            r("configure", "Configuring build with CMake...", false, false)
        ]
    );
    assert_eq!(command_of(&d), ("cmake".to_string(), strings(&["-B", "build", "-DWHISPER_METAL=ON"]), WorkDir::RepoDir));
}

#[test]
fn failed_build_ends_the_install() {
    let mut runner = JobRunner::new(install_plan("base.en", true, false));
    runner.start();
    runner.record(ok());
    let d = runner.record(fail("no compiler"));
    assert_eq!(reports(&d), vec![r("build", "Build failed: no compiler", true, true)]);
    match d.next {
        NextAction::Complete(Err(e)) => assert_eq!(e, "cmake build failed: no compiler"),
        _ => panic!("expected the install to end"),
    }
    assert!(!runner.is_running());
}

#[test]
fn failed_clone_ends_the_install() {
    let mut runner = JobRunner::new(install_plan("base.en", false, false));
    runner.start();
    let d = runner.record(fail("network down"));
    assert_eq!(reports(&d), vec![r("clone", "Clone failed: network down", true, true)]);
    match d.next {
        NextAction::Complete(Err(e)) => assert_eq!(e, "git clone failed: network down"),
        _ => panic!("expected the install to end"),
    }
}

#[test]
fn failed_download_ends_the_install() {
    let mut runner = JobRunner::new(install_plan("base.en", true, false));
    runner.start();
    runner.record(ok());
    runner.record(ok());
    let d = runner.record(fail("404"));
    assert_eq!(reports(&d), vec![r("model", "Model download failed: 404", true, true)]);
    match d.next {
        NextAction::Complete(Err(e)) => assert_eq!(e, "Model download failed: 404"),
        _ => panic!("expected the install to end"),
    }
}

#[test]
fn command_that_cannot_start_ends_the_job_silently() {
    let mut runner = JobRunner::new(install_plan("base.en", false, false));
    runner.start();
    let d = runner.record(CommandOutcome::NotRun("program not found".to_string()));
    assert!(d.progress.is_empty());
    match d.next {
        NextAction::Complete(Err(e)) => assert_eq!(e, "Failed to run `git`: program not found"),
        _ => panic!("expected the install to end"),
    }
}

#[test]
fn invalid_error_output_is_decoded_lossily() {
    let mut runner = JobRunner::new(install_plan("base.en", true, false));
    runner.start();
    let d = runner.record(CommandOutcome::Exited { success: false, stderr: vec![b'x', 0xff] });
    match d.next {
        NextAction::Complete(Err(e)) => assert_eq!(e, "cmake configure failed: x\u{FFFD}"),
        _ => panic!("expected the install to end"),
    }
}

#[test]
fn update_needs_an_install() {
    match update_plan(false, false) {
        Err(e) => assert_eq!(e, "whisper.cpp is not installed"),
        Ok(_) => panic!("expected an error"),
    }
}

#[test]
fn update_pulls_and_rebuilds() {
    let mut runner = JobRunner::new(update_plan(true, false).unwrap());
    let d = runner.start();
    assert_eq!(reports(&d), vec![r("update", "Pulling latest changes...", false, false)]);
    assert_eq!(command_of(&d), ("git".to_string(), strings(&["pull", "--ff-only"]), WorkDir::RepoDir));
    let d = runner.record(ok());
    assert_eq!(
        reports(&d),
        vec![
            r("update", "Pulled latest changes", false, false),
            r("build", "Reconfiguring build with CMake...", false, false)
        ]
    );
    let d = runner.record(ok());
    assert_eq!(reports(&d), vec![r("build", "Rebuilding whisper.cpp...", false, false)]);
    let d = runner.record(ok());
    assert_eq!(reports(&d), vec![r("done", "Update complete!", true, false)]);
    assert!(matches!(d.next, NextAction::Complete(Ok(()))));
}

#[test]
fn failed_update_reports_its_step() {
    let mut runner = JobRunner::new(update_plan(true, false).unwrap());
    runner.start();
    let d = runner.record(fail("diverged"));
    assert_eq!(reports(&d), vec![r("update", "Git pull failed: diverged", true, true)]);
    match d.next {
        NextAction::Complete(Err(e)) => assert_eq!(e, "git pull failed: diverged"),
        _ => panic!("expected the update to end"),
    }
    let mut runner = JobRunner::new(update_plan(true, false).unwrap());
    runner.start();
    runner.record(ok());
    let d = runner.record(fail("bad cache"));
    assert_eq!(reports(&d), vec![r("build", "CMake configure failed: bad cache", true, true)]);
    match d.next {
        NextAction::Complete(Err(e)) => assert_eq!(e, "cmake configure failed: bad cache"),
        _ => panic!("expected the update to end"),
    }
    let mut runner = JobRunner::new(update_plan(true, false).unwrap());
    runner.start();
    runner.record(ok());
    runner.record(ok());
    let d = runner.record(fail("oops"));
    match d.next {
        NextAction::Complete(Err(e)) => assert_eq!(e, "Build failed: oops"),
        _ => panic!("expected the update to end"),
    }
}

#[test]
fn success_needs_every_command() {
    for failing in 0..4 {
        let mut runner = JobRunner::new(install_plan("m", false, false));
        let mut d = runner.start();
        let mut step = 0;
        let result = loop {
            match d.next {
                NextAction::Run(_) => {
                    d = runner.record(if step == failing { fail("e") } else { ok() });
                    step += 1;
                }
                NextAction::Complete(r) => break r,
            }
        };
        assert!(result.is_err());
        assert_eq!(step, failing + 1);
    }
}
