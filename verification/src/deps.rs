use vstd::prelude::*;
use crate::commands::{probe, probe_command, CommandSpec, CommandView};
use crate::job::CommandOutcome;

verus! {

/// The version queries that tell whether the build tools are there: git,
/// cmake, ffmpeg and a C compiler, in this order.
pub open spec fn probes_view() -> Seq<CommandView> {
    seq![
        probe_command("git"@, "--version"@),
        probe_command("cmake"@, "--version"@),
        probe_command("ffmpeg"@, "-version"@),
        probe_command("cc"@, "--version"@),
    ]
}

/// Builds the version queries of the build tools.
pub fn dependency_probes() -> (probes: Vec<CommandSpec>)
    ensures
        probes.deep_view() == probes_view(),
{
    let mut probes: Vec<CommandSpec> = Vec::new();
    probes.push(probe("git", "--version"));
    probes.push(probe("cmake", "--version"));
    probes.push(probe("ffmpeg", "-version"));
    probes.push(probe("cc", "--version"));
    proof {
        assert(probes.deep_view() =~= probes_view());
    }
    probes
}

/// Whether a version query shows the tool present: it ran and exited with success.
pub fn probe_ok(outcome: &CommandOutcome) -> (ok: bool)
    ensures
        ok == (outcome matches CommandOutcome::Exited { success: true, .. }),
{
    match outcome {
        CommandOutcome::Exited { success, .. } => *success,
        CommandOutcome::NotRun(_) => false,
    }
}

/// Which build tools were found.
#[derive(Debug, Clone, Copy, PartialEq, Eq, Structural)]
pub struct DepsReport {
    pub git: bool,
    pub cmake: bool,
    pub ffmpeg: bool,
    pub cc: bool,
    /// Whether everything the build needs is there; ffmpeg is not needed.
    pub all_ok: bool,
}

impl DepsReport {
    /// The report for these findings.
    pub fn new(git: bool, cmake: bool, ffmpeg: bool, cc: bool) -> (r: DepsReport)
        ensures
            r.git == git,
            r.cmake == cmake,
            r.ffmpeg == ffmpeg,
            r.cc == cc,
            r.all_ok == (git && cmake && cc),
    {
        DepsReport { git, cmake, ffmpeg, cc, all_ok: git && cmake && cc }
    }
}

} // verus!
