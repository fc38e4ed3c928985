//! The coverage pipeline as a verified state machine.
//!
//! The pipeline prepares the toolchain, builds instrumented test binaries,
//! runs them, merges the raw profiles they wrote, and exports two reports.
//! All of that is outside work: child processes and filesystem scans. The
//! decisions between those steps are gathered here in one transition
//! function, `step`: given the current stage and the outcome of the last
//! piece of outside work, it returns the next stage and the next piece of
//! work. An unverified driver performs each action and feeds the outcome
//! back; every choice the pipeline makes is proved here against
//! `step_spec`.

use vstd::prelude::*;
use vstd::string::StringExecFns;
use crate::errors::{Error, Tool};
use crate::messages::{binaries_of, message_lines, test_binaries_from_cargo_test_messages};
use crate::plan::{
    CommandPlan, arg_views, build_plan, demangler_install_plan, demangler_version_plan,
    html_export_plan, is_build_plan, is_demangler_install_plan, is_demangler_version_plan,
    is_html_export_plan, is_lcov_export_plan, is_merge_plan, is_patch_plan,
    is_profiling_tools_install_plan, is_sysroot_query_plan, is_test_run_plan, lcov_export_plan,
    merge_plan, patch_plan, profiling_tools_install_plan, sysroot_query_plan, test_run_plan,
};
use crate::profraw::{profraw_files, profraw_subset};
use crate::sysroot::{first_line_of, sys_root_of_toolchain};

verus! {

/// The externally supplied configuration: where the workspace lives, where
/// coverage output goes, and where the merged profile is written.
pub struct RunConfig {
    pub workspace_dir: String,
    pub coverage_dir: String,
    pub profdata_path: String,
}

/// The resolved locations of the two profiling executables; the demangler
/// is invoked by name once its presence has been ensured.
pub struct ToolchainPaths {
    pub merger: String,
    pub exporter: String,
}

/// Where the pipeline stands: each stage is waiting for the outcome of
/// the one piece of outside work the previous transition requested.
pub enum Stage {
    /// Nothing has happened yet.
    Init,
    /// Checking that the demangler answers its version flag.
    DemanglerCheck,
    /// Installing the demangler after a failed check.
    DemanglerInstall,
    /// Re-checking the demangler after its one-shot installation.
    DemanglerRecheck,
    /// Asking the compiler for its system root.
    SysrootQuery,
    /// Searching the system root for the profile merger.
    MergerSearch { sys_root: Vec<u8> },
    /// Installing the profiling tools after the merger was missing.
    MergerInstall { sys_root: Vec<u8> },
    /// Re-searching for the merger after the one-shot installation.
    MergerResearch { sys_root: Vec<u8> },
    /// Searching the system root for the coverage exporter.
    ExporterSearch { sys_root: Vec<u8>, merger: String },
    /// Installing the profiling tools after the exporter was missing.
    ExporterInstall { sys_root: Vec<u8>, merger: String },
    /// Re-searching for the exporter after the one-shot installation.
    ExporterResearch { sys_root: Vec<u8>, merger: String },
    /// Creating the coverage output directory.
    DirSetup { tools: ToolchainPaths },
    /// Scanning the coverage directory for stale raw profiles.
    StaleScan { tools: ToolchainPaths },
    /// Deleting the stale raw profiles (best effort).
    StaleDelete { tools: ToolchainPaths },
    /// Compiling the instrumented test binaries.
    Build { tools: ToolchainPaths },
    /// Running the test binaries so they write raw profiles.
    TestRun { tools: ToolchainPaths, binaries: Vec<String> },
    /// Scanning the coverage directory for the fresh raw profiles.
    ProfrawScan { tools: ToolchainPaths, binaries: Vec<String> },
    /// Merging the raw profiles into the indexed profile.
    Merge { tools: ToolchainPaths, binaries: Vec<String> },
    /// Writing the machine-readable line-coverage report.
    ExportLcov { tools: ToolchainPaths, binaries: Vec<String> },
    /// Writing the browsable annotated report.
    ExportHtml { tools: ToolchainPaths, binaries: Vec<String> },
    /// Applying the cosmetic patch to the browsable report's styling.
    PatchStyle,
    /// The pipeline has finished, successfully or not.
    Done,
}

/// The outcome of the last piece of outside work, reported by the driver.
pub enum Event {
    /// The pipeline is being started.
    Start,
    /// The command (or filesystem operation) completed successfully.
    Succeeded,
    /// The command could not be spawned or exited unsuccessfully.
    Failed,
    /// The filesystem operation failed.
    IoFailed,
    /// The command succeeded; these are the bytes it wrote to its
    /// standard output.
    Captured(Vec<u8>),
    /// The executable search succeeded at this path.
    FoundAt(String),
    /// The executable search found nothing.
    Missing,
    /// The directory scan listed these entries, in scan order.
    Listed(Vec<String>),
}

/// The next piece of outside work the driver must perform.
pub enum Action {
    /// Run the command to completion; report `Succeeded` or `Failed`.
    Execute(CommandPlan),
    /// Run the command capturing its standard output; report `Captured`
    /// or `Failed`.
    Capture(CommandPlan),
    /// Search under `root` for an executable named `name`; report
    /// `FoundAt` or `Missing`.
    Locate { root: Vec<u8>, name: String },
    /// Create the directory and its parents; report `Succeeded` or
    /// `IoFailed`.
    MakeDir { path: String },
    /// Delete each listed file, ignoring individual failures; report
    /// `Succeeded`.
    Remove { paths: Vec<String> },
    /// List the files directly inside `path`, in scan order, as full
    /// paths; report `Listed` or `IoFailed`.
    ListDir { path: String },
    /// The pipeline is over with this outcome; no event follows.
    Finish(Result<(), Error>),
}

/// Which events can answer which stage.
pub open spec fn event_fits(stage: Stage, event: Event) -> bool {
    match stage {
        Stage::Init => event is Start,
        Stage::DemanglerCheck => event is Succeeded || event is Failed,
        Stage::DemanglerInstall => event is Succeeded || event is Failed,
        Stage::DemanglerRecheck => event is Succeeded || event is Failed,
        Stage::SysrootQuery => event is Captured || event is Failed,
        Stage::MergerSearch { .. } => event is FoundAt || event is Missing,
        Stage::MergerInstall { .. } => event is Succeeded || event is Failed,
        Stage::MergerResearch { .. } => event is FoundAt || event is Missing,
        Stage::ExporterSearch { .. } => event is FoundAt || event is Missing,
        Stage::ExporterInstall { .. } => event is Succeeded || event is Failed,
        Stage::ExporterResearch { .. } => event is FoundAt || event is Missing,
        Stage::DirSetup { .. } => event is Succeeded || event is IoFailed,
        Stage::StaleScan { .. } => event is Listed || event is IoFailed,
        Stage::StaleDelete { .. } => event is Succeeded,
        Stage::Build { .. } => event is Captured || event is Failed,
        Stage::TestRun { .. } => event is Succeeded || event is Failed,
        Stage::ProfrawScan { .. } => event is Listed || event is IoFailed,
        Stage::Merge { .. } => event is Succeeded || event is Failed,
        Stage::ExportLcov { .. } => event is Succeeded || event is Failed || event is IoFailed,
        Stage::ExportHtml { .. } => event is Succeeded || event is Failed,
        Stage::PatchStyle => event is Succeeded || event is Failed,
        Stage::Done => false,
    }
}

/// The error carried by a `Finish` action, if any.
pub open spec fn finish_error_of(r: (Stage, Action)) -> Option<Error> {
    match r.1 {
        Action::Finish(res) => match res {
            Ok(_) => None,
            Err(e) => Some(e),
        },
        _ => None,
    }
}

/// The pipeline stops here, reporting that the named external tool failed.
pub open spec fn fails_command(r: (Stage, Action), t: Tool) -> bool {
    &&& r.0 is Done
    &&& (match finish_error_of(r) {
        Some(Error::CommandFailed { tool }) => tool == t,
        _ => false,
    })
}

/// The pipeline stops here with a filesystem error at the given path.
pub open spec fn fails_io(r: (Stage, Action), path: Seq<char>) -> bool {
    &&& r.0 is Done
    &&& (match finish_error_of(r) {
        Some(Error::Io { path: p }) => p@ == path,
        _ => false,
    })
}

/// The pipeline stops here because the named tool was still absent after
/// its one-shot installation.
pub open spec fn fails_tool_not_found(r: (Stage, Action), name: Seq<char>) -> bool {
    &&& r.0 is Done
    &&& (match finish_error_of(r) {
        Some(Error::ToolNotFound { name: n }) => n@ == name,
        _ => false,
    })
}

/// The pipeline stops here because the named helper was still not
/// invocable after its one-shot installation.
pub open spec fn fails_tool_install(r: (Stage, Action), name: Seq<char>) -> bool {
    &&& r.0 is Done
    &&& (match finish_error_of(r) {
        Some(Error::ToolInstall { name: n }) => n@ == name,
        _ => false,
    })
}

/// The pipeline stops here successfully.
pub open spec fn succeeds(r: (Stage, Action)) -> bool {
    &&& r.0 is Done
    &&& r.1 matches Action::Finish(res) && res is Ok
}

/// The transition relation of the pipeline: what stage and action must
/// follow each stage and event.
pub open spec fn step_spec(config: RunConfig, stage: Stage, event: Event, r: (Stage, Action)) -> bool {
    match (stage, event) {
        (Stage::Init, Event::Start) => {
            &&& r.0 is DemanglerCheck
            &&& r.1 matches Action::Execute(p) && is_demangler_version_plan(p)
        },
        (Stage::DemanglerCheck, Event::Succeeded) => {
            &&& r.0 is SysrootQuery
            &&& r.1 matches Action::Capture(p) && is_sysroot_query_plan(p, config.workspace_dir@)
        },
        (Stage::DemanglerCheck, Event::Failed) => {
            &&& r.0 is DemanglerInstall
            &&& r.1 matches Action::Execute(p) && is_demangler_install_plan(
                p,
                config.workspace_dir@,
            )
        },
        (Stage::DemanglerInstall, Event::Succeeded) => {
            &&& r.0 is DemanglerRecheck
            &&& r.1 matches Action::Execute(p) && is_demangler_version_plan(p)
        },
        (Stage::DemanglerInstall, Event::Failed) => fails_command(r, Tool::PackageManager),
        (Stage::DemanglerRecheck, Event::Succeeded) => {
            &&& r.0 is SysrootQuery
            &&& r.1 matches Action::Capture(p) && is_sysroot_query_plan(p, config.workspace_dir@)
        },
        (Stage::DemanglerRecheck, Event::Failed) => fails_tool_install(r, "rustfilt"@),
        (Stage::SysrootQuery, Event::Captured(out)) => {
            &&& r.0 matches Stage::MergerSearch { sys_root } && sys_root@ == first_line_of(out@)
            &&& r.1 matches Action::Locate { root, name } && root@ == first_line_of(out@)
                && name@ == "llvm-profdata"@
        },
        (Stage::SysrootQuery, Event::Failed) => fails_command(r, Tool::Compiler),
        (Stage::MergerSearch { sys_root }, Event::FoundAt(path)) => {
            &&& r.0 matches Stage::ExporterSearch { sys_root: s2, merger } && s2@ == sys_root@
                && merger == path
            &&& r.1 matches Action::Locate { root, name } && root@ == sys_root@ && name@
                == "llvm-cov"@
        },
        (Stage::MergerSearch { sys_root }, Event::Missing) => {
            &&& r.0 matches Stage::MergerInstall { sys_root: s2 } && s2@ == sys_root@
            &&& r.1 matches Action::Execute(p) && is_profiling_tools_install_plan(
                p,
                config.workspace_dir@,
            )
        },
        (Stage::MergerInstall { sys_root }, Event::Succeeded) => {
            &&& r.0 matches Stage::MergerResearch { sys_root: s2 } && s2@ == sys_root@
            &&& r.1 matches Action::Locate { root, name } && root@ == sys_root@ && name@
                == "llvm-profdata"@
        },
        (Stage::MergerInstall { .. }, Event::Failed) => fails_command(r, Tool::ToolchainManager),
        (Stage::MergerResearch { sys_root }, Event::FoundAt(path)) => {
            &&& r.0 matches Stage::ExporterSearch { sys_root: s2, merger } && s2@ == sys_root@
                && merger == path
            &&& r.1 matches Action::Locate { root, name } && root@ == sys_root@ && name@
                == "llvm-cov"@
        },
        (Stage::MergerResearch { .. }, Event::Missing) => fails_tool_not_found(
            r,
            "llvm-profdata"@,
        ),
        (Stage::ExporterSearch { sys_root, merger }, Event::FoundAt(path)) => {
            &&& r.0 matches Stage::DirSetup { tools } && tools.merger == merger && tools.exporter
                == path
            &&& r.1 matches Action::MakeDir { path: d } && d@ == config.coverage_dir@
        },
        (Stage::ExporterSearch { sys_root, merger }, Event::Missing) => {
            &&& r.0 matches Stage::ExporterInstall { sys_root: s2, merger: m2 } && s2@
                == sys_root@ && m2 == merger
            &&& r.1 matches Action::Execute(p) && is_profiling_tools_install_plan(
                p,
                config.workspace_dir@,
            )
        },
        (Stage::ExporterInstall { sys_root, merger }, Event::Succeeded) => {
            &&& r.0 matches Stage::ExporterResearch { sys_root: s2, merger: m2 } && s2@
                == sys_root@ && m2 == merger
            &&& r.1 matches Action::Locate { root, name } && root@ == sys_root@ && name@
                == "llvm-cov"@
        },
        (Stage::ExporterInstall { .. }, Event::Failed) => fails_command(
            r,
            Tool::ToolchainManager,
        ),
        (Stage::ExporterResearch { sys_root, merger }, Event::FoundAt(path)) => {
            &&& r.0 matches Stage::DirSetup { tools } && tools.merger == merger && tools.exporter
                == path
            &&& r.1 matches Action::MakeDir { path: d } && d@ == config.coverage_dir@
        },
        (Stage::ExporterResearch { .. }, Event::Missing) => fails_tool_not_found(r, "llvm-cov"@),
        (Stage::DirSetup { tools }, Event::Succeeded) => {
            &&& r.0 matches Stage::StaleScan { tools: t2 } && t2 == tools
            &&& r.1 matches Action::ListDir { path } && path@ == config.coverage_dir@
        },
        (Stage::DirSetup { .. }, Event::IoFailed) => fails_io(r, config.coverage_dir@),
        (Stage::StaleScan { tools }, Event::Listed(names)) => {
            &&& r.0 matches Stage::StaleDelete { tools: t2 } && t2 == tools
            &&& r.1 matches Action::Remove { paths } && arg_views(paths@) == profraw_subset(
                arg_views(names@),
            )
        },
        (Stage::StaleScan { .. }, Event::IoFailed) => fails_io(r, config.coverage_dir@),
        (Stage::StaleDelete { tools }, Event::Succeeded) => {
            &&& r.0 matches Stage::Build { tools: t2 } && t2 == tools
            &&& r.1 matches Action::Capture(p) && is_build_plan(
                p,
                config.workspace_dir@,
                config.coverage_dir@,
            )
        },
        (Stage::Build { tools }, Event::Captured(out)) => {
            &&& r.0 matches Stage::TestRun { tools: t2, binaries } && t2 == tools && arg_views(
                binaries@,
            ) == binaries_of(message_lines(out@))
            &&& r.1 matches Action::Execute(p) && is_test_run_plan(
                p,
                config.workspace_dir@,
                config.coverage_dir@,
            )
        },
        (Stage::Build { .. }, Event::Failed) => fails_command(r, Tool::Build),
        (Stage::TestRun { tools, binaries }, Event::Succeeded) => {
            &&& r.0 matches Stage::ProfrawScan { tools: t2, binaries: b2 } && t2 == tools && b2
                == binaries
            &&& r.1 matches Action::ListDir { path } && path@ == config.coverage_dir@
        },
        (Stage::TestRun { .. }, Event::Failed) => fails_command(r, Tool::TestRun),
        (Stage::ProfrawScan { tools, binaries }, Event::Listed(names)) => {
            &&& r.0 matches Stage::Merge { tools: t2, binaries: b2 } && t2 == tools && b2
                == binaries
            &&& r.1 matches Action::Execute(p) && is_merge_plan(
                p,
                tools.merger@,
                config.profdata_path@,
                profraw_subset(arg_views(names@)),
            )
        },
        (Stage::ProfrawScan { .. }, Event::IoFailed) => fails_io(r, config.coverage_dir@),
        (Stage::Merge { tools, binaries }, Event::Succeeded) => {
            &&& r.0 matches Stage::ExportLcov { tools: t2, binaries: b2 } && t2 == tools && b2
                == binaries
            &&& r.1 matches Action::Execute(p) && is_lcov_export_plan(
                p,
                tools.exporter@,
                config.coverage_dir@,
                config.profdata_path@,
                arg_views(binaries@),
            )
        },
        (Stage::Merge { .. }, Event::Failed) => fails_command(r, Tool::Merge),
        (Stage::ExportLcov { tools, binaries }, Event::Succeeded) => {
            &&& r.0 matches Stage::ExportHtml { tools: t2, binaries: b2 } && t2 == tools && b2
                == binaries
            &&& r.1 matches Action::Execute(p) && is_html_export_plan(
                p,
                tools.exporter@,
                config.coverage_dir@,
                config.profdata_path@,
                arg_views(binaries@),
            )
        },
        (Stage::ExportLcov { .. }, Event::Failed) => fails_command(r, Tool::Export),
        (Stage::ExportLcov { .. }, Event::IoFailed) => fails_io(
            r,
            config.coverage_dir@ + "/lcov.info"@,
        ),
        (Stage::ExportHtml { .. }, Event::Succeeded) => {
            &&& r.0 is PatchStyle
            &&& r.1 matches Action::Execute(p) && is_patch_plan(
                p,
                config.workspace_dir@,
                config.coverage_dir@,
            )
        },
        (Stage::ExportHtml { .. }, Event::Failed) => fails_command(r, Tool::Export),
        (Stage::PatchStyle, Event::Succeeded) => succeeds(r),
        (Stage::PatchStyle, Event::Failed) => fails_command(r, Tool::Patch),
        _ => false,
    }
}

/// One transition of the pipeline: from the current stage and the outcome
/// of the last piece of outside work to the next stage and the next piece
/// of work, exactly as `step_spec` prescribes.
pub fn step(config: &RunConfig, stage: Stage, event: Event) -> (r: (Stage, Action))
    requires
        event_fits(stage, event),
    ensures
        step_spec(*config, stage, event, r),
{
    match (stage, event) {
        (Stage::Init, Event::Start) => {
            (Stage::DemanglerCheck, Action::Execute(demangler_version_plan()))
        },
        (Stage::DemanglerCheck, Event::Succeeded) => {
            (Stage::SysrootQuery, Action::Capture(sysroot_query_plan(&config.workspace_dir)))
        },
        (Stage::DemanglerCheck, Event::Failed) => {
            (
                Stage::DemanglerInstall,
                Action::Execute(demangler_install_plan(&config.workspace_dir)),
            )
        },
        (Stage::DemanglerInstall, Event::Succeeded) => {
            (Stage::DemanglerRecheck, Action::Execute(demangler_version_plan()))
        },
        (Stage::DemanglerInstall, Event::Failed) => {
            (
                Stage::Done,
                Action::Finish(Err(Error::CommandFailed { tool: Tool::PackageManager })),
            )
        },
        (Stage::DemanglerRecheck, Event::Succeeded) => {
            (Stage::SysrootQuery, Action::Capture(sysroot_query_plan(&config.workspace_dir)))
        },
        (Stage::DemanglerRecheck, Event::Failed) => {
            (
                Stage::Done,
                Action::Finish(Err(Error::ToolInstall { name: "rustfilt".to_owned() })),
            )
        },
        (Stage::SysrootQuery, Event::Captured(out)) => {
            let root = sys_root_of_toolchain(&out);
            let root_copy = sys_root_of_toolchain(&out);
            let action = Action::Locate { root: root_copy, name: "llvm-profdata".to_owned() };
            (Stage::MergerSearch { sys_root: root }, action)
        },
        (Stage::SysrootQuery, Event::Failed) => {
            (Stage::Done, Action::Finish(Err(Error::CommandFailed { tool: Tool::Compiler })))
        },
        (Stage::MergerSearch { sys_root }, Event::FoundAt(path)) => {
            let action = Action::Locate { root: clone_bytes(&sys_root), name: "llvm-cov".to_owned() };
            (Stage::ExporterSearch { sys_root, merger: path }, action)
        },
        (Stage::MergerSearch { sys_root }, Event::Missing) => {
            let action = Action::Execute(profiling_tools_install_plan(&config.workspace_dir));
            (Stage::MergerInstall { sys_root }, action)
        },
        (Stage::MergerInstall { sys_root }, Event::Succeeded) => {
            let action = Action::Locate {
                root: clone_bytes(&sys_root),
                name: "llvm-profdata".to_owned(),
            };
            (Stage::MergerResearch { sys_root }, action)
        },
        (Stage::MergerInstall { .. }, Event::Failed) => {
            (
                Stage::Done,
                Action::Finish(Err(Error::CommandFailed { tool: Tool::ToolchainManager })),
            )
        },
        (Stage::MergerResearch { sys_root }, Event::FoundAt(path)) => {
            let action = Action::Locate { root: clone_bytes(&sys_root), name: "llvm-cov".to_owned() };
            (Stage::ExporterSearch { sys_root, merger: path }, action)
        },
        (Stage::MergerResearch { .. }, Event::Missing) => {
            (
                Stage::Done,
                Action::Finish(Err(Error::ToolNotFound { name: "llvm-profdata".to_owned() })),
            )
        },
        (Stage::ExporterSearch { sys_root: _, merger }, Event::FoundAt(path)) => {
            let action = Action::MakeDir { path: config.coverage_dir.clone() };
            (Stage::DirSetup { tools: ToolchainPaths { merger, exporter: path } }, action)
        },
        (Stage::ExporterSearch { sys_root, merger }, Event::Missing) => {
            let action = Action::Execute(profiling_tools_install_plan(&config.workspace_dir));
            (Stage::ExporterInstall { sys_root, merger }, action)
        },
        (Stage::ExporterInstall { sys_root, merger }, Event::Succeeded) => {
            let action = Action::Locate { root: clone_bytes(&sys_root), name: "llvm-cov".to_owned() };
            (Stage::ExporterResearch { sys_root, merger }, action)
        },
        (Stage::ExporterInstall { .. }, Event::Failed) => {
            (
                Stage::Done,
                Action::Finish(Err(Error::CommandFailed { tool: Tool::ToolchainManager })),
            )
        },
        (Stage::ExporterResearch { sys_root: _, merger }, Event::FoundAt(path)) => {
            let action = Action::MakeDir { path: config.coverage_dir.clone() };
            (Stage::DirSetup { tools: ToolchainPaths { merger, exporter: path } }, action)
        },
        (Stage::ExporterResearch { .. }, Event::Missing) => {
            (
                Stage::Done,
                Action::Finish(Err(Error::ToolNotFound { name: "llvm-cov".to_owned() })),
            )
        },
        (Stage::DirSetup { tools }, Event::Succeeded) => {
            (Stage::StaleScan { tools }, Action::ListDir { path: config.coverage_dir.clone() })
        },
        (Stage::DirSetup { .. }, Event::IoFailed) => {
            (
                Stage::Done,
                Action::Finish(Err(Error::Io { path: config.coverage_dir.clone() })),
            )
        },
        (Stage::StaleScan { tools }, Event::Listed(names)) => {
            (Stage::StaleDelete { tools }, Action::Remove { paths: profraw_files(&names) })
        },
        (Stage::StaleScan { .. }, Event::IoFailed) => {
            (
                Stage::Done,
                Action::Finish(Err(Error::Io { path: config.coverage_dir.clone() })),
            )
        },
        (Stage::StaleDelete { tools }, Event::Succeeded) => {
            (
                Stage::Build { tools },
                Action::Capture(build_plan(&config.workspace_dir, &config.coverage_dir)),
            )
        },
        (Stage::Build { tools }, Event::Captured(out)) => {
            let binaries = test_binaries_from_cargo_test_messages(&out);
            (
                Stage::TestRun { tools, binaries },
                Action::Execute(test_run_plan(&config.workspace_dir, &config.coverage_dir)),
            )
        },
        (Stage::Build { .. }, Event::Failed) => {
            (Stage::Done, Action::Finish(Err(Error::CommandFailed { tool: Tool::Build })))
        },
        (Stage::TestRun { tools, binaries }, Event::Succeeded) => {
            (
                Stage::ProfrawScan { tools, binaries },
                Action::ListDir { path: config.coverage_dir.clone() },
            )
        },
        (Stage::TestRun { .. }, Event::Failed) => {
            (Stage::Done, Action::Finish(Err(Error::CommandFailed { tool: Tool::TestRun })))
        },
        (Stage::ProfrawScan { tools, binaries }, Event::Listed(names)) => {
            let action = Action::Execute(
                merge_plan(&tools.merger, &config.profdata_path, profraw_files(&names)),
            );
            (Stage::Merge { tools, binaries }, action)
        },
        (Stage::ProfrawScan { .. }, Event::IoFailed) => {
            (
                Stage::Done,
                Action::Finish(Err(Error::Io { path: config.coverage_dir.clone() })),
            )
        },
        (Stage::Merge { tools, binaries }, Event::Succeeded) => {
            let action = Action::Execute(
                lcov_export_plan(
                    &tools.exporter,
                    &config.coverage_dir,
                    &config.profdata_path,
                    &binaries,
                ),
            );
            (Stage::ExportLcov { tools, binaries }, action)
        },
        (Stage::Merge { .. }, Event::Failed) => {
            (Stage::Done, Action::Finish(Err(Error::CommandFailed { tool: Tool::Merge })))
        },
        (Stage::ExportLcov { tools, binaries }, Event::Succeeded) => {
            let action = Action::Execute(
                html_export_plan(
                    &tools.exporter,
                    &config.coverage_dir,
                    &config.profdata_path,
                    &binaries,
                ),
            );
            (Stage::ExportHtml { tools, binaries }, action)
        },
        (Stage::ExportLcov { .. }, Event::Failed) => {
            (Stage::Done, Action::Finish(Err(Error::CommandFailed { tool: Tool::Export })))
        },
        (Stage::ExportLcov { .. }, Event::IoFailed) => {
            (
                Stage::Done,
                Action::Finish(
                    Err(Error::Io { path: config.coverage_dir.clone().concat("/lcov.info") }),
                ),
            )
        },
        (Stage::ExportHtml { .. }, Event::Succeeded) => {
            (
                Stage::PatchStyle,
                Action::Execute(patch_plan(&config.workspace_dir, &config.coverage_dir)),
            )
        },
        (Stage::ExportHtml { .. }, Event::Failed) => {
            (Stage::Done, Action::Finish(Err(Error::CommandFailed { tool: Tool::Export })))
        },
        (Stage::PatchStyle, Event::Succeeded) => {
            (Stage::Done, Action::Finish(Ok(())))
        },
        (Stage::PatchStyle, Event::Failed) => {
            (Stage::Done, Action::Finish(Err(Error::CommandFailed { tool: Tool::Patch })))
        },
        (_, _) => unreached(),
    }
}

/// Where a stage stands in the pipeline's fixed order.
pub open spec fn stage_index(stage: Stage) -> int {
    match stage {
        Stage::Init => 0,
        Stage::DemanglerCheck => 1,
        Stage::DemanglerInstall => 2,
        Stage::DemanglerRecheck => 3,
        Stage::SysrootQuery => 4,
        Stage::MergerSearch { .. } => 5,
        Stage::MergerInstall { .. } => 6,
        Stage::MergerResearch { .. } => 7,
        Stage::ExporterSearch { .. } => 8,
        Stage::ExporterInstall { .. } => 9,
        Stage::ExporterResearch { .. } => 10,
        Stage::DirSetup { .. } => 11,
        Stage::StaleScan { .. } => 12,
        Stage::StaleDelete { .. } => 13,
        Stage::Build { .. } => 14,
        Stage::TestRun { .. } => 15,
        Stage::ProfrawScan { .. } => 16,
        Stage::Merge { .. } => 17,
        Stage::ExportLcov { .. } => 18,
        Stage::ExportHtml { .. } => 19,
        Stage::PatchStyle => 20,
        Stage::Done => 21,
    }
}

/// Control flows strictly forward: every transition moves to a later
/// stage, so no stage runs twice in one run, and in particular the stale
/// raw profiles are deleted (at the stale-delete stage) before the build,
/// the test run and the merge, and the merge happens before either export.
pub proof fn lemma_pipeline_moves_forward(
    config: RunConfig,
    stage: Stage,
    event: Event,
    r: (Stage, Action),
)
    requires
        event_fits(stage, event),
        step_spec(config, stage, event, r),
    ensures
        stage_index(r.0) > stage_index(stage),
{
}

/// The merge is preceded by clearing every stale raw profile: when the
/// first scan of the coverage directory reports its entries, the pipeline
/// schedules for deletion exactly the entries that carry the raw-profile
/// extension, and only then moves on toward the build, the test run and
/// the merge.
pub proof fn lemma_stale_profiles_cleared(
    config: RunConfig,
    tools: ToolchainPaths,
    names: Vec<String>,
    r: (Stage, Action),
)
    requires
        step_spec(config, Stage::StaleScan { tools }, Event::Listed(names), r),
    ensures
        r.0 matches Stage::StaleDelete { tools: t2 } && t2 == tools,
        r.1 matches Action::Remove { paths } && arg_views(paths@) == profraw_subset(
            arg_views(names@),
        ),
{
}

/// An empty raw-profile set is tolerated: when the fresh scan finds no
/// raw profile, the pipeline still proceeds to the merge, invoking the
/// merger with no positional inputs rather than failing.
pub proof fn lemma_empty_profile_set_merges(
    config: RunConfig,
    tools: ToolchainPaths,
    binaries: Vec<String>,
    names: Vec<String>,
    r: (Stage, Action),
)
    requires
        step_spec(
            config,
            Stage::ProfrawScan { tools, binaries },
            Event::Listed(names),
            r,
        ),
        profraw_subset(arg_views(names@)) == Seq::<Seq<char>>::empty(),
    ensures
        r.0 matches Stage::Merge { tools: t2, binaries: b2 } && t2 == tools && b2 == binaries,
        r.1 matches Action::Execute(p) && is_merge_plan(
            p,
            tools.merger@,
            config.profdata_path@,
            Seq::<Seq<char>>::empty(),
        ),
{
}

/// The build stage is entered only from the stale cleanup: whatever
/// transition produces the build starts at the stale-delete stage. With
/// `lemma_pipeline_moves_forward` this puts the deletion of old raw
/// profiles on every path that reaches the build, the test run and the
/// merge.
pub proof fn lemma_build_follows_cleanup(
    config: RunConfig,
    stage: Stage,
    event: Event,
    r: (Stage, Action),
)
    requires
        event_fits(stage, event),
        step_spec(config, stage, event, r),
        r.0 matches Stage::Build { .. },
    ensures
        stage matches Stage::StaleDelete { .. },
        event is Succeeded,
{
}

/// The stale-delete stage is entered only from the stale scan, and what
/// it deletes is exactly the raw-profile subset of what that scan listed:
/// no raw profile that the scan saw escapes the cleanup.
pub proof fn lemma_cleanup_covers_the_scan(
    config: RunConfig,
    stage: Stage,
    event: Event,
    r: (Stage, Action),
)
    requires
        event_fits(stage, event),
        step_spec(config, stage, event, r),
        r.0 matches Stage::StaleDelete { .. },
    ensures
        stage matches Stage::StaleScan { .. },
        event matches Event::Listed(names) && r.1 matches Action::Remove { paths }
            && arg_views(paths@) == profraw_subset(arg_views(names@)),
{
}

/// The merge stage is entered only from the fresh raw-profile scan, and
/// its inputs are exactly the raw-profile subset of what that scan
/// listed: nothing but freshly scanned raw profiles reaches the merger.
pub proof fn lemma_merge_follows_fresh_scan(
    config: RunConfig,
    stage: Stage,
    event: Event,
    r: (Stage, Action),
)
    requires
        event_fits(stage, event),
        step_spec(config, stage, event, r),
        r.0 matches Stage::Merge { .. },
    ensures
        stage matches Stage::ProfrawScan { tools, binaries } && event matches Event::Listed(
            names,
        ) && (r.1 matches Action::Execute(p) && is_merge_plan(
            p,
            tools.merger@,
            config.profdata_path@,
            profraw_subset(arg_views(names@)),
        )),
{
}

/// A tool that is present on the first search triggers no installation:
/// the transition goes straight to the next search, and its action is a
/// search, not a command.
pub proof fn lemma_present_tool_skips_install(
    config: RunConfig,
    sys_root: Vec<u8>,
    path: String,
    r: (Stage, Action),
)
    requires
        step_spec(config, Stage::MergerSearch { sys_root }, Event::FoundAt(path), r),
    ensures
        r.0 matches Stage::ExporterSearch { sys_root: s2, merger } && s2@ == sys_root@
            && merger == path,
        r.1 matches Action::Locate { root, name } && root@ == sys_root@ && name@ == "llvm-cov"@,
{
}

/// A tool that is absent is installed exactly once: the first miss
/// triggers the one-shot installation and a single re-search, and a miss
/// on the re-search is final, failing the pipeline with the
/// tool-not-found error rather than installing again.
pub proof fn lemma_absent_tool_installs_once(
    config: RunConfig,
    sys_root: Vec<u8>,
    sys_root2: Vec<u8>,
    r1: (Stage, Action),
    r2: (Stage, Action),
)
    requires
        step_spec(config, Stage::MergerSearch { sys_root }, Event::Missing, r1),
        step_spec(config, Stage::MergerResearch { sys_root: sys_root2 }, Event::Missing, r2),
    ensures
        r1.0 matches Stage::MergerInstall { sys_root: s2 } && s2@ == sys_root@,
        r1.1 matches Action::Execute(p) && is_profiling_tools_install_plan(
            p,
            config.workspace_dir@,
        ),
        fails_tool_not_found(r2, "llvm-profdata"@),
{
}

/// The demangler is installed at most once: a failed version check leads
/// to the one-shot installation and a single re-check, and a failed
/// re-check is final, failing the pipeline with the tool-install error
/// rather than installing again.
pub proof fn lemma_demangler_installed_once(
    config: RunConfig,
    r1: (Stage, Action),
    r2: (Stage, Action),
)
    requires
        step_spec(config, Stage::DemanglerCheck, Event::Failed, r1),
        step_spec(config, Stage::DemanglerRecheck, Event::Failed, r2),
    ensures
        r1.0 is DemanglerInstall,
        r1.1 matches Action::Execute(p) && is_demangler_install_plan(p, config.workspace_dir@),
        fails_tool_install(r2, "rustfilt"@),
{
}

/// A copy of a byte vector, byte for byte.
fn clone_bytes(bytes: &Vec<u8>) -> (r: Vec<u8>)
    ensures
        r@ == bytes@,
{
    let r = bytes.clone();
    proof {
        assert(r@ =~= bytes@);
    }
    r
}

} // verus!
