//! Fully determined plans for the external commands the pipeline runs.
//!
//! Every external invocation of the pipeline is described first as a
//! `CommandPlan`: the program to run, its arguments, the environment
//! variables to set, the working directory, and what to do with its
//! standard output. The builders here pin every field of every plan, so
//! that what the pipeline asks of each external tool is part of its
//! contract; actually spawning a process from a plan is left to the
//! pipeline's unverified driver.

use vstd::prelude::*;
use vstd::string::StringExecFns;

verus! {

/// The views of a list of argument (or path) strings.
pub open spec fn arg_views(args: Seq<String>) -> Seq<Seq<char>> {
    args.map_values(|s: String| s@)
}

/// The views of a list of environment variable pairs.
pub open spec fn env_views(envs: Seq<(String, String)>) -> Seq<(Seq<char>, Seq<char>)> {
    envs.map_values(|e: (String, String)| (e.0@, e.1@))
}

/// One external command, fully determined: program, argument list,
/// extra environment, working directory, and standard-output disposition.
pub struct CommandPlan {
    pub program: String,
    pub args: Vec<String>,
    pub envs: Vec<(String, String)>,
    pub current_dir: Option<String>,
    pub stdout_to_file: Option<String>,
    pub discard_stdout: bool,
}

/// The compiler flags that instrument every build for coverage.
pub open spec fn instrument_flags() -> Seq<char> {
    "-Cinstrument-coverage -Clink-dead-code"@
}

/// The environment every coverage build and test run gets: backtraces on,
/// incremental compilation off, and instrumentation flags for the compiler
/// and the doc compiler.
pub open spec fn common_env_views() -> Seq<(Seq<char>, Seq<char>)> {
    seq![
        ("RUST_BACKTRACE"@, "1"@),
        ("CARGO_INCREMENTAL"@, "0"@),
        ("RUSTFLAGS"@, instrument_flags()),
        ("RUSTDOCFLAGS"@, instrument_flags()),
    ]
}

fn common_env() -> (r: Vec<(String, String)>)
    ensures
        env_views(r@) == common_env_views(),
{
    let mut r: Vec<(String, String)> = Vec::new();
    r.push(("RUST_BACKTRACE".to_owned(), "1".to_owned()));
    r.push(("CARGO_INCREMENTAL".to_owned(), "0".to_owned()));
    r.push(("RUSTFLAGS".to_owned(), "-Cinstrument-coverage -Clink-dead-code".to_owned()));
    r.push(("RUSTDOCFLAGS".to_owned(), "-Cinstrument-coverage -Clink-dead-code".to_owned()));
    proof {
        assert(env_views(r@) =~= common_env_views());
    }
    r
}

/// The selectors shared by the build and the test run: test targets of the
/// whole workspace, built into the coverage directory.
pub open spec fn coverage_selector_views(coverage_dir: Seq<char>) -> Seq<Seq<char>> {
    seq!["test"@, "--workspace"@, "--tests"@, "--target-dir"@, coverage_dir]
}

fn coverage_selectors(coverage_dir: &String) -> (r: Vec<String>)
    ensures
        arg_views(r@) == coverage_selector_views(coverage_dir@),
{
    let mut r: Vec<String> = Vec::new();
    r.push("test".to_owned());
    r.push("--workspace".to_owned());
    r.push("--tests".to_owned());
    r.push("--target-dir".to_owned());
    r.push(coverage_dir.clone());
    proof {
        assert(arg_views(r@) =~= coverage_selector_views(coverage_dir@));
    }
    r
}

/// Checking that the demangling helper is invocable: its version flag, with
/// the output thrown away.
pub open spec fn is_demangler_version_plan(p: CommandPlan) -> bool {
    &&& p.program@ == "rustfilt"@
    &&& arg_views(p.args@) == seq!["--version"@]
    &&& p.envs@.len() == 0
    &&& p.current_dir is None
    &&& p.stdout_to_file is None
    &&& p.discard_stdout
}

pub fn demangler_version_plan() -> (r: CommandPlan)
    ensures
        is_demangler_version_plan(r),
{
    let mut args: Vec<String> = Vec::new();
    args.push("--version".to_owned());
    proof {
        assert(arg_views(args@) =~= seq!["--version"@]);
    }
    CommandPlan {
        program: "rustfilt".to_owned(),
        args,
        envs: Vec::new(),
        current_dir: None,
        stdout_to_file: None,
        discard_stdout: true,
    }
}

/// Installing the demangling helper through the package manager.
pub open spec fn is_demangler_install_plan(p: CommandPlan, workspace_dir: Seq<char>) -> bool {
    &&& p.program@ == "cargo"@
    &&& arg_views(p.args@) == seq!["--quiet"@, "install"@, "rustfilt"@]
    &&& p.envs@.len() == 0
    &&& p.current_dir matches Some(d) && d@ == workspace_dir
    &&& p.stdout_to_file is None
    &&& !p.discard_stdout
}

pub fn demangler_install_plan(workspace_dir: &String) -> (r: CommandPlan)
    ensures
        is_demangler_install_plan(r, workspace_dir@),
{
    let mut args: Vec<String> = Vec::new();
    args.push("--quiet".to_owned());
    args.push("install".to_owned());
    args.push("rustfilt".to_owned());
    proof {
        assert(arg_views(args@) =~= seq!["--quiet"@, "install"@, "rustfilt"@]);
    }
    CommandPlan {
        program: "cargo".to_owned(),
        args,
        envs: Vec::new(),
        current_dir: Some(workspace_dir.clone()),
        stdout_to_file: None,
        discard_stdout: false,
    }
}

/// Asking the compiler for its system root, with the output captured.
pub open spec fn is_sysroot_query_plan(p: CommandPlan, workspace_dir: Seq<char>) -> bool {
    &&& p.program@ == "rustc"@
    &&& arg_views(p.args@) == seq!["--print"@, "sysroot"@]
    &&& p.envs@.len() == 0
    &&& p.current_dir matches Some(d) && d@ == workspace_dir
    &&& p.stdout_to_file is None
    &&& !p.discard_stdout
}

pub fn sysroot_query_plan(workspace_dir: &String) -> (r: CommandPlan)
    ensures
        is_sysroot_query_plan(r, workspace_dir@),
{
    let mut args: Vec<String> = Vec::new();
    args.push("--print".to_owned());
    args.push("sysroot".to_owned());
    proof {
        assert(arg_views(args@) =~= seq!["--print"@, "sysroot"@]);
    }
    CommandPlan {
        program: "rustc".to_owned(),
        args,
        envs: Vec::new(),
        current_dir: Some(workspace_dir.clone()),
        stdout_to_file: None,
        discard_stdout: false,
    }
}

/// Installing the toolchain component that provides the profiling tools.
pub open spec fn is_profiling_tools_install_plan(p: CommandPlan, workspace_dir: Seq<char>) -> bool {
    &&& p.program@ == "rustup"@
    &&& arg_views(p.args@) == seq![
        "--quiet"@,
        "component"@,
        "add"@,
        "llvm-tools-preview"@,
    ]
    &&& p.envs@.len() == 0
    &&& p.current_dir matches Some(d) && d@ == workspace_dir
    &&& p.stdout_to_file is None
    &&& !p.discard_stdout
}

pub fn profiling_tools_install_plan(workspace_dir: &String) -> (r: CommandPlan)
    ensures
        is_profiling_tools_install_plan(r, workspace_dir@),
{
    let mut args: Vec<String> = Vec::new();
    args.push("--quiet".to_owned());
    args.push("component".to_owned());
    args.push("add".to_owned());
    args.push("llvm-tools-preview".to_owned());
    proof {
        assert(arg_views(args@) =~= seq![
            "--quiet"@,
            "component"@,
            "add"@,
            "llvm-tools-preview"@,
        ]);
    }
    CommandPlan {
        program: "rustup".to_owned(),
        args,
        envs: Vec::new(),
        current_dir: Some(workspace_dir.clone()),
        stdout_to_file: None,
        discard_stdout: false,
    }
}

/// Compiling the instrumented test binaries without running them, with
/// structured progress output captured and build-time profile writes sent
/// to the discard sink.
pub open spec fn is_build_plan(p: CommandPlan, workspace_dir: Seq<char>, coverage_dir: Seq<char>) -> bool {
    &&& p.program@ == "cargo"@
    &&& arg_views(p.args@) == coverage_selector_views(coverage_dir) + seq![
        "--no-run"@,
        "--message-format=json"@,
    ]
    &&& env_views(p.envs@) == common_env_views().push(("LLVM_PROFILE_FILE"@, "/dev/null"@))
    &&& p.current_dir matches Some(d) && d@ == workspace_dir
    &&& p.stdout_to_file is None
    &&& !p.discard_stdout
}

pub fn build_plan(workspace_dir: &String, coverage_dir: &String) -> (r: CommandPlan)
    ensures
        is_build_plan(r, workspace_dir@, coverage_dir@),
{
    let mut args = coverage_selectors(coverage_dir);
    args.push("--no-run".to_owned());
    args.push("--message-format=json".to_owned());
    let mut envs = common_env();
    envs.push(("LLVM_PROFILE_FILE".to_owned(), "/dev/null".to_owned()));
    proof {
        assert(arg_views(args@) =~= coverage_selector_views(coverage_dir@) + seq![
            "--no-run"@,
            "--message-format=json"@,
        ]);
        assert(env_views(envs@) =~= common_env_views().push(
            ("LLVM_PROFILE_FILE"@, "/dev/null"@),
        ));
    }
    CommandPlan {
        program: "cargo".to_owned(),
        args,
        envs,
        current_dir: Some(workspace_dir.clone()),
        stdout_to_file: None,
        discard_stdout: false,
    }
}

/// Running the compiled test binaries with the raw-profile path templated
/// per process id inside the coverage directory.
pub open spec fn is_test_run_plan(p: CommandPlan, workspace_dir: Seq<char>, coverage_dir: Seq<char>) -> bool {
    &&& p.program@ == "cargo"@
    &&& arg_views(p.args@) == coverage_selector_views(coverage_dir)
    &&& env_views(p.envs@) == common_env_views().push(
        ("LLVM_PROFILE_FILE"@, coverage_dir + "/%m.profraw"@),
    )
    &&& p.current_dir matches Some(d) && d@ == workspace_dir
    &&& p.stdout_to_file is None
    &&& !p.discard_stdout
}

pub fn test_run_plan(workspace_dir: &String, coverage_dir: &String) -> (r: CommandPlan)
    ensures
        is_test_run_plan(r, workspace_dir@, coverage_dir@),
{
    let args = coverage_selectors(coverage_dir);
    let mut envs = common_env();
    let profile_template = coverage_dir.clone().concat("/%m.profraw");
    envs.push(("LLVM_PROFILE_FILE".to_owned(), profile_template));
    proof {
        assert(env_views(envs@) =~= common_env_views().push(
            ("LLVM_PROFILE_FILE"@, coverage_dir@ + "/%m.profraw"@),
        ));
    }
    CommandPlan {
        program: "cargo".to_owned(),
        args,
        envs,
        current_dir: Some(workspace_dir.clone()),
        stdout_to_file: None,
        discard_stdout: false,
    }
}

/// Merging the raw profiles into one indexed profile: sparse mode, an
/// explicit output path, and the raw-profile files as positional inputs in
/// scan order.
pub open spec fn is_merge_plan(
    p: CommandPlan,
    merger: Seq<char>,
    profdata_path: Seq<char>,
    profraw_files: Seq<Seq<char>>,
) -> bool {
    &&& p.program@ == merger
    &&& arg_views(p.args@) == seq!["merge"@, "--sparse"@, "--output"@, profdata_path]
        + profraw_files
    &&& p.envs@.len() == 0
    &&& p.current_dir is None
    &&& p.stdout_to_file is None
    &&& !p.discard_stdout
}

pub fn merge_plan(merger: &String, profdata_path: &String, profraw_files: Vec<String>) -> (r:
    CommandPlan)
    ensures
        is_merge_plan(r, merger@, profdata_path@, arg_views(profraw_files@)),
{
    let ghost files = profraw_files@;
    let mut args: Vec<String> = Vec::new();
    args.push("merge".to_owned());
    args.push("--sparse".to_owned());
    args.push("--output".to_owned());
    args.push(profdata_path.clone());
    let mut rest = profraw_files;
    args.append(&mut rest);
    proof {
        assert(arg_views(args@) =~= seq!["merge"@, "--sparse"@, "--output"@, profdata_path@]
            + arg_views(files));
    }
    CommandPlan {
        program: merger.clone(),
        args,
        envs: Vec::new(),
        current_dir: None,
        stdout_to_file: None,
        discard_stdout: false,
    }
}

/// The filtering both export sinks share: demangling through the helper,
/// and excluding dependency-registry sources, compiler-internal sources,
/// test-harness-generated sources, and anything inside the coverage
/// directory itself.
pub open spec fn export_filter_views(coverage_dir: Seq<char>) -> Seq<Seq<char>> {
    seq![
        "--Xdemangler"@,
        "rustfilt"@,
        "--ignore-filename-regex"@,
        "/\\.cargo/registry/"@,
        "--ignore-filename-regex"@,
        "/rustc/"@,
        "--ignore-filename-regex"@,
        "/tests.rs$$"@,
        "--ignore-filename-regex"@,
        "^"@ + coverage_dir + "/"@,
    ]
}

fn export_filter_args(coverage_dir: &String) -> (r: Vec<String>)
    ensures
        arg_views(r@) == export_filter_views(coverage_dir@),
{
    let own_dir_pattern = "^".to_owned().concat(coverage_dir.as_str()).concat("/");
    let mut r: Vec<String> = Vec::new();
    r.push("--Xdemangler".to_owned());
    r.push("rustfilt".to_owned());
    r.push("--ignore-filename-regex".to_owned());
    r.push("/\\.cargo/registry/".to_owned());
    r.push("--ignore-filename-regex".to_owned());
    r.push("/rustc/".to_owned());
    r.push("--ignore-filename-regex".to_owned());
    r.push("/tests.rs$$".to_owned());
    r.push("--ignore-filename-regex".to_owned());
    r.push(own_dir_pattern);
    proof {
        assert(arg_views(r@) =~= export_filter_views(coverage_dir@));
    }
    r
}

/// One `--object <binary>` pair per compiled test binary, in order.
pub open spec fn object_arg_views(binaries: Seq<Seq<char>>) -> Seq<Seq<char>>
    decreases binaries.len(),
{
    if binaries.len() == 0 {
        Seq::empty()
    } else {
        object_arg_views(binaries.drop_last()) + seq!["--object"@, binaries.last()]
    }
}

fn push_object_args(args: &mut Vec<String>, binaries: &Vec<String>)
    ensures
        arg_views(final(args)@) == arg_views(old(args)@) + object_arg_views(
            arg_views(binaries@),
        ),
{
    let ghost base = args@;
    let ghost bins = arg_views(binaries@);
    let mut i: usize = 0;
    while i < binaries.len()
        invariant
            0 <= i <= binaries@.len(),
            bins == arg_views(binaries@),
            arg_views(args@) == arg_views(base) + object_arg_views(bins.take(i as int)),
        decreases binaries@.len() - i,
    {
        let ghost before_args = args@;
        args.push("--object".to_owned());
        args.push(binaries[i].clone());
        proof {
            let pair = seq!["--object"@, binaries@[i as int]@];
            assert(arg_views(args@) =~= arg_views(before_args) + pair);
            assert(bins.take(i + 1).drop_last() =~= bins.take(i as int));
            assert(bins.take(i + 1).last() == binaries@[i as int]@);
            assert(object_arg_views(bins.take(i + 1)) == object_arg_views(
                bins.take(i as int),
            ) + pair);
            assert((arg_views(base) + object_arg_views(bins.take(i as int))) + pair
                =~= arg_views(base) + object_arg_views(bins.take(i + 1)));
        }
        i += 1;
    }
    proof {
        assert(bins.take(binaries@.len() as int) =~= bins);
    }
}

/// Rendering the machine-readable line-coverage report: the export
/// subcommand in its machine format, the shared filtering, the merged
/// profile as instrumentation-profile input, one object per test binary,
/// and standard output sent to the report file inside the coverage
/// directory.
pub open spec fn is_lcov_export_plan(
    p: CommandPlan,
    exporter: Seq<char>,
    coverage_dir: Seq<char>,
    profdata_path: Seq<char>,
    binaries: Seq<Seq<char>>,
) -> bool {
    &&& p.program@ == exporter
    &&& arg_views(p.args@) == seq!["export"@, "--format"@, "lcov"@] + export_filter_views(
        coverage_dir,
    ) + seq!["--instr-profile"@, profdata_path] + object_arg_views(binaries)
    &&& p.envs@.len() == 0
    &&& p.current_dir is None
    &&& p.stdout_to_file matches Some(f) && f@ == coverage_dir + "/lcov.info"@
    &&& !p.discard_stdout
}

pub fn lcov_export_plan(
    exporter: &String,
    coverage_dir: &String,
    profdata_path: &String,
    binaries: &Vec<String>,
) -> (r: CommandPlan)
    ensures
        is_lcov_export_plan(
            r,
            exporter@,
            coverage_dir@,
            profdata_path@,
            arg_views(binaries@),
        ),
{
    let mut args: Vec<String> = Vec::new();
    args.push("export".to_owned());
    args.push("--format".to_owned());
    args.push("lcov".to_owned());
    let mut filter = export_filter_args(coverage_dir);
    args.append(&mut filter);
    args.push("--instr-profile".to_owned());
    args.push(profdata_path.clone());
    let ghost head = arg_views(args@);
    push_object_args(&mut args, binaries);
    proof {
        assert(head =~= seq!["export"@, "--format"@, "lcov"@] + export_filter_views(
            coverage_dir@,
        ) + seq!["--instr-profile"@, profdata_path@]);
    }
    CommandPlan {
        program: exporter.clone(),
        args,
        envs: Vec::new(),
        current_dir: None,
        stdout_to_file: Some(coverage_dir.clone().concat("/lcov.info")),
        discard_stdout: false,
    }
}

/// Rendering the browsable annotated report: the show subcommand with
/// HTML formatting, line-count/region and instantiation annotations, the
/// shared filtering, the merged profile, one object per test binary, and
/// the coverage directory as output directory.
pub open spec fn is_html_export_plan(
    p: CommandPlan,
    exporter: Seq<char>,
    coverage_dir: Seq<char>,
    profdata_path: Seq<char>,
    binaries: Seq<Seq<char>>,
) -> bool {
    &&& p.program@ == exporter
    &&& arg_views(p.args@) == seq![
        "show"@,
        "--format"@,
        "html"@,
        "--show-line-counts-or-regions"@,
        "--show-instantiations"@,
    ] + export_filter_views(coverage_dir) + seq![
        "--instr-profile"@,
        profdata_path,
        "--output-dir"@,
        coverage_dir,
    ] + object_arg_views(binaries)
    &&& p.envs@.len() == 0
    &&& p.current_dir is None
    &&& p.stdout_to_file is None
    &&& !p.discard_stdout
}

pub fn html_export_plan(
    exporter: &String,
    coverage_dir: &String,
    profdata_path: &String,
    binaries: &Vec<String>,
) -> (r: CommandPlan)
    ensures
        is_html_export_plan(
            r,
            exporter@,
            coverage_dir@,
            profdata_path@,
            arg_views(binaries@),
        ),
{
    let mut args: Vec<String> = Vec::new();
    args.push("show".to_owned());
    args.push("--format".to_owned());
    args.push("html".to_owned());
    args.push("--show-line-counts-or-regions".to_owned());
    args.push("--show-instantiations".to_owned());
    let mut filter = export_filter_args(coverage_dir);
    args.append(&mut filter);
    args.push("--instr-profile".to_owned());
    args.push(profdata_path.clone());
    args.push("--output-dir".to_owned());
    args.push(coverage_dir.clone());
    let ghost head = arg_views(args@);
    push_object_args(&mut args, binaries);
    proof {
        assert(head =~= seq![
            "show"@,
            "--format"@,
            "html"@,
            "--show-line-counts-or-regions"@,
            "--show-instantiations"@,
        ] + export_filter_views(coverage_dir@) + seq![
            "--instr-profile"@,
            profdata_path@,
            "--output-dir"@,
            coverage_dir@,
        ]);
    }
    CommandPlan {
        program: exporter.clone(),
        args,
        envs: Vec::new(),
        current_dir: None,
        stdout_to_file: None,
        discard_stdout: false,
    }
}

/// Applying the fixed cosmetic patch to the browsable report's styling:
/// the patcher reads the patch file from the workspace root and runs from
/// within the coverage directory.
pub open spec fn is_patch_plan(p: CommandPlan, workspace_dir: Seq<char>, coverage_dir: Seq<char>) -> bool {
    &&& p.program@ == "patch"@
    &&& arg_views(p.args@) == seq![
        "--input"@,
        workspace_dir + "/coverage-style.css.patch"@,
    ]
    &&& p.envs@.len() == 0
    &&& p.current_dir matches Some(d) && d@ == coverage_dir
    &&& p.stdout_to_file is None
    &&& !p.discard_stdout
}

pub fn patch_plan(workspace_dir: &String, coverage_dir: &String) -> (r: CommandPlan)
    ensures
        is_patch_plan(r, workspace_dir@, coverage_dir@),
{
    let mut args: Vec<String> = Vec::new();
    args.push("--input".to_owned());
    args.push(workspace_dir.clone().concat("/coverage-style.css.patch"));
    proof {
        assert(arg_views(args@) =~= seq![
            "--input"@,
            workspace_dir@ + "/coverage-style.css.patch"@,
        ]);
    }
    CommandPlan {
        program: "patch".to_owned(),
        args,
        envs: Vec::new(),
        current_dir: Some(coverage_dir.clone()),
        stdout_to_file: None,
        discard_stdout: false,
    }
}

} // verus!
