use coverage_pipeline::plan::{
    build_plan, demangler_install_plan, demangler_version_plan, html_export_plan,
    lcov_export_plan, merge_plan, patch_plan, profiling_tools_install_plan, sysroot_query_plan,
    test_run_plan,
};
use coverage_pipeline::profraw::{has_profraw_extension, profraw_files};

fn strings(items: &[&str]) -> Vec<String> {
    items.iter().map(|s| s.to_string()).collect()
}

fn env_pairs(items: &[(&str, &str)]) -> Vec<(String, String)> {
    items.iter().map(|(k, v)| (k.to_string(), v.to_string())).collect()
}

const FLAGS: &str = "-Cinstrument-coverage -Clink-dead-code";

#[test]
fn demangler_version_plan_is_exact() {
    let p = demangler_version_plan();
    assert_eq!(p.program, "rustfilt");
    assert_eq!(p.args, strings(&["--version"]));
    assert!(p.envs.is_empty());
    assert_eq!(p.current_dir, None);
    assert_eq!(p.stdout_to_file, None);
    assert!(p.discard_stdout);
}

#[test]
fn demangler_install_plan_is_exact() {
    let p = demangler_install_plan(&"/ws".to_string());
    assert_eq!(p.program, "cargo");
    assert_eq!(p.args, strings(&["--quiet", "install", "rustfilt"]));
    assert_eq!(p.current_dir, Some("/ws".to_string()));
}

#[test]
fn sysroot_query_plan_is_exact() {
    let p = sysroot_query_plan(&"/ws".to_string());
    assert_eq!(p.program, "rustc");
    assert_eq!(p.args, strings(&["--print", "sysroot"]));
    assert_eq!(p.current_dir, Some("/ws".to_string()));
}

#[test]
fn profiling_tools_install_plan_is_exact() {
    let p = profiling_tools_install_plan(&"/ws".to_string());
    assert_eq!(p.program, "rustup");
    assert_eq!(
        p.args,
        strings(&["--quiet", "component", "add", "llvm-tools-preview"])
    );
}

#[test]
fn build_plan_discards_profile_writes_and_asks_for_json() {
    let p = build_plan(&"/ws".to_string(), &"/cov".to_string());
    assert_eq!(p.program, "cargo");
    assert_eq!(
        p.args,
        strings(&[
            "test",
            "--workspace",
            "--tests",
            "--target-dir",
            "/cov",
            "--no-run",
            "--message-format=json",
        ])
    );
    assert_eq!(
        p.envs,
        env_pairs(&[
            ("RUST_BACKTRACE", "1"),
            ("CARGO_INCREMENTAL", "0"),
            ("RUSTFLAGS", FLAGS),
            ("RUSTDOCFLAGS", FLAGS),
            ("LLVM_PROFILE_FILE", "/dev/null"),
        ])
    );
    assert_eq!(p.current_dir, Some("/ws".to_string()));
    assert!(!p.discard_stdout);
}

#[test]
fn test_run_plan_templates_the_profile_path_per_process() {
    let p = test_run_plan(&"/ws".to_string(), &"/cov".to_string());
    assert_eq!(p.program, "cargo");
    assert_eq!(
        p.args,
        strings(&["test", "--workspace", "--tests", "--target-dir", "/cov"])
    );
    assert_eq!(
        p.envs,
        env_pairs(&[
            ("RUST_BACKTRACE", "1"),
            ("CARGO_INCREMENTAL", "0"),
            ("RUSTFLAGS", FLAGS),
            ("RUSTDOCFLAGS", FLAGS),
            ("LLVM_PROFILE_FILE", "/cov/%m.profraw"),
        ])
    );
}

#[test]
fn merge_plan_matches_the_exact_invocation() {
    let p = merge_plan(
        &"/root/llvm-profdata".to_string(),
        &"/cov/coverage.profdata".to_string(),
        strings(&["a.profraw", "b.profraw"]),
    );
    assert_eq!(p.program, "/root/llvm-profdata");
    assert_eq!(
        p.args,
        strings(&[
            "merge",
            "--sparse",
            "--output",
            "/cov/coverage.profdata",
            "a.profraw",
            "b.profraw",
        ])
    );
    assert!(p.envs.is_empty());
    assert_eq!(p.current_dir, None);
}

#[test]
fn merge_plan_accepts_an_empty_input_set() {
    let p = merge_plan(&"merger".to_string(), &"/cov/out.profdata".to_string(), Vec::new());
    assert_eq!(
        p.args,
        strings(&["merge", "--sparse", "--output", "/cov/out.profdata"])
    );
}

#[test]
fn lcov_export_plan_filters_and_redirects_stdout() {
    let p = lcov_export_plan(
        &"/root/llvm-cov".to_string(),
        &"/cov".to_string(),
        &"/cov/coverage.profdata".to_string(),
        &strings(&["bin1", "bin2"]),
    );
    assert_eq!(p.program, "/root/llvm-cov");
    assert_eq!(
        p.args,
        strings(&[
            "export",
            "--format",
            "lcov",
            "--Xdemangler",
            "rustfilt",
            "--ignore-filename-regex",
            "/\\.cargo/registry/",
            "--ignore-filename-regex",
            "/rustc/",
            "--ignore-filename-regex",
            "/tests.rs$$",
            "--ignore-filename-regex",
            "^/cov/",
            "--instr-profile",
            "/cov/coverage.profdata",
            "--object",
            "bin1",
            "--object",
            "bin2",
        ])
    );
    assert_eq!(p.stdout_to_file, Some("/cov/lcov.info".to_string()));
}

#[test]
fn html_export_plan_annotates_and_writes_into_the_coverage_dir() {
    let p = html_export_plan(
        &"/root/llvm-cov".to_string(),
        &"/cov".to_string(),
        &"/cov/coverage.profdata".to_string(),
        &strings(&["bin1"]),
    );
    assert_eq!(p.program, "/root/llvm-cov");
    assert_eq!(
        p.args,
        strings(&[
            "show",
            "--format",
            "html",
            "--show-line-counts-or-regions",
            "--show-instantiations",
            "--Xdemangler",
            "rustfilt",
            "--ignore-filename-regex",
            "/\\.cargo/registry/",
            "--ignore-filename-regex",
            "/rustc/",
            "--ignore-filename-regex",
            "/tests.rs$$",
            "--ignore-filename-regex",
            "^/cov/",
            "--instr-profile",
            "/cov/coverage.profdata",
            "--output-dir",
            "/cov",
            "--object",
            "bin1",
        ])
    );
    assert_eq!(p.stdout_to_file, None);
}

#[test]
fn patch_plan_runs_from_the_coverage_dir() {
    let p = patch_plan(&"/ws".to_string(), &"/cov".to_string());
    assert_eq!(p.program, "patch");
    assert_eq!(p.args, strings(&["--input", "/ws/coverage-style.css.patch"]));
    assert_eq!(p.current_dir, Some("/cov".to_string()));
}

#[test]
fn profraw_extension_is_matched_exactly() {
    assert!(has_profraw_extension(&"a.profraw".to_string()));
    assert!(has_profraw_extension(&"/cov/long-name.profraw".to_string()));
    assert!(has_profraw_extension(&".profraw".to_string()));
    assert!(!has_profraw_extension(&"a.profdata".to_string()));
    assert!(!has_profraw_extension(&"profraw".to_string()));
    assert!(!has_profraw_extension(&"".to_string()));
    assert!(!has_profraw_extension(&"a.profraw.bak".to_string()));
}

#[test]
fn profraw_files_keep_scan_order() {
    let names = strings(&["b.profraw", "lcov.info", "a.profraw", "x.profdata"]);
    assert_eq!(profraw_files(&names), strings(&["b.profraw", "a.profraw"]));
}

#[test]
fn profraw_files_of_empty_scan_is_empty() {
    assert_eq!(profraw_files(&Vec::new()), strings(&[]));
}
