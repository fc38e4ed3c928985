use coverage_pipeline::errors::{Error, Tool};

#[test]
fn tool_labels_name_each_tool() {
    assert_eq!(Tool::Build.label(), "build");
    assert_eq!(Tool::TestRun.label(), "test-run");
    assert_eq!(Tool::Merge.label(), "merge");
    assert_eq!(Tool::Export.label(), "export");
    assert_eq!(Tool::Patch.label(), "patch");
    assert_eq!(Tool::Compiler.label(), "compiler");
    assert_eq!(Tool::PackageManager.label(), "package-manager");
    assert_eq!(Tool::ToolchainManager.label(), "toolchain-manager");
}

#[test]
fn messages_name_what_failed() {
    assert_eq!(
        Error::Io { path: "/cov/lcov.info".to_string() }.message(),
        "input/output error at /cov/lcov.info"
    );
    assert_eq!(
        Error::CommandFailed { tool: Tool::Merge }.message(),
        "external tool failed: merge"
    );
    assert_eq!(
        Error::ToolNotFound { name: "llvm-cov".to_string() }.message(),
        "tool not found after installation: llvm-cov"
    );
    assert_eq!(
        Error::ToolInstall { name: "rustfilt".to_string() }.message(),
        "tool could not be installed: rustfilt"
    );
}
