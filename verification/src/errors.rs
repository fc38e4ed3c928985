//! The error taxonomy of the coverage pipeline.
//!
//! Every stage aborts on its first error. A failure either wraps a
//! filesystem operation (with the path it concerned), names the external
//! tool whose invocation failed, or reports that a required tool could not
//! be found or installed.

use vstd::prelude::*;
use vstd::string::StringExecFns;

verus! {

/// The external tool that a failed invocation belonged to.
#[derive(Debug, Clone, Copy, PartialEq, Eq, Structural)]
pub enum Tool {
    /// The build tool compiling the instrumented test binaries.
    Build,
    /// The build tool's test-run entry point.
    TestRun,
    /// The profile merger combining raw profiles.
    Merge,
    /// The coverage exporter rendering reports.
    Export,
    /// The text patcher adjusting the browsable report's styling.
    Patch,
    /// The compiler, queried for its system root.
    Compiler,
    /// The package manager installing the demangler.
    PackageManager,
    /// The toolchain manager installing the profiling tools.
    ToolchainManager,
}

impl Tool {
    /// The name under which the tool is reported in error messages.
    pub fn label(&self) -> (r: String)
        ensures
            r@ == self.spec_label(),
    {
        match self {
            Tool::Build => "build".to_owned(),
            Tool::TestRun => "test-run".to_owned(),
            Tool::Merge => "merge".to_owned(),
            Tool::Export => "export".to_owned(),
            Tool::Patch => "patch".to_owned(),
            Tool::Compiler => "compiler".to_owned(),
            Tool::PackageManager => "package-manager".to_owned(),
            Tool::ToolchainManager => "toolchain-manager".to_owned(),
        }
    }

    /// The name under which the tool is reported in error messages.
    pub open spec fn spec_label(&self) -> Seq<char> {
        match self {
            Tool::Build => "build"@,
            Tool::TestRun => "test-run"@,
            Tool::Merge => "merge"@,
            Tool::Export => "export"@,
            Tool::Patch => "patch"@,
            Tool::Compiler => "compiler"@,
            Tool::PackageManager => "package-manager"@,
            Tool::ToolchainManager => "toolchain-manager"@,
        }
    }
}

/// Why the pipeline aborted.
#[derive(Debug, Clone, PartialEq, Eq)]
pub enum Error {
    /// A filesystem operation failed at the given path.
    Io { path: String },
    /// An external tool could not be spawned or exited unsuccessfully.
    CommandFailed { tool: Tool },
    /// A required executable was still absent after its one-shot
    /// installation.
    ToolNotFound { name: String },
    /// A required helper was still not invocable after its one-shot
    /// installation.
    ToolInstall { name: String },
}

impl Error {
    /// A descriptive message naming what failed.
    pub fn message(&self) -> (r: String)
        ensures
            (match self {
                Error::Io { path } => r@ == "input/output error at "@ + path@,
                Error::CommandFailed { tool } => r@ == "external tool failed: "@
                    + tool.spec_label(),
                Error::ToolNotFound { name } => r@
                    == "tool not found after installation: "@ + name@,
                Error::ToolInstall { name } => r@ == "tool could not be installed: "@
                    + name@,
            }),
    {
        match self {
            Error::Io { path } => "input/output error at ".to_owned().concat(
                path.as_str(),
            ),
            Error::CommandFailed { tool } => "external tool failed: ".to_owned().concat(
                tool.label().as_str(),
            ),
            Error::ToolNotFound { name } => "tool not found after installation: "
                .to_owned()
                .concat(name.as_str()),
            Error::ToolInstall { name } => "tool could not be installed: ".to_owned()
                .concat(name.as_str()),
        }
    }
}

} // verus!
