//! A code-coverage pipeline over external tools, with its decisions
//! verified.
//!
//! The pipeline prepares a toolchain (locating or installing a profile
//! merger, a coverage exporter and a demangling helper), compiles and runs
//! instrumented test binaries, merges the raw profiles they write, and
//! exports a machine-readable and a browsable coverage report. All outside
//! work — child processes, directory scans, deletions — is described by
//! fully determined command plans and driven through one verified
//! transition function; the parsing of the build tool's structured output
//! and of the compiler's system-root answer is verified as well.

pub mod errors;
pub mod messages;
pub mod pipeline;
pub mod plan;
pub mod profraw;
pub mod sysroot;
