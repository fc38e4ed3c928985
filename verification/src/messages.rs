//! Parsing the build tool's structured progress output.
//!
//! The build stage asks the build tool for line-delimited JSON progress
//! records. Each line is parsed independently; a line that is not a valid
//! record of the expected shape (`{ "profile": { "test": bool },
//! "filenames": [path, ...] }`) is skipped, a deliberate tolerance for
//! plain diagnostic text interleaved with the JSON stream. The file lists
//! of the records whose profile is a test profile are flattened, in
//! encounter order, into the list of compiled test binaries.

use vstd::prelude::*;
use crate::sysroot::is_line_break;

verus! {

/// One parsed record of the build tool's progress output: whether the
/// record describes a test artifact, and the files it produced.
pub struct BuildMessage {
    pub test: bool,
    pub filenames: Vec<String>,
}

/// What one output line parses to: `None` when the line is not a JSON
/// record of the expected shape, otherwise the record's test flag and its
/// file names. The parse is a function of the bytes alone.
pub uninterp spec fn build_message_of(line: Seq<u8>) -> Option<(bool, Seq<Seq<char>>)>;

/// Relies on serde_json::from_slice and the serde_json::Value accessors:
/// parsing a byte slice as JSON, and reading the `profile.test` boolean and
/// the `filenames` string array out of the parsed value, are functions of
/// the bytes alone.
#[verifier::external_body]
fn parse_build_message(line: &[u8]) -> (r: Option<BuildMessage>)
    ensures
        (match r {
            Some(m) => build_message_of(line@) == Some(
                (m.test, m.filenames@.map_values(|s: String| s@)),
            ),
            None => build_message_of(line@) is None,
        }),
{
    let v: serde_json::Value = serde_json::from_slice(line).ok()?;
    let test = v.get("profile")?.get("test")?.as_bool()?;
    let names = v.get("filenames")?.as_array()?;
    let mut filenames: Vec<String> = Vec::new();
    for n in names {
        filenames.push(n.as_str()?.to_owned());
    }
    Some(BuildMessage { test, filenames })
}

/// The build tool's output split at every line terminator, each line break
/// byte consumed: `n` terminators give `n + 1` (possibly empty) pieces.
pub open spec fn message_lines(bytes: Seq<u8>) -> Seq<Seq<u8>>
    decreases bytes.len(),
{
    if bytes.len() == 0 {
        seq![Seq::empty()]
    } else {
        let prev = message_lines(bytes.drop_last());
        if is_line_break(bytes.last()) {
            prev.push(Seq::empty())
        } else {
            prev.update(prev.len() - 1, prev.last().push(bytes.last()))
        }
    }
}

/// What one line contributes to the test-binary list: its file names when
/// it parses as a test-profile record, nothing otherwise.
pub open spec fn contribution(line: Seq<u8>) -> Seq<Seq<char>> {
    match build_message_of(line) {
        Some(m) => if m.0 {
            m.1
        } else {
            Seq::empty()
        },
        None => Seq::empty(),
    }
}

/// The flattened file lists of the test-profile records among `lines`, in
/// encounter order.
pub open spec fn binaries_of(lines: Seq<Seq<u8>>) -> Seq<Seq<char>>
    decreases lines.len(),
{
    if lines.len() == 0 {
        Seq::empty()
    } else {
        binaries_of(lines.drop_last()) + contribution(lines.last())
    }
}

/// Appending one line to a stream appends exactly that line's
/// contribution: a test-profile record adds its file list, a non-test
/// record or a malformed line adds nothing.
pub proof fn lemma_binaries_of_append(lines: Seq<Seq<u8>>, line: Seq<u8>)
    ensures
        binaries_of(lines.push(line)) == binaries_of(lines) + contribution(line),
        build_message_of(line) is None ==> contribution(line) == Seq::<Seq<char>>::empty(),
{
    assert(lines.push(line).drop_last() =~= lines);
    assert(lines.push(line).last() == line);
}

/// The compiled test binaries named by the build tool's progress output:
/// the output is split into lines, each line is parsed independently,
/// lines that do not parse and records that are not test profiles are
/// dropped, and the file lists of the test-profile records are flattened
/// in encounter order.
pub fn test_binaries_from_cargo_test_messages(bytes: &Vec<u8>) -> (r: Vec<String>)
    ensures
        r@.map_values(|s: String| s@) == binaries_of(message_lines(bytes@)),
{
    let mut r: Vec<String> = Vec::new();
    let mut cur: Vec<u8> = Vec::new();
    let mut i: usize = 0;
    proof {
        assert(bytes@.take(0) =~= Seq::<u8>::empty());
        assert(r@.map_values(|s: String| s@) =~= Seq::<Seq<char>>::empty());
    }
    while i < bytes.len()
        invariant
            0 <= i <= bytes@.len(),
            message_lines(bytes@.take(i as int)).len() >= 1,
            cur@ == message_lines(bytes@.take(i as int)).last(),
            r@.map_values(|s: String| s@) == binaries_of(
                message_lines(bytes@.take(i as int)).drop_last(),
            ),
        decreases bytes@.len() - i,
    {
        let ghost ls = message_lines(bytes@.take(i as int));
        proof {
            assert(bytes@.take(i + 1).drop_last() =~= bytes@.take(i as int));
            assert(bytes@.take(i + 1).last() == bytes@[i as int]);
        }
        let c = bytes[i];
        if c == 10 || c == 13 {
            flush_line(&cur, &mut r);
            cur = Vec::new();
            proof {
                let ls2 = message_lines(bytes@.take(i + 1));
                assert(ls2 == ls.push(Seq::<u8>::empty()));
                assert(ls2.drop_last() =~= ls);
            }
        } else {
            cur.push(c);
            proof {
                let ls2 = message_lines(bytes@.take(i + 1));
                assert(ls2 == ls.update(ls.len() - 1, ls.last().push(bytes@[i as int])));
                assert(ls2.drop_last() =~= ls.drop_last());
                assert(ls2.last() == ls.last().push(bytes@[i as int]));
            }
        }
        i += 1;
    }
    proof {
        assert(bytes@.take(bytes@.len() as int) =~= bytes@);
    }
    flush_line(&cur, &mut r);
    r
}

/// Append to `r` what the finished line `cur` contributes.
fn flush_line(cur: &Vec<u8>, r: &mut Vec<String>)
    ensures
        final(r)@.map_values(|s: String| s@) == old(r)@.map_values(|s: String| s@)
            + contribution(cur@),
{
    let ghost before = r@;
    let parsed = parse_build_message(cur.as_slice());
    match parsed {
        Some(mut m) => {
            if m.test {
                r.append(&mut m.filenames);
                proof {
                    assert(r@.map_values(|s: String| s@) =~= before.map_values(
                        |s: String| s@,
                    ) + contribution(cur@));
                }
            } else {
                proof {
                    assert(r@.map_values(|s: String| s@) =~= before.map_values(
                        |s: String| s@,
                    ) + contribution(cur@));
                }
            }
        },
        None => {
            proof {
                assert(r@.map_values(|s: String| s@) =~= before.map_values(
                    |s: String| s@,
                ) + contribution(cur@));
            }
        },
    }
}

} // verus!
