//! Truncating captured compiler output to its first line.
//!
//! The toolchain's system root is queried by running the compiler with a
//! print flag; the interesting part of what it writes is the first line of
//! its output, up to (and excluding) the first line terminator.

use vstd::prelude::*;

verus! {

/// A byte that terminates a line: line feed or carriage return.
pub open spec fn is_line_break(c: u8) -> bool {
    c == 10 || c == 13
}

/// The longest prefix of `s` that contains no line break.
pub open spec fn first_line_of(s: Seq<u8>) -> Seq<u8>
    decreases s.len(),
{
    if s.len() == 0 {
        s
    } else if is_line_break(s[0]) {
        Seq::empty()
    } else {
        seq![s[0]] + first_line_of(s.drop_first())
    }
}

/// A prefix of `s` that is free of line breaks and either is all of `s` or
/// stops right before a line break is exactly `first_line_of(s)`.
proof fn lemma_first_line_characterization(s: Seq<u8>, n: int)
    requires
        0 <= n <= s.len(),
        forall|i: int| 0 <= i < n ==> !is_line_break(s[i]),
        n < s.len() ==> is_line_break(s[n]),
    ensures
        first_line_of(s) == s.take(n),
    decreases s.len(),
{
    if s.len() == 0 {
        assert(s.take(n) =~= s);
    } else if is_line_break(s[0]) {
        assert(n == 0);
        assert(s.take(0) =~= Seq::<u8>::empty());
    } else {
        assert(n >= 1);
        lemma_first_line_characterization(s.drop_first(), n - 1);
        assert(seq![s[0]] + s.drop_first().take(n - 1) =~= s.take(n));
    }
}

/// Keep only the first line of the bytes that the compiler printed when
/// asked for its system root: everything from the first line terminator on
/// is dropped.
pub fn sys_root_of_toolchain(bytes: &Vec<u8>) -> (r: Vec<u8>)
    ensures
        r@ == first_line_of(bytes@),
{
    let n = bytes.len();
    let mut i: usize = 0;
    while i < n && bytes[i] != 10 && bytes[i] != 13
        invariant
            0 <= i <= n,
            n == bytes@.len(),
            forall|j: int| 0 <= j < i ==> !is_line_break(bytes@[j]),
        decreases n - i,
    {
        i += 1;
    }
    assert(i < bytes@.len() ==> is_line_break(bytes@[i as int]));
    let mut r = bytes.clone();
    r.truncate(i);
    proof {
        lemma_first_line_characterization(bytes@, i as int);
    }
    r
}

/// Only the first line is retained: whatever follows the first line
/// terminator (a trailing newline, extraneous further text) has no effect
/// on the result.
pub proof fn lemma_first_line_ignores_tail(line: Seq<u8>, sep: u8, rest: Seq<u8>)
    requires
        forall|i: int| 0 <= i < line.len() ==> !is_line_break(line[i]),
        is_line_break(sep),
    ensures
        first_line_of(line + seq![sep] + rest) == line,
        first_line_of(line) == line,
{
    let s = line + seq![sep] + rest;
    assert(s.take(line.len() as int) =~= line);
    lemma_first_line_characterization(s, line.len() as int);
    assert(line.take(line.len() as int) =~= line);
    lemma_first_line_characterization(line, line.len() as int);
}

} // verus!
