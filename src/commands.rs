//! The shell's commands and how a typed line names one.
use crate::writer::{blank, Writer, WriterView, BUFFER_CELLS};
use vstd::prelude::*;
use vstd::std_specs::iter::IteratorSpec;

verus! {

/// A command typed at the shell prompt.
#[derive(Debug)]
pub enum Command {
    Help,
    Version,
    Reboot,
    Shutdown,
    Clear,
    /// A line that names no command; it holds the line.
    Error(String),
}

/// Whether `c` is the command that the line `line` names.
pub open spec fn names(line: Seq<char>, c: Command) -> bool {
    if line == "help"@ {
        c is Help
    } else if line == "version"@ {
        c is Version
    } else if line == "reboot"@ {
        c is Reboot
    } else if line == "shutdown"@ {
        c is Shutdown
    } else if line == "clear"@ {
        c is Clear
    } else {
        c matches Command::Error(s) && s@ == line
    }
}

/// The characters of `s`, in order.
fn chars_of(s: &str) -> (v: Vec<char>)
    ensures
        v@ == s@,
{
    let mut it = s.chars();
    let mut v: Vec<char> = Vec::new();
    loop
        invariant
            v@ + it.remaining() == s@,
            it.decrease() is Some,
        ensures
            v@ == s@,
        decreases it.decrease()->0,
    {
        match it.next() {
            Some(c) => {
                v.push(c);
                assert(v@ + it.remaining() =~= s@);
            },
            None => {
                assert(v@ =~= s@);
                break;
            },
        }
    }
    v
}

/// Whether `a` holds the characters of `word`.
fn same_chars(a: &Vec<char>, word: &str) -> (r: bool)
    ensures
        r == (a@ == word@),
{
    let b = chars_of(word);
    if a.len() != b.len() {
        assert(a@.len() != b@.len());
        return false;
    }
    let mut i: usize = 0;
    while i < a.len()
        invariant
            a@.len() == b@.len(),
            b@ == word@,
            i <= a@.len(),
            a@.subrange(0, i as int) == b@.subrange(0, i as int),
        decreases a@.len() - i,
    {
        if a[i] != b[i] {
            assert(a@[i as int] != b@[i as int]);
            assert(a@ != b@);
            return false;
        }
        i += 1;
        assert(a@.subrange(0, i as int) =~= a@.subrange(0, i - 1) + seq![a@[i - 1]]);
        assert(b@.subrange(0, i as int) =~= b@.subrange(0, i - 1) + seq![b@[i - 1]]);
    }
    assert(a@ =~= a@.subrange(0, i as int));
    assert(b@ =~= b@.subrange(0, i as int));
    true
}

impl Command {
    /// The command that `val` names; any other line is an `Error` holding it.
    pub fn parse(val: &str) -> (r: Command)
        ensures
            names(val@, r),
    {
        let line = chars_of(val);
        if same_chars(&line, "help") {
            Command::Help
        } else if same_chars(&line, "version") {
            Command::Version
        } else if same_chars(&line, "reboot") {
            Command::Reboot
        } else if same_chars(&line, "shutdown") {
            Command::Shutdown
        } else if same_chars(&line, "clear") {
            Command::Clear
        } else {
            Command::Error(val.to_owned())
        }
    }
}

/// Clears the console: every cell blank, the cursor at column 0.
pub fn clear(writer: &mut Writer)
    requires
        old(writer).wf(),
    ensures
        final(writer)@ == (WriterView {
            column: 0,
            grid: Seq::new(BUFFER_CELLS as nat, |i: int| blank(old(writer)@.color)),
            ..old(writer)@
        }),
{
    writer.clear_screen()
}

} // verus!
