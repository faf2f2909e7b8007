use vstd::prelude::*;
use vstd::string::StringSliceAdditionalSpecFns;
use crate::control::ControlSignal;

verus! {

/// What one line typed at the console asks for.
#[derive(Clone, Copy, Debug, PartialEq, Eq, Structural)]
pub enum ConsoleCommand {
    /// `pause`, `resume` or `exit`: a message for the render loop.
    Signal(ControlSignal),
    /// `help`: print the command list.
    Help,
    /// Any other non-empty line: report it and print the command list.
    Unknown,
    /// An empty line: nothing to do.
    Blank,
}

pub open spec fn is_line_end(b: u8) -> bool {
    b == 10 || b == 13  // '\n', '\r'
}

/// The line without its trailing line-ending characters.
pub open spec fn trim_line_end(b: Seq<u8>) -> Seq<u8>
    decreases b.len(),
{
    if b.len() > 0 && is_line_end(b.last()) {
        trim_line_end(b.drop_last())
    } else {
        b
    }
}

pub open spec fn word_pause() -> Seq<u8> {
    seq![112u8, 97, 117, 115, 101]  // "pause"
}

pub open spec fn word_resume() -> Seq<u8> {
    seq![114u8, 101, 115, 117, 109, 101]  // "resume"
}

pub open spec fn word_exit() -> Seq<u8> {
    seq![101u8, 120, 105, 116]  // "exit"
}

pub open spec fn word_help() -> Seq<u8> {
    seq![104u8, 101, 108, 112]  // "help"
}

/// The command that a line, once trimmed, spells.
pub open spec fn command_of(text: Seq<u8>) -> ConsoleCommand {
    if text == word_pause() {
        ConsoleCommand::Signal(ControlSignal::Pause)
    } else if text == word_resume() {
        ConsoleCommand::Signal(ControlSignal::Resume)
    } else if text == word_exit() {
        ConsoleCommand::Signal(ControlSignal::Exit)
    } else if text == word_help() {
        ConsoleCommand::Help
    } else if text.len() == 0 {
        ConsoleCommand::Blank
    } else {
        ConsoleCommand::Unknown
    }
}

fn is_line_end_byte(b: u8) -> (r: bool)
    ensures
        r == is_line_end(b),
{
    b == 10 || b == 13
}

/// The length of `line` without its trailing `\n` and `\r` characters.
pub fn trimmed_len(line: &[u8]) -> (n: usize)
    ensures
        n <= line@.len(),
        line@.subrange(0, n as int) == trim_line_end(line@),
{
    let mut n: usize = line.len();
    assert(line@.subrange(0, n as int) =~= line@);
    while n > 0 && is_line_end_byte(line[n - 1])
        invariant
            n <= line@.len(),
            trim_line_end(line@.subrange(0, n as int)) == trim_line_end(line@),
        decreases n,
    {
        assert(line@.subrange(0, n - 1) =~= line@.subrange(0, n as int).drop_last());
        n = n - 1;
    }
    proof {
        let t = line@.subrange(0, n as int);
        if t.len() > 0 {
            assert(t.last() == line@[n - 1]);
        }
    }
    n
}

/// Whether the first `n` bytes of `line` are exactly `word`.
fn starts_as_word(line: &[u8], n: usize, word: &[u8]) -> (r: bool)
    requires
        n <= line@.len(),
    ensures
        r == (line@.subrange(0, n as int) == word@),
{
    if n != word.len() {
        proof {
            assert(line@.subrange(0, n as int).len() != word@.len());
        }
        return false;
    }
    let mut i: usize = 0;
    while i < n
        invariant
            n <= line@.len(),
            n == word@.len(),
            i <= n,
            forall|j: int| 0 <= j < i ==> line@[j] == word@[j],
        decreases n - i,
    {
        if line[i] != word[i] {
            proof {
                assert(line@.subrange(0, n as int)[i as int] != word@[i as int]);
            }
            return false;
        }
        i = i + 1;
    }
    assert(line@.subrange(0, n as int) =~= word@);
    true
}

/// Reads one console line (its line ending may still be on it).
pub fn interpret_line(line: &str) -> (r: ConsoleCommand)
    ensures
        r == command_of(trim_line_end(line.spec_bytes())),
{
    let b = line.as_bytes();
    let n = trimmed_len(b);
    if starts_as_word(b, n, &[112u8, 97, 117, 115, 101]) {
        ConsoleCommand::Signal(ControlSignal::Pause)
    } else if starts_as_word(b, n, &[114u8, 101, 115, 117, 109, 101]) {
        ConsoleCommand::Signal(ControlSignal::Resume)
    } else if starts_as_word(b, n, &[101u8, 120, 105, 116]) {
        ConsoleCommand::Signal(ControlSignal::Exit)
    } else if starts_as_word(b, n, &[104u8, 101, 108, 112]) {
        ConsoleCommand::Help
    } else if n == 0 {
        ConsoleCommand::Blank
    } else {
        ConsoleCommand::Unknown
    }
}

/// The commands that the console knows, as its help lists them.
pub open spec fn command_list() -> Seq<&'static str> {
    seq!["pause", "resume", "exit"]
}

/// The lines that the console prints in answer to a command.
pub open spec fn reply_of(c: ConsoleCommand) -> Seq<&'static str> {
    match c {
        ConsoleCommand::Help => command_list(),
        ConsoleCommand::Unknown => seq!["Unknown command"] + command_list(),
        _ => Seq::empty(),
    }
}

pub fn commands() -> (r: Vec<&'static str>)
    ensures
        r@ == command_list(),
{
    let r = vec!["pause", "resume", "exit"];
    assert(r@ =~= command_list());
    r
}

impl ConsoleCommand {
    /// The message that this command sends to the render loop, if any.
    pub fn signal(&self) -> (r: Option<ControlSignal>)
        ensures
            r == (match *self {
                ConsoleCommand::Signal(c) => Some(c),
                _ => None,
            }),
    {
        match *self {
            ConsoleCommand::Signal(c) => Some(c),
            _ => None,
        }
    }

    /// Whether the console stops reading once it has acted on this command:
    /// it does after forwarding `Exit`, and only then.
    pub fn ends_console(&self) -> (r: bool)
        ensures
            r == (*self == ConsoleCommand::Signal(ControlSignal::Exit)),
    {
        match *self {
            ConsoleCommand::Signal(ControlSignal::Exit) => true,
            _ => false,
        }
    }

    /// The lines that the console prints in answer.
    pub fn reply(&self) -> (r: Vec<&'static str>)
        ensures
            r@ == reply_of(*self),
    {
        match *self {
            ConsoleCommand::Help => commands(),
            ConsoleCommand::Unknown => {
                let mut r = vec!["Unknown command"];
                let mut list = commands();
                r.append(&mut list);
                assert(r@ =~= reply_of(*self));
                r
            },
            _ => {
                let r: Vec<&'static str> = Vec::new();
                assert(r@ =~= reply_of(*self));
                r
            },
        }
    }
}

} // verus!
