//! The persisted record of the pending operation: `<mode>\n<source>`, where
//! `<mode>` is `copy` or `cut`. Empty content is the idle state.
use vstd::prelude::*;
use vstd::string::*;
use crate::text::{same_text, find_char, index_of, lemma_index_of, lemma_index_of_is};

verus! {

/// What a paste does with the marked source.
#[derive(Clone, Copy, Debug, PartialEq, Eq, Structural)]
pub enum Mode {
    Copy,
    Cut,
}

/// The single pending operation: a mode and the absolute path of the source.
#[derive(Debug)]
pub struct PendingOperation {
    pub mode: Mode,
    pub source: String,
}

impl View for PendingOperation {
    type V = (Mode, Seq<char>);

    open spec fn view(&self) -> (Mode, Seq<char>) {
        (self.mode, self.source@)
    }
}

/// Why stored content does not describe a pending operation.
#[derive(Clone, Copy, Debug, PartialEq, Eq, Structural)]
pub enum RecordError {
    /// The content is empty: nothing is pending.
    Empty,
    /// The first line is not a mode token.
    InvalidMode,
    /// There is no line after the mode.
    MissingSource,
}

pub open spec fn mode_token(m: Mode) -> Seq<char> {
    match m {
        Mode::Copy => "copy"@,
        Mode::Cut => "cut"@,
    }
}

pub open spec fn mode_of_token(t: Seq<char>) -> Option<Mode> {
    if t == "copy"@ {
        Some(Mode::Copy)
    } else if t == "cut"@ {
        Some(Mode::Cut)
    } else {
        None
    }
}

/// The stored text of a pending operation.
pub open spec fn record_text(m: Mode, source: Seq<char>) -> Seq<char> {
    mode_token(m) + seq!['\n'] + source
}

/// A line without its `\r` of a `\r\n` ending.
pub open spec fn strip_cr(l: Seq<char>) -> Seq<char> {
    if l.len() > 0 && l.last() == '\r' {
        l.drop_last()
    } else {
        l
    }
}

/// The first line of `s`: up to the first `\n` (a `\r` before it dropped), or
/// all of `s` where it holds no `\n`.
pub open spec fn first_line(s: Seq<char>) -> Seq<char> {
    let i = index_of(s, '\n');
    if i < s.len() {
        strip_cr(s.subrange(0, i))
    } else {
        s
    }
}

/// What follows the first `\n` of `s`; nothing where it holds no `\n`.
pub open spec fn after_first_line(s: Seq<char>) -> Seq<char> {
    let i = index_of(s, '\n');
    if i < s.len() {
        s.subrange(i + 1, s.len() as int)
    } else {
        Seq::empty()
    }
}

/// The pending operation that stored text describes, read line by line.
pub open spec fn parse(s: Seq<char>) -> Result<(Mode, Seq<char>), RecordError> {
    if s.len() == 0 {
        Err(RecordError::Empty)
    } else {
        match mode_of_token(first_line(s)) {
            None => Err(RecordError::InvalidMode),
            Some(m) => {
                let rest = after_first_line(s);
                if rest.len() == 0 {
                    Err(RecordError::MissingSource)
                } else {
                    Ok((m, first_line(rest)))
                }
            },
        }
    }
}

/// Splits `s` into its first line and what follows that line.
fn split_first_line(s: &str) -> (r: (&str, &str))
    ensures
        r.0@ == first_line(s@),
        r.1@ == after_first_line(s@),
{
    let n = s.unicode_len();
    let i = find_char(s, '\n');
    proof { lemma_index_of(s@, '\n'); }
    if i < n {
        let end = if i > 0 && s.get_char(i - 1) == '\r' {
            i - 1
        } else {
            i
        };
        assert(s@.subrange(0, end as int) == strip_cr(s@.subrange(0, i as int)));
        (s.substring_char(0, end), s.substring_char(i + 1, n))
    } else {
        (s, s.substring_char(n, n))
    }
}

/// The mode that a token names.
pub fn parse_mode(t: &str) -> (r: Option<Mode>)
    ensures
        r == mode_of_token(t@),
{
    if same_text(t, "copy") {
        Some(Mode::Copy)
    } else if same_text(t, "cut") {
        Some(Mode::Cut)
    } else {
        None
    }
}

/// Reads stored text as a pending operation.
pub fn parse_record(s: &str) -> (r: Result<PendingOperation, RecordError>)
    ensures
        match r {
            Ok(op) => parse(s@) == Ok::<(Mode, Seq<char>), RecordError>(op@),
            Err(e) => parse(s@) == Err::<(Mode, Seq<char>), RecordError>(e),
        },
{
    if s.unicode_len() == 0 {
        return Err(RecordError::Empty);
    }
    let (mode_line, rest) = split_first_line(s);
    let mode = match parse_mode(mode_line) {
        Some(m) => m,
        None => return Err(RecordError::InvalidMode),
    };
    if rest.unicode_len() == 0 {
        return Err(RecordError::MissingSource);
    }
    let (source, _) = split_first_line(rest);
    Ok(PendingOperation { mode, source: String::from_str(source) })
}

/// The token that names a mode.
pub fn mode_name(m: Mode) -> (r: &'static str)
    ensures
        r@ == mode_token(m),
{
    match m {
        Mode::Copy => "copy",
        Mode::Cut => "cut",
    }
}

/// The stored text of a pending operation.
pub fn encode_record(mode: Mode, source: &str) -> (r: String)
    ensures
        r@ == record_text(mode, source@),
{
    let mut out = String::from_str(mode_name(mode));
    proof { reveal_strlit("\n"); }
    out.append("\n");
    out.append(source);
    out
}

/// Stored text reads back as the operation it was written from, for every
/// mode and every source that is not empty and holds no line break.
pub proof fn lemma_record_round_trip(m: Mode, source: Seq<char>)
    requires
        source.len() > 0,
        forall|j: int| 0 <= j < source.len() ==> source[j] != '\n',
    ensures
        parse(record_text(m, source)) == Ok::<(Mode, Seq<char>), RecordError>((m, source)),
{
    reveal_strlit("copy");
    reveal_strlit("cut");
    let t = mode_token(m);
    let s = record_text(m, source);
    assert forall|j: int| 0 <= j < t.len() implies s[j] != '\n' by {
        assert(s[j] == t[j]);
    }
    lemma_index_of_is(s, '\n', t.len() as int);
    assert(s.subrange(0, t.len() as int) == t);
    assert(strip_cr(t) == t);
    assert(first_line(s) == t);
    assert(after_first_line(s) == source);
    lemma_index_of_is(source, '\n', source.len() as int);
}

} // verus!
