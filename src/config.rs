//! What one invocation asks for, and where the record lives.
use vstd::prelude::*;
use vstd::string::*;
use crate::path::{join, parent, parent_dir, resolve};
use crate::text::same_text;

verus! {

/// The subcommand of an invocation.
#[derive(Clone, Copy, Debug, PartialEq, Eq, Structural)]
pub enum Action {
    Copy,
    Cut,
    Paste,
}

/// An invocation: its action and the absolute path it names (the source for
/// copy and cut, the destination directory for paste).
#[derive(Debug)]
pub struct Config {
    pub action: Action,
    pub filename: String,
}

pub open spec fn action_of_token(t: Seq<char>) -> Option<Action> {
    if t == "copy"@ {
        Some(Action::Copy)
    } else if t == "cut"@ {
        Some(Action::Cut)
    } else if t == "paste"@ {
        Some(Action::Paste)
    } else {
        None
    }
}

/// The invocation that the argument list (program name first) describes,
/// with relative paths taken from the working directory `cwd`, or the
/// message that says why there is none.
pub open spec fn parse_args(args: Seq<String>, cwd: Option<Seq<char>>) -> Result<
    (Action, Seq<char>),
    Seq<char>,
> {
    if args.len() < 2 {
        Err("No command given!"@)
    } else {
        match action_of_token(args[1]@) {
            None => Err("Invalid command!"@),
            Some(action) => {
                if args.len() < 3 {
                    Err("No command given!"@)
                } else {
                    match cwd {
                        None => Err("The working directory is invalid!"@),
                        Some(dir) => Ok((action, join(dir, args[2]@))),
                    }
                }
            },
        }
    }
}

pub open spec fn text_of(o: Option<String>) -> Option<Seq<char>> {
    match o {
        Some(s) => Some(s@),
        None => None,
    }
}

/// The name of the record file, beside the executable.
pub open spec fn record_file_name() -> Seq<char> {
    "clipboard"@
}

fn parse_action(t: &str) -> (r: Option<Action>)
    ensures
        r == action_of_token(t@),
{
    if same_text(t, "copy") {
        Some(Action::Copy)
    } else if same_text(t, "cut") {
        Some(Action::Cut)
    } else if same_text(t, "paste") {
        Some(Action::Paste)
    } else {
        None
    }
}

impl Config {
    /// Reads the invocation from its arguments, the program name first.
    /// `cwd` is the working directory, `None` where it could not be had.
    pub fn new(args: Vec<String>, cwd: Option<String>) -> (r: Result<Config, &'static str>)
        ensures
            match r {
                Ok(c) => parse_args(args@, text_of(cwd)) == Ok::<
                    (Action, Seq<char>),
                    Seq<char>,
                >((c.action, c.filename@)),
                Err(m) => parse_args(args@, text_of(cwd)) == Err::<
                    (Action, Seq<char>),
                    Seq<char>,
                >(m@),
            },
    {
        if args.len() < 2 {
            return Err("No command given!");
        }
        let action = match parse_action(args[1].as_str()) {
            Some(a) => a,
            None => return Err("Invalid command!"),
        };
        if args.len() < 3 {
            return Err("No command given!");
        }
        match cwd {
            None => Err("The working directory is invalid!"),
            Some(dir) => {
                let filename = resolve(args[2].as_str(), dir.as_str());
                Ok(Config { action, filename })
            },
        }
    }
}

/// The location of the record: the file `clipboard` in the directory of the
/// executable `exe`, or an error where the executable's path could not be had.
pub fn clipboard(exe: Option<String>) -> (r: Result<String, &'static str>)
    ensures
        match r {
            Ok(p) => exe is Some && p@ == join(parent(exe->0@), record_file_name()),
            Err(m) => exe is None && m@ == "Couldn't find the clipd executable!"@,
        },
{
    match exe {
        None => Err("Couldn't find the clipd executable!"),
        Some(e) => {
            let dir = parent_dir(e.as_str());
            Ok(resolve("clipboard", dir.as_str()))
        },
    }
}

} // verus!
