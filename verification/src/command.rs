//! Turning a token sequence into a typed command value, and the one-line
//! diagnostic messages that command execution reports.
//!
//! A raw input line is trimmed and tokenized; the first token selects the
//! command kind. Built-in keywords always win; any other first token is
//! resolved against the search-path candidates, yielding either an external
//! command or an unrecognized one. The embedding program executes the value:
//! built-ins in-process, external commands by spawning, unrecognized ones by
//! printing a diagnostic.

use vstd::prelude::*;
use crate::resolver::{CommandLocation, PathCandidate, first_usable, is_builtin_name};
use crate::text::str_eq;
use crate::tokenizer::{spec_tokenize, spec_trim, tokenize, trim};

verus! {

/// One parsed command, constructed once per input line and consumed
/// immediately by the executing loop.
pub enum Command {
    Exit,
    Echo { display_string: String },
    Type { command_name: String },
    Pwd,
    Cd { target: String },
    External { program: String, args: Vec<String> },
    Unrecognized { raw_text: String },
}

/// The words joined by single spaces: what `echo` prints.
pub open spec fn join_spaces(words: Seq<Seq<char>>) -> Seq<char>
    decreases words.len(),
{
    if words.len() == 0 {
        Seq::empty()
    } else if words.len() == 1 {
        words[0]
    } else {
        join_spaces(words.drop_last()) + seq![' '] + words.last()
    }
}

/// The directory `cd` moves to: the second word taken verbatim, except that
/// a missing second word, or a lone `~`, stands for the home directory, or
/// for the root when no home directory is known.
pub open spec fn cd_target(words: Seq<Seq<char>>, home: Option<String>) -> Seq<char> {
    if words.len() < 2 || words[1] == "~"@ {
        match home {
            Some(h) => h@,
            None => "/"@,
        }
    } else {
        words[1]
    }
}

/// How one raw line, the home directory, and the search-path candidates for
/// the line's first token determine the command value.
pub open spec fn built_command(
    cmd: Command,
    line: Seq<char>,
    home: Option<String>,
    cs: Seq<PathCandidate>,
) -> bool {
    let trimmed = spec_trim(line);
    let t = spec_tokenize(trimmed);
    if t.len() == 0 {
        cmd matches Command::Unrecognized { raw_text } && raw_text@ == trimmed
    } else if t[0] == "exit"@ {
        cmd is Exit
    } else if t[0] == "echo"@ {
        cmd matches Command::Echo { display_string } && display_string@ == join_spaces(
            t.drop_first(),
        )
    } else if t[0] == "type"@ {
        if t.len() < 2 {
            cmd matches Command::Unrecognized { raw_text } && raw_text@ == trimmed
        } else {
            cmd matches Command::Type { command_name } && command_name@ == t[1]
        }
    } else if t[0] == "pwd"@ {
        cmd is Pwd
    } else if t[0] == "cd"@ {
        cmd matches Command::Cd { target } && target@ == cd_target(t, home)
    } else {
        match first_usable(cs) {
            // The resolved path is dropped here on purpose: execution
            // re-resolves the program, so a stale path is never spawned.
            Some(_) => cmd matches Command::External { program, args } && program@ == t[0]
                && args.deep_view() == t.drop_first(),
            None => cmd matches Command::Unrecognized { raw_text } && raw_text@ == trimmed,
        }
    }
}

/// The tokens of `tokens` from position `from` on, cloned.
fn rest(tokens: &Vec<String>, from: usize) -> (r: Vec<String>)
    requires
        from <= tokens@.len(),
    ensures
        r.deep_view() == tokens.deep_view().skip(from as int),
{
    let mut r: Vec<String> = Vec::new();
    let mut i: usize = from;
    proof {
        assert(r.deep_view() =~= tokens.deep_view().subrange(from as int, from as int));
    }
    while i < tokens.len()
        invariant
            from <= i <= tokens@.len(),
            r.deep_view() == tokens.deep_view().subrange(from as int, i as int),
        decreases tokens@.len() - i,
    {
        let ghost old_r = r.deep_view();
        r.push(tokens[i].clone());
        proof {
            assert(r.deep_view() =~= old_r.push(tokens@[i as int]@));
            assert(tokens.deep_view().subrange(from as int, i + 1) =~= tokens.deep_view()
                .subrange(from as int, i as int).push(tokens.deep_view()[i as int]));
        }
        i = i + 1;
    }
    proof {
        assert(tokens.deep_view().subrange(from as int, tokens@.len() as int) =~= tokens
            .deep_view().skip(from as int));
    }
    r
}

/// The tokens from position `from` on, joined by single spaces.
fn join_rest(tokens: &Vec<String>, from: usize) -> (r: String)
    requires
        from <= tokens@.len(),
    ensures
        r@ == join_spaces(tokens.deep_view().skip(from as int)),
{
    let mut r = String::new();
    let mut i: usize = from;
    proof {
        assert(tokens.deep_view().subrange(from as int, from as int) =~= Seq::<
            Seq<char>,
        >::empty());
    }
    while i < tokens.len()
        invariant
            from <= i <= tokens@.len(),
            r@ == join_spaces(tokens.deep_view().subrange(from as int, i as int)),
        decreases tokens@.len() - i,
    {
        let ghost pre = tokens.deep_view().subrange(from as int, i as int);
        let ghost word = tokens.deep_view()[i as int];
        if i > from {
            r.append(" ");
        }
        r.append(tokens[i].as_str());
        proof {
            reveal_strlit(" ");
            let cur = tokens.deep_view().subrange(from as int, i + 1);
            assert(cur.drop_last() =~= pre);
            if i == from {
                assert(cur =~= seq![word]);
                assert(r@ =~= word);
            } else {
                assert(" "@ =~= seq![' ']);
            }
        }
        i = i + 1;
    }
    proof {
        assert(tokens.deep_view().subrange(from as int, tokens@.len() as int) =~= tokens
            .deep_view().skip(from as int));
    }
    r
}

impl Command {
    /// Builds the command for one raw input line. `home` is the value of the
    /// home-directory variable, if set; `candidates` are the filesystem
    /// probes of `directory/first-token` for each search-path directory, in
    /// listed order (ignored when the first token is a built-in keyword).
    pub fn from_input(input: &str, home: &Option<String>, candidates: &Vec<PathCandidate>) -> (cmd:
        Command)
        ensures
            built_command(cmd, input@, *home, candidates@),
    {
        let trimmed = trim(input);
        let tokens = tokenize(trimmed);
        if tokens.len() == 0 {
            return Command::Unrecognized { raw_text: String::from_str(trimmed) };
        }
        if str_eq(tokens[0].as_str(), "exit") {
            Command::Exit
        } else if str_eq(tokens[0].as_str(), "echo") {
            Command::Echo { display_string: join_rest(&tokens, 1) }
        } else if str_eq(tokens[0].as_str(), "type") {
            if tokens.len() < 2 {
                Command::Unrecognized { raw_text: String::from_str(trimmed) }
            } else {
                Command::Type { command_name: tokens[1].clone() }
            }
        } else if str_eq(tokens[0].as_str(), "pwd") {
            Command::Pwd
        } else if str_eq(tokens[0].as_str(), "cd") {
            let target: String = if tokens.len() < 2 {
                match home {
                    Some(h) => h.clone(),
                    None => String::from_str("/"),
                }
            } else {
                if str_eq(tokens[1].as_str(), "~") {
                    match home {
                        Some(h) => h.clone(),
                        None => String::from_str("/"),
                    }
                } else {
                    tokens[1].clone()
                }
            };
            Command::Cd { target }
        } else {
            match CommandLocation::resolve(tokens[0].as_str(), candidates) {
                CommandLocation::Executable(_) => Command::External {
                    program: tokens[0].clone(),
                    args: rest(&tokens, 1),
                },
                CommandLocation::NotFound => Command::Unrecognized {
                    raw_text: String::from_str(trimmed),
                },
                CommandLocation::Builtin => {
                    // A built-in name never reaches resolution here: every
                    // built-in keyword was dispatched above.
                    proof {
                        assert(!is_builtin_name(tokens.deep_view()[0]));
                        assert(false);
                    }
                    Command::Unrecognized { raw_text: String::from_str(trimmed) }
                },
            }
        }
    }

    /// The read-eval loop has two states, running and terminated; processing
    /// one command moves it to terminated exactly when the command is `Exit`.
    pub fn terminates_loop(&self) -> (r: bool)
        ensures
            r == (self is Exit),
    {
        matches!(self, Command::Exit)
    }
}

/// The diagnostic for a line whose command was not recognized, and for an
/// external command whose resolution fails at execution time.
pub fn not_found_message(raw: &str) -> (r: String)
    ensures
        r@ == raw@ + ": command not found"@,
{
    String::from_str(raw).concat(": command not found")
}

/// The diagnostic for an external command that resolved but could not be
/// spawned.
pub fn failed_to_execute_message(program: &str) -> (r: String)
    ensures
        r@ == program@ + ": failed to execute"@,
{
    String::from_str(program).concat(": failed to execute")
}

/// The diagnostic for a `cd` whose target is missing or not a directory.
pub fn cd_error_message(target: &str) -> (r: String)
    ensures
        r@ == "cd: "@ + target@ + ": No such file or directory"@,
{
    String::from_str("cd: ").concat(target).concat(": No such file or directory")
}

/// The diagnostic for a `pwd` that cannot read the working directory.
pub fn pwd_error_message() -> (r: String)
    ensures
        r@ == "pwd: error retrieving current directory"@,
{
    String::from_str("pwd: error retrieving current directory")
}

} // verus!
