use vstd::prelude::*;

verus! {

use crate::errors::AppError;
use crate::utilities::strings::push_char;

/// A parsed command: the tagged variant and the path operands it carries.
///
/// Every variant except `List` and `Clear` carries exactly the paths its
/// syntax requires. Paths are opaque strings; which side of an operation they
/// denote is fixed by the field name alone.
pub enum Command {
    /// Download a file from cloud storage to the local machine.
    Download { from_path: String, to_path: String },
    /// Upload a file from the local machine to cloud storage.
    Upload { from_path: String, to_path: String },
    /// Delete a file on cloud storage.
    Delete { path: String },
    /// List files on the local machine and on cloud storage.
    List,
    /// Clear the execution log.
    Clear,
}

/// The mathematical shape of a command: each path as its character sequence.
pub enum CommandModel {
    Download { from_path: Seq<char>, to_path: Seq<char> },
    Upload { from_path: Seq<char>, to_path: Seq<char> },
    Delete { path: Seq<char> },
    List,
    Clear,
}

impl View for Command {
    type V = CommandModel;

    open spec fn view(&self) -> CommandModel {
        match self {
            Command::Download { from_path, to_path } => CommandModel::Download {
                from_path: from_path@,
                to_path: to_path@,
            },
            Command::Upload { from_path, to_path } => CommandModel::Upload {
                from_path: from_path@,
                to_path: to_path@,
            },
            Command::Delete { path } => CommandModel::Delete { path: path@ },
            Command::List => CommandModel::List,
            Command::Clear => CommandModel::Clear,
        }
    }
}

/// A successfully parsed input line.
pub struct Cli {
    pub command: Command,
}

/// The characters on which an input line is tokenized.
pub open spec fn is_space(c: char) -> bool {
    c == ' ' || c == '\t' || c == '\n' || c == '\r'
}

/// The whitespace-separated tokens of a line, in order; leading, trailing and
/// repeated whitespace separates without producing empty tokens.
pub open spec fn spec_tokens(s: Seq<char>) -> Seq<Seq<char>>
    decreases s.len(),
{
    if s.len() == 0 {
        Seq::empty()
    } else {
        let init = s.drop_last();
        let c = s.last();
        let ts = spec_tokens(init);
        if is_space(c) {
            ts
        } else if init.len() == 0 || is_space(init.last()) {
            ts.push(seq![c])
        } else {
            ts.update(ts.len() - 1, ts.last().push(c))
        }
    }
}

/// What an input line parses to: the first token selects the variant, the
/// remaining tokens fill its fields in order. `None` on an unknown leading
/// token, a missing field, extra tokens, or an empty line.
pub open spec fn spec_parse(s: Seq<char>) -> Option<CommandModel> {
    let ts = spec_tokens(s);
    if ts.len() == 0 {
        None
    } else if ts[0] == "download"@ {
        if ts.len() == 3 {
            Some(CommandModel::Download { from_path: ts[1], to_path: ts[2] })
        } else {
            None
        }
    } else if ts[0] == "upload"@ {
        if ts.len() == 3 {
            Some(CommandModel::Upload { from_path: ts[1], to_path: ts[2] })
        } else {
            None
        }
    } else if ts[0] == "delete"@ {
        if ts.len() == 2 {
            Some(CommandModel::Delete { path: ts[1] })
        } else {
            None
        }
    } else if ts[0] == "list"@ {
        if ts.len() == 1 {
            Some(CommandModel::List)
        } else {
            None
        }
    } else if ts[0] == "clear"@ {
        if ts.len() == 1 {
            Some(CommandModel::Clear)
        } else {
            None
        }
    } else {
        None
    }
}

/// Splits a line into its whitespace-separated tokens.
pub fn tokenize(s: &str) -> (r: Vec<String>)
    ensures
        r.deep_view() == spec_tokens(s@),
{
    let n = s.unicode_len();
    let mut out: Vec<String> = Vec::new();
    let mut cur = String::new();
    let mut i: usize = 0;
    while i < n
        invariant
            i <= n,
            n == s@.len(),
            cur@.len() == 0 ==> out.deep_view() == spec_tokens(s@.take(i as int)),
            cur@.len() == 0 ==> (i == 0 || is_space(s@[i as int - 1])),
            cur@.len() > 0 ==> out.deep_view().push(cur@) == spec_tokens(s@.take(i as int)),
            cur@.len() > 0 ==> i > 0 && !is_space(s@[i as int - 1]),
        decreases n - i,
    {
        let ghost prev_dv = out.deep_view();
        let ghost prev_cur = cur@;
        let c = s.get_char(i);
        let space = c == ' ' || c == '\t' || c == '\n' || c == '\r';
        if space {
            if !cur.as_str().is_empty() {
                out.push(cur);
                cur = String::new();
                proof {
                    assert(out.deep_view() =~= prev_dv.push(prev_cur));
                }
            }
        } else {
            push_char(&mut cur, c);
        }
        i = i + 1;
        proof {
            let t = s@.take(i as int);
            assert(t.drop_last() =~= s@.take(i as int - 1));
            assert(t.last() == s@[i as int - 1]);
            if !space && prev_cur.len() > 0 {
                assert(spec_tokens(t) =~= prev_dv.push(prev_cur).update(
                    prev_dv.len() as int,
                    prev_cur.push(c),
                ));
                assert(out.deep_view().push(cur@) =~= spec_tokens(t));
            }
            if !space && prev_cur.len() == 0 {
                assert(cur@ =~= seq![c]);
                assert(out.deep_view().push(cur@) =~= spec_tokens(t));
            }
        }
    }
    proof {
        assert(s@.take(n as int) =~= s@);
    }
    if !cur.as_str().is_empty() {
        let ghost prev_dv = out.deep_view();
        let ghost prev_cur = cur@;
        out.push(cur);
        proof {
            assert(out.deep_view() =~= prev_dv.push(prev_cur));
        }
    }
    out
}

impl Cli {
    /// Parses one raw input line into a command, or reports that the line
    /// matches no command.
    pub fn parse_str(input: &str) -> (r: Result<Cli, AppError>)
        ensures
            match r {
                Ok(cli) => Some(cli.command@) == spec_parse(input@),
                Err(e) => spec_parse(input@) is None && e matches AppError::ParseCommand,
            },
    {
        let tokens = tokenize(input);
        proof {
            assert(forall|i: int| 0 <= i < tokens@.len() ==> tokens.deep_view()[i] == tokens@[i]@);
        }
        if tokens.len() == 0 {
            return Err(AppError::ParseCommand);
        }
        let head = &tokens[0];
        if *head == String::from_str("download") {
            if tokens.len() == 3 {
                Ok(Cli {
                    command: Command::Download {
                        from_path: tokens[1].clone(),
                        to_path: tokens[2].clone(),
                    },
                })
            } else {
                Err(AppError::ParseCommand)
            }
        } else if *head == String::from_str("upload") {
            if tokens.len() == 3 {
                Ok(Cli {
                    command: Command::Upload {
                        from_path: tokens[1].clone(),
                        to_path: tokens[2].clone(),
                    },
                })
            } else {
                Err(AppError::ParseCommand)
            }
        } else if *head == String::from_str("delete") {
            if tokens.len() == 2 {
                Ok(Cli { command: Command::Delete { path: tokens[1].clone() } })
            } else {
                Err(AppError::ParseCommand)
            }
        } else if *head == String::from_str("list") {
            if tokens.len() == 1 {
                Ok(Cli { command: Command::List })
            } else {
                Err(AppError::ParseCommand)
            }
        } else if *head == String::from_str("clear") {
            if tokens.len() == 1 {
                Ok(Cli { command: Command::Clear })
            } else {
                Err(AppError::ParseCommand)
            }
        } else {
            Err(AppError::ParseCommand)
        }
    }
}

} // verus!

