//! The command dispatcher: maps the first token to a builtin or to an
//! external program, and builds the structured result of each command.
//! Decisions that need the operating system (changing the working
//! directory, reading it, spawning a process, terminating) are returned
//! as actions; companion functions turn each action's outcome back into
//! a result.

use vstd::prelude::*;

use crate::models::{
    channel_view, norm_channel, Binary, CommandParseError, IOError, IOStream,
};
use crate::numbers::{parse_i32, spec_parse_i32};
use crate::text::{join_strings, spec_join, spec_trim, str_eq, trim_spaces};

verus! {

/// The five names handled without spawning a process.
pub open spec fn is_builtin_name(s: Seq<char>) -> bool {
    s == "exit"@ || s == "echo"@ || s == "type"@ || s == "pwd"@ || s == "cd"@
}

/// Decides whether a name is one of the builtins.
pub fn is_builtin(s: &str) -> (r: bool)
    ensures
        r == is_builtin_name(s@),
{
    str_eq(s, "exit") || str_eq(s, "echo") || str_eq(s, "type") || str_eq(s, "pwd") || str_eq(
        s,
        "cd",
    )
}

/// The first executable of that name in enumeration order, if any.
pub open spec fn spec_find_binary(bins: Seq<Binary>, name: Seq<char>) -> Option<Binary>
    decreases bins.len(),
{
    if bins.len() == 0 {
        None
    } else if bins[0].name@ == name {
        Some(bins[0])
    } else {
        spec_find_binary(bins.drop_first(), name)
    }
}

/// Linear search for an executable by name; the first match in the
/// original enumeration order wins.
pub fn find_binary<'a>(bins: &'a Vec<Binary>, name: &str) -> (r: Option<&'a Binary>)
    ensures
        match r {
            Some(b) => spec_find_binary(bins@, name@) == Some(*b),
            None => spec_find_binary(bins@, name@) is None,
        },
{
    let n = bins.len();
    let mut i: usize = 0;
    proof {
        assert(bins@.subrange(0, n as int) =~= bins@);
    }
    loop
        invariant
            i <= n,
            n == bins@.len(),
            spec_find_binary(bins@.subrange(i as int, n as int), name@) == spec_find_binary(
                bins@,
                name@,
            ),
        ensures
            i <= n,
            i < n ==> spec_find_binary(bins@, name@) == Some(bins@[i as int]) && bins@[
                i as int
            ].name@ == name@,
            i == n ==> spec_find_binary(bins@, name@) is None,
        decreases n - i,
    {
        if i >= n {
            proof {
                assert(bins@.subrange(n as int, n as int) =~= Seq::<Binary>::empty());
            }
            break ;
        }
        proof {
            assert(bins@.subrange(i as int, n as int)[0] == bins@[i as int]);
        }
        if str_eq(bins[i].name.as_str(), name) {
            break ;
        }
        proof {
            assert(bins@.subrange(i as int, n as int).drop_first() =~= bins@.subrange(
                i as int + 1,
                n as int,
            ));
        }
        i = i + 1;
    }
    if i < n {
        Some(&bins[i])
    } else {
        None
    }
}

/// What `echo` returns for these arguments: the space-joined arguments
/// on stdout (absent when that text is empty), nothing on stderr.
pub open spec fn echo_matches(args: Seq<Seq<char>>, r: Result<IOStream, CommandParseError>) -> bool {
    match r {
        Ok(s) => channel_view(s.stdout) == norm_channel(spec_join(args, " "@)) && s.stderr
            is None,
        Err(_) => false,
    }
}

/// Joins the arguments with single spaces into the stdout channel.
/// Always succeeds; with no arguments the joined text is empty and the
/// channel is normalized to absent.
pub fn echo_command(args: Vec<String>) -> (r: IOStream)
    ensures
        echo_matches(args.deep_view(), Ok(r)),
{
    let text = join_strings(&args, " ");
    proof {
        reveal_strlit("");
    }
    IOStream::new(text.as_str(), "")
}

/// What `type` returns for these arguments against this executable
/// list: no argument is a wrong-argument-count failure; a builtin name
/// reports itself as a builtin; a name found on the search path reports
/// its full path; anything else is a command-not-found failure naming
/// the argument.
pub open spec fn type_matches(
    args: Seq<Seq<char>>,
    bins: Seq<Binary>,
    r: Result<IOStream, CommandParseError>,
) -> bool {
    if args.len() == 0 {
        r == Err::<IOStream, CommandParseError>(CommandParseError::WrongArgsNum)
    } else {
        let name = args[0];
        if is_builtin_name(name) {
            match r {
                Ok(s) => channel_view(s.stdout) == Some(name + " is a shell builtin"@)
                    && s.stderr is None,
                Err(_) => false,
            }
        } else {
            match spec_find_binary(bins, name) {
                Some(b) => match r {
                    Ok(s) => channel_view(s.stdout) == Some(name + " is "@ + b.path@)
                        && s.stderr is None,
                    Err(_) => false,
                },
                None => match r {
                    Err(CommandParseError::CommandNotFound(m)) => m@ == name + ": not found"@,
                    _ => false,
                },
            }
        }
    }
}

/// Reports what its single argument names: a builtin, an executable on
/// the search path, or nothing.
pub fn type_command(args: Vec<String>, binaries: &Vec<Binary>) -> (r: Result<
    IOStream,
    CommandParseError,
>)
    ensures
        type_matches(args.deep_view(), binaries@, r),
{
    if args.len() == 0 {
        return Err(CommandParseError::WrongArgsNum);
    }
    let name = &args[0];
    if is_builtin(name.as_str()) {
        let mut out = name.clone();
        out.append(" is a shell builtin");
        proof {
            reveal_strlit(" is a shell builtin");
            reveal_strlit("");
        }
        Ok(IOStream::new(out.as_str(), ""))
    } else {
        match find_binary(binaries, name.as_str()) {
            Some(b) => {
                let mut out = name.clone();
                out.append(" is ");
                out.append(b.path.as_str());
                proof {
                    reveal_strlit(" is ");
                    reveal_strlit("");
                }
                Ok(IOStream::new(out.as_str(), ""))
            },
            None => {
                let mut m = name.clone();
                m.append(": not found");
                Err(CommandParseError::CommandNotFound(m))
            },
        }
    }
}

/// The path `cd` attempts for these arguments: the home directory for a
/// lone `~`, the home directory followed by the remainder for a leading
/// `~`, and the joined arguments themselves otherwise.
pub open spec fn spec_cd_target(args: Seq<Seq<char>>, home: Seq<char>) -> Seq<char> {
    let joined = spec_join(args, Seq::empty());
    if spec_trim(joined) == "~"@ {
        home
    } else if joined.len() > 0 && joined[0] == '~' {
        home + joined.drop_first()
    } else {
        joined
    }
}

/// Resolves the argument of `cd` against the home directory.
pub fn cd_target(args: Vec<String>, home: &str) -> (r: String)
    ensures
        r@ == spec_cd_target(args.deep_view(), home@),
{
    proof {
        reveal_strlit("");
        assert(""@ =~= Seq::<char>::empty());
    }
    let joined = join_strings(&args, "");
    let trimmed = trim_spaces(joined.as_str());
    if str_eq(trimmed, "~") {
        String::from_str(home)
    } else {
        let n = joined.as_str().unicode_len();
        if n > 0 && joined.as_str().get_char(0) == '~' {
            let rest = joined.as_str().substring_char(1, n);
            proof {
                assert(rest@ =~= joined@.drop_first());
            }
            let mut r = String::from_str(home);
            r.append(rest);
            r
        } else {
            joined
        }
    }
}

/// The result of a `cd` once the directory change was attempted: an
/// empty stream on success, and a no-such-directory failure naming the
/// attempted path otherwise.
pub fn cd_outcome(target: &str, changed: bool) -> (r: Result<IOStream, CommandParseError>)
    ensures
        changed ==> (r matches Ok(s) && s.stdout is None && s.stderr is None),
        !changed ==> (r matches Err(CommandParseError::ComposableError(IOError::NoSuchDir(m)))
            && m@ == "cd: "@ + target@ + ": No such file or directory"@),
{
    if changed {
        Ok(IOStream::new_empty())
    } else {
        let mut m = String::from_str("cd: ");
        m.append(target);
        m.append(": No such file or directory");
        Err(CommandParseError::ComposableError(IOError::NoSuchDir(m)))
    }
}

/// The result of a `pwd` once the working directory was read: the
/// directory on stdout, or a no-such-directory failure when it could
/// not be resolved.
pub fn pwd_outcome(dir: Option<String>) -> (r: Result<IOStream, CommandParseError>)
    ensures
        dir matches Some(d) ==> (r matches Ok(s) && channel_view(s.stdout) == norm_channel(d@)
            && s.stderr is None),
        dir is None ==> (r matches Err(CommandParseError::ComposableError(IOError::NoSuchDir(m)))
            && m@ == "Incorrect directory"@),
{
    match dir {
        Some(d) => {
            proof {
                reveal_strlit("");
            }
            Ok(IOStream::new(d.as_str(), ""))
        },
        None => Err(
            CommandParseError::ComposableError(
                IOError::NoSuchDir(String::from_str("Incorrect directory")),
            ),
        ),
    }
}

/// The result of an external program once the spawn was attempted: on a
/// captured output, both channels trimmed and normalized independently;
/// on a spawn failure, the failure text surfaced through the composed
/// error channel.
pub fn spawn_outcome(output: Result<(String, String), String>) -> (r: Result<
    IOStream,
    CommandParseError,
>)
    ensures
        output matches Ok(o) ==> (r matches Ok(s) && channel_view(s.stdout) == norm_channel(
            spec_trim(o.0@),
        ) && channel_view(s.stderr) == norm_channel(spec_trim(o.1@))),
        output matches Err(e) ==> (r matches Err(
            CommandParseError::ComposableError(IOError::StdError(m)),
        ) && m@ == e@),
{
    match output {
        Ok((out, err)) => {
            let out_trimmed = trim_spaces(out.as_str());
            let err_trimmed = trim_spaces(err.as_str());
            Ok(IOStream::new(out_trimmed, err_trimmed))
        },
        Err(e) => Err(CommandParseError::ComposableError(IOError::StdError(e))),
    }
}

/// The status `exit` terminates with: its first argument read as a
/// decimal integer, and `-1` when absent or unreadable.
pub open spec fn spec_exit_code(args: Seq<Seq<char>>) -> i32 {
    if args.len() == 0 {
        -1i32
    } else {
        match spec_parse_i32(args[0]) {
            Some(v) => v,
            None => -1i32,
        }
    }
}

/// What one dispatched command asks of its caller. Work only the
/// operating system can do is handed back as an action; everything
/// decided here arrives already finished.
pub enum CommandAction {
    /// The command's result is complete: nothing external is needed.
    Finished(Result<IOStream, CommandParseError>),
    /// Terminate the process with this status.
    Exit(i32),
    /// Change the working directory to this resolved path.
    ChangeDir(String),
    /// Read the current working directory.
    QueryWorkdir,
    /// Run this program with these arguments and capture its output.
    Spawn(String, Vec<String>),
}

/// The action one token list dispatches to, given the executable list
/// and the home directory: empty input finishes with an empty stream;
/// each builtin behaves as its contract says; an unknown name found on
/// the search path is spawned with the remaining tokens; one not found
/// fails through the composed error channel.
pub open spec fn action_matches(
    toks: Seq<Seq<char>>,
    bins: Seq<Binary>,
    home: Seq<char>,
    r: CommandAction,
) -> bool {
    if toks.len() == 0 {
        match r {
            CommandAction::Finished(Ok(s)) => s.stdout is None && s.stderr is None,
            _ => false,
        }
    } else {
        let name = toks[0];
        let rest = toks.drop_first();
        if name == "exit"@ {
            r == CommandAction::Exit(spec_exit_code(rest))
        } else if name == "echo"@ {
            match r {
                CommandAction::Finished(res) => echo_matches(rest, res),
                _ => false,
            }
        } else if name == "type"@ {
            match r {
                CommandAction::Finished(res) => type_matches(rest, bins, res),
                _ => false,
            }
        } else if name == "pwd"@ {
            r is QueryWorkdir
        } else if name == "cd"@ {
            match r {
                CommandAction::ChangeDir(p) => p@ == spec_cd_target(rest, home),
                _ => false,
            }
        } else {
            match spec_find_binary(bins, name) {
                Some(_) => match r {
                    CommandAction::Spawn(prog, args) => prog@ == name && args.deep_view()
                        == rest,
                    _ => false,
                },
                None => match r {
                    CommandAction::Finished(
                        Err(CommandParseError::ComposableError(IOError::NoSuchDir(m))),
                    ) => m@ == name + ": not found"@,
                    _ => false,
                },
            }
        }
    }
}

/// Dispatches a command-token list: matches the first token against the
/// builtins, resolves everything decidable here, and returns the action
/// the caller must perform.
pub fn exec_command(tokens: Vec<String>, binaries: &Vec<Binary>, home: &str) -> (r: CommandAction)
    ensures
        action_matches(tokens.deep_view(), binaries@, home@, r),
{
    let ghost toks = tokens.deep_view();
    if tokens.len() == 0 {
        return CommandAction::Finished(Ok(IOStream::new_empty()));
    }
    let mut rest = tokens;
    let cmd = rest.remove(0);
    proof {
        assert(rest.deep_view() =~= toks.drop_first());
        assert(cmd@ == toks[0]);
    }
    if str_eq(cmd.as_str(), "exit") {
        let code: i32 = if rest.len() == 0 {
            -1
        } else {
            match parse_i32(rest[0].as_str()) {
                Some(v) => v,
                None => -1,
            }
        };
        CommandAction::Exit(code)
    } else if str_eq(cmd.as_str(), "echo") {
        CommandAction::Finished(Ok(echo_command(rest)))
    } else if str_eq(cmd.as_str(), "type") {
        CommandAction::Finished(type_command(rest, binaries))
    } else if str_eq(cmd.as_str(), "pwd") {
        CommandAction::QueryWorkdir
    } else if str_eq(cmd.as_str(), "cd") {
        CommandAction::ChangeDir(cd_target(rest, home))
    } else {
        match find_binary(binaries, cmd.as_str()) {
            Some(_) => CommandAction::Spawn(cmd, rest),
            None => {
                let mut m = cmd;
                m.append(": not found");
                CommandAction::Finished(
                    Err(CommandParseError::ComposableError(IOError::NoSuchDir(m))),
                )
            },
        }
    }
}

} // verus!
