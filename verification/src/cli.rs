//! The interactive session's decision layer: dispatching a line of input
//! to a builtin or to the model, classifying a directory-change path, and
//! parsing command-line arguments for the non-interactive invocation.

use vstd::prelude::*;

use crate::text::{has_prefix, match_at, str_eq, trim_seq, trim_str};

verus! {

/// What one line of interactive input asks for.
pub enum InputAction {
    /// Leave the session.
    Exit,
    /// Show the help message.
    Help,
    /// Clear the chat history down to the system message.
    Reset,
    /// Show the current conversation context.
    ShowContext,
    /// Change the session's working directory; carries the trimmed path.
    ChangeDir(String),
    /// Execute a command directly, bypassing the model; carries the
    /// trimmed command.
    Direct(String),
    /// Anything else: a prompt for the model; carries the trimmed line.
    Prompt(String),
}

/// Dispatch one line of input: the exact builtin names first, then the
/// two prefixed builtins, then the model prompt.
pub fn parse_input(line: &str) -> (r: InputAction)
    ensures
        ({
            let t = trim_seq(line@);
            match r {
                InputAction::Exit => t == "exit"@,
                InputAction::Help => t == "help"@,
                InputAction::Reset => t == "reset"@,
                InputAction::ShowContext => t == "context"@,
                InputAction::ChangeDir(p) => match_at(t, "cd "@, 0) && p@ == trim_seq(
                    t.skip(3),
                ),
                InputAction::Direct(c) => match_at(t, "cmd "@, 0) && c@ == trim_seq(
                    t.skip(4),
                ),
                InputAction::Prompt(s) => {
                    &&& s@ == t
                    &&& t != "exit"@
                    &&& t != "help"@
                    &&& t != "reset"@
                    &&& t != "context"@
                    &&& !match_at(t, "cd "@, 0)
                    &&& !match_at(t, "cmd "@, 0)
                },
            }
        }),
{
    let t = trim_str(line);
    let n = t.as_str().unicode_len();
    if str_eq(t.as_str(), "exit") {
        InputAction::Exit
    } else if str_eq(t.as_str(), "help") {
        InputAction::Help
    } else if str_eq(t.as_str(), "reset") {
        InputAction::Reset
    } else if str_eq(t.as_str(), "context") {
        InputAction::ShowContext
    } else if has_prefix(t.as_str(), "cd ") {
        proof {
            reveal_strlit("cd ");
        }
        let path = trim_str(t.as_str().substring_char(3, n));
        InputAction::ChangeDir(path)
    } else if has_prefix(t.as_str(), "cmd ") {
        proof {
            reveal_strlit("cmd ");
        }
        let command = trim_str(t.as_str().substring_char(4, n));
        InputAction::Direct(command)
    } else {
        InputAction::Prompt(t)
    }
}

/// How a directory-change path names its target.
pub enum CdPath {
    /// The bare `~`: the home directory itself.
    Home,
    /// A `~/` prefix: the remainder, relative to the home directory.
    HomeRelative(String),
    /// Any other path, taken as it stands.
    Plain(String),
}

/// Classify a directory-change path for tilde expansion.
pub fn classify_cd_path(path: &str) -> (r: CdPath)
    ensures
        match r {
            CdPath::Home => path@ == "~"@,
            CdPath::HomeRelative(rest) => match_at(path@, "~/"@, 0) && rest@ == path@.skip(2),
            CdPath::Plain(p) => p@ == path@ && path@ != "~"@ && !match_at(path@, "~/"@, 0),
        },
{
    let n = path.unicode_len();
    if str_eq(path, "~") {
        CdPath::Home
    } else if has_prefix(path, "~/") {
        proof {
            reveal_strlit("~/");
        }
        let rest = String::from_str(path.substring_char(2, n));
        CdPath::HomeRelative(rest)
    } else {
        CdPath::Plain(String::from_str(path))
    }
}

/// An argument is one of the recognized flags.
pub open spec fn is_flag(a: Seq<char>) -> bool {
    a == "--no-confirm"@ || a == "--silent"@
}

/// The prompt assembled from its parts, separated by single spaces.
pub open spec fn join_spaces(parts: Seq<Seq<char>>) -> Seq<char>
    decreases parts.len(),
{
    if parts.len() == 0 {
        Seq::empty()
    } else if parts.len() == 1 {
        parts[0]
    } else {
        join_spaces(parts.drop_last()) + " "@ + parts.last()
    }
}

/// The non-flag arguments, in order: the parts of the prompt.
pub open spec fn prompt_parts(rest: Seq<Seq<char>>) -> Seq<Seq<char>> {
    rest.filter(|a: Seq<char>| !is_flag(a))
}

/// How the process was invoked.
pub enum Invocation {
    /// No arguments: run the interactive session.
    Interactive,
    /// A one-shot run: the protocol once to completion for this prompt.
    OneShot { prompt: String, no_confirm: bool, silent: bool },
    /// Flags but no prompt: refused.
    EmptyPrompt,
}

/// Parse the command-line arguments (element 0 is the program name):
/// the two recognized flags may stand anywhere, everything else joins the
/// prompt.
pub fn parse_args(args: &Vec<String>) -> (r: Invocation)
    ensures
        ({
            let rest = args.deep_view().skip(1);
            let parts = prompt_parts(rest);
            match r {
                Invocation::Interactive => args@.len() <= 1,
                Invocation::OneShot { prompt, no_confirm, silent } => {
                    &&& args@.len() > 1
                    &&& parts.len() > 0
                    &&& prompt@ == join_spaces(parts)
                    &&& no_confirm == rest.contains("--no-confirm"@)
                    &&& silent == rest.contains("--silent"@)
                },
                Invocation::EmptyPrompt => args@.len() > 1 && parts.len() == 0,
            }
        }),
{
    let ghost rest = args.deep_view().skip(1);
    if args.len() <= 1 {
        return Invocation::Interactive;
    }
    let mut no_confirm = false;
    let mut silent = false;
    let mut prompt = String::new();
    let mut count: usize = 0;
    let mut i: usize = 1;
    proof {
        reveal(Seq::filter);
        assert(args.deep_view().len() == args@.len());
        assert(prompt_parts(rest.take(0)) =~= Seq::<Seq<char>>::empty());
    }
    while i < args.len()
        invariant
            1 <= i <= args@.len(),
            args.deep_view().len() == args@.len(),
            rest == args.deep_view().skip(1),
            no_confirm == rest.take(i - 1).contains("--no-confirm"@),
            silent == rest.take(i - 1).contains("--silent"@),
            count == prompt_parts(rest.take(i - 1)).len(),
            prompt@ == join_spaces(prompt_parts(rest.take(i - 1))),
        decreases args@.len() - i,
    {
        let ghost k = i - 1;
        let ghost prev = rest.take(k);
        proof {
            reveal(Seq::filter);
            assert(rest.take(k + 1).drop_last() =~= prev);
            assert(rest.take(k + 1).last() == rest[k]);
            assert(rest[k] == args.deep_view()[i as int]);
        }
        let a = &args[i];
        if str_eq(a.as_str(), "--no-confirm") {
            no_confirm = true;
            proof {
                reveal(Seq::filter);
                assert(rest.take(k + 1).contains("--no-confirm"@)) by {
                    assert(rest.take(k + 1)[k] == "--no-confirm"@);
                }
                assert(is_flag(rest[k]));
                assert(prompt_parts(rest.take(k + 1)) == prompt_parts(prev));
                assert(silent == rest.take(k + 1).contains("--silent"@)) by {
                    reveal_strlit("--no-confirm");
                    reveal_strlit("--silent");
                    assert forall|j: int| 0 <= j < k + 1 && #[trigger] rest.take(k + 1)[j]
                        == "--silent"@ implies prev.contains("--silent"@) by {
                        assert(j < k);
                        assert(prev[j] == "--silent"@);
                    }
                }
            }
        } else if str_eq(a.as_str(), "--silent") {
            silent = true;
            proof {
                reveal(Seq::filter);
                assert(rest.take(k + 1).contains("--silent"@)) by {
                    assert(rest.take(k + 1)[k] == "--silent"@);
                }
                assert(is_flag(rest[k]));
                assert(prompt_parts(rest.take(k + 1)) == prompt_parts(prev));
                assert(no_confirm == rest.take(k + 1).contains("--no-confirm"@)) by {
                    reveal_strlit("--no-confirm");
                    reveal_strlit("--silent");
                    assert forall|j: int| 0 <= j < k + 1 && #[trigger] rest.take(k + 1)[j]
                        == "--no-confirm"@ implies prev.contains("--no-confirm"@) by {
                        assert(j < k);
                        assert(prev[j] == "--no-confirm"@);
                    }
                }
            }
        } else {
            if count > 0 {
                prompt.append(" ");
            }
            prompt.append(a.as_str());
            count = count + 1;
            proof {
                reveal(Seq::filter);
                reveal_strlit(" ");
                assert(!is_flag(rest[k]));
                assert(prompt_parts(rest.take(k + 1)) == prompt_parts(prev).push(rest[k]));
                assert(join_spaces(prompt_parts(prev).push(rest[k])) == if prompt_parts(
                    prev,
                ).len() == 0 {
                    rest[k]
                } else {
                    join_spaces(prompt_parts(prev)) + " "@ + rest[k]
                }) by {
                    let s = prompt_parts(prev).push(rest[k]);
                    assert(s.drop_last() =~= prompt_parts(prev));
                    assert(s.last() == rest[k]);
                }
                assert(prompt@ =~= join_spaces(prompt_parts(rest.take(k + 1))));
                assert(no_confirm == rest.take(k + 1).contains("--no-confirm"@)) by {
                    assert(!is_flag(rest[k]));
                    assert forall|j: int| 0 <= j < k + 1 && #[trigger] rest.take(k + 1)[j]
                        == "--no-confirm"@ implies prev.contains("--no-confirm"@) by {
                        assert(j < k);
                        assert(prev[j] == "--no-confirm"@);
                    }
                }
                assert(silent == rest.take(k + 1).contains("--silent"@)) by {
                    assert(!is_flag(rest[k]));
                    assert forall|j: int| 0 <= j < k + 1 && #[trigger] rest.take(k + 1)[j]
                        == "--silent"@ implies prev.contains("--silent"@) by {
                        assert(j < k);
                        assert(prev[j] == "--silent"@);
                    }
                }
            }
        }
        i += 1;
    }
    proof {
        assert(rest.take(args@.len() - 1) =~= rest);
    }
    if count == 0 {
        Invocation::EmptyPrompt
    } else {
        Invocation::OneShot { prompt, no_confirm, silent }
    }
}

} // verus!
