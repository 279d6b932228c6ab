//! The line-completion decision logic: the word under the cursor, prefix
//! filtering, and the built-in command candidates offered at the start of
//! a line. The line editor calls in with plain values and renders the
//! candidates itself.

use vstd::prelude::*;

use crate::text::{has_prefix, is_blank, match_at, trim_seq};

verus! {

/// The position where the word under the cursor begins: just after the
/// last space before `pos`, or the start of the line.
pub open spec fn word_start(s: Seq<char>, pos: int) -> int
    decreases pos,
{
    if pos <= 0 {
        0
    } else if s[pos - 1] == ' ' {
        pos
    } else {
        word_start(s, pos - 1)
    }
}

/// Find the word under the cursor: its start position and its text.
pub fn word_at_cursor(line: &str, pos: usize) -> (r: (usize, String))
    requires
        pos <= line@.len(),
    ensures
        r.0 == word_start(line@, pos as int),
        r.0 <= pos,
        r.1@ == line@.subrange(r.0 as int, pos as int),
{
    let mut i: usize = pos;
    while i > 0 && line.get_char(i - 1) != ' '
        invariant
            i <= pos <= line@.len(),
            word_start(line@, pos as int) == word_start(line@, i as int),
        decreases i,
    {
        i -= 1;
    }
    proof {
        assert(word_start(line@, i as int) == i);
    }
    let word = String::from_str(line.substring_char(i, pos));
    (i, word)
}

/// Beginning with `word`: the predicate the completion filter applies.
pub open spec fn prefix_pred(word: Seq<char>) -> spec_fn(Seq<char>) -> bool {
    |c: Seq<char>| match_at(c, word, 0)
}

/// The candidates of `cands` that begin with `word`, in order.
pub fn filter_prefix(cands: &Vec<String>, word: &str) -> (r: Vec<String>)
    ensures
        r.deep_view() == cands.deep_view().filter(prefix_pred(word@)),
{
    let ghost pred = prefix_pred(word@);
    let mut r: Vec<String> = Vec::new();
    proof {
        reveal(Seq::filter);
        assert(r.deep_view() =~= cands.deep_view().take(0).filter(pred));
    }
    let mut i: usize = 0;
    while i < cands.len()
        invariant
            i <= cands@.len(),
            cands.deep_view().len() == cands@.len(),
            r.deep_view() == cands.deep_view().take(i as int).filter(pred),
            pred == prefix_pred(word@),
        decreases cands@.len() - i,
    {
        let ghost pre = r.deep_view();
        let ghost dv = cands.deep_view();
        if has_prefix(cands[i].as_str(), word) {
            r.push(cands[i].clone());
            proof {
                assert(r.deep_view() =~= pre.push(dv[i as int]));
            }
        }
        proof {
            reveal(Seq::filter);
            assert(dv.take(i + 1).drop_last() =~= dv.take(i as int));
            assert(dv.take(i + 1).last() == dv[i as int]);
            assert(dv.take(i + 1).filter(pred) == if pred(dv[i as int]) {
                dv.take(i as int).filter(pred).push(dv[i as int])
            } else {
                dv.take(i as int).filter(pred)
            });
        }
        i += 1;
    }
    proof {
        assert(cands.deep_view().take(cands@.len() as int) =~= cands.deep_view());
    }
    r
}

/// The views of the built-in special commands, offered at the start of a
/// line.
pub open spec fn special_views() -> Seq<Seq<char>> {
    seq!["cd"@, "cmd"@, "exit"@, "help"@, "reset"@, "context"@]
}

/// The built-in special commands.
pub fn special_commands() -> (r: Vec<String>)
    ensures
        r.deep_view() == special_views(),
{
    let mut r: Vec<String> = Vec::new();
    r.push(String::from_str("cd"));
    r.push(String::from_str("cmd"));
    r.push(String::from_str("exit"));
    r.push(String::from_str("help"));
    r.push(String::from_str("reset"));
    r.push(String::from_str("context"));
    proof {
        assert(r.deep_view() =~= special_views());
    }
    r
}

/// The built-in candidates for the word under the cursor, when the cursor
/// stands in the first word of the line: the special commands beginning
/// with that word. `None` when the cursor is past the first word or no
/// special command matches; the caller then falls back to other
/// completion sources.
pub fn builtin_candidates(line: &str, pos: usize) -> (r: Option<(usize, Vec<String>)>)
    requires
        pos <= line@.len(),
    ensures
        ({
            let start = word_start(line@, pos as int);
            let word = line@.subrange(start, pos as int);
            let at_line_start = start == 0 || trim_seq(line@.subrange(0, start)).len() == 0;
            let cands = special_views().filter(prefix_pred(word));
            match r {
                Some(p) => at_line_start && cands.len() > 0 && p.0 == start
                    && p.1.deep_view() == cands,
                None => !at_line_start || cands.len() == 0,
            }
        }),
{
    let (start, word) = word_at_cursor(line, pos);
    let at_line_start = if start == 0 {
        true
    } else {
        is_blank(line.substring_char(0, start))
    };
    if !at_line_start {
        return None;
    }
    let specials = special_commands();
    let cands = filter_prefix(&specials, word.as_str());
    if cands.len() > 0 {
        proof {
            assert(cands.deep_view().len() == cands@.len());
        }
        Some((start, cands))
    } else {
        proof {
            assert(cands.deep_view().len() == cands@.len());
        }
        None
    }
}

} // verus!
