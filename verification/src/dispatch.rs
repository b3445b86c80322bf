//! The decisions of the dispatch loop: what to do with a line of chat, and
//! what to do with what a handler returned.

use vstd::prelude::*;
use vstd::string::*;
use crate::command::{resolve, resolve_spec, Command, Handler};
use crate::text::{
    opens_with, split_words, starts_with, str_eq, strip_prefix, trim_text, trimmed, views,
    whitespace_words, without_prefix,
};

verus! {

/// What the loop does with a line of chat.
pub enum Action<'a> {
    /// The line is not for the bot: nothing is sent.
    Ignore,
    /// This text is sent to the channel.
    Reply(String),
    /// This handler is run with these arguments.
    Invoke(Handler, Option<Vec<&'a str>>),
}

/// An `Action` in terms of its contents.
pub enum Plan {
    Ignore,
    Reply(Seq<char>),
    Invoke(Handler, Option<Seq<Seq<char>>>),
}

impl<'a> Action<'a> {
    /// The contents of the action.
    pub open spec fn plan(self) -> Plan {
        match self {
            Action::Ignore => Plan::Ignore,
            Action::Reply(text) => Plan::Reply(text@),
            Action::Invoke(handler, Some(args)) => Plan::Invoke(handler, Some(views(args@))),
            Action::Invoke(handler, None) => Plan::Invoke(handler, None),
        }
    }
}

/// What the loop does with what a handler returned.
#[derive(Debug, PartialEq, Eq)]
pub enum Verdict {
    /// The response is sent, even an empty one, and the loop goes on.
    Send(String),
    /// The loop ends and nothing is sent.
    Stop,
}

/// What becomes of a line of chat, given what is left of it when the
/// whitespace around it is taken off, and the words behind the wake word: a
/// line that is the wake word and nothing else is answered in kind, whatever
/// the tree holds; any other line that does not open with the wake word is
/// ignored; otherwise the words are resolved, and the match is run or the miss
/// reported.
pub open spec fn planned_from(
    commands: Seq<(String, Command)>,
    data: Seq<char>,
    inner: Seq<char>,
    words: Seq<Seq<char>>,
) -> Plan {
    if inner == "xD"@ {
        Plan::Reply("xD"@)
    } else if !opens_with(data, "xD"@) {
        Plan::Ignore
    } else {
        match resolve_spec(commands, words, 0) {
            Some((entry, args)) => Plan::Invoke(entry.handler, args),
            None => Plan::Reply("WAYTOODANK 👉 Unknown command!"@),
        }
    }
}

/// What becomes of a line of chat.
pub open spec fn planned(commands: Seq<(String, Command)>, data: Seq<char>) -> Plan {
    planned_from(
        commands,
        data,
        trimmed(data),
        whitespace_words(without_prefix(data, "xD "@)),
    )
}

/// Decides what to do with a line of chat that is already taken apart:
/// `inner` is the line without the whitespace around it, `words` are the words
/// behind the wake word.
pub fn plan_line<'a>(
    commands: &Vec<(String, Command)>,
    data: &str,
    inner: &str,
    words: &Vec<&'a str>,
) -> (action: Action<'a>)
    ensures
        action.plan() == planned_from(commands@, data@, inner@, views(words@)),
{
    if str_eq(inner, "xD") {
        return Action::Reply("xD".to_owned());
    }
    if !starts_with(data, "xD") {
        return Action::Ignore;
    }
    match resolve(commands, words) {
        Some((entry, args)) => Action::Invoke(entry.handler, args),
        None => Action::Reply("WAYTOODANK 👉 Unknown command!".to_owned()),
    }
}

/// Decides what to do with a line of chat.
pub fn handle_msg<'a>(commands: &Vec<(String, Command)>, data: &'a str) -> (action: Action<'a>)
    ensures
        action.plan() == planned(commands@, data@),
{
    let inner = trim_text(data);
    let words = split_words(strip_prefix(data, "xD "));
    plan_line(commands, data, inner, &words)
}

/// Decides what to do with what a handler returned: a handler that asks to
/// stop ends the loop and its response is dropped; any other response is sent.
pub fn conclude(response: String, continue_running: bool) -> (verdict: Verdict)
    ensures
        verdict == if continue_running {
            Verdict::Send(response)
        } else {
            Verdict::Stop
        },
{
    if continue_running {
        Verdict::Send(response)
    } else {
        Verdict::Stop
    }
}

/// Whether the loop has ended before event `n`: an earlier handler was run
/// and asked to stop. `outcomes[i]` is what the handler of event `i` returns
/// where one is run.
pub open spec fn stopped_before(
    commands: Seq<(String, Command)>,
    lines: Seq<Seq<char>>,
    outcomes: Seq<(Seq<char>, bool)>,
    n: int,
) -> bool
    decreases n,
{
    if n <= 0 {
        false
    } else {
        stopped_before(commands, lines, outcomes, n - 1) || (planned(commands, lines[n - 1])
            is Invoke && !outcomes[n - 1].1)
    }
}

/// What a loop that takes one event at a time has sent after the first `n`
/// events, each send with the number of the event that caused it.
pub open spec fn sends(
    commands: Seq<(String, Command)>,
    lines: Seq<Seq<char>>,
    outcomes: Seq<(Seq<char>, bool)>,
    n: int,
) -> Seq<(int, Seq<char>)>
    decreases n,
{
    if n <= 0 {
        Seq::empty()
    } else {
        let earlier = sends(commands, lines, outcomes, n - 1);
        if stopped_before(commands, lines, outcomes, n - 1) {
            earlier
        } else {
            match planned(commands, lines[n - 1]) {
                Plan::Ignore => earlier,
                Plan::Reply(text) => earlier.push((n - 1, text)),
                Plan::Invoke(_, _) => if outcomes[n - 1].1 {
                    earlier.push((n - 1, outcomes[n - 1].0))
                } else {
                    earlier
                },
            }
        }
    }
}

/// The sends of a loop that takes one event at a time come in the order of
/// the events that caused them, at most one for each event.
pub proof fn sends_keep_order(
    commands: Seq<(String, Command)>,
    lines: Seq<Seq<char>>,
    outcomes: Seq<(Seq<char>, bool)>,
    n: int,
)
    ensures
        forall|a: int|
            0 <= a < sends(commands, lines, outcomes, n).len() ==> 0 <= (#[trigger] sends(
                commands,
                lines,
                outcomes,
                n,
            )[a]).0 < n,
        forall|a: int, b: int|
            0 <= a < b < sends(commands, lines, outcomes, n).len() ==> (#[trigger] sends(
                commands,
                lines,
                outcomes,
                n,
            )[a]).0 < (#[trigger] sends(commands, lines, outcomes, n)[b]).0,
    decreases n,
{
    if n > 0 {
        sends_keep_order(commands, lines, outcomes, n - 1);
        let earlier = sends(commands, lines, outcomes, n - 1);
        let now = sends(commands, lines, outcomes, n);
        assert(now == earlier || (now.len() == earlier.len() + 1 && now[earlier.len() as int].0
            == n - 1 && now.subrange(0, earlier.len() as int) =~= earlier));
        assert forall|a: int| 0 <= a < now.len() implies 0 <= (#[trigger] now[a]).0 < n by {
            if a < earlier.len() {
                assert(now[a] == earlier[a]);
            }
        }
        assert forall|a: int, b: int| 0 <= a < b < now.len() implies (#[trigger] now[a]).0 < (
        #[trigger] now[b]).0 by {
            assert(now[a] == earlier[a]);
            if b < earlier.len() {
                assert(now[b] == earlier[b]);
            }
        }
    }
}

} // verus!
