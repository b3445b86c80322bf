//! What the built-in commands answer, given what the outside world returned.

use vstd::prelude::*;
use vstd::string::*;
use crate::command::{resolve, resolve_spec, Command};
use crate::text::{args_of, str_eq};
use crate::uptime::{duration_format, duration_text, in_span};

verus! {

/// How command `i` of `level` shows in the list of commands: `stop` not at
/// all, any other by its name, with a comma behind it unless it is the last.
pub open spec fn listed(level: Seq<(String, Command)>, i: int) -> Seq<char> {
    if level[i].0@ == "stop"@ {
        Seq::<char>::empty()
    } else if i + 1 < level.len() {
        level[i].0@ + ", "@
    } else {
        level[i].0@
    }
}

/// The list of the commands of `level` from place `i` on.
pub open spec fn listing(level: Seq<(String, Command)>, i: int) -> Seq<char>
    decreases level.len() - i,
{
    if i < 0 || i >= level.len() {
        Seq::<char>::empty()
    } else {
        listed(level, i) + listing(level, i + 1)
    }
}

/// What `help` answers: the usage text of the command that the arguments
/// name, or else the list of the root commands.
pub open spec fn help_text(level: Seq<(String, Command)>, args: Option<Seq<Seq<char>>>) -> Seq<
    char,
> {
    if args is Some && resolve_spec(level, args.unwrap(), 0) is Some {
        resolve_spec(level, args.unwrap(), 0).unwrap().0.help@
    } else {
        "FeelsDankMan 👉 try other commands: "@ + listing(level, 0)
    }
}

/// The `help` command.
pub fn help(commands: &Vec<(String, Command)>, args: Option<&Vec<&str>>) -> (reply: (String, bool))
    ensures
        reply.0@ == help_text(commands@, args_of(args)),
        reply.1,
{
    if let Some(tokens) = args {
        if let Some((entry, _)) = resolve(commands, tokens) {
            return (entry.help.clone(), true);
        }
    }
    let ghost head = "FeelsDankMan 👉 try other commands: "@;
    let mut resp = "FeelsDankMan 👉 try other commands: ".to_owned();
    let mut i: usize = 0;
    assert(resp@ + listing(commands@, 0) =~= head + listing(commands@, 0));
    while i < commands.len()
        invariant
            i <= commands.len(),
            resp@ + listing(commands@, i as int) == head + listing(commands@, 0),
        decreases commands.len() - i,
    {
        let ghost before = resp@;
        if !str_eq(commands[i].0.as_str(), "stop") {
            resp.append(commands[i].0.as_str());
            if i + 1 < commands.len() {
                resp.append(", ");
            }
        }
        assert(resp@ =~= before + listed(commands@, i as int));
        assert(resp@ + listing(commands@, i + 1) =~= before + listing(commands@, i as int));
        i += 1;
    }
    assert(resp@ =~= resp@ + listing(commands@, i as int));
    (resp, true)
}

/// The `ping` command.
pub fn ping() -> (reply: (String, bool))
    ensures
        reply.0@ == "FeelsDankMan 👍 Pong!"@,
        reply.1,
{
    ("FeelsDankMan 👍 Pong!".to_owned(), true)
}

/// The `ping uptime` command, given the seconds since the bot started.
pub fn ping_uptime(uptime: i64) -> (reply: (String, bool))
    requires
        in_span(uptime as int),
    ensures
        reply.0@ == "FeelsDankMan uptime "@ + duration_text(uptime as int),
        reply.1,
{
    let mut resp = "FeelsDankMan uptime ".to_owned();
    let span = duration_format(uptime);
    resp.append(span.as_str());
    (resp, true)
}

/// The `stop` command: it ends the loop for a privileged sender and does
/// nothing for anyone else. Its response is empty either way.
pub fn stop(is_boss: bool) -> (reply: (String, bool))
    ensures
        reply.0@ == Seq::<char>::empty(),
        reply.1 == !is_boss,
{
    (String::new(), !is_boss)
}

/// What a lookup answers: `found` behind `lead`, or an apology where nothing
/// was found.
pub open spec fn lookup_text(lead: Seq<char>, found: Option<&str>) -> Seq<char> {
    match found {
        Some(text) => lead + text@,
        None => "WAYTOODANK devs broke something"@,
    }
}

/// The answer of a lookup.
fn lookup_reply(lead: &str, found: Option<&str>) -> (reply: (String, bool))
    ensures
        reply.0@ == lookup_text(lead@, found),
        reply.1,
{
    match found {
        Some(text) => {
            let mut resp = lead.to_owned();
            resp.append(text);
            (resp, true)
        },
        None => ("WAYTOODANK devs broke something".to_owned(), true),
    }
}

/// The `whoami` command, given the account id that the lookup returned, or
/// `None` where it failed.
pub fn whoami(id: Option<&str>) -> (reply: (String, bool))
    ensures
        reply.0@ == lookup_text("monkaHmm your id is "@, id),
        reply.1,
{
    lookup_reply("monkaHmm your id is ", id)
}

/// The `song` command, given the title that the lookup returned, or `None`
/// where it failed.
pub fn song(title: Option<&str>) -> (reply: (String, bool))
    ensures
        reply.0@ == lookup_text("CheemJam currently playing song is "@, title),
        reply.1,
{
    lookup_reply("CheemJam currently playing song is ", title)
}

} // verus!
