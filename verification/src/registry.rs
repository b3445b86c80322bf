//! The tree of commands that the bot starts with.

use vstd::prelude::*;
use crate::command::{
    distinct_names, first_named, node_ok, resolve_spec, sublevel, well_formed, Command,
    CommandData, Handler,
};
use crate::laws::{declared_entry, declared_path_resolves, found_at};

verus! {

/// Whether resolving `path` in `level` gives a built-in entry with this usage
/// text and this handler, and no arguments.
pub open spec fn resolves_to(
    level: Seq<(String, Command)>,
    path: Seq<Seq<char>>,
    help: Seq<char>,
    handler: Handler,
) -> bool {
    match resolve_spec(level, path, 0) {
        Some((entry, None)) => entry.help@ == help && entry.handler == handler && entry.path@
            == Seq::<char>::empty(),
        _ => false,
    }
}

/// A built-in entry: usage text and handler, with no script behind it.
pub fn builtin(help: &str, handler: Handler) -> (entry: CommandData)
    ensures
        entry.help@ == help@,
        entry.handler == handler,
        entry.path@ == Seq::<char>::empty(),
{
    CommandData { help: help.to_owned(), handler, path: String::new() }
}

/// A command without subcommands.
pub fn leaf(name: &str, help: &str, handler: Handler) -> (named: (String, Command))
    ensures
        named.0@ == name@,
        named.1.commands is None,
        named.1.data is Some,
        named.1.data.unwrap().help@ == help@,
        named.1.data.unwrap().handler == handler,
        named.1.data.unwrap().path@ == Seq::<char>::empty(),
{
    (name.to_owned(), Command { commands: None, data: Some(builtin(help, handler)) })
}

/// The names of the root level differ from one another.
proof fn root_names_differ()
    ensures
        "help"@ != "ping"@,
        "help"@ != "whoami"@,
        "help"@ != "stop"@,
        "help"@ != "song"@,
        "help"@ != "playlist"@,
        "ping"@ != "whoami"@,
        "ping"@ != "stop"@,
        "ping"@ != "song"@,
        "ping"@ != "playlist"@,
        "whoami"@ != "stop"@,
        "whoami"@ != "song"@,
        "whoami"@ != "playlist"@,
        "stop"@ != "song"@,
        "stop"@ != "playlist"@,
        "song"@ != "playlist"@,
{
    reveal_strlit("help");
    reveal_strlit("ping");
    reveal_strlit("whoami");
    reveal_strlit("stop");
    reveal_strlit("song");
    reveal_strlit("playlist");
    assert("help"@[0] == 'h' && "ping"@[0] == 'p' && "stop"@[0] == 's' && "song"@[0] == 's');
    assert("stop"@[1] == 't' && "song"@[1] == 'o');
    assert("help"@.len() == 4 && "ping"@.len() == 4 && "stop"@.len() == 4 && "song"@.len() == 4);
    assert("whoami"@.len() == 6 && "playlist"@.len() == 8);
}

/// The names of a level, place by place.
pub open spec fn names_of(level: Seq<(String, Command)>) -> Seq<Seq<char>> {
    Seq::new(level.len(), |i: int| level[i].0@)
}

/// Whether `level` is the tree that the bot starts with: `help`, `ping` with
/// `uptime` below it, `whoami`, `stop`, `song`, and `playlist`, which is only
/// a group for `queue`; and every declared path resolves to the entry
/// declared for it.
pub open spec fn built_in(level: Seq<(String, Command)>) -> bool {
    &&& well_formed(level)
    &&& names_of(level) == seq!["help"@, "ping"@, "whoami"@, "stop"@, "song"@, "playlist"@]
    &&& names_of(sublevel(level[1].1)) == seq!["uptime"@]
    &&& names_of(sublevel(level[5].1)) == seq!["queue"@]
    &&& level[0].1.commands is None
    &&& level[2].1.commands is None
    &&& level[3].1.commands is None
    &&& level[4].1.commands is None
    &&& sublevel(level[1].1)[0].1.commands is None
    &&& sublevel(level[5].1)[0].1.commands is None
    &&& resolves_to(level, seq!["help"@], "good one 4Head"@, Handler::Help)
    &&& resolves_to(level, seq!["ping"@], "Pong!"@, Handler::Ping)
    &&& resolves_to(level, seq!["ping"@, "uptime"@], "Outputs the bot uptime"@, Handler::PingUptime)
    &&& resolves_to(
        level,
        seq!["whoami"@],
        "monkaS Returns your StreamElements account id"@,
        Handler::Whoami,
    )
    &&& resolves_to(level, seq!["stop"@], "Stops the bot"@, Handler::Stop)
    &&& resolves_to(level, seq!["song"@], "Shows the currently playing song"@, Handler::Song)
    &&& resolves_to(
        level,
        seq!["playlist"@, "queue"@],
        "FeelsDankMan Adds ~50 videos from a YouTube playlist to the StreamElements song queue. Usage: \"playlist queue <youtube playlist link>\""@,
        Handler::PlaylistQueue,
    )
    &&& resolve_spec(level, seq!["playlist"@], 0) is None
}

/// Builds the tree that the bot starts with: `help`, `ping` with `uptime`
/// below it, `whoami`, `stop`, `song`, and `playlist`, which is only a group
/// for `queue`. Every declared path resolves to the entry declared for it.
pub fn command_tree() -> (commands: Vec<(String, Command)>)
    ensures
        built_in(commands@),
{
    let mut below_ping: Vec<(String, Command)> = Vec::new();
    below_ping.push(leaf("uptime", "Outputs the bot uptime", Handler::PingUptime));
    let mut below_playlist: Vec<(String, Command)> = Vec::new();
    below_playlist.push(
        leaf(
            "queue",
            "FeelsDankMan Adds ~50 videos from a YouTube playlist to the StreamElements song queue. Usage: \"playlist queue <youtube playlist link>\"",
            Handler::PlaylistQueue,
        ),
    );
    let mut commands: Vec<(String, Command)> = Vec::new();
    commands.push(leaf("help", "good one 4Head", Handler::Help));
    commands.push(
        (
            "ping".to_owned(),
            Command { commands: Some(below_ping), data: Some(builtin("Pong!", Handler::Ping)) },
        ),
    );
    commands.push(
        leaf("whoami", "monkaS Returns your StreamElements account id", Handler::Whoami),
    );
    commands.push(leaf("stop", "Stops the bot", Handler::Stop));
    commands.push(leaf("song", "Shows the currently playing song", Handler::Song));
    commands.push(("playlist".to_owned(), Command { commands: Some(below_playlist), data: None }));
    proof {
        let level = commands@;
        root_names_differ();
        assert(distinct_names(level));
        assert(first_named(sublevel(level[1].1), "uptime"@, 0));
        assert(first_named(sublevel(level[5].1), "queue"@, 0));
        assert(node_ok(sublevel(level[1].1)[0].1));
        assert(node_ok(sublevel(level[5].1)[0].1));
        assert(first_named(level, "help"@, 0));
        assert(first_named(level, "ping"@, 1));
        assert(first_named(level, "whoami"@, 2));
        assert(first_named(level, "stop"@, 3));
        assert(first_named(level, "song"@, 4));
        assert(first_named(level, "playlist"@, 5));
        found_at(level, "help"@, 0);
        found_at(level, "ping"@, 1);
        found_at(level, "whoami"@, 2);
        found_at(level, "stop"@, 3);
        found_at(level, "song"@, 4);
        found_at(level, "playlist"@, 5);
        found_at(sublevel(level[1].1), "uptime"@, 0);
        found_at(sublevel(level[5].1), "queue"@, 0);
        let uptime = seq!["ping"@, "uptime"@];
        let queue = seq!["playlist"@, "queue"@];
        assert(declared_entry(sublevel(level[1].1), uptime, 1) is Some);
        assert(declared_entry(level, uptime, 0) == sublevel(level[1].1)[0].1.data);
        assert(declared_entry(sublevel(level[5].1), queue, 1) is Some);
        assert(declared_entry(level, queue, 0) == sublevel(level[5].1)[0].1.data);
        declared_path_resolves(level, seq!["help"@], 0);
        declared_path_resolves(level, seq!["ping"@], 0);
        declared_path_resolves(level, uptime, 0);
        declared_path_resolves(level, seq!["whoami"@], 0);
        declared_path_resolves(level, seq!["stop"@], 0);
        declared_path_resolves(level, seq!["song"@], 0);
        declared_path_resolves(level, queue, 0);
        assert(names_of(level) =~= seq![
            "help"@,
            "ping"@,
            "whoami"@,
            "stop"@,
            "song"@,
            "playlist"@,
        ]);
        assert(names_of(sublevel(level[1].1)) =~= seq!["uptime"@]);
        assert(names_of(sublevel(level[5].1)) =~= seq!["queue"@]);
    }
    commands
}

} // verus!
