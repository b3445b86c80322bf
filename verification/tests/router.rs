use command_router::bot::{Bot, BotConfig};
use command_router::command::{
    find_command, lookup, not_found_text, reload, reload_command, resolve, Command, CommandData,
    Handler, ReloadError,
};
use command_router::dispatch::{conclude, handle_msg, plan_line, Action, Verdict};
use command_router::handlers::{help, ping, ping_uptime, song, stop, whoami};
use command_router::registry::{builtin, command_tree, leaf};
use command_router::text::{starts_with, str_eq, strip_prefix, to_chars};
use command_router::uptime::duration_format;

fn helps(tree: &Vec<(String, Command)>, words: &[&str]) -> Option<(String, Option<Vec<String>>)> {
    let tokens: Vec<&str> = words.to_vec();
    resolve(tree, &tokens).map(|(entry, args)| {
        (entry.help.clone(), args.map(|a| a.iter().map(|w| w.to_string()).collect()))
    })
}

fn found(help: &str, args: &[&str]) -> Option<(String, Option<Vec<String>>)> {
    let rest = if args.is_empty() {
        None
    } else {
        Some(args.iter().map(|w| w.to_string()).collect())
    };
    Some((help.to_owned(), rest))
}

#[test]
fn leaf_command_gets_everything_after_its_name() {
    let tree = command_tree();
    assert_eq!(helps(&tree, &["song"]), found("Shows the currently playing song", &[]));
    assert_eq!(
        helps(&tree, &["song", "a", "b", "c"]),
        found("Shows the currently playing song", &["a", "b", "c"])
    );
    assert_eq!(helps(&tree, &["whoami", "ping"]), found(
        "monkaS Returns your StreamElements account id",
        &["ping"]
    ));
}

#[test]
fn command_with_subcommands() {
    let tree = command_tree();
    assert_eq!(helps(&tree, &["ping"]), found("Pong!", &[]));
    assert_eq!(helps(&tree, &["ping", "uptime"]), found("Outputs the bot uptime", &[]));
    assert_eq!(
        helps(&tree, &["ping", "uptime", "extra"]),
        found("Outputs the bot uptime", &["extra"])
    );
    assert_eq!(helps(&tree, &["ping", "bogus"]), found("Pong!", &["bogus"]));
}

#[test]
fn namespace_without_entry() {
    let tree = command_tree();
    assert_eq!(helps(&tree, &["playlist"]), None);
    assert_eq!(helps(&tree, &["playlist", "bogus"]), None);
    let queue = "FeelsDankMan Adds ~50 videos from a YouTube playlist to the StreamElements song queue. Usage: \"playlist queue <youtube playlist link>\"";
    assert_eq!(helps(&tree, &["playlist", "queue", "X"]), found(queue, &["X"]));
}

#[test]
fn unknown_word_fails_even_before_a_known_one() {
    let tree = command_tree();
    assert_eq!(helps(&tree, &[]), None);
    assert_eq!(helps(&tree, &["bogus"]), None);
    assert_eq!(helps(&tree, &["bogus", "ping"]), None);
    assert_eq!(helps(&tree, &["Ping"]), None);
}

#[test]
fn descent_does_not_fall_back() {
    let deep = vec![(
        "a".to_owned(),
        Command {
            commands: Some(vec![(
                "b".to_owned(),
                Command { commands: Some(vec![leaf("c", "deep", Handler::Script)]), data: None },
            )]),
            data: Some(builtin("top", Handler::Script)),
        },
    )];
    assert_eq!(helps(&deep, &["a"]), found("top", &[]));
    assert_eq!(helps(&deep, &["a", "x"]), found("top", &["x"]));
    assert_eq!(helps(&deep, &["a", "b"]), None);
    assert_eq!(helps(&deep, &["a", "b", "x"]), None);
    assert_eq!(helps(&deep, &["a", "b", "c", "x"]), found("deep", &["x"]));
}

#[test]
fn every_declared_path_resolves_to_its_entry() {
    let tree = command_tree();
    let queue = "FeelsDankMan Adds ~50 videos from a YouTube playlist to the StreamElements song queue. Usage: \"playlist queue <youtube playlist link>\"";
    let declared: Vec<(&str, &str, Handler)> = vec![
        ("help", "good one 4Head", Handler::Help),
        ("ping", "Pong!", Handler::Ping),
        ("ping uptime", "Outputs the bot uptime", Handler::PingUptime),
        ("whoami", "monkaS Returns your StreamElements account id", Handler::Whoami),
        ("stop", "Stops the bot", Handler::Stop),
        ("song", "Shows the currently playing song", Handler::Song),
        ("playlist queue", queue, Handler::PlaylistQueue),
    ];
    for (path, help, handler) in declared {
        let (entry, args) = find_command(&tree, path).unwrap();
        assert_eq!(entry.help, help);
        assert_eq!(entry.handler, handler);
        assert_eq!(entry.path, "");
        assert_eq!(args, None);
    }
    assert_eq!(tree.len(), 6);
}

#[test]
fn find_command_splits_at_any_whitespace() {
    let tree = command_tree();
    let (entry, args) = find_command(&tree, "  ping \t uptime   now\nplease ").unwrap();
    assert_eq!(entry.help, "Outputs the bot uptime");
    assert_eq!(args, Some(vec!["now", "please"]));
    assert!(find_command(&tree, "").is_none());
    assert!(find_command(&tree, "   ").is_none());
}

#[test]
fn lookup_finds_the_place() {
    let tree = command_tree();
    assert_eq!(lookup(&tree, "help"), Some(0));
    assert_eq!(lookup(&tree, "playlist"), Some(5));
    assert_eq!(lookup(&tree, "uptime"), None);
}

#[test]
fn reload_rebinds_the_entry_in_place() {
    let mut tree = command_tree();
    let result = reload_command(&mut tree, "ping uptime", |old: &CommandData| {
        Ok(CommandData {
            help: "fresh".to_owned(),
            handler: Handler::Script,
            path: old.help.clone(),
        })
    });
    assert_eq!(result, Ok(()));
    let (entry, args) = find_command(&tree, "ping uptime").unwrap();
    assert_eq!(entry.help, "fresh");
    assert_eq!(entry.handler, Handler::Script);
    assert_eq!(entry.path, "Outputs the bot uptime");
    assert_eq!(args, None);
    match handle_msg(&tree, "xD ping uptime now") {
        Action::Invoke(handler, args) => {
            assert_eq!(handler, Handler::Script);
            assert_eq!(args, Some(vec!["now"]));
        }
        _ => panic!("the reloaded command was not run"),
    }
    assert_eq!(helps(&tree, &["ping"]), found("Pong!", &[]));
    assert_eq!(helps(&tree, &["help"]), found("good one 4Head", &[]));
    assert_eq!(tree.len(), 6);
}

#[test]
fn reload_ignores_words_behind_the_entry() {
    let mut tree = command_tree();
    let result = reload_command(&mut tree, "ping bogus", |old: &CommandData| {
        Ok(CommandData { help: "again".to_owned(), handler: old.handler, path: String::new() })
    });
    assert_eq!(result, Ok(()));
    assert_eq!(helps(&tree, &["ping"]), found("again", &[]));
    assert_eq!(helps(&tree, &["ping", "uptime"]), found("Outputs the bot uptime", &[]));
}

#[test]
fn reload_reports_what_it_cannot_find() {
    let mut tree = command_tree();
    let fresh =
        |_: &CommandData| Ok(CommandData { help: String::new(), handler: Handler::Script, path: String::new() });
    assert_eq!(reload_command(&mut tree, "bogus", fresh), Err(ReloadError::NotFound));
    assert_eq!(reload_command(&mut tree, "playlist", fresh), Err(ReloadError::NotFound));
    assert_eq!(reload_command(&mut tree, "", fresh), Err(ReloadError::NotFound));
    assert_eq!(helps(&tree, &["ping"]), found("Pong!", &[]));
}

#[test]
fn not_found_names_the_command() {
    assert_eq!(
        not_found_text("ping uptime"),
        "Command `ping uptime` wasn't found or isn't scripted"
    );
}

#[test]
fn reload_hands_on_the_updater_error() {
    let mut tree = command_tree();
    let refuse = |old: &CommandData| Err(ReloadError::Rejected(old.help.clone()));
    assert_eq!(
        reload_command(&mut tree, "song extra", refuse),
        Err(ReloadError::Rejected("Shows the currently playing song".to_owned()))
    );
    assert_eq!(helps(&tree, &["song"]), found("Shows the currently playing song", &[]));
}

#[test]
fn lines_not_for_the_bot_are_ignored() {
    let tree = command_tree();
    assert!(matches!(handle_msg(&tree, "hello xD"), Action::Ignore));
    assert!(matches!(handle_msg(&tree, ""), Action::Ignore));
    assert!(matches!(handle_msg(&tree, " xD ping"), Action::Ignore));
    assert!(matches!(handle_msg(&tree, "  "), Action::Ignore));
}

#[test]
fn wake_word_alone_is_answered_in_kind() {
    let tree = command_tree();
    match handle_msg(&tree, "xD") {
        Action::Reply(text) => assert_eq!(text, "xD"),
        _ => panic!("no reply"),
    }
    match handle_msg(&tree, "xD   \t") {
        Action::Reply(text) => assert_eq!(text, "xD"),
        _ => panic!("no reply"),
    }
}

#[test]
fn wake_word_behind_whitespace_is_answered_too() {
    let tree = command_tree();
    for line in [" xD", "\txD  ", "\n xD\n"] {
        match handle_msg(&tree, line) {
            Action::Reply(text) => assert_eq!(text, "xD"),
            _ => panic!("no reply"),
        }
    }
    let empty: Vec<(String, Command)> = Vec::new();
    match handle_msg(&empty, " xD") {
        Action::Reply(text) => assert_eq!(text, "xD"),
        _ => panic!("no reply"),
    }
    assert!(matches!(handle_msg(&tree, " xD ping"), Action::Ignore));
    assert!(matches!(handle_msg(&tree, " xDD"), Action::Ignore));
}

#[test]
fn a_line_taken_apart_is_planned_the_same() {
    let tree = command_tree();
    let none: Vec<&str> = Vec::new();
    assert!(matches!(plan_line(&tree, " xD", "xD", &vec!["xD"]), Action::Reply(_)));
    assert!(matches!(plan_line(&tree, "hello", "hello", &vec!["hello"]), Action::Ignore));
    assert!(matches!(plan_line(&tree, "xD ", "x", &none), Action::Reply(_)));
    match plan_line(&tree, "xD ping now", "xD ping now", &vec!["ping", "now"]) {
        Action::Invoke(handler, args) => {
            assert_eq!(handler, Handler::Ping);
            assert_eq!(args, Some(vec!["now"]));
        }
        _ => panic!("ping was not run"),
    }
}

#[test]
fn dispatch_after_reload_runs_the_new_handler() {
    let mut tree = vec![leaf("c", "usage", Handler::Ping)];
    let words = vec!["c"];
    assert!(matches!(
        plan_line(&tree, "xD c", "xD c", &words),
        Action::Invoke(Handler::Ping, None)
    ));
    let result = reload(&mut tree, &words, |old: &CommandData| {
        Ok(CommandData { help: old.help.clone(), handler: Handler::Script, path: String::new() })
    });
    assert_eq!(result, Ok(()));
    assert!(matches!(
        plan_line(&tree, "xD c", "xD c", &words),
        Action::Invoke(Handler::Script, None)
    ));
    assert!(matches!(handle_msg(&tree, "xD c"), Action::Invoke(Handler::Script, None)));
    assert_eq!(conclude("r1".to_owned(), true), Verdict::Send("r1".to_owned()));
}

#[test]
fn failed_reload_changes_no_resolution() {
    let mut tree = command_tree();
    let refuse = |_: &CommandData| Err(ReloadError::Rejected("no".to_owned()));
    assert!(reload(&mut tree, &vec!["ping", "uptime"], refuse).is_err());
    assert!(reload(&mut tree, &vec!["playlist"], refuse).is_err());
    assert_eq!(helps(&tree, &["ping", "uptime", "x"]), found("Outputs the bot uptime", &["x"]));
    assert_eq!(helps(&tree, &["ping"]), found("Pong!", &[]));
    assert_eq!(helps(&tree, &["playlist"]), None);
}

#[test]
fn lines_for_the_bot_are_resolved() {
    let tree = command_tree();
    match handle_msg(&tree, "xD ping hello there") {
        Action::Invoke(handler, args) => {
            assert_eq!(handler, Handler::Ping);
            assert_eq!(args, Some(vec!["hello", "there"]));
        }
        _ => panic!("ping was not run"),
    }
    match handle_msg(&tree, "xD stop") {
        Action::Invoke(handler, args) => {
            assert_eq!(handler, Handler::Stop);
            assert_eq!(args, None);
        }
        _ => panic!("stop was not run"),
    }
    match handle_msg(&tree, "xD playlist") {
        Action::Reply(text) => assert_eq!(text, "WAYTOODANK \u{1f449} Unknown command!"),
        _ => panic!("no notice"),
    }
    match handle_msg(&tree, "xD nothing") {
        Action::Reply(text) => assert_eq!(text, "WAYTOODANK \u{1f449} Unknown command!"),
        _ => panic!("no notice"),
    }
    match handle_msg(&tree, "xDD") {
        Action::Reply(text) => assert_eq!(text, "WAYTOODANK \u{1f449} Unknown command!"),
        _ => panic!("no notice"),
    }
}

#[test]
fn verdict_follows_the_flag() {
    assert_eq!(conclude("hi".to_owned(), true), Verdict::Send("hi".to_owned()));
    assert_eq!(conclude(String::new(), true), Verdict::Send(String::new()));
    assert_eq!(conclude("bye".to_owned(), false), Verdict::Stop);
}

#[test]
fn sends_follow_the_events() {
    let tree = command_tree();
    let lines = vec!["xD", "chatter", "xD nothing", "xD ping", "xD stop", "xD"];
    let mut sent: Vec<(usize, String)> = Vec::new();
    for (i, line) in lines.iter().enumerate() {
        let verdict = match handle_msg(&tree, line) {
            Action::Ignore => continue,
            Action::Reply(text) => Verdict::Send(text),
            Action::Invoke(Handler::Ping, _) => {
                let (text, go_on) = ping();
                conclude(text, go_on)
            }
            Action::Invoke(_, _) => {
                let (text, go_on) = stop(true);
                conclude(text, go_on)
            }
        };
        match verdict {
            Verdict::Send(text) => sent.push((i, text)),
            Verdict::Stop => break,
        }
    }
    assert_eq!(
        sent,
        vec![
            (0, "xD".to_owned()),
            (2, "WAYTOODANK \u{1f449} Unknown command!".to_owned()),
            (3, "FeelsDankMan \u{1f44d} Pong!".to_owned()),
        ]
    );
}

#[test]
fn built_in_answers() {
    assert_eq!(ping(), ("FeelsDankMan \u{1f44d} Pong!".to_owned(), true));
    assert_eq!(stop(true), (String::new(), false));
    assert_eq!(stop(false), (String::new(), true));
    assert_eq!(whoami(Some("42")), ("monkaHmm your id is 42".to_owned(), true));
    assert_eq!(whoami(None), ("WAYTOODANK devs broke something".to_owned(), true));
    assert_eq!(song(Some("Darude")), ("CheemJam currently playing song is Darude".to_owned(), true));
    assert_eq!(song(None), ("WAYTOODANK devs broke something".to_owned(), true));
    assert_eq!(ping_uptime(61), ("FeelsDankMan uptime 1 minutes 1 seconds".to_owned(), true));
}

#[test]
fn help_lists_or_explains() {
    let tree = command_tree();
    assert_eq!(
        help(&tree, None),
        (
            "FeelsDankMan \u{1f449} try other commands: help, ping, whoami, song, playlist"
                .to_owned(),
            true
        )
    );
    let uptime = vec!["ping", "uptime"];
    assert_eq!(help(&tree, Some(&uptime)), ("Outputs the bot uptime".to_owned(), true));
    let bogus = vec!["bogus"];
    assert_eq!(
        help(&tree, Some(&bogus)),
        (
            "FeelsDankMan \u{1f449} try other commands: help, ping, whoami, song, playlist"
                .to_owned(),
            true
        )
    );
    let last = vec![leaf("ping", "Pong!", Handler::Ping), leaf("stop", "Stops the bot", Handler::Stop)];
    assert_eq!(
        help(&last, None),
        ("FeelsDankMan \u{1f449} try other commands: ping, ".to_owned(), true)
    );
}

#[test]
fn durations_are_written_out() {
    assert_eq!(duration_format(0), "");
    assert_eq!(duration_format(-5), "");
    assert_eq!(duration_format(59), "59 seconds");
    assert_eq!(duration_format(60), "1 minutes 0 seconds");
    assert_eq!(duration_format(3_600), "1 hours 0 minutes ");
    assert_eq!(duration_format(61), "1 minutes 1 seconds");
    assert_eq!(duration_format(3_661), "1 hours 1 minutes ");
    assert_eq!(duration_format(90_061), "1 days 1 hours ");
    assert_eq!(duration_format(200_000), "2 days 7 hours ");
    assert_eq!(duration_format(9_223_372_036_854_775), "106751991167 days 7 hours ");
}

#[test]
fn prefixes() {
    assert_eq!(strip_prefix("xD ping", "xD "), "ping");
    assert_eq!(strip_prefix("xDping", "xD "), "xDping");
    assert_eq!(strip_prefix("xD ", "xD "), "");
    assert_eq!(strip_prefix("x", "xD "), "x");
    assert_eq!(strip_prefix("\u{e9}t\u{e9} chaud", "\u{e9}t\u{e9} "), "chaud");
    assert_eq!(strip_prefix("anything", ""), "anything");
    assert!(starts_with("xD ping", "xD"));
    assert!(!starts_with("x", "xD"));
    assert!(str_eq("abc", "abc"));
    assert!(!str_eq("abc", "abd"));
    assert!(!str_eq("abc", "ab"));
    assert_eq!(to_chars("a\u{e9}b"), vec!['a', '\u{e9}', 'b']);
}

#[test]
fn bot_state() {
    let config = BotConfig {
        channel: "#room".to_owned(),
        gym_staff: vec!["billy".to_owned(), "van".to_owned()],
    };
    let mut bot = Bot::new(config, 1_000);
    assert!(bot.is_boss("van"));
    assert!(!bot.is_boss("Van"));
    assert!(!bot.is_boss(""));
    assert!(!bot.has_youtube_api());
    assert_eq!(*bot.get_start(), 1_000);
    assert_eq!(bot.get_config().channel, "#room");
    assert_eq!(bot.get_commands().len(), 6);
    assert!(matches!(bot.handle_msg("xD song"), Action::Invoke(Handler::Song, None)));
    let refreshed = reload_command(bot.get_commands_mut(), "song", |old: &CommandData| {
        Ok(CommandData { help: old.help.clone(), handler: Handler::Script, path: "song.lua".to_owned() })
    });
    assert_eq!(refreshed, Ok(()));
    assert!(matches!(bot.handle_msg("xD song"), Action::Invoke(Handler::Script, None)));
    let other = Bot::with_youtube_api(
        BotConfig { channel: String::new(), gym_staff: Vec::new() },
        0,
    );
    assert!(other.has_youtube_api());
    assert!(!other.is_boss("billy"));
}
