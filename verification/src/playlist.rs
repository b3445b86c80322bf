//! The playlist command: the identifier inside a playlist link, the decisions
//! before the playlist is fetched, and the report after the songs were queued.

use vstd::prelude::*;
use vstd::string::*;
use crate::text::{args_of, decimal, decimal_text, parse_count, parsed_count, to_chars};

verus! {

/// The marker that precedes a playlist identifier in a link.
pub open spec fn marker() -> Seq<char> {
    seq!['l', 'i', 's', 't', '=']
}

/// Whether the marker stands at place `i` of `url`.
pub open spec fn marker_at(url: Seq<char>, i: int) -> bool {
    0 <= i && i + 5 <= url.len() && url.subrange(i, i + 5) == marker()
}

/// The first place at or after `from` where the marker stands; `-1` where it
/// stands nowhere.
pub open spec fn find_marker(url: Seq<char>, from: int) -> int
    decreases url.len() - from,
{
    if from < 0 || from + 5 > url.len() {
        -1
    } else if marker_at(url, from) {
        from
    } else {
        find_marker(url, from + 1)
    }
}

/// The first place at or after `from` that holds `&`; the length of `url`
/// where none does.
pub open spec fn find_separator(url: Seq<char>, from: int) -> int
    decreases url.len() - from,
{
    if from < 0 || from >= url.len() {
        url.len() as int
    } else if url[from] == '&' {
        from
    } else {
        find_separator(url, from + 1)
    }
}

/// The playlist identifier of a link: what stands between the first marker
/// and the next `&` (or the end), where that is not empty.
pub open spec fn playlist_id(url: Seq<char>) -> Option<Seq<char>> {
    let at = find_marker(url, 0);
    if at < 0 {
        None
    } else {
        let end = find_separator(url, at + 5);
        if at + 5 < end {
            Some(url.subrange(at + 5, end))
        } else {
            None
        }
    }
}

/// The contents of an optional text.
pub open spec fn text_of(text: Option<String>) -> Option<Seq<char>> {
    match text {
        Some(t) => Some(t@),
        None => None,
    }
}

/// Extracts the playlist identifier from a link.
pub fn extract_playlist_id(url: &str) -> (id: Option<String>)
    ensures
        text_of(id) == playlist_id(url@),
{
    let chars = to_chars(url);
    let n: usize = chars.len();
    let mut at: usize = 0;
    let mut found = false;
    while !found && n >= 5 && at <= n - 5
        invariant
            n == chars@.len(),
            chars@ == url@,
            find_marker(url@, 0) == find_marker(url@, at as int),
            found ==> marker_at(url@, at as int),
        decreases n - at + (if found { 0int } else { 1int }),
    {
        if chars[at] == 'l' && chars[at + 1] == 'i' && chars[at + 2] == 's' && chars[at + 3] == 't'
            && chars[at + 4] == '=' {
            assert(url@.subrange(at as int, at + 5) =~= marker());
            found = true;
        } else {
            assert(url@.subrange(at as int, at + 5) != marker()) by {
                let part = url@.subrange(at as int, at + 5);
                assert(part[0] == url@[at as int]);
                assert(part[1] == url@[at + 1]);
                assert(part[2] == url@[at + 2]);
                assert(part[3] == url@[at + 3]);
                assert(part[4] == url@[at + 4]);
            }
            at += 1;
        }
    }
    if !found {
        return None;
    }
    let start: usize = at + 5;
    let mut end: usize = start;
    while end < n && chars[end] != '&'
        invariant
            start <= end <= n,
            n == chars@.len(),
            chars@ == url@,
            find_separator(url@, start as int) == find_separator(url@, end as int),
        decreases n - end,
    {
        end += 1;
    }
    if start < end {
        Some(url.substring_char(start, end).to_owned())
    } else {
        None
    }
}

/// What the playlist command does before anything is fetched.
#[derive(Debug, PartialEq, Eq)]
pub enum QueuePlan {
    /// This text is the answer; nothing is fetched.
    Reply(String),
    /// The playlist with this identifier is fetched, this many videos a page
    /// where a number was given.
    Fetch(String, Option<u64>),
}

/// A `QueuePlan` in terms of its contents.
pub enum QueueOutline {
    Reply(Seq<char>),
    Fetch(Seq<char>, Option<u64>),
}

impl QueuePlan {
    /// The contents of the plan.
    pub open spec fn outline(self) -> QueueOutline {
        match self {
            QueuePlan::Reply(text) => QueueOutline::Reply(text@),
            QueuePlan::Fetch(id, size) => QueueOutline::Fetch(id@, size),
        }
    }
}

/// What the playlist command decides: it turns away a sender without the
/// permission, then a bot without the video API, then a call without
/// arguments, then a link without an identifier, then a page size that is no
/// number; what is left is fetched.
pub open spec fn queue_plan(is_boss: bool, has_api: bool, args: Option<Seq<Seq<char>>>) -> QueueOutline {
    if !is_boss {
        QueueOutline::Reply(
            "FeelsDnakMan Sorry, you don't have the permission to change playlists"@,
        )
    } else if !has_api {
        QueueOutline::Reply("FeelsDnakMan Youtube API is not is not available"@)
    } else if args is None {
        QueueOutline::Reply("THATSREALLYTOODANK No arguments provided!"@)
    } else if args.unwrap().len() < 1 {
        QueueOutline::Reply("THATSREALLYTOODANK No youtube playlist URL"@)
    } else if playlist_id(args.unwrap()[0]) is None {
        QueueOutline::Reply("cheemSad Couldn't parse the playlist URL from your input"@)
    } else if args.unwrap().len() < 2 {
        QueueOutline::Fetch(playlist_id(args.unwrap()[0]).unwrap(), None)
    } else if parsed_count(args.unwrap()[1]) is None {
        QueueOutline::Reply("cheemSad couldn't parse the number of videos to queue"@)
    } else {
        QueueOutline::Fetch(playlist_id(args.unwrap()[0]).unwrap(), parsed_count(args.unwrap()[1]))
    }
}

/// The `playlist queue` command, up to the point where the playlist is fetched.
pub fn playlist_queue(is_boss: bool, has_api: bool, args: Option<&Vec<&str>>) -> (plan: QueuePlan)
    ensures
        plan.outline() == queue_plan(is_boss, has_api, args_of(args)),
{
    if !is_boss {
        return QueuePlan::Reply(
            "FeelsDnakMan Sorry, you don't have the permission to change playlists".to_owned(),
        );
    }
    if !has_api {
        return QueuePlan::Reply("FeelsDnakMan Youtube API is not is not available".to_owned());
    }
    let args = match args {
        Some(args) => args,
        None => {
            return QueuePlan::Reply("THATSREALLYTOODANK No arguments provided!".to_owned());
        },
    };
    if args.len() < 1 {
        return QueuePlan::Reply("THATSREALLYTOODANK No youtube playlist URL".to_owned());
    }
    let id = match extract_playlist_id(args[0]) {
        Some(id) => id,
        None => {
            return QueuePlan::Reply(
                "cheemSad Couldn't parse the playlist URL from your input".to_owned(),
            );
        },
    };
    if args.len() < 2 {
        return QueuePlan::Fetch(id, None);
    }
    match parse_count(args[1]) {
        Some(n) => QueuePlan::Fetch(id, Some(n)),
        None => QueuePlan::Reply(
            "cheemSad couldn't parse the number of videos to queue".to_owned(),
        ),
    }
}

/// How fetching and queueing a playlist ended.
#[derive(Clone, Copy, Debug, PartialEq, Eq, Structural)]
pub enum QueueResult {
    /// The playlist could not be fetched.
    FetchFailed,
    /// Every song was queued; this many.
    Queued(usize),
    /// Some song could not be queued.
    QueueFailed,
}

/// What the playlist command answers in the end.
pub open spec fn queue_report(result: QueueResult) -> Seq<char> {
    match result {
        QueueResult::FetchFailed => "WAYTOODANK devs broke something"@,
        QueueResult::Queued(n) => "Successfully queued "@ + decimal(n as int) + " song(s)"@,
        QueueResult::QueueFailed => "THATSREALLYTOODANK failed to queue the playlist"@,
    }
}

/// The answer of the `playlist queue` command once the songs were sent off.
pub fn playlist_report(result: QueueResult) -> (reply: (String, bool))
    ensures
        reply.0@ == queue_report(result),
        reply.1,
{
    match result {
        QueueResult::FetchFailed => ("WAYTOODANK devs broke something".to_owned(), true),
        QueueResult::Queued(n) => {
            let mut resp = "Successfully queued ".to_owned();
            let number = decimal_text(n as i128);
            resp.append(number.as_str());
            resp.append(" song(s)");
            (resp, true)
        },
        QueueResult::QueueFailed => (
            "THATSREALLYTOODANK failed to queue the playlist".to_owned(),
            true,
        ),
    }
}

/// The errors among the first `n` attempts, in order.
pub open spec fn errors_of<E>(attempts: Seq<Result<(), E>>, n: int) -> Seq<E>
    decreases n,
{
    if n <= 0 || n > attempts.len() {
        Seq::<E>::empty()
    } else {
        match attempts[n - 1] {
            Ok(_) => errors_of(attempts, n - 1),
            Err(e) => errors_of(attempts, n - 1).push(e),
        }
    }
}

/// Sums up the attempts to queue the videos of a playlist: the number queued
/// where every attempt succeeded, else the errors in the order they came.
pub fn queue_videos<E>(attempts: Vec<Result<(), E>>) -> (tally: Result<usize, Vec<E>>)
    ensures
        match tally {
            Ok(queued) => queued == attempts@.len() && errors_of(
                attempts@,
                attempts@.len() as int,
            ).len() == 0,
            Err(errors) => errors@.len() > 0 && errors@ == errors_of(
                attempts@,
                attempts@.len() as int,
            ),
        },
{
    let ghost all = attempts@;
    let total: usize = attempts.len();
    let mut queued: usize = 0;
    let mut errors: Vec<E> = Vec::new();
    let mut rest = attempts;
    let mut done: usize = 0;
    while rest.len() > 0
        invariant
            done <= total,
            total == all.len(),
            rest@ == all.subrange(done as int, total as int),
            queued + errors@.len() == done,
            errors@ == errors_of(all, done as int),
        decreases rest@.len(),
    {
        let first = rest.remove(0);
        assert(first == all[done as int]);
        assert(rest@ =~= all.subrange(done + 1, total as int));
        match first {
            Ok(_) => {
                queued += 1;
            },
            Err(e) => {
                errors.push(e);
            },
        }
        done += 1;
    }
    if errors.len() == 0 {
        Ok(queued)
    } else {
        Err(errors)
    }
}

} // verus!
