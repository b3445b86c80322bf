use command_router::playlist::{
    extract_playlist_id, playlist_queue, playlist_report, queue_videos, QueuePlan, QueueResult,
};

#[test]
fn test_playlist_extractor() {
    let playlists = vec![
        "",
        "OMEGALUL",
        "list=",
        "=list",
        "list=PL96Hybk1gPsgwPnEQ9fj1yNBtUdLnLloB",
        "https://www.youtube.com/watch?v=gA3nKW0JsM8&list=PL96Hybk1gPsgwPnEQ9fj1yNBtUdLnLloB&index=31",
    ];
    let expected = vec![
        None,
        None,
        None,
        None,
        Some("PL96Hybk1gPsgwPnEQ9fj1yNBtUdLnLloB".to_owned()),
        Some("PL96Hybk1gPsgwPnEQ9fj1yNBtUdLnLloB".to_owned()),
    ];

    for (i, (p, e)) in playlists.iter().zip(expected.into_iter()).enumerate() {
        let result = extract_playlist_id(p);
        assert_eq!(result, e, "[TEST #{}] Failed to extract the playlist", i);
    }
}

#[test]
fn extracts_between_marker_and_separator() {
    assert_eq!(
        extract_playlist_id("https://x/watch?v=ID&list=ABC&index=1"),
        Some("ABC".to_owned())
    );
}

#[test]
fn extracts_to_the_end_without_separator() {
    assert_eq!(extract_playlist_id("list=XYZ"), Some("XYZ".to_owned()));
}

#[test]
fn nothing_behind_the_marker_is_no_match() {
    assert_eq!(extract_playlist_id("https://x/watch?list="), None);
    assert_eq!(extract_playlist_id("https://x/watch?list=&index=1"), None);
    assert_eq!(extract_playlist_id("https://x/watch?v=ID"), None);
}

#[test]
fn first_marker_decides() {
    assert_eq!(extract_playlist_id("list=A&list=B"), Some("A".to_owned()));
    assert_eq!(extract_playlist_id("lislist=Q"), Some("Q".to_owned()));
}

#[test]
fn extractor_counts_characters_not_bytes() {
    assert_eq!(extract_playlist_id("\u{e9}\u{e9}?list=\u{e9}b&x"), Some("\u{e9}b".to_owned()));
}

#[test]
fn queue_turns_away_in_order() {
    let link = vec!["https://x/watch?v=ID&list=ABC&index=1"];
    assert_eq!(
        playlist_queue(false, false, None),
        QueuePlan::Reply(
            "FeelsDnakMan Sorry, you don't have the permission to change playlists".to_owned()
        )
    );
    assert_eq!(
        playlist_queue(true, false, Some(&link)),
        QueuePlan::Reply("FeelsDnakMan Youtube API is not is not available".to_owned())
    );
    assert_eq!(
        playlist_queue(true, true, None),
        QueuePlan::Reply("THATSREALLYTOODANK No arguments provided!".to_owned())
    );
    let empty: Vec<&str> = Vec::new();
    assert_eq!(
        playlist_queue(true, true, Some(&empty)),
        QueuePlan::Reply("THATSREALLYTOODANK No youtube playlist URL".to_owned())
    );
    let bad = vec!["nothing-here"];
    assert_eq!(
        playlist_queue(true, true, Some(&bad)),
        QueuePlan::Reply("cheemSad Couldn't parse the playlist URL from your input".to_owned())
    );
    let bad_count = vec!["list=ABC", "many"];
    assert_eq!(
        playlist_queue(true, true, Some(&bad_count)),
        QueuePlan::Reply("cheemSad couldn't parse the number of videos to queue".to_owned())
    );
}

#[test]
fn queue_fetches_with_and_without_page_size() {
    let link = vec!["https://x/watch?v=ID&list=ABC&index=1"];
    assert_eq!(playlist_queue(true, true, Some(&link)), QueuePlan::Fetch("ABC".to_owned(), None));
    let sized = vec!["list=ABC", "25"];
    assert_eq!(
        playlist_queue(true, true, Some(&sized)),
        QueuePlan::Fetch("ABC".to_owned(), Some(25))
    );
}

#[test]
fn report_names_the_count() {
    assert_eq!(
        playlist_report(QueueResult::Queued(12)),
        ("Successfully queued 12 song(s)".to_owned(), true)
    );
    assert_eq!(
        playlist_report(QueueResult::FetchFailed),
        ("WAYTOODANK devs broke something".to_owned(), true)
    );
    assert_eq!(
        playlist_report(QueueResult::QueueFailed),
        ("THATSREALLYTOODANK failed to queue the playlist".to_owned(), true)
    );
}

#[test]
fn tally_counts_or_collects_errors() {
    let all_fine: Vec<Result<(), String>> = vec![Ok(()), Ok(()), Ok(())];
    assert_eq!(queue_videos(all_fine), Ok(3));
    let none: Vec<Result<(), String>> = Vec::new();
    assert_eq!(queue_videos(none), Ok(0));
    let mixed: Vec<Result<(), String>> =
        vec![Ok(()), Err("a".to_owned()), Ok(()), Err("b".to_owned())];
    assert_eq!(queue_videos(mixed), Err(vec!["a".to_owned(), "b".to_owned()]));
}

#[test]
fn page_size_is_plain_decimal() {
    let plan = |count: &str| playlist_queue(true, true, Some(&vec!["list=ABC", count]));
    let fetch = |n: u64| QueuePlan::Fetch("ABC".to_owned(), Some(n));
    let refused =
        QueuePlan::Reply("cheemSad couldn't parse the number of videos to queue".to_owned());
    assert_eq!(plan("0"), fetch(0));
    assert_eq!(plan("+7"), fetch(7));
    assert_eq!(plan("007"), fetch(7));
    assert_eq!(plan("18446744073709551615"), fetch(u64::MAX));
    assert_eq!(plan("18446744073709551616"), refused);
    assert_eq!(plan("+"), refused);
    assert_eq!(plan("-1"), refused);
    assert_eq!(plan("++1"), refused);
    assert_eq!(plan("1_000"), refused);
    assert_eq!(plan("12a"), refused);
    assert_eq!(plan("\u{664}"), refused);
}

#[test]
fn counts_are_written_in_decimal() {
    assert_eq!(playlist_report(QueueResult::Queued(0)).0, "Successfully queued 0 song(s)");
    assert_eq!(playlist_report(QueueResult::Queued(1050)).0, "Successfully queued 1050 song(s)");
}
