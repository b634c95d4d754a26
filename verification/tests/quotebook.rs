use shadowbox::quotebook::EntryFilters;
use shadowbox::quotebook::QuoteRecord;
use shadowbox::quotebook::QuotebookError;
use shadowbox::quotebook::build_query;
use shadowbox::quotebook::entry_matches;
use shadowbox::quotebook::preview_content;

#[test]
fn query_requires_a_guild() {
    let filters = EntryFilters::new();
    assert_eq!(build_query(&filters), Err(QuotebookError::MissingGuildId));
}

#[test]
fn query_defaults_to_five_newest_quotes() {
    let filters = EntryFilters::new().guild_id(10);
    let q = build_query(&filters).unwrap();
    assert_eq!(q.guild_id, 10);
    assert_eq!(q.limit, 5);
    assert_eq!(q.message_id, None);
    assert_eq!(q.author_id, None);
}

#[test]
fn query_honours_an_explicit_limit() {
    let filters = EntryFilters::new().guild_id(10).limit(3);
    let q = build_query(&filters).unwrap();
    assert_eq!(q.limit, 3);
}

#[test]
fn naming_a_message_ignores_author_and_time_filters() {
    let filters = EntryFilters::new()
        .guild_id(10)
        .message_id(99)
        .author_id(5)
        .datetime_start(1000)
        .datetime_end(2000);
    let q = build_query(&filters).unwrap();
    assert_eq!(q.message_id, Some(99));
    assert_eq!(q.author_id, None);
    assert_eq!(q.datetime_start, None);
    assert_eq!(q.datetime_end, None);
}

#[test]
fn author_and_time_filters_apply_without_a_message() {
    let filters = EntryFilters::new()
        .guild_id(10)
        .author_id(5)
        .datetime_start(1000)
        .datetime_end(2000);
    let q = build_query(&filters).unwrap();
    assert_eq!(q.author_id, Some(5));
    assert_eq!(q.datetime_start, Some(1000));
    assert_eq!(q.datetime_end, Some(2000));

    let record = QuoteRecord { id: 1, message_id: 99, guild_id: 10, author_id: 5, datetime: 1500 };
    assert!(entry_matches(&q, &record));
    let too_early = QuoteRecord { datetime: 900, ..record.clone() };
    assert!(!entry_matches(&q, &too_early));
    let too_late = QuoteRecord { datetime: 2100, ..record.clone() };
    assert!(!entry_matches(&q, &too_late));
    let other_author = QuoteRecord { author_id: 6, ..record.clone() };
    assert!(!entry_matches(&q, &other_author));
    let other_guild = QuoteRecord { guild_id: 11, ..record };
    assert!(!entry_matches(&q, &other_guild));
}

#[test]
fn default_filters_match_new() {
    assert_eq!(EntryFilters::default(), EntryFilters::new());
}

#[test]
fn preview_keeps_a_short_single_line_unchanged() {
    assert_eq!(preview_content("a short quote"), "a short quote");
}

#[test]
fn preview_shows_only_the_first_of_several_lines() {
    assert_eq!(preview_content("first line\nsecond line"), "first line...");
}

#[test]
fn preview_ignores_a_single_trailing_newline() {
    assert_eq!(preview_content("only line\n"), "only line\n");
}

#[test]
fn preview_cuts_a_long_line_at_the_limit() {
    let long: String = "x".repeat(150);
    let preview = preview_content(&long);
    let expected = format!("{}...", "x".repeat(100));
    assert_eq!(preview, expected);
}

#[test]
fn preview_keeps_a_line_at_exactly_the_limit() {
    let exact: String = "y".repeat(100);
    assert_eq!(preview_content(&exact), exact);
}

#[test]
fn preview_cuts_a_long_first_line_twice() {
    let long_first = format!("{}\nsecond", "z".repeat(150));
    let expected = format!("{}...", "z".repeat(100));
    assert_eq!(preview_content(&long_first), expected);
}
