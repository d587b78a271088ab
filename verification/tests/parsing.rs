use mailtriage::dates::resolve_date;
use mailtriage::text::clean_dir_value;
use mailtriage::email::EmailEntry;
use mailtriage::email::RawFile;
use mailtriage::email::extract_display_name;
use mailtriage::email::has_entry_extension;
use mailtriage::email::load_emails;
use mailtriage::email::parse_entry;
use mailtriage::email::parse_files;
use mailtriage::email::reply_draft_path;
use mailtriage::email::sort_entries;
use mailtriage::wrap::is_attribution;
use mailtriage::wrap::parse_quote_depth;
use mailtriage::wrap::truncate;
use mailtriage::wrap::word_wrap;

fn raw(name: &str, content: &str) -> RawFile {
    RawFile {
        path: format!("/mail/{}", name),
        name: name.to_string(),
        content: content.to_string(),
    }
}

#[test]
fn filename_date_with_time_segment() {
    let (display, sort) = resolve_date(&None, &None, "2025-06-01-0930-note.md");
    assert_eq!(display, "2025-06-01");
    assert_eq!(sort, "2025-06-01T09:30:00");
}

#[test]
fn filename_date_without_time_segment() {
    let (display, sort) = resolve_date(&None, &None, "2025-06-01-note.md");
    assert_eq!(display, "2025-06-01");
    assert_eq!(sort, "2025-06-01T00:00:00");
}

#[test]
fn filename_without_date_yields_empty_dates() {
    let (display, sort) = resolve_date(&None, &None, "note.md");
    assert_eq!(display, "");
    assert_eq!(sort, "");
}

#[test]
fn filename_with_invalid_calendar_date_yields_empty_dates() {
    let (display, sort) = resolve_date(&None, &None, "2025-13-01-note.md");
    assert_eq!(display, "");
    assert_eq!(sort, "");
    let (display, sort) = resolve_date(&None, &None, "2025-02-30-note.md");
    assert_eq!(display, "");
    assert_eq!(sort, "");
}

#[test]
fn leap_day_is_a_valid_filename_date() {
    let (display, sort) = resolve_date(&None, &None, "2024-02-29-note.md");
    assert_eq!(display, "2024-02-29");
    assert_eq!(sort, "2024-02-29T00:00:00");
}

#[test]
fn rfc2822_date_field_wins() {
    let date = Some("Mon, 02 Jun 2025 09:05:07 +0000".to_string());
    let (display, sort) = resolve_date(&date, &None, "1999-01-01-note.md");
    assert_eq!(display, "2025-06-02");
    assert_eq!(sort, "2025-06-02T09:05:07");
}

#[test]
fn rfc3339_sent_at_field_is_second() {
    let sent = Some("2025-06-02T09:30:00+02:00".to_string());
    let (display, sort) = resolve_date(&None, &sent, "note.md");
    assert_eq!(display, "2025-06-02");
    assert_eq!(sort, "2025-06-02T09:30:00");
}

#[test]
fn bare_timestamp_sent_at_is_third() {
    let sent = Some("2025-06-02T07:08:09Z".to_string());
    let (display, sort) = resolve_date(&None, &sent, "note.md");
    assert_eq!(display, "2025-06-02");
    assert_eq!(sort, "2025-06-02T07:08:09");
}

#[test]
fn unparsable_date_field_falls_through_to_filename() {
    let date = Some("not a date".to_string());
    let (display, sort) = resolve_date(&date, &None, "2025-06-01-0930-x.md");
    assert_eq!(display, "2025-06-01");
    assert_eq!(sort, "2025-06-01T09:30:00");
}

#[test]
fn well_formed_file_parses_every_field() {
    let file = raw(
        "2025-06-01-0930-hello.md",
        "---\nfrom: Alice Smith <alice@example.com>\nto: bob@example.com\ncc: carol@example.com\nsubject: Greetings\nstatus: inbox\nhas_attachments: true\n---\nHello Bob.\nBye.",
    );
    let entry = parse_entry(&file).expect("well-formed file must parse");
    assert_eq!(entry.path, "/mail/2025-06-01-0930-hello.md");
    assert_eq!(entry.from, "Alice Smith");
    assert_eq!(entry.to, "bob@example.com");
    assert_eq!(entry.cc, Some("carol@example.com".to_string()));
    assert_eq!(entry.subject, "Greetings");
    assert_eq!(entry.status, "inbox");
    assert_eq!(entry.date_display, "2025-06-01");
    assert_eq!(entry.date_sort, "2025-06-01T09:30:00");
    assert!(entry.body.contains("Hello Bob."));
    assert!(entry.has_attachments);
}

#[test]
fn missing_fields_take_their_defaults() {
    let file = raw("x.md", "---\nstatus: draft\n---\nBody only.");
    let entry = parse_entry(&file).expect("parses");
    assert_eq!(entry.from, "");
    assert_eq!(entry.to, "");
    assert_eq!(entry.cc, None);
    assert_eq!(entry.subject, "(no subject)");
    assert_eq!(entry.status, "draft");
    assert!(!entry.has_attachments);
}

#[test]
fn file_without_status_is_unknown() {
    let file = raw("x.md", "---\nsubject: S\n---\nB");
    let entry = parse_entry(&file).expect("parses");
    assert_eq!(entry.status, "unknown");
}

#[test]
fn invalid_metadata_is_skipped_not_fatal() {
    let good = raw(
        "2025-06-01-good.md",
        "---\nsubject: Fine\n---\nA good message.",
    );
    let bad = raw("2025-06-02-bad.md", "---\nsubject: [unclosed\n---\nBroken.");
    let files = vec![good, bad];
    let entries = load_emails(&files);
    assert_eq!(entries.len(), 1);
    assert_eq!(entries[0].subject, "Fine");
}

#[test]
fn unrecognized_extension_is_skipped() {
    let md = raw("a.md", "---\nsubject: Kept\n---\nX");
    let txt = raw("b.txt", "---\nsubject: Dropped\n---\nY");
    let entries = parse_files(&vec![md, txt]);
    assert_eq!(entries.len(), 1);
    assert_eq!(entries[0].subject, "Kept");
}

#[test]
fn extension_rule() {
    assert!(has_entry_extension("a.md"));
    assert!(has_entry_extension("2025-06-01-a.b.md"));
    assert!(!has_entry_extension(".md"));
    assert!(!has_entry_extension("a.txt"));
    assert!(!has_entry_extension("a.MD"));
}

#[test]
fn loaded_entries_sort_by_date_descending() {
    let older = raw("2025-06-01-old.md", "---\nsubject: Old\n---\nx");
    let newer = raw("2025-06-03-new.md", "---\nsubject: New\n---\nx");
    let middle = raw("2025-06-02-mid.md", "---\nsubject: Mid\n---\nx");
    let entries = load_emails(&vec![older, newer, middle]);
    let subjects: Vec<&str> = entries.iter().map(|e| e.subject.as_str()).collect();
    assert_eq!(subjects, vec!["New", "Mid", "Old"]);
}

#[test]
fn unparsable_dates_sort_last() {
    let dated = raw("2025-06-01-a.md", "---\nsubject: Dated\n---\nx");
    let undated = raw("plain.md", "---\nsubject: Undated\n---\nx");
    let entries = load_emails(&vec![undated, dated]);
    assert_eq!(entries[0].subject, "Dated");
    assert_eq!(entries[1].subject, "Undated");
    assert_eq!(entries[1].date_sort, "");
}

#[test]
fn equal_sort_dates_keep_both_entries() {
    let a = raw("2025-06-01-a.md", "---\nsubject: A\n---\nx");
    let b = raw("2025-06-01-b.md", "---\nsubject: B\n---\nx");
    let entries = load_emails(&vec![a, b]);
    assert_eq!(entries.len(), 2);
    assert_eq!(entries[0].date_sort, entries[1].date_sort);
}

#[test]
fn sort_entries_orders_a_shuffled_list() {
    let mk = |sort: &str, subject: &str| EmailEntry {
        path: String::new(),
        from: String::new(),
        to: String::new(),
        cc: None,
        subject: subject.to_string(),
        status: String::new(),
        date_display: String::new(),
        date_sort: sort.to_string(),
        body: String::new(),
        has_attachments: false,
    };
    let shuffled = vec![
        mk("2025-01-02T00:00:00", "b"),
        mk("2025-01-03T00:00:00", "c"),
        mk("2025-01-01T00:00:00", "a"),
    ];
    let sorted = sort_entries(shuffled);
    let subjects: Vec<&str> = sorted.iter().map(|e| e.subject.as_str()).collect();
    assert_eq!(subjects, vec!["c", "b", "a"]);
}

#[test]
fn display_name_with_brackets() {
    assert_eq!(
        extract_display_name("Avery Jones <avery@example.com>"),
        "Avery Jones"
    );
}

#[test]
fn display_name_bare_address() {
    assert_eq!(
        extract_display_name("sylvain@example.com"),
        "sylvain@example.com"
    );
}

#[test]
fn display_name_brackets_only() {
    assert_eq!(extract_display_name("<foo@bar.com>"), "foo@bar.com");
}

#[test]
fn display_name_trims_spaces_and_quotes() {
    assert_eq!(
        extract_display_name("  \"Alice Smith\" <a@b.c>  "),
        "Alice Smith"
    );
}

#[test]
fn word_wrap_breaks_on_spaces() {
    assert_eq!(word_wrap("hello world", 5), vec!["hello", "world"]);
}

#[test]
fn word_wrap_hard_breaks_long_runs() {
    assert_eq!(word_wrap("abcdef", 3), vec!["abc", "def"]);
}

#[test]
fn word_wrap_keeps_short_text_whole() {
    assert_eq!(word_wrap("short", 40), vec!["short"]);
}

#[test]
fn word_wrap_zero_width_returns_text() {
    assert_eq!(word_wrap("anything at all", 0), vec!["anything at all"]);
}

#[test]
fn word_wrap_empty_text_is_one_empty_line() {
    assert_eq!(word_wrap("", 10), vec![""]);
}

#[test]
fn truncate_adds_ellipsis() {
    assert_eq!(truncate("hello", 4), "hel\u{2026}");
}

#[test]
fn truncate_keeps_short_strings() {
    assert_eq!(truncate("hi", 10), "hi");
}

#[test]
fn truncate_tiny_width_takes_a_bare_prefix() {
    assert_eq!(truncate("hello", 3), "hel");
    assert_eq!(truncate("hello", 0), "");
}

#[test]
fn quote_depth_counts_markers() {
    let (depth, rest) = parse_quote_depth("> > hi");
    assert_eq!(depth, 2);
    assert_eq!(rest, "hi");
}

#[test]
fn quote_depth_without_spaces() {
    let (depth, rest) = parse_quote_depth(">> x");
    assert_eq!(depth, 2);
    assert_eq!(rest, "x");
}

#[test]
fn quote_depth_of_plain_line_is_zero() {
    let (depth, rest) = parse_quote_depth("  plain text");
    assert_eq!(depth, 0);
    assert_eq!(rest, "plain text");
}

#[test]
fn reply_output_names_the_created_draft() {
    let out = "sending request\n\u{2713} Reply draft created: /mail/drafts/re-hello.md \ndone";
    assert_eq!(
        reply_draft_path(out),
        Some("/mail/drafts/re-hello.md".to_string())
    );
}

#[test]
fn reply_output_takes_the_first_marker_line_and_handles_crlf() {
    let out = "\u{2713} Reply draft created: /a.md\r\n\u{2713} Reply draft created: /b.md\n";
    assert_eq!(reply_draft_path(out), Some("/a.md".to_string()));
}

#[test]
fn reply_output_without_marker_names_nothing() {
    assert_eq!(reply_draft_path("no draft here\nat all"), None);
    assert_eq!(reply_draft_path(""), None);
}

#[test]
fn dir_values_lose_their_quoting() {
    assert_eq!(clean_dir_value("\"~/mail/inbox\""), "~/mail/inbox");
    assert_eq!(clean_dir_value("'~/mail/sent'"), "~/mail/sent");
    assert_eq!(clean_dir_value("plain"), "plain");
}

#[test]
fn attribution_lines() {
    assert!(is_attribution("On Mon, 2 Jun 2025, Alice wrote:"));
    assert!(!is_attribution("On Monday we met"));
    assert!(!is_attribution("Alice wrote: hello"));
}
