use lqcli::source::{AtomEntry, ContentType, Feed, RssItem, SourceError};
use lqcli::sync::{
    classify_item, existing_titles, is_duplicate, plan_source, ItemOutcome, SourceReport,
    RECENT_ITEMS,
};

fn rss(title: Option<&str>, enclosure: Option<&str>) -> RssItem {
    RssItem {
        title: title.map(|t| t.to_string()),
        enclosure_url: enclosure.map(|u| u.to_string()),
    }
}

fn titles(list: &[&str]) -> Vec<String> {
    list.iter().map(|s| s.to_string()).collect()
}

fn outcomes(report: SourceReport) -> Vec<ItemOutcome> {
    match report {
        SourceReport::Processed(outcomes) => outcomes,
        SourceReport::FeedFailed(e) => panic!("feed failed: {:?}", e),
    }
}

#[test]
fn enclosure_feed_links_skips_missing_link_and_duplicate() {
    let feed = Feed::Rss(vec![
        rss(Some("Item one"), Some("http://example.com/1.mp3")),
        rss(Some("Item two"), None),
        rss(Some("Item three"), Some("http://example.com/3.mp3")),
    ]);
    let existing = titles(&["Item three"]);
    let result = outcomes(plan_source(ContentType::Syndication, &existing, Ok(feed)));
    assert_eq!(result.len(), 3);
    match &result[0] {
        ItemOutcome::Linked { title, link } => {
            assert_eq!(title, "Item one");
            assert_eq!(link, "http://example.com/1.mp3");
        }
        other => panic!("unexpected outcome: {:?}", other),
    }
    assert!(matches!(&result[1], ItemOutcome::MissingLink(t) if t == "Item two"));
    assert!(matches!(&result[2], ItemOutcome::Duplicate(t) if t == "Item three"));
}

#[test]
fn failed_feed_ends_only_that_source() {
    let first = plan_source(
        ContentType::Syndication,
        &vec![],
        Err(SourceError::FetchError("HTTP status client error (404 Not Found)".to_string())),
    );
    match first {
        SourceReport::FeedFailed(SourceError::FetchError(reason)) => {
            assert_eq!(reason, "HTTP status client error (404 Not Found)")
        }
        other => panic!("unexpected report: {:?}", other),
    }
    let second = plan_source(
        ContentType::Syndication,
        &vec![],
        Ok(Feed::Rss(vec![rss(Some("Next"), Some("http://example.com/n.mp3"))])),
    );
    let result = outcomes(second);
    assert_eq!(result.len(), 1);
    assert!(matches!(&result[0], ItemOutcome::Linked { title, .. } if title == "Next"));
}

#[test]
fn unparsable_feed_is_reported() {
    let report = plan_source(
        ContentType::Syndication,
        &vec![],
        Feed::parse(b"plain text"),
    );
    assert!(matches!(report, SourceReport::FeedFailed(SourceError::ParseError(_))));
}

#[test]
fn failed_catalog_read_skips_no_item_as_duplicate() {
    let existing = existing_titles(Err(SourceError::FetchError("unreachable".to_string())));
    assert!(existing.is_empty());
    let feed = Feed::Rss(vec![
        rss(Some("Already published"), Some("http://example.com/a.mp3")),
        rss(Some("Also published"), None),
    ]);
    let result = outcomes(plan_source(ContentType::Syndication, &existing, Ok(feed)));
    assert_eq!(result.len(), 2);
    assert!(matches!(&result[0], ItemOutcome::Linked { title, .. } if title == "Already published"));
    assert!(matches!(&result[1], ItemOutcome::MissingLink(t) if t == "Also published"));
}

#[test]
fn catalog_titles_are_kept_as_snapshot() {
    let existing = existing_titles(Ok(titles(&["A", "B"])));
    assert_eq!(existing, titles(&["A", "B"]));
}

#[test]
fn dedup_is_exact_membership() {
    let existing = titles(&["Episode 1", "Episode 2"]);
    assert!(is_duplicate(&"Episode 1".to_string(), &existing));
    assert!(is_duplicate(&"Episode 2".to_string(), &existing));
    assert!(!is_duplicate(&"episode 1".to_string(), &existing));
    assert!(!is_duplicate(&"Episode 3".to_string(), &existing));
    assert!(!is_duplicate(&"Episode 1".to_string(), &vec![]));
}

#[test]
fn untitled_item_is_reported_missing_title() {
    let item = lqcli::source::SourceItem::Rss(rss(None, Some("http://example.com/x.mp3")));
    assert!(matches!(
        classify_item(&item, ContentType::Syndication, &titles(&["x"])),
        ItemOutcome::MissingTitle
    ));
}

#[test]
fn only_recent_items_are_planned() {
    let entries: Vec<AtomEntry> = (0..8)
        .map(|i| AtomEntry {
            title: format!("Entry {}", i),
            links: vec![format!("http://example.com/{}", i)],
        })
        .collect();
    let result = outcomes(plan_source(
        ContentType::Syndication,
        &titles(&["Entry 1"]),
        Ok(Feed::Atom(entries)),
    ));
    assert_eq!(RECENT_ITEMS, 5);
    assert_eq!(result.len(), 5);
    assert!(matches!(&result[0], ItemOutcome::Linked { link, .. } if link == "http://example.com/0"));
    assert!(matches!(&result[1], ItemOutcome::Duplicate(t) if t == "Entry 1"));
    assert!(matches!(&result[4], ItemOutcome::Linked { title, .. } if title == "Entry 4"));
}

#[test]
fn two_items_with_one_new_title_are_both_linked() {
    let feed = Feed::Rss(vec![
        rss(Some("Same"), Some("http://example.com/1.mp3")),
        rss(Some("Same"), Some("http://example.com/2.mp3")),
    ]);
    let result = outcomes(plan_source(ContentType::Syndication, &vec![], Ok(feed)));
    assert!(matches!(&result[0], ItemOutcome::Linked { .. }));
    assert!(matches!(&result[1], ItemOutcome::Linked { .. }));
}
