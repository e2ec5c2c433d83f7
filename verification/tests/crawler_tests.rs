use cazzmachine_lib::diagnostics::android_lifecycle_event;
use cazzmachine_lib::crawler::{
    all_providers, fetch_report, fetch_timing_event, make_provider, name_to_idx, needs_refill,
    providers_per_cycle, refill_done_event, refill_start_event, CrawlRetry, CrawlTally,
    InsertOutcome, ProviderKind, REFILL_CRAWL_ATTEMPTS, TRIGGER_CRAWL_ATTEMPTS,
};

#[test]
fn providers_per_cycle_by_level() {
    let expected = [3, 4, 5, 6, 6, 8, 10, 13, 13, 13];
    for (level, want) in expected.iter().enumerate() {
        assert_eq!(providers_per_cycle(level as u8), *want);
    }
    assert_eq!(providers_per_cycle(255), 13);
    let mut prev = 0;
    for level in 0..=255u8 {
        let n = providers_per_cycle(level);
        assert!(n >= prev && n > 0 && n <= 13);
        prev = n;
    }
}

#[test]
fn names_map_to_positions() {
    assert_eq!(name_to_idx("memes"), Some(0));
    assert_eq!(name_to_idx("dad_jokes"), Some(1));
    assert_eq!(name_to_idx("celebrity_gossip"), Some(2));
    assert_eq!(name_to_idx("icanhazdadjoke"), Some(3));
    assert_eq!(name_to_idx("dadjoke"), Some(3));
    assert_eq!(name_to_idx("reddit-memes"), Some(4));
    assert_eq!(name_to_idx("reddit_meme"), Some(4));
    assert_eq!(name_to_idx("reddit_memes"), Some(4));
    assert_eq!(name_to_idx("reddit-videos"), Some(5));
    assert_eq!(name_to_idx("reddit_video"), Some(5));
    assert_eq!(name_to_idx("gossip"), Some(6));
    assert_eq!(name_to_idx("google-news"), Some(7));
    assert_eq!(name_to_idx("google_news"), Some(7));
    assert_eq!(name_to_idx("jokeapi"), Some(8));
    assert_eq!(name_to_idx("uselessfacts"), Some(9));
    assert_eq!(name_to_idx("chucknorris"), Some(10));
    assert_eq!(name_to_idx("hackernews"), Some(11));
    assert_eq!(name_to_idx("bbc-news"), Some(12));
    assert_eq!(name_to_idx("bbcnews"), Some(12));
    assert_eq!(name_to_idx("Memes"), None);
    assert_eq!(name_to_idx(""), None);
    assert_eq!(name_to_idx("memes "), None);
}

#[test]
fn positions_map_to_providers() {
    assert_eq!(make_provider(0), ProviderKind::RedditMemes);
    assert_eq!(make_provider(3), ProviderKind::DadJoke);
    assert_eq!(make_provider(11), ProviderKind::HackerNews);
    assert_eq!(make_provider(12), ProviderKind::BbcNews);
    assert_eq!(make_provider(99), ProviderKind::BbcNews);
    let all = all_providers();
    assert_eq!(all.len(), 13);
    for i in 0..13 {
        assert_eq!(all[i], make_provider(i));
        for j in 0..i {
            assert_ne!(all[i], all[j]);
        }
    }
}

#[test]
fn trigger_crawl_retries_until_items() {
    let mut r = CrawlRetry::new(TRIGGER_CRAWL_ATTEMPTS);
    let results = [0u32, 0, 7, 9];
    let mut rounds = 0;
    while r.should_crawl() {
        r.record_round(results[rounds]);
        rounds += 1;
    }
    assert_eq!(rounds, 3);
    assert_eq!(r.items_added(), 7);
}

#[test]
fn refill_gives_up_after_two_empty_rounds() {
    let mut r = CrawlRetry::new(REFILL_CRAWL_ATTEMPTS);
    let mut rounds = 0;
    while r.should_crawl() {
        r.record_round(0);
        rounds += 1;
    }
    assert_eq!(rounds, 2);
    assert_eq!(r.items_added(), 0);
}

#[test]
fn first_successful_round_ends_retries() {
    let mut r = CrawlRetry::new(3);
    assert!(r.should_crawl());
    r.record_round(4);
    assert!(!r.should_crawl());
    assert_eq!(r.items_added(), 4);
    let none = CrawlRetry::new(0);
    assert!(!none.should_crawl());
}

#[test]
fn refill_decision() {
    assert!(needs_refill("critical", 1));
    assert!(needs_refill("low", 5));
    assert!(!needs_refill("moderate", 6));
    assert!(needs_refill("moderate", 7));
    assert!(needs_refill("moderate", 9));
    assert!(!needs_refill("healthy", 9));
    assert!(!needs_refill("empty", 9));
}

#[test]
fn crawl_events_text() {
    let e = refill_start_event("low");
    assert_eq!(e.event_type, "buffer_refill");
    assert_eq!(e.severity, "info");
    assert_eq!(e.message, "Buffer health: low, triggering refill crawl");
    assert_eq!(refill_done_event(12).message, "Buffer refill crawl added 12 items");
    let t = fetch_timing_event("hackernews", 1534);
    assert_eq!(t.event_type, "crawl_timing");
    assert_eq!(t.severity, "debug");
    assert_eq!(t.message, "hackernews: fetched in 1534ms");
    let ok = fetch_report("jokeapi", 3);
    assert!(ok.success);
    assert_eq!(ok.event.event_type, "crawl_success");
    assert_eq!(ok.event.severity, "info");
    assert_eq!(ok.event.message, "jokeapi: fetched 3 items");
    let none = fetch_report("jokeapi", 0);
    assert!(!none.success);
    assert_eq!(none.event.event_type, "crawl_error");
    assert_eq!(none.event.severity, "warn");
    assert_eq!(none.event.message, "jokeapi: no items fetched");
}

#[test]
fn tally_counts_only_new_items() {
    let mut t = CrawlTally::new();
    t.record_insert(InsertOutcome::Inserted);
    t.record_insert(InsertOutcome::AlreadyStored);
    t.record_insert(InsertOutcome::Failed);
    t.record_insert(InsertOutcome::Inserted);
    assert_eq!(t.items_added, 2);
    let e = t.complete_event();
    assert_eq!(e.event_type, "crawl_complete");
    assert_eq!(e.message, "Crawl complete: 2 new items");
}

#[test]
fn android_lifecycle_events() {
    let b = android_lifecycle_event(true);
    assert_eq!(b.event_type, "android_lifecycle");
    assert_eq!(b.severity, "info");
    assert_eq!(b.message, "Android app entered background");
    assert_eq!(android_lifecycle_event(false).message, "Android app entered foreground");
}
