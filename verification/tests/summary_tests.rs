use cazzmachine_lib::summary::{
    build_summary_text, compose_summary_text, generate_daily_summary, time_saved_string, DayStats,
    SummaryChoices,
};
use cazzmachine_lib::templates::{compose_teaser, generate_teaser, TeaserChoices};

fn stats(total: u64, memes: u64, jokes: u64, news: u64, videos: u64, gossip: u64, minutes: u32) -> DayStats {
    DayStats {
        total_items: total,
        memes_found: memes,
        jokes_found: jokes,
        news_checked: news,
        videos_found: videos,
        gossip_found: gossip,
        estimated_time_saved_minutes: minutes,
        time_saved_hours: minutes / 60,
        time_saved_minutes_past_hour: minutes % 60,
    }
}

fn choices(meme: usize, joke: usize, news: usize, video: usize, gossip: usize, opener: usize, closer: usize) -> SummaryChoices {
    SummaryChoices { meme, joke, news, video, gossip, opener, closer }
}

fn teaser(pick: usize, use_category: bool, draws: (u32, u32, u32)) -> TeaserChoices {
    TeaserChoices {
        pick,
        use_category,
        first_video_draw: draws.0,
        second_video_draw: draws.1,
        third_video_draw: draws.2,
    }
}

#[test]
fn time_saved_rendering() {
    assert_eq!(time_saved_string(0, 0), "0 minutes");
    assert_eq!(time_saved_string(0, 59), "59 minutes");
    assert_eq!(time_saved_string(1, 0), "1 hours and 0 minutes");
    assert_eq!(time_saved_string(2, 5), "2 hours and 5 minutes");
    assert_eq!(time_saved_string(u32::MAX, 15), "4294967295 hours and 15 minutes");
}

#[test]
fn summary_of_empty_day() {
    let s = stats(0, 0, 0, 0, 0, 0, 0);
    assert_eq!(
        build_summary_text(&s),
        "I haven't started doomscrolling yet. Give me a minute."
    );
}

#[test]
fn summary_with_chosen_phrases() {
    let s = stats(10, 3, 0, 2, 0, 1, 125);
    let text = compose_summary_text(&s, &choices(0, 0, 1, 0, 2, 0, 1));
    assert_eq!(
        text,
        "Today while you worked, I doomscrolled 3 memes, read 2 news articles (the world is still a mess), followed 1 celebrity dramas. That's 2 hours and 5 minutes of your life I saved. You're welcome."
    );
}

#[test]
fn summary_without_categories() {
    let s = stats(4, 0, 0, 0, 0, 0, 45);
    let text = compose_summary_text(&s, &choices(0, 0, 0, 0, 0, 4, 7));
    assert_eq!(
        text,
        "You focused. I didn't. Today I scrolled the internet aimlessly. 45 minutes of internet drivel, handled professionally."
    );
}

#[test]
fn summary_all_categories() {
    let s = stats(20, 1, 2, 3, 4, 5, 61);
    let text = compose_summary_text(&s, &choices(8, 5, 7, 3, 9, 5, 9));
    assert_eq!(
        text,
        "Are you being productive? Me too: I filtered 1 memes — the human-to-AI-slop ratio is getting concerning, rated 2 jokes and none broke a 4 out of 10, monitored 3 news updates (someone should tell the world to calm down), watched 4 videos at 2x speed like a responsible machine, consumed 5 gossip pieces — half the drama was probably AI-fabricated anyway. 1 hours and 1 minutes of algorithmically curated slop, consumed to preserve your brain from rotting."
    );
}

#[test]
fn random_summary_is_one_of_the_candidates() {
    let s = stats(6, 2, 0, 0, 4, 0, 30);
    let text = build_summary_text(&s);
    let mut found = false;
    for meme in 0..9 {
        for video in 0..11 {
            for opener in 0..6 {
                for closer in 0..10 {
                    if compose_summary_text(&s, &choices(meme, 0, 0, video, 0, opener, closer)) == text {
                        found = true;
                    }
                }
            }
        }
    }
    assert!(found);
}

#[test]
fn daily_summary_highlights_first_five() {
    let s = stats(7, 7, 0, 0, 0, 0, 3);
    let items: Vec<u32> = (1..=7).collect();
    let summary = generate_daily_summary(s, items);
    assert_eq!(summary.highlights, vec![1, 2, 3, 4, 5]);
    assert_eq!(summary.stats, s);
    assert!(summary.summary_text.ends_with('.'));
    let few = generate_daily_summary(s, vec!["a", "b"]);
    assert_eq!(few.highlights, vec!["a", "b"]);
}

#[test]
fn teasers_with_chosen_draws() {
    let s = stats(5, 1, 2, 3, 1, 0, 30);
    assert_eq!(
        compose_teaser(&s, Some("joke"), &teaser(0, true, (0, 0, 0))),
        "Read 2 dad jokes. None were funny. You're not missing anything."
    );
    assert_eq!(
        compose_teaser(&s, Some("video"), &teaser(1, true, (5, 0, 0))),
        "Found a video that's 15 seconds of pure joy. Save it for later."
    );
    assert_eq!(
        compose_teaser(&s, Some("video"), &teaser(8, true, (0, 0, 79))),
        "Previewed a 49-second video. Your future self will decide if it was worth it."
    );
    assert_eq!(
        compose_teaser(&s, Some("news"), &teaser(6, true, (0, 0, 0))),
        "3 articles checked. The world is still out there. Unfortunately."
    );
    assert_eq!(
        compose_teaser(&s, Some("weird"), &teaser(0, true, (0, 0, 0))),
        "Found 5 interesting things while you've been working. Stay focused!"
    );
    assert_eq!(
        compose_teaser(&s, None, &teaser(0, true, (0, 0, 0))),
        "Found 5 interesting things while you've been working. Stay focused!"
    );
    assert_eq!(
        compose_teaser(&s, Some("joke"), &teaser(1, false, (0, 0, 0))),
        "Doomscrolled for you: 5 items and counting. Estimated 30 minutes saved."
    );
    assert_eq!(
        compose_teaser(&s, Some("meme"), &teaser(3, false, (0, 0, 0))),
        "I've checked 3 news articles, 1 memes, and 1 videos. You've checked zero. Perfect."
    );
}

#[test]
fn idle_teaser_while_nothing_found() {
    let s = stats(0, 0, 0, 0, 0, 0, 0);
    assert_eq!(
        compose_teaser(&s, Some("meme"), &teaser(3, true, (0, 0, 0))),
        "The crawler is stretching its legs. Give it a moment."
    );
    let t = generate_teaser(&s, Some("meme"), true);
    let idle: Vec<String> = (0..8).map(|i| compose_teaser(&s, None, &teaser(i, false, (0, 0, 0)))).collect();
    assert!(idle.contains(&t));
}

#[test]
fn random_general_teaser_is_a_candidate() {
    let s = stats(9, 2, 3, 4, 0, 0, 12);
    let t = generate_teaser(&s, Some("gossip"), false);
    let general: Vec<String> = (0..13).map(|i| compose_teaser(&s, None, &teaser(i, false, (0, 0, 0)))).collect();
    assert!(general.contains(&t));
    let g = generate_teaser(&s, Some("gossip"), true);
    let gossip: Vec<String> = (0..9).map(|i| compose_teaser(&s, Some("gossip"), &teaser(i, true, (0, 0, 0)))).collect();
    assert!(gossip.contains(&g));
}
