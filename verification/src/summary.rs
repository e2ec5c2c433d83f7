//! The end-of-day summary: what the proxy consumed, in a sentence with some
//! personality.

use vstd::prelude::*;
use crate::random::random_index;
use crate::text::{
    decimal, decimal_string, has_substring, join, join_strings, lemma_join_contains,
    lemma_occurs_between, lemma_occurs_extend, lemma_occurs_within, occurs_at, views,
};

verus! {

/// Today's counts, as the store reports them. The store keeps the time
/// saved as a fractional number of minutes; the library holds the three
/// whole numbers that its texts print of it: the minutes, the hours, and the
/// minutes past the last whole hour (each cut to a `u32` as Rust's `as`
/// cast from a float cuts it).
#[derive(Clone, Copy, Debug, PartialEq, Eq, Structural)]
pub struct DayStats {
    pub total_items: u64,
    pub memes_found: u64,
    pub jokes_found: u64,
    pub news_checked: u64,
    pub videos_found: u64,
    pub gossip_found: u64,
    pub estimated_time_saved_minutes: u32,
    pub time_saved_hours: u32,
    pub time_saved_minutes_past_hour: u32,
}

/// How many phrases each part of the summary can pick from.
pub const MEME_PHRASES: usize = 9;
pub const JOKE_PHRASES: usize = 9;
pub const NEWS_PHRASES: usize = 8;
pub const VIDEO_PHRASES: usize = 11;
pub const GOSSIP_PHRASES: usize = 10;
pub const CLOSER_PHRASES: usize = 10;
pub const OPENER_PHRASES: usize = 6;

/// Which phrase each part of a summary uses.
#[derive(Clone, Copy, Debug, PartialEq, Eq, Structural)]
pub struct SummaryChoices {
    pub meme: usize,
    pub joke: usize,
    pub news: usize,
    pub video: usize,
    pub gossip: usize,
    pub opener: usize,
    pub closer: usize,
}

/// Every choice names an existing phrase.
pub open spec fn summary_choices_valid(c: SummaryChoices) -> bool {
    &&& c.meme < MEME_PHRASES
    &&& c.joke < JOKE_PHRASES
    &&& c.news < NEWS_PHRASES
    &&& c.video < VIDEO_PHRASES
    &&& c.gossip < GOSSIP_PHRASES
    &&& c.opener < OPENER_PHRASES
    &&& c.closer < CLOSER_PHRASES
}

/// The summary of a day on which nothing was found yet.
pub open spec fn idle_summary() -> Seq<char> {
    "I haven't started doomscrolling yet. Give me a minute."@
}

/// A count as it is printed.
pub open spec fn count_text(n: u64) -> Seq<char> {
    decimal(n as nat)
}

/// One phrase for each kind of content found today, in the order memes,
/// jokes, news, videos, gossip; kinds with nothing found are left out.
pub open spec fn activity_parts(s: DayStats, c: SummaryChoices) -> Seq<Seq<char>> {
    let p0 = Seq::<Seq<char>>::empty();
    let p1 = if s.memes_found > 0 {
        p0.push(meme_phrase(c.meme as int, count_text(s.memes_found)))
    } else {
        p0
    };
    let p2 = if s.jokes_found > 0 {
        p1.push(joke_phrase(c.joke as int, count_text(s.jokes_found)))
    } else {
        p1
    };
    let p3 = if s.news_checked > 0 {
        p2.push(news_phrase(c.news as int, count_text(s.news_checked)))
    } else {
        p2
    };
    let p4 = if s.videos_found > 0 {
        p3.push(video_phrase(c.video as int, count_text(s.videos_found)))
    } else {
        p3
    };
    if s.gossip_found > 0 {
        p4.push(gossip_phrase(c.gossip as int, count_text(s.gossip_found)))
    } else {
        p4
    }
}

/// The activities of the day: the phrases joined by commas, or a stock line
/// when no kind of content was found.
pub open spec fn activities_text(s: DayStats, c: SummaryChoices) -> Seq<char> {
    let parts = activity_parts(s, c);
    if parts.len() == 0 {
        "scrolled the internet aimlessly"@
    } else {
        join(parts, ", "@)
    }
}

/// The time saved, in hours and minutes when it reaches an hour.
pub open spec fn time_saved_text(hours: u32, rest: u32) -> Seq<char> {
    if hours > 0 {
        decimal(hours as nat) + " hours and "@ + decimal(rest as nat) + " minutes"@
    } else {
        decimal(rest as nat) + " minutes"@
    }
}

/// The summary of day `s` with the phrases that `c` picks: an opening with
/// the activities, a full stop, and a closing sentence with the time saved.
pub open spec fn summary_text(s: DayStats, c: SummaryChoices) -> Seq<char> {
    if s.total_items == 0 {
        idle_summary()
    } else {
        opener_phrase(c.opener as int, activities_text(s, c)) + ". "@ + closer_phrase(
            c.closer as int,
            time_saved_text(s.time_saved_hours, s.time_saved_minutes_past_hour),
        )
    }
}

/// The `i`-th phrase on memes, with `n` their count.
pub open spec fn meme_phrase(i: int, n: Seq<char>) -> Seq<char> {
    if i == 0 {
        "doomscrolled "@ + n + " memes"@
    } else if i == 1 {
        "browsed "@ + n + " memes (some were actually funny)"@
    } else if i == 2 {
        "stared at "@ + n + " memes with dead eyes"@
    } else if i == 3 {
        "scrolled past "@ + n + " memes and only exhaled sharply twice"@
    } else if i == 4 {
        "consumed "@ + n + " memes of varying quality"@
    } else if i == 5 {
        "sifted through "@ + n + " memes (mostly reposts, but still)"@
    } else if i == 6 {
        "catalogued "@ + n + " memes — peak internet culture, allegedly"@
    } else if i == 7 {
        "scrolled past "@ + n + " memes (at least half were AI-generated slop, but who's counting)"@
    } else {
        "filtered "@ + n + " memes — the human-to-AI-slop ratio is getting concerning"@
    }
}

/// Renders the `i`-th phrase on memes.
pub fn meme_phrase_text(i: usize, n: &str) -> (s: String)
    requires
        i < 9,
    ensures
        s@ == meme_phrase(i as int, n@),
{
    if i == 0 {
        let mut s = String::from_str("doomscrolled ");
        s.append(n);
        s.append(" memes");
        s
    } else if i == 1 {
        let mut s = String::from_str("browsed ");
        s.append(n);
        s.append(" memes (some were actually funny)");
        s
    } else if i == 2 {
        let mut s = String::from_str("stared at ");
        s.append(n);
        s.append(" memes with dead eyes");
        s
    } else if i == 3 {
        let mut s = String::from_str("scrolled past ");
        s.append(n);
        s.append(" memes and only exhaled sharply twice");
        s
    } else if i == 4 {
        let mut s = String::from_str("consumed ");
        s.append(n);
        s.append(" memes of varying quality");
        s
    } else if i == 5 {
        let mut s = String::from_str("sifted through ");
        s.append(n);
        s.append(" memes (mostly reposts, but still)");
        s
    } else if i == 6 {
        let mut s = String::from_str("catalogued ");
        s.append(n);
        s.append(" memes — peak internet culture, allegedly");
        s
    } else if i == 7 {
        let mut s = String::from_str("scrolled past ");
        s.append(n);
        s.append(" memes (at least half were AI-generated slop, but who's counting)");
        s
    } else {
        let mut s = String::from_str("filtered ");
        s.append(n);
        s.append(" memes — the human-to-AI-slop ratio is getting concerning");
        s
    }
}

/// The `i`-th phrase on jokes, with `n` their count.
pub open spec fn joke_phrase(i: int, n: Seq<char>) -> Seq<char> {
    if i == 0 {
        "read "@ + n + " jokes (most were terrible)"@
    } else if i == 1 {
        "suffered through "@ + n + " dad jokes"@
    } else if i == 2 {
        "groaned at "@ + n + " unfunny jokes"@
    } else if i == 3 {
        "processed "@ + n + " jokes and regret most of them"@
    } else if i == 4 {
        "waded through "@ + n + " jokes of questionable comedic value"@
    } else if i == 5 {
        "rated "@ + n + " jokes and none broke a 4 out of 10"@
    } else if i == 6 {
        "survived "@ + n + " punchlines, each worse than the last"@
    } else if i == 7 {
        "catalogued "@ + n + " jokes — the bar was low and they limboed under it"@
    } else {
        "endured "@ + n + " jokes — hard to tell which ones were written by a bot and which by a human with no taste"@
    }
}

/// Renders the `i`-th phrase on jokes.
pub fn joke_phrase_text(i: usize, n: &str) -> (s: String)
    requires
        i < 9,
    ensures
        s@ == joke_phrase(i as int, n@),
{
    if i == 0 {
        let mut s = String::from_str("read ");
        s.append(n);
        s.append(" jokes (most were terrible)");
        s
    } else if i == 1 {
        let mut s = String::from_str("suffered through ");
        s.append(n);
        s.append(" dad jokes");
        s
    } else if i == 2 {
        let mut s = String::from_str("groaned at ");
        s.append(n);
        s.append(" unfunny jokes");
        s
    } else if i == 3 {
        let mut s = String::from_str("processed ");
        s.append(n);
        s.append(" jokes and regret most of them");
        s
    } else if i == 4 {
        let mut s = String::from_str("waded through ");
        s.append(n);
        s.append(" jokes of questionable comedic value");
        s
    } else if i == 5 {
        let mut s = String::from_str("rated ");
        s.append(n);
        s.append(" jokes and none broke a 4 out of 10");
        s
    } else if i == 6 {
        let mut s = String::from_str("survived ");
        s.append(n);
        s.append(" punchlines, each worse than the last");
        s
    } else if i == 7 {
        let mut s = String::from_str("catalogued ");
        s.append(n);
        s.append(" jokes — the bar was low and they limboed under it");
        s
    } else {
        let mut s = String::from_str("endured ");
        s.append(n);
        s.append(" jokes — hard to tell which ones were written by a bot and which by a human with no taste");
        s
    }
}

/// The `i`-th phrase on news items, with `n` their count.
pub open spec fn news_phrase(i: int, n: Seq<char>) -> Seq<char> {
    if i == 0 {
        "checked the news "@ + n + " times (nothing happened)"@
    } else if i == 1 {
        "read "@ + n + " news articles (the world is still a mess)"@
    } else if i == 2 {
        "monitored "@ + n + " news stories so you don't have to"@
    } else if i == 3 {
        "scanned "@ + n + " headlines and the world hasn't ended yet"@
    } else if i == 4 {
        "read "@ + n + " news articles (still no flying cars)"@
    } else if i == 5 {
        "tracked "@ + n + " news stories — nothing you need to panic about"@
    } else if i == 6 {
        "parsed "@ + n + " news items — the usual mix of chaos and nothing"@
    } else {
        "monitored "@ + n + " news updates (someone should tell the world to calm down)"@
    }
}

/// Renders the `i`-th phrase on news items.
pub fn news_phrase_text(i: usize, n: &str) -> (s: String)
    requires
        i < 8,
    ensures
        s@ == news_phrase(i as int, n@),
{
    if i == 0 {
        let mut s = String::from_str("checked the news ");
        s.append(n);
        s.append(" times (nothing happened)");
        s
    } else if i == 1 {
        let mut s = String::from_str("read ");
        s.append(n);
        s.append(" news articles (the world is still a mess)");
        s
    } else if i == 2 {
        let mut s = String::from_str("monitored ");
        s.append(n);
        s.append(" news stories so you don't have to");
        s
    } else if i == 3 {
        let mut s = String::from_str("scanned ");
        s.append(n);
        s.append(" headlines and the world hasn't ended yet");
        s
    } else if i == 4 {
        let mut s = String::from_str("read ");
        s.append(n);
        s.append(" news articles (still no flying cars)");
        s
    } else if i == 5 {
        let mut s = String::from_str("tracked ");
        s.append(n);
        s.append(" news stories — nothing you need to panic about");
        s
    } else if i == 6 {
        let mut s = String::from_str("parsed ");
        s.append(n);
        s.append(" news items — the usual mix of chaos and nothing");
        s
    } else {
        let mut s = String::from_str("monitored ");
        s.append(n);
        s.append(" news updates (someone should tell the world to calm down)");
        s
    }
}

/// The `i`-th phrase on videos, with `n` their count.
pub open spec fn video_phrase(i: int, n: Seq<char>) -> Seq<char> {
    if i == 0 {
        "watched "@ + n + " videos (at least 2 had cats)"@
    } else if i == 1 {
        "found "@ + n + " videos worth watching later"@
    } else if i == 2 {
        "sat through "@ + n + " videos so you could be productive"@
    } else if i == 3 {
        "watched "@ + n + " videos at 2x speed like a responsible machine"@
    } else if i == 4 {
        "screened "@ + n + " videos for quality (results: mixed)"@
    } else if i == 5 {
        "previewed "@ + n + " videos — some were actually worth your time"@
    } else if i == 6 {
        "consumed "@ + n + " videos and didn't skip a single one"@
    } else if i == 7 {
        "sat through "@ + n + " videos (the algorithm had opinions today)"@
    } else if i == 8 {
        "auto-played "@ + n + " videos straight into the void"@
    } else if i == 9 {
        "watched "@ + n + " videos — unclear how many were AI-generated, but the cats looked real enough"@
    } else {
        "screened "@ + n + " videos of dubious authenticity on your behalf"@
    }
}

/// Renders the `i`-th phrase on videos.
pub fn video_phrase_text(i: usize, n: &str) -> (s: String)
    requires
        i < 11,
    ensures
        s@ == video_phrase(i as int, n@),
{
    if i == 0 {
        let mut s = String::from_str("watched ");
        s.append(n);
        s.append(" videos (at least 2 had cats)");
        s
    } else if i == 1 {
        let mut s = String::from_str("found ");
        s.append(n);
        s.append(" videos worth watching later");
        s
    } else if i == 2 {
        let mut s = String::from_str("sat through ");
        s.append(n);
        s.append(" videos so you could be productive");
        s
    } else if i == 3 {
        let mut s = String::from_str("watched ");
        s.append(n);
        s.append(" videos at 2x speed like a responsible machine");
        s
    } else if i == 4 {
        let mut s = String::from_str("screened ");
        s.append(n);
        s.append(" videos for quality (results: mixed)");
        s
    } else if i == 5 {
        let mut s = String::from_str("previewed ");
        s.append(n);
        s.append(" videos — some were actually worth your time");
        s
    } else if i == 6 {
        let mut s = String::from_str("consumed ");
        s.append(n);
        s.append(" videos and didn't skip a single one");
        s
    } else if i == 7 {
        let mut s = String::from_str("sat through ");
        s.append(n);
        s.append(" videos (the algorithm had opinions today)");
        s
    } else if i == 8 {
        let mut s = String::from_str("auto-played ");
        s.append(n);
        s.append(" videos straight into the void");
        s
    } else if i == 9 {
        let mut s = String::from_str("watched ");
        s.append(n);
        s.append(" videos — unclear how many were AI-generated, but the cats looked real enough");
        s
    } else {
        let mut s = String::from_str("screened ");
        s.append(n);
        s.append(" videos of dubious authenticity on your behalf");
        s
    }
}

/// The `i`-th phrase on gossip items, with `n` their count.
pub open spec fn gossip_phrase(i: int, n: Seq<char>) -> Seq<char> {
    if i == 0 {
        "kept up with "@ + n + " celebrity stories"@
    } else if i == 1 {
        "read "@ + n + " pieces of entertainment gossip"@
    } else if i == 2 {
        "followed "@ + n + " celebrity dramas"@
    } else if i == 3 {
        "absorbed "@ + n + " celebrity updates (the drama never ends)"@
    } else if i == 4 {
        "tracked "@ + n + " gossip items — someone is always doing something scandalous"@
    } else if i == 5 {
        "kept tabs on "@ + n + " celebrities so you can pretend you don't care"@
    } else if i == 6 {
        "followed "@ + n + " entertainment stories of dubious importance"@
    } else if i == 7 {
        "catalogued "@ + n + " celebrity moments (history will not remember them)"@
    } else if i == 8 {
        "endured "@ + n + " gossip pieces — the parasocial grind never stops"@
    } else {
        "consumed "@ + n + " gossip pieces — half the drama was probably AI-fabricated anyway"@
    }
}

/// Renders the `i`-th phrase on gossip items.
pub fn gossip_phrase_text(i: usize, n: &str) -> (s: String)
    requires
        i < 10,
    ensures
        s@ == gossip_phrase(i as int, n@),
{
    if i == 0 {
        let mut s = String::from_str("kept up with ");
        s.append(n);
        s.append(" celebrity stories");
        s
    } else if i == 1 {
        let mut s = String::from_str("read ");
        s.append(n);
        s.append(" pieces of entertainment gossip");
        s
    } else if i == 2 {
        let mut s = String::from_str("followed ");
        s.append(n);
        s.append(" celebrity dramas");
        s
    } else if i == 3 {
        let mut s = String::from_str("absorbed ");
        s.append(n);
        s.append(" celebrity updates (the drama never ends)");
        s
    } else if i == 4 {
        let mut s = String::from_str("tracked ");
        s.append(n);
        s.append(" gossip items — someone is always doing something scandalous");
        s
    } else if i == 5 {
        let mut s = String::from_str("kept tabs on ");
        s.append(n);
        s.append(" celebrities so you can pretend you don't care");
        s
    } else if i == 6 {
        let mut s = String::from_str("followed ");
        s.append(n);
        s.append(" entertainment stories of dubious importance");
        s
    } else if i == 7 {
        let mut s = String::from_str("catalogued ");
        s.append(n);
        s.append(" celebrity moments (history will not remember them)");
        s
    } else if i == 8 {
        let mut s = String::from_str("endured ");
        s.append(n);
        s.append(" gossip pieces — the parasocial grind never stops");
        s
    } else {
        let mut s = String::from_str("consumed ");
        s.append(n);
        s.append(" gossip pieces — half the drama was probably AI-fabricated anyway");
        s
    }
}

/// The `i`-th closing sentence, with `t` the time saved.
pub open spec fn closer_phrase(i: int, t: Seq<char>) -> Seq<char> {
    if i == 0 {
        "You saved "@ + t + " of wasted time by letting me handle it."@
    } else if i == 1 {
        "That's "@ + t + " of your life I saved. You're welcome."@
    } else if i == 2 {
        "Without me, you'd have wasted "@ + t + ". I accept payment in compliments."@
    } else if i == 3 {
        t + " of doomscrolling, outsourced. This is what delegation looks like."@
    } else if i == 4 {
        "That's "@ + t + " you'll never have to feel guilty about."@
    } else if i == 5 {
        "I took the hit so you didn't have to. "@ + t + ", absorbed."@
    } else if i == 6 {
        "Your attention span thanks me for the "@ + t + " I intercepted."@
    } else if i == 7 {
        t + " of internet drivel, handled professionally."@
    } else if i == 8 {
        "All in all, "@ + t + " of your finite human lifespan: rescued."@
    } else {
        t + " of algorithmically curated slop, consumed to preserve your brain from rotting."@
    }
}

/// Renders the `i`-th closing sentence.
pub fn closer_phrase_text(i: usize, t: &str) -> (s: String)
    requires
        i < 10,
    ensures
        s@ == closer_phrase(i as int, t@),
{
    if i == 0 {
        let mut s = String::from_str("You saved ");
        s.append(t);
        s.append(" of wasted time by letting me handle it.");
        s
    } else if i == 1 {
        let mut s = String::from_str("That's ");
        s.append(t);
        s.append(" of your life I saved. You're welcome.");
        s
    } else if i == 2 {
        let mut s = String::from_str("Without me, you'd have wasted ");
        s.append(t);
        s.append(". I accept payment in compliments.");
        s
    } else if i == 3 {
        let mut s = String::from_str(t);
        s.append(" of doomscrolling, outsourced. This is what delegation looks like.");
        s
    } else if i == 4 {
        let mut s = String::from_str("That's ");
        s.append(t);
        s.append(" you'll never have to feel guilty about.");
        s
    } else if i == 5 {
        let mut s = String::from_str("I took the hit so you didn't have to. ");
        s.append(t);
        s.append(", absorbed.");
        s
    } else if i == 6 {
        let mut s = String::from_str("Your attention span thanks me for the ");
        s.append(t);
        s.append(" I intercepted.");
        s
    } else if i == 7 {
        let mut s = String::from_str(t);
        s.append(" of internet drivel, handled professionally.");
        s
    } else if i == 8 {
        let mut s = String::from_str("All in all, ");
        s.append(t);
        s.append(" of your finite human lifespan: rescued.");
        s
    } else {
        let mut s = String::from_str(t);
        s.append(" of algorithmically curated slop, consumed to preserve your brain from rotting.");
        s
    }
}

/// The `i`-th opening, with `a` the activities.
pub open spec fn opener_phrase(i: int, a: Seq<char>) -> Seq<char> {
    if i == 0 {
        "Today while you worked, I "@ + a
    } else if i == 1 {
        "While you were busy being productive, I "@ + a
    } else if i == 2 {
        "Need a break? I took one for you, and "@ + a
    } else if i == 3 {
        "Here's what your doomscroll proxy got up to: I "@ + a
    } else if i == 4 {
        "You focused. I didn't. Today I "@ + a
    } else {
        "Are you being productive? Me too: I "@ + a
    }
}

/// Renders the `i`-th opening.
pub fn opener_phrase_text(i: usize, a: &str) -> (s: String)
    requires
        i < 6,
    ensures
        s@ == opener_phrase(i as int, a@),
{
    if i == 0 {
        let mut s = String::from_str("Today while you worked, I ");
        s.append(a);
        s
    } else if i == 1 {
        let mut s = String::from_str("While you were busy being productive, I ");
        s.append(a);
        s
    } else if i == 2 {
        let mut s = String::from_str("Need a break? I took one for you, and ");
        s.append(a);
        s
    } else if i == 3 {
        let mut s = String::from_str("Here's what your doomscroll proxy got up to: I ");
        s.append(a);
        s
    } else if i == 4 {
        let mut s = String::from_str("You focused. I didn't. Today I ");
        s.append(a);
        s
    } else {
        let mut s = String::from_str("Are you being productive? Me too: I ");
        s.append(a);
        s
    }
}

/// Law: every one of these phrases quotes what it is given.
pub proof fn law_meme_phrase_quotes(i: int, n: Seq<char>)
    ensures
        0 <= i < 9 ==> has_substring(meme_phrase(i, n), n),
{
    if i == 0 {
        lemma_occurs_between(meme_phrase(i, n), "doomscrolled "@, n, " memes"@);
    } else if i == 1 {
        lemma_occurs_between(meme_phrase(i, n), "browsed "@, n, " memes (some were actually funny)"@);
    } else if i == 2 {
        lemma_occurs_between(meme_phrase(i, n), "stared at "@, n, " memes with dead eyes"@);
    } else if i == 3 {
        lemma_occurs_between(meme_phrase(i, n), "scrolled past "@, n, " memes and only exhaled sharply twice"@);
    } else if i == 4 {
        lemma_occurs_between(meme_phrase(i, n), "consumed "@, n, " memes of varying quality"@);
    } else if i == 5 {
        lemma_occurs_between(meme_phrase(i, n), "sifted through "@, n, " memes (mostly reposts, but still)"@);
    } else if i == 6 {
        lemma_occurs_between(meme_phrase(i, n), "catalogued "@, n, " memes — peak internet culture, allegedly"@);
    } else if i == 7 {
        lemma_occurs_between(meme_phrase(i, n), "scrolled past "@, n, " memes (at least half were AI-generated slop, but who's counting)"@);
    } else if i == 8 {
        lemma_occurs_between(meme_phrase(i, n), "filtered "@, n, " memes — the human-to-AI-slop ratio is getting concerning"@);
    }
}

/// Law: every one of these phrases quotes what it is given.
pub proof fn law_joke_phrase_quotes(i: int, n: Seq<char>)
    ensures
        0 <= i < 9 ==> has_substring(joke_phrase(i, n), n),
{
    if i == 0 {
        lemma_occurs_between(joke_phrase(i, n), "read "@, n, " jokes (most were terrible)"@);
    } else if i == 1 {
        lemma_occurs_between(joke_phrase(i, n), "suffered through "@, n, " dad jokes"@);
    } else if i == 2 {
        lemma_occurs_between(joke_phrase(i, n), "groaned at "@, n, " unfunny jokes"@);
    } else if i == 3 {
        lemma_occurs_between(joke_phrase(i, n), "processed "@, n, " jokes and regret most of them"@);
    } else if i == 4 {
        lemma_occurs_between(joke_phrase(i, n), "waded through "@, n, " jokes of questionable comedic value"@);
    } else if i == 5 {
        lemma_occurs_between(joke_phrase(i, n), "rated "@, n, " jokes and none broke a 4 out of 10"@);
    } else if i == 6 {
        lemma_occurs_between(joke_phrase(i, n), "survived "@, n, " punchlines, each worse than the last"@);
    } else if i == 7 {
        lemma_occurs_between(joke_phrase(i, n), "catalogued "@, n, " jokes — the bar was low and they limboed under it"@);
    } else if i == 8 {
        lemma_occurs_between(joke_phrase(i, n), "endured "@, n, " jokes — hard to tell which ones were written by a bot and which by a human with no taste"@);
    }
}

/// Law: every one of these phrases quotes what it is given.
pub proof fn law_news_phrase_quotes(i: int, n: Seq<char>)
    ensures
        0 <= i < 8 ==> has_substring(news_phrase(i, n), n),
{
    if i == 0 {
        lemma_occurs_between(news_phrase(i, n), "checked the news "@, n, " times (nothing happened)"@);
    } else if i == 1 {
        lemma_occurs_between(news_phrase(i, n), "read "@, n, " news articles (the world is still a mess)"@);
    } else if i == 2 {
        lemma_occurs_between(news_phrase(i, n), "monitored "@, n, " news stories so you don't have to"@);
    } else if i == 3 {
        lemma_occurs_between(news_phrase(i, n), "scanned "@, n, " headlines and the world hasn't ended yet"@);
    } else if i == 4 {
        lemma_occurs_between(news_phrase(i, n), "read "@, n, " news articles (still no flying cars)"@);
    } else if i == 5 {
        lemma_occurs_between(news_phrase(i, n), "tracked "@, n, " news stories — nothing you need to panic about"@);
    } else if i == 6 {
        lemma_occurs_between(news_phrase(i, n), "parsed "@, n, " news items — the usual mix of chaos and nothing"@);
    } else if i == 7 {
        lemma_occurs_between(news_phrase(i, n), "monitored "@, n, " news updates (someone should tell the world to calm down)"@);
    }
}

/// Law: every one of these phrases quotes what it is given.
pub proof fn law_video_phrase_quotes(i: int, n: Seq<char>)
    ensures
        0 <= i < 11 ==> has_substring(video_phrase(i, n), n),
{
    if i == 0 {
        lemma_occurs_between(video_phrase(i, n), "watched "@, n, " videos (at least 2 had cats)"@);
    } else if i == 1 {
        lemma_occurs_between(video_phrase(i, n), "found "@, n, " videos worth watching later"@);
    } else if i == 2 {
        lemma_occurs_between(video_phrase(i, n), "sat through "@, n, " videos so you could be productive"@);
    } else if i == 3 {
        lemma_occurs_between(video_phrase(i, n), "watched "@, n, " videos at 2x speed like a responsible machine"@);
    } else if i == 4 {
        lemma_occurs_between(video_phrase(i, n), "screened "@, n, " videos for quality (results: mixed)"@);
    } else if i == 5 {
        lemma_occurs_between(video_phrase(i, n), "previewed "@, n, " videos — some were actually worth your time"@);
    } else if i == 6 {
        lemma_occurs_between(video_phrase(i, n), "consumed "@, n, " videos and didn't skip a single one"@);
    } else if i == 7 {
        lemma_occurs_between(video_phrase(i, n), "sat through "@, n, " videos (the algorithm had opinions today)"@);
    } else if i == 8 {
        lemma_occurs_between(video_phrase(i, n), "auto-played "@, n, " videos straight into the void"@);
    } else if i == 9 {
        lemma_occurs_between(video_phrase(i, n), "watched "@, n, " videos — unclear how many were AI-generated, but the cats looked real enough"@);
    } else if i == 10 {
        lemma_occurs_between(video_phrase(i, n), "screened "@, n, " videos of dubious authenticity on your behalf"@);
    }
}

/// Law: every one of these phrases quotes what it is given.
pub proof fn law_gossip_phrase_quotes(i: int, n: Seq<char>)
    ensures
        0 <= i < 10 ==> has_substring(gossip_phrase(i, n), n),
{
    if i == 0 {
        lemma_occurs_between(gossip_phrase(i, n), "kept up with "@, n, " celebrity stories"@);
    } else if i == 1 {
        lemma_occurs_between(gossip_phrase(i, n), "read "@, n, " pieces of entertainment gossip"@);
    } else if i == 2 {
        lemma_occurs_between(gossip_phrase(i, n), "followed "@, n, " celebrity dramas"@);
    } else if i == 3 {
        lemma_occurs_between(gossip_phrase(i, n), "absorbed "@, n, " celebrity updates (the drama never ends)"@);
    } else if i == 4 {
        lemma_occurs_between(gossip_phrase(i, n), "tracked "@, n, " gossip items — someone is always doing something scandalous"@);
    } else if i == 5 {
        lemma_occurs_between(gossip_phrase(i, n), "kept tabs on "@, n, " celebrities so you can pretend you don't care"@);
    } else if i == 6 {
        lemma_occurs_between(gossip_phrase(i, n), "followed "@, n, " entertainment stories of dubious importance"@);
    } else if i == 7 {
        lemma_occurs_between(gossip_phrase(i, n), "catalogued "@, n, " celebrity moments (history will not remember them)"@);
    } else if i == 8 {
        lemma_occurs_between(gossip_phrase(i, n), "endured "@, n, " gossip pieces — the parasocial grind never stops"@);
    } else if i == 9 {
        lemma_occurs_between(gossip_phrase(i, n), "consumed "@, n, " gossip pieces — half the drama was probably AI-fabricated anyway"@);
    }
}

/// Law: every one of these phrases quotes what it is given.
pub proof fn law_closer_phrase_quotes(i: int, t: Seq<char>)
    ensures
        0 <= i < 10 ==> has_substring(closer_phrase(i, t), t),
{
    if i == 0 {
        lemma_occurs_between(closer_phrase(i, t), "You saved "@, t, " of wasted time by letting me handle it."@);
    } else if i == 1 {
        lemma_occurs_between(closer_phrase(i, t), "That's "@, t, " of your life I saved. You're welcome."@);
    } else if i == 2 {
        lemma_occurs_between(closer_phrase(i, t), "Without me, you'd have wasted "@, t, ". I accept payment in compliments."@);
    } else if i == 3 {
        lemma_occurs_between(closer_phrase(i, t), Seq::<char>::empty(), t, " of doomscrolling, outsourced. This is what delegation looks like."@);
    } else if i == 4 {
        lemma_occurs_between(closer_phrase(i, t), "That's "@, t, " you'll never have to feel guilty about."@);
    } else if i == 5 {
        lemma_occurs_between(closer_phrase(i, t), "I took the hit so you didn't have to. "@, t, ", absorbed."@);
    } else if i == 6 {
        lemma_occurs_between(closer_phrase(i, t), "Your attention span thanks me for the "@, t, " I intercepted."@);
    } else if i == 7 {
        lemma_occurs_between(closer_phrase(i, t), Seq::<char>::empty(), t, " of internet drivel, handled professionally."@);
    } else if i == 8 {
        lemma_occurs_between(closer_phrase(i, t), "All in all, "@, t, " of your finite human lifespan: rescued."@);
    } else if i == 9 {
        lemma_occurs_between(closer_phrase(i, t), Seq::<char>::empty(), t, " of algorithmically curated slop, consumed to preserve your brain from rotting."@);
    }
}

/// Law: every one of these phrases quotes what it is given.
pub proof fn law_opener_phrase_quotes(i: int, a: Seq<char>)
    ensures
        0 <= i < 6 ==> has_substring(opener_phrase(i, a), a),
{
    if i == 0 {
        lemma_occurs_between(opener_phrase(i, a), "Today while you worked, I "@, a, Seq::<char>::empty());
    } else if i == 1 {
        lemma_occurs_between(opener_phrase(i, a), "While you were busy being productive, I "@, a, Seq::<char>::empty());
    } else if i == 2 {
        lemma_occurs_between(opener_phrase(i, a), "Need a break? I took one for you, and "@, a, Seq::<char>::empty());
    } else if i == 3 {
        lemma_occurs_between(opener_phrase(i, a), "Here's what your doomscroll proxy got up to: I "@, a, Seq::<char>::empty());
    } else if i == 4 {
        lemma_occurs_between(opener_phrase(i, a), "You focused. I didn't. Today I "@, a, Seq::<char>::empty());
    } else if i == 5 {
        lemma_occurs_between(opener_phrase(i, a), "Are you being productive? Me too: I "@, a, Seq::<char>::empty());
    }
}

/// Law: on a day with finds, the summary carries the day's activities,
/// followed by a full stop, and the time saved.
pub proof fn law_summary_carries_activities_and_time(s: DayStats, c: SummaryChoices)
    requires
        s.total_items > 0,
        summary_choices_valid(c),
    ensures
        has_substring(summary_text(s, c), activities_text(s, c) + ". "@),
        has_substring(
            summary_text(s, c),
            time_saved_text(s.time_saved_hours, s.time_saved_minutes_past_hour),
        ),
{
    let text = summary_text(s, c);
    let a = activities_text(s, c);
    let t = time_saved_text(s.time_saved_hours, s.time_saved_minutes_past_hour);
    let opener = opener_phrase(c.opener as int, a);
    let closer = closer_phrase(c.closer as int, t);
    if c.opener == 0 {
        lemma_occurs_between(text, "Today while you worked, I "@, a + ". "@, closer);
    } else if c.opener == 1 {
        lemma_occurs_between(text, "While you were busy being productive, I "@, a + ". "@, closer);
    } else if c.opener == 2 {
        lemma_occurs_between(text, "Need a break? I took one for you, and "@, a + ". "@, closer);
    } else if c.opener == 3 {
        lemma_occurs_between(text, "Here's what your doomscroll proxy got up to: I "@, a + ". "@, closer);
    } else if c.opener == 4 {
        lemma_occurs_between(text, "You focused. I didn't. Today I "@, a + ". "@, closer);
    } else if c.opener == 5 {
        lemma_occurs_between(text, "Are you being productive? Me too: I "@, a + ". "@, closer);
    }
    law_closer_phrase_quotes(c.closer as int, t);
    let j = choose|j: int| occurs_at(closer, t, j);
    lemma_occurs_extend(closer, t, j, opener + ". "@, Seq::empty());
    assert(opener + ". "@ + closer + Seq::<char>::empty() =~= text);
}

/// Where the summary carries a phrase of the day's activities.
proof fn lemma_summary_carries_part(s: DayStats, c: SummaryChoices, k: int) -> (i: int)
    requires
        s.total_items > 0,
        summary_choices_valid(c),
        0 <= k < activity_parts(s, c).len(),
    ensures
        occurs_at(summary_text(s, c), activity_parts(s, c)[k], i),
{
    let parts = activity_parts(s, c);
    let a = activities_text(s, c);
    let text = summary_text(s, c);
    law_summary_carries_activities_and_time(s, c);
    let i0 = choose|i: int| occurs_at(text, a + ". "@, i);
    assert(occurs_at(a + ". "@, a, 0)) by {
        assert((a + ". "@).subrange(0, a.len() as int) =~= a);
    }
    lemma_occurs_within(text, a + ". "@, a, i0, 0);
    let i1 = lemma_join_contains(parts, ", "@, k);
    lemma_occurs_within(text, a, parts[k], i0, i1);
    i0 + i1
}

/// Law: on a day with finds, the summary names every kind of content that
/// was found with its count, through the phrase drawn for it.
pub proof fn law_summary_quotes_counts(s: DayStats, c: SummaryChoices)
    requires
        s.total_items > 0,
        summary_choices_valid(c),
    ensures
        s.memes_found > 0 ==> has_substring(
            summary_text(s, c),
            meme_phrase(c.meme as int, count_text(s.memes_found)),
        ) && has_substring(summary_text(s, c), count_text(s.memes_found)),
        s.jokes_found > 0 ==> has_substring(
            summary_text(s, c),
            joke_phrase(c.joke as int, count_text(s.jokes_found)),
        ) && has_substring(summary_text(s, c), count_text(s.jokes_found)),
        s.news_checked > 0 ==> has_substring(
            summary_text(s, c),
            news_phrase(c.news as int, count_text(s.news_checked)),
        ) && has_substring(summary_text(s, c), count_text(s.news_checked)),
        s.videos_found > 0 ==> has_substring(
            summary_text(s, c),
            video_phrase(c.video as int, count_text(s.videos_found)),
        ) && has_substring(summary_text(s, c), count_text(s.videos_found)),
        s.gossip_found > 0 ==> has_substring(
            summary_text(s, c),
            gossip_phrase(c.gossip as int, count_text(s.gossip_found)),
        ) && has_substring(summary_text(s, c), count_text(s.gossip_found)),
{
    let text = summary_text(s, c);
    let parts = activity_parts(s, c);
    let k0: int = 0;
    let k1: int = if s.memes_found > 0 { 1 } else { 0 };
    let k2: int = k1 + if s.jokes_found > 0 { 1int } else { 0 };
    let k3: int = k2 + if s.news_checked > 0 { 1int } else { 0 };
    let k4: int = k3 + if s.videos_found > 0 { 1int } else { 0 };
    if s.memes_found > 0 {
        let n = count_text(s.memes_found);
        let ph = meme_phrase(c.meme as int, n);
        assert(parts[k0] == ph);
        let i = lemma_summary_carries_part(s, c, k0);
        law_meme_phrase_quotes(c.meme as int, n);
        let j = choose|j: int| occurs_at(ph, n, j);
        lemma_occurs_within(text, ph, n, i, j);
    }
    if s.jokes_found > 0 {
        let n = count_text(s.jokes_found);
        let ph = joke_phrase(c.joke as int, n);
        assert(parts[k1] == ph);
        let i = lemma_summary_carries_part(s, c, k1);
        law_joke_phrase_quotes(c.joke as int, n);
        let j = choose|j: int| occurs_at(ph, n, j);
        lemma_occurs_within(text, ph, n, i, j);
    }
    if s.news_checked > 0 {
        let n = count_text(s.news_checked);
        let ph = news_phrase(c.news as int, n);
        assert(parts[k2] == ph);
        let i = lemma_summary_carries_part(s, c, k2);
        law_news_phrase_quotes(c.news as int, n);
        let j = choose|j: int| occurs_at(ph, n, j);
        lemma_occurs_within(text, ph, n, i, j);
    }
    if s.videos_found > 0 {
        let n = count_text(s.videos_found);
        let ph = video_phrase(c.video as int, n);
        assert(parts[k3] == ph);
        let i = lemma_summary_carries_part(s, c, k3);
        law_video_phrase_quotes(c.video as int, n);
        let j = choose|j: int| occurs_at(ph, n, j);
        lemma_occurs_within(text, ph, n, i, j);
    }
    if s.gossip_found > 0 {
        let n = count_text(s.gossip_found);
        let ph = gossip_phrase(c.gossip as int, n);
        assert(parts[k4] == ph);
        let i = lemma_summary_carries_part(s, c, k4);
        law_gossip_phrase_quotes(c.gossip as int, n);
        let j = choose|j: int| occurs_at(ph, n, j);
        lemma_occurs_within(text, ph, n, i, j);
    }
}

/// Law: the time saved is quoted as hours and minutes once it reaches an
/// hour, and as minutes alone before that.
pub proof fn law_time_saved_quotes(hours: u32, rest: u32)
    ensures
        hours > 0 ==> has_substring(time_saved_text(hours, rest), decimal(hours as nat) + " hours"@),
        has_substring(time_saved_text(hours, rest), decimal(rest as nat) + " minutes"@),
        hours == 0 ==> time_saved_text(hours, rest) == decimal(rest as nat) + " minutes"@,
{
    reveal_strlit(" hours and ");
    reveal_strlit(" hours");
    reveal_strlit(" minutes");
    reveal_strlit(" and ");
    assert(" hours and "@ =~= " hours"@ + " and "@);
    let t = time_saved_text(hours, rest);
    if hours > 0 {
        lemma_occurs_between(t, Seq::empty(), decimal(hours as nat) + " hours"@, " and "@ + decimal(rest as nat) + " minutes"@);
        lemma_occurs_between(t, decimal(hours as nat) + " hours and "@, decimal(rest as nat) + " minutes"@, Seq::empty());
    } else {
        lemma_occurs_between(t, Seq::empty(), decimal(rest as nat) + " minutes"@, Seq::empty());
    }
}

/// Law: before anything is found, the summary is the idle line, whatever
/// phrases were drawn.
pub proof fn law_empty_day_summary(s: DayStats, c: SummaryChoices)
    requires
        s.total_items == 0,
    ensures
        summary_text(s, c) == idle_summary(),
{
}

/// Law: the summary names a kind of content exactly when some of it was
/// found, one phrase per such kind.
pub proof fn law_summary_parts(s: DayStats, c: SummaryChoices)
    ensures
        activity_parts(s, c).len() == (if s.memes_found > 0 { 1int } else { 0 }) + (if s.jokes_found
            > 0 { 1int } else { 0 }) + (if s.news_checked > 0 { 1int } else { 0 }) + (if s.videos_found
            > 0 { 1int } else { 0 }) + (if s.gossip_found > 0 { 1int } else { 0 }),
{
}

/// Renders the time saved.
pub fn time_saved_string(hours: u32, rest: u32) -> (s: String)
    ensures
        s@ == time_saved_text(hours, rest),
{
    if hours > 0 {
        let mut s = decimal_string(hours as u64);
        s.append(" hours and ");
        s.append(decimal_string(rest as u64).as_str());
        s.append(" minutes");
        s
    } else {
        let mut s = decimal_string(rest as u64);
        s.append(" minutes");
        s
    }
}

/// Renders the activities of the day.
pub fn activities_string(stats: &DayStats, c: &SummaryChoices) -> (s: String)
    requires
        summary_choices_valid(*c),
    ensures
        s@ == activities_text(*stats, *c),
{
    let ghost st = *stats;
    let ghost ch = *c;
    let mut parts: Vec<String> = Vec::new();
    let ghost p0 = Seq::<Seq<char>>::empty();
    assert(views(parts@) =~= p0);
    if stats.memes_found > 0 {
        let n = decimal_string(stats.memes_found);
        parts.push(meme_phrase_text(c.meme, n.as_str()));
    }
    let ghost p1 = if st.memes_found > 0 {
        p0.push(meme_phrase(ch.meme as int, count_text(st.memes_found)))
    } else {
        p0
    };
    assert(views(parts@) =~= p1);
    if stats.jokes_found > 0 {
        let n = decimal_string(stats.jokes_found);
        parts.push(joke_phrase_text(c.joke, n.as_str()));
    }
    let ghost p2 = if st.jokes_found > 0 {
        p1.push(joke_phrase(ch.joke as int, count_text(st.jokes_found)))
    } else {
        p1
    };
    assert(views(parts@) =~= p2);
    if stats.news_checked > 0 {
        let n = decimal_string(stats.news_checked);
        parts.push(news_phrase_text(c.news, n.as_str()));
    }
    let ghost p3 = if st.news_checked > 0 {
        p2.push(news_phrase(ch.news as int, count_text(st.news_checked)))
    } else {
        p2
    };
    assert(views(parts@) =~= p3);
    if stats.videos_found > 0 {
        let n = decimal_string(stats.videos_found);
        parts.push(video_phrase_text(c.video, n.as_str()));
    }
    let ghost p4 = if st.videos_found > 0 {
        p3.push(video_phrase(ch.video as int, count_text(st.videos_found)))
    } else {
        p3
    };
    assert(views(parts@) =~= p4);
    if stats.gossip_found > 0 {
        let n = decimal_string(stats.gossip_found);
        parts.push(gossip_phrase_text(c.gossip, n.as_str()));
    }
    assert(views(parts@) =~= activity_parts(st, ch));
    if parts.len() == 0 {
        String::from_str("scrolled the internet aimlessly")
    } else {
        join_strings(&parts, ", ")
    }
}

/// Writes the summary of `stats` with the phrases that `c` picks.
pub fn compose_summary_text(stats: &DayStats, c: &SummaryChoices) -> (s: String)
    requires
        summary_choices_valid(*c),
    ensures
        s@ == summary_text(*stats, *c),
{
    if stats.total_items == 0 {
        return String::from_str("I haven't started doomscrolling yet. Give me a minute.");
    }
    let time_str = time_saved_string(stats.time_saved_hours, stats.time_saved_minutes_past_hour);
    let activities = activities_string(stats, c);
    let mut s = opener_phrase_text(c.opener, activities.as_str());
    s.append(". ");
    s.append(closer_phrase_text(c.closer, time_str.as_str()).as_str());
    s
}

/// Writes the summary of `stats`, drawing each phrase at random among its
/// candidates (a phrase is drawn only for kinds of content that were found).
pub fn build_summary_text(stats: &DayStats) -> (s: String)
    ensures
        exists|c: SummaryChoices| summary_choices_valid(c) && s@ == summary_text(*stats, c),
{
    let mut c = SummaryChoices { meme: 0, joke: 0, news: 0, video: 0, gossip: 0, opener: 0, closer: 0 };
    if stats.total_items > 0 {
        if stats.memes_found > 0 {
            c.meme = random_index(MEME_PHRASES);
        }
        if stats.jokes_found > 0 {
            c.joke = random_index(JOKE_PHRASES);
        }
        if stats.news_checked > 0 {
            c.news = random_index(NEWS_PHRASES);
        }
        if stats.videos_found > 0 {
            c.video = random_index(VIDEO_PHRASES);
        }
        if stats.gossip_found > 0 {
            c.gossip = random_index(GOSSIP_PHRASES);
        }
        c.opener = random_index(OPENER_PHRASES);
        c.closer = random_index(CLOSER_PHRASES);
    }
    let s = compose_summary_text(stats, &c);
    assert(summary_choices_valid(c) && s@ == summary_text(*stats, c));
    s
}

/// A day's report: the counts, the summary sentence and the first finds.
pub struct DaySummary<T> {
    pub stats: DayStats,
    pub summary_text: String,
    pub highlights: Vec<T>,
}

/// How many of today's items the report highlights.
pub const HIGHLIGHT_COUNT: usize = 5;

/// Builds the day's report from today's counts and today's items (in the
/// order the store lists them): the summary sentence, and the first five
/// items as highlights.
pub fn generate_daily_summary<T>(stats: DayStats, items: Vec<T>) -> (r: DaySummary<T>)
    ensures
        r.stats == stats,
        r.highlights@ == items@.subrange(
            0,
            if items@.len() < HIGHLIGHT_COUNT { items@.len() as int } else { HIGHLIGHT_COUNT as int },
        ),
        exists|c: SummaryChoices| summary_choices_valid(c) && r.summary_text@ == summary_text(stats, c),
{
    let mut highlights = items;
    highlights.truncate(HIGHLIGHT_COUNT);
    let summary_text = build_summary_text(&stats);
    DaySummary { stats, summary_text, highlights }
}

} // verus!
