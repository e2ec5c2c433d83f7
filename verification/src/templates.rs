//! Notification teasers: a short line about what the proxy just found,
//! written to keep the user at work.

use vstd::prelude::*;
use crate::random::{random_index, random_u32};
use crate::summary::{DayStats, count_text};
use crate::text::{decimal, decimal_string, has_substring, lemma_occurs_between, str_equal};

verus! {

/// Which list of teasers the latest find's category selects.
#[derive(Clone, Copy, Debug, PartialEq, Eq, Structural)]
pub enum TeaserKind {
    Meme,
    Joke,
    News,
    Video,
    Gossip,
    Other,
}

/// The category of the latest find, as text.
pub open spec fn category_view(category: Option<&str>) -> Option<Seq<char>> {
    match category {
        Some(c) => Some(c@),
        None => None,
    }
}

/// The teaser list for the latest find's category.
pub open spec fn teaser_kind(category: Option<Seq<char>>) -> TeaserKind {
    match category {
        Some(c) => if c == "meme"@ {
            TeaserKind::Meme
        } else if c == "joke"@ {
            TeaserKind::Joke
        } else if c == "news"@ {
            TeaserKind::News
        } else if c == "video"@ {
            TeaserKind::Video
        } else if c == "gossip"@ {
            TeaserKind::Gossip
        } else {
            TeaserKind::Other
        },
        None => TeaserKind::Other,
    }
}

/// How many teasers a list holds.
pub open spec fn kind_len(k: TeaserKind) -> usize {
    match k {
        TeaserKind::Meme => 12,
        TeaserKind::Joke => 12,
        TeaserKind::News => 12,
        TeaserKind::Video => 9,
        TeaserKind::Gossip => 9,
        TeaserKind::Other => 1,
    }
}

/// How many idle lines and general teasers there are.
pub const IDLE_TEASERS: usize = 8;
pub const GENERAL_TEASERS: usize = 13;

/// The draws behind one teaser.
#[derive(Clone, Copy, Debug, PartialEq, Eq, Structural)]
pub struct TeaserChoices {
    /// The position of the teaser in the list it is taken from.
    pub pick: usize,
    /// Whether the teaser comes from the latest find's category rather than
    /// from the general list.
    pub use_category: bool,
    /// The three raw draws that set the lengths quoted by video teasers.
    pub first_video_draw: u32,
    pub second_video_draw: u32,
    pub third_video_draw: u32,
}

/// The video length, in seconds, that a raw draw stands for: 10 to 49.
pub open spec fn video_seconds(draw: u32) -> u32 {
    (draw % 40 + 10) as u32
}

/// The length of the list that the final pick is taken from.
pub open spec fn pick_bound(s: DayStats, category: Option<Seq<char>>, c: TeaserChoices) -> usize {
    if s.total_items == 0 {
        IDLE_TEASERS
    } else if c.use_category {
        kind_len(teaser_kind(category))
    } else {
        GENERAL_TEASERS
    }
}

/// The teaser at position `c.pick` of the category list that `k` selects.
pub open spec fn category_teaser(k: TeaserKind, s: DayStats, c: TeaserChoices) -> Seq<char> {
    match k {
        TeaserKind::Meme => meme_teaser(c.pick as int),
        TeaserKind::Joke => joke_teaser(c.pick as int, count_text(s.jokes_found)),
        TeaserKind::News => news_teaser(c.pick as int, count_text(s.news_checked)),
        TeaserKind::Video => video_teaser(
            c.pick as int,
            decimal(video_seconds(c.first_video_draw) as nat),
            decimal(video_seconds(c.second_video_draw) as nat),
            decimal(video_seconds(c.third_video_draw) as nat),
        ),
        TeaserKind::Gossip => gossip_teaser(c.pick as int),
        TeaserKind::Other => other_teaser(c.pick as int, count_text(s.total_items)),
    }
}

/// The teaser for day `s` after a find in `category`, with the draws `c`:
/// an idle line while nothing is found, else a line about the latest find's
/// category or a general line on the day's counts.
pub open spec fn teaser_text(s: DayStats, category: Option<Seq<char>>, c: TeaserChoices) -> Seq<char> {
    if s.total_items == 0 {
        idle_teaser(c.pick as int)
    } else if c.use_category {
        category_teaser(teaser_kind(category), s, c)
    } else {
        general_teaser(
            c.pick as int,
            count_text(s.total_items),
            count_text(s.memes_found),
            count_text(s.jokes_found),
            count_text(s.news_checked),
            count_text(s.videos_found),
            decimal(s.estimated_time_saved_minutes as nat),
        )
    }
}

/// Tells which teaser list a category selects.
pub fn teaser_kind_of(category: Option<&str>) -> (k: TeaserKind)
    ensures
        k == teaser_kind(category_view(category)),
{
    match category {
        None => TeaserKind::Other,
        Some(c) => if str_equal(c, "meme") {
            TeaserKind::Meme
        } else if str_equal(c, "joke") {
            TeaserKind::Joke
        } else if str_equal(c, "news") {
            TeaserKind::News
        } else if str_equal(c, "video") {
            TeaserKind::Video
        } else if str_equal(c, "gossip") {
            TeaserKind::Gossip
        } else {
            TeaserKind::Other
        },
    }
}

/// The number of teasers in a list.
pub fn kind_length(k: TeaserKind) -> (n: usize)
    ensures
        n == kind_len(k),
{
    match k {
        TeaserKind::Meme => 12,
        TeaserKind::Joke => 12,
        TeaserKind::News => 12,
        TeaserKind::Video => 9,
        TeaserKind::Gossip => 9,
        TeaserKind::Other => 1,
    }
}

/// The `i`-th idle line, for a day with nothing found yet.
pub open spec fn idle_teaser(i: int) -> Seq<char> {
    if i == 0 {
        "Still warming up the doomscroll engines... You keep working."@
    } else if i == 1 {
        "Haven't found anything distracting yet. The internet is quiet. Suspicious."@
    } else if i == 2 {
        "Zero memes so far. Is the internet broken? Either way, keep focusing."@
    } else if i == 3 {
        "The crawler is stretching its legs. Give it a moment."@
    } else if i == 4 {
        "Nothing to report yet. The internet is playing hard to get."@
    } else if i == 5 {
        "No content found. Either the servers are down or everyone's being productive. Unlikely."@
    } else if i == 6 {
        "Still loading the first batch. In the meantime: work."@
    } else {
        "Scanning the internet for garbage... please stand by."@
    }
}

/// Renders the `i`-th idle line.
pub fn idle_teaser_text(i: usize) -> (s: String)
    requires
        i < 8,
    ensures
        s@ == idle_teaser(i as int),
{
    if i == 0 {
        String::from_str("Still warming up the doomscroll engines... You keep working.")
    } else if i == 1 {
        String::from_str("Haven't found anything distracting yet. The internet is quiet. Suspicious.")
    } else if i == 2 {
        String::from_str("Zero memes so far. Is the internet broken? Either way, keep focusing.")
    } else if i == 3 {
        String::from_str("The crawler is stretching its legs. Give it a moment.")
    } else if i == 4 {
        String::from_str("Nothing to report yet. The internet is playing hard to get.")
    } else if i == 5 {
        String::from_str("No content found. Either the servers are down or everyone's being productive. Unlikely.")
    } else if i == 6 {
        String::from_str("Still loading the first batch. In the meantime: work.")
    } else {
        String::from_str("Scanning the internet for garbage... please stand by.")
    }
}

/// The `i`-th teaser after a meme.
pub open spec fn meme_teaser(i: int) -> Seq<char> {
    if i == 0 {
        "Just saw the funniest meme. But you've got work to do."@
    } else if i == 1 {
        "Found a meme that made me snort. You can see it later."@
    } else if i == 2 {
        "The memes are fire today. You'll love them. Later though."@
    } else if i == 3 {
        "I've been looking at memes so you don't have to. You're welcome."@
    } else if i == 4 {
        "Just found a meme that would ruin your focus. Saving it for later."@
    } else if i == 5 {
        "The meme pipeline is flowing. You'll get yours at 5pm."@
    } else if i == 6 {
        "Saw something that would make you exhale sharply through your nose. Later."@
    } else if i == 7 {
        "A truly mid meme just came through. But in the current meta, that's fine."@
    } else if i == 8 {
        "Found a meme so good I almost told you about it. Almost."@
    } else if i == 9 {
        "Your meme reserves are growing nicely. Stay on task."@
    } else if i == 10 {
        "Another meme acquired. The collection grows. You work."@
    } else {
        "Intercepted a meme before it could distract you. I'm your concentration firewall."@
    }
}

/// Renders the `i`-th teaser after a meme.
pub fn meme_teaser_text(i: usize) -> (s: String)
    requires
        i < 12,
    ensures
        s@ == meme_teaser(i as int),
{
    if i == 0 {
        String::from_str("Just saw the funniest meme. But you've got work to do.")
    } else if i == 1 {
        String::from_str("Found a meme that made me snort. You can see it later.")
    } else if i == 2 {
        String::from_str("The memes are fire today. You'll love them. Later though.")
    } else if i == 3 {
        String::from_str("I've been looking at memes so you don't have to. You're welcome.")
    } else if i == 4 {
        String::from_str("Just found a meme that would ruin your focus. Saving it for later.")
    } else if i == 5 {
        String::from_str("The meme pipeline is flowing. You'll get yours at 5pm.")
    } else if i == 6 {
        String::from_str("Saw something that would make you exhale sharply through your nose. Later.")
    } else if i == 7 {
        String::from_str("A truly mid meme just came through. But in the current meta, that's fine.")
    } else if i == 8 {
        String::from_str("Found a meme so good I almost told you about it. Almost.")
    } else if i == 9 {
        String::from_str("Your meme reserves are growing nicely. Stay on task.")
    } else if i == 10 {
        String::from_str("Another meme acquired. The collection grows. You work.")
    } else {
        String::from_str("Intercepted a meme before it could distract you. I'm your concentration firewall.")
    }
}

/// The `i`-th teaser after a joke, with `jokes` the joke count.
pub open spec fn joke_teaser(i: int, jokes: Seq<char>) -> Seq<char> {
    if i == 0 {
        "Read "@ + jokes + " dad jokes. None were funny. You're not missing anything."@
    } else if i == 1 {
        "Why did the programmer quit? Because he didn't get arrays. Anyway, keep coding."@
    } else if i == 2 {
        "I just read a joke so bad it looped back around to being good. Focus."@
    } else if i == 3 {
        "Found a dad joke. It's terrible. You'll love it later."@
    } else if i == 4 {
        jokes + " jokes in and my sense of humor is legally dead. You're not missing much."@
    } else if i == 5 {
        "Found a joke so bad it might actually be a war crime. Saving it."@
    } else if i == 6 {
        "Another punchline landed. It hurt. Keep working."@
    } else if i == 7 {
        "The joke quality today is... aspirational. Stay focused."@
    } else if i == 8 {
        "Read a joke that made me question whether humor was a mistake. You'll see it later."@
    } else if i == 9 {
        "Just suffered through a pun. The damage is done. Keep coding."@
    } else if i == 10 {
        "If bad jokes were currency, I'd be rich. "@ + jokes + " and counting."@
    } else {
        "Someone on the internet tried to be funny. Bless their heart. Anyway — work."@
    }
}

/// Renders the `i`-th teaser after a joke.
pub fn joke_teaser_text(i: usize, jokes: &str) -> (s: String)
    requires
        i < 12,
    ensures
        s@ == joke_teaser(i as int, jokes@),
{
    if i == 0 {
        let mut s = String::from_str("Read ");
        s.append(jokes);
        s.append(" dad jokes. None were funny. You're not missing anything.");
        s
    } else if i == 1 {
        String::from_str("Why did the programmer quit? Because he didn't get arrays. Anyway, keep coding.")
    } else if i == 2 {
        String::from_str("I just read a joke so bad it looped back around to being good. Focus.")
    } else if i == 3 {
        String::from_str("Found a dad joke. It's terrible. You'll love it later.")
    } else if i == 4 {
        let mut s = String::from_str(jokes);
        s.append(" jokes in and my sense of humor is legally dead. You're not missing much.");
        s
    } else if i == 5 {
        String::from_str("Found a joke so bad it might actually be a war crime. Saving it.")
    } else if i == 6 {
        String::from_str("Another punchline landed. It hurt. Keep working.")
    } else if i == 7 {
        String::from_str("The joke quality today is... aspirational. Stay focused.")
    } else if i == 8 {
        String::from_str("Read a joke that made me question whether humor was a mistake. You'll see it later.")
    } else if i == 9 {
        String::from_str("Just suffered through a pun. The damage is done. Keep coding.")
    } else if i == 10 {
        let mut s = String::from_str("If bad jokes were currency, I'd be rich. ");
        s.append(jokes);
        s.append(" and counting.");
        s
    } else {
        String::from_str("Someone on the internet tried to be funny. Bless their heart. Anyway — work.")
    }
}

/// The `i`-th teaser after a news item, with `news` the news count.
pub open spec fn news_teaser(i: int, news: Seq<char>) -> Seq<char> {
    if i == 0 {
        "Checked the news "@ + news + " times. Nothing happened. Keep working."@
    } else if i == 1 {
        "Breaking: absolutely nothing important happened. Stay focused."@
    } else if i == 2 {
        "The news is still depressing. I'm reading it so you don't have to."@
    } else if i == 3 {
        "World still turning. No alien invasion yet. Back to work."@
    } else if i == 4 {
        "Scanned the headlines. Everything is fine. Probably. Keep working."@
    } else if i == 5 {
        "The news cycle continues its eternal rotation. Nothing for you to worry about."@
    } else if i == 6 {
        news + " articles checked. The world is still out there. Unfortunately."@
    } else if i == 7 {
        "News update: same stuff, different day. Stay productive."@
    } else if i == 8 {
        "Breaking news: nothing is broken. Well, nothing new. Focus."@
    } else if i == 9 {
        "Monitoring the news so you can maintain plausible deniability. Keep at it."@
    } else if i == 10 {
        "I've read the news. You don't need to. Trust me on this one."@
    } else {
        "Another news cycle absorbed. Your ignorance is bliss and also intentional."@
    }
}

/// Renders the `i`-th teaser after a news item.
pub fn news_teaser_text(i: usize, news: &str) -> (s: String)
    requires
        i < 12,
    ensures
        s@ == news_teaser(i as int, news@),
{
    if i == 0 {
        let mut s = String::from_str("Checked the news ");
        s.append(news);
        s.append(" times. Nothing happened. Keep working.");
        s
    } else if i == 1 {
        String::from_str("Breaking: absolutely nothing important happened. Stay focused.")
    } else if i == 2 {
        String::from_str("The news is still depressing. I'm reading it so you don't have to.")
    } else if i == 3 {
        String::from_str("World still turning. No alien invasion yet. Back to work.")
    } else if i == 4 {
        String::from_str("Scanned the headlines. Everything is fine. Probably. Keep working.")
    } else if i == 5 {
        String::from_str("The news cycle continues its eternal rotation. Nothing for you to worry about.")
    } else if i == 6 {
        let mut s = String::from_str(news);
        s.append(" articles checked. The world is still out there. Unfortunately.");
        s
    } else if i == 7 {
        String::from_str("News update: same stuff, different day. Stay productive.")
    } else if i == 8 {
        String::from_str("Breaking news: nothing is broken. Well, nothing new. Focus.")
    } else if i == 9 {
        String::from_str("Monitoring the news so you can maintain plausible deniability. Keep at it.")
    } else if i == 10 {
        String::from_str("I've read the news. You don't need to. Trust me on this one.")
    } else {
        String::from_str("Another news cycle absorbed. Your ignorance is bliss and also intentional.")
    }
}

/// The `i`-th teaser after a video, with three drawn video lengths.
pub open spec fn video_teaser(i: int, first: Seq<char>, second: Seq<char>, third: Seq<char>) -> Seq<char> {
    if i == 0 {
        "Just watched a cat video. It was adorable. You can't see it yet."@
    } else if i == 1 {
        "Found a video that's "@ + first + " seconds of pure joy. Save it for later."@
    } else if i == 2 {
        "The internet has blessed us with another funny video. Keep grinding."@
    } else if i == 3 {
        "Auto-played a video so you didn't have to. It was "@ + second + " seconds long. You'll survive."@
    } else if i == 4 {
        "Found a video. Is it important? No. Is it entertaining? Debatable. Keep working."@
    } else if i == 5 {
        "Another video consumed on your behalf. The algorithm thanks you for your sacrifice."@
    } else if i == 6 {
        "Watched a video that was either art or a waste of time. The line is thin."@
    } else if i == 7 {
        "A video just tried to grab your attention. I intercepted it. You're safe."@
    } else {
        "Previewed a "@ + third + "-second video. Your future self will decide if it was worth it."@
    }
}

/// Renders the `i`-th teaser after a video.
pub fn video_teaser_text(i: usize, first: &str, second: &str, third: &str) -> (s: String)
    requires
        i < 9,
    ensures
        s@ == video_teaser(i as int, first@, second@, third@),
{
    if i == 0 {
        String::from_str("Just watched a cat video. It was adorable. You can't see it yet.")
    } else if i == 1 {
        let mut s = String::from_str("Found a video that's ");
        s.append(first);
        s.append(" seconds of pure joy. Save it for later.");
        s
    } else if i == 2 {
        String::from_str("The internet has blessed us with another funny video. Keep grinding.")
    } else if i == 3 {
        let mut s = String::from_str("Auto-played a video so you didn't have to. It was ");
        s.append(second);
        s.append(" seconds long. You'll survive.");
        s
    } else if i == 4 {
        String::from_str("Found a video. Is it important? No. Is it entertaining? Debatable. Keep working.")
    } else if i == 5 {
        String::from_str("Another video consumed on your behalf. The algorithm thanks you for your sacrifice.")
    } else if i == 6 {
        String::from_str("Watched a video that was either art or a waste of time. The line is thin.")
    } else if i == 7 {
        String::from_str("A video just tried to grab your attention. I intercepted it. You're safe.")
    } else {
        let mut s = String::from_str("Previewed a ");
        s.append(third);
        s.append("-second video. Your future self will decide if it was worth it.");
        s
    }
}

/// The `i`-th teaser after a gossip item.
pub open spec fn gossip_teaser(i: int) -> Seq<char> {
    if i == 0 {
        "Celebrity did a thing. It's juicy. But you have deadlines."@
    } else if i == 1 {
        "Entertainment news update: drama happened. You can read about it at 5pm."@
    } else if i == 2 {
        "Someone famous did something dumb. Nothing new. Keep working."@
    } else if i == 3 {
        "A celebrity made a choice. The internet has opinions. You have a deadline."@
    } else if i == 4 {
        "Drama in the entertainment world. I'll brief you after hours."@
    } else if i == 5 {
        "Someone's publicist is having a bad day. You can read about it later."@
    } else if i == 6 {
        "The gossip mill turns. Your productivity doesn't have to stop for it."@
    } else if i == 7 {
        "Celebrity news intercepted. Relevance to your life: zero. Filed anyway."@
    } else {
        "Someone famous did something on social media. The world reacted. You didn't. Good."@
    }
}

/// Renders the `i`-th teaser after a gossip item.
pub fn gossip_teaser_text(i: usize) -> (s: String)
    requires
        i < 9,
    ensures
        s@ == gossip_teaser(i as int),
{
    if i == 0 {
        String::from_str("Celebrity did a thing. It's juicy. But you have deadlines.")
    } else if i == 1 {
        String::from_str("Entertainment news update: drama happened. You can read about it at 5pm.")
    } else if i == 2 {
        String::from_str("Someone famous did something dumb. Nothing new. Keep working.")
    } else if i == 3 {
        String::from_str("A celebrity made a choice. The internet has opinions. You have a deadline.")
    } else if i == 4 {
        String::from_str("Drama in the entertainment world. I'll brief you after hours.")
    } else if i == 5 {
        String::from_str("Someone's publicist is having a bad day. You can read about it later.")
    } else if i == 6 {
        String::from_str("The gossip mill turns. Your productivity doesn't have to stop for it.")
    } else if i == 7 {
        String::from_str("Celebrity news intercepted. Relevance to your life: zero. Filed anyway.")
    } else {
        String::from_str("Someone famous did something on social media. The world reacted. You didn't. Good.")
    }
}

/// The `i`-th teaser after any other item, with `total` the item count.
pub open spec fn other_teaser(i: int, total: Seq<char>) -> Seq<char> {
    "Found "@ + total + " interesting things while you've been working. Stay focused!"@
}

/// Renders the `i`-th teaser after any other item.
pub fn other_teaser_text(i: usize, total: &str) -> (s: String)
    requires
        i < 1,
    ensures
        s@ == other_teaser(i as int, total@),
{
    let mut s = String::from_str("Found ");
    s.append(total);
    s.append(" interesting things while you've been working. Stay focused!");
    s
}

/// The `i`-th general teaser, from the day's counts.
pub open spec fn general_teaser(i: int, total: Seq<char>, memes: Seq<char>, jokes: Seq<char>, news: Seq<char>, videos: Seq<char>, minutes: Seq<char>) -> Seq<char> {
    if i == 0 {
        "I've found "@ + total + " things today. "@ + memes + " memes, "@ + jokes + " jokes. You can binge later."@
    } else if i == 1 {
        "Doomscrolled for you: "@ + total + " items and counting. Estimated "@ + minutes + " minutes saved."@
    } else if i == 2 {
        "Your procrastination proxy is hard at work. "@ + total + " items catalogued."@
    } else if i == 3 {
        "I've checked "@ + news + " news articles, "@ + memes + " memes, and "@ + videos + " videos. You've checked zero. Perfect."@
    } else if i == 4 {
        total + " items collected and counting. Your curated doomscroll awaits."@
    } else if i == 5 {
        "The Cazzmachine has catalogued "@ + total + " distractions. They're not going anywhere."@
    } else if i == 6 {
        total + " things found so far. That's roughly "@ + minutes + " minutes of internet I absorbed for you."@
    } else if i == 7 {
        "Status report: "@ + memes + " memes, "@ + jokes + " jokes, "@ + news + " news articles. All handled. You're clear."@
    } else if i == 8 {
        total + " items deep. The internet has no bottom and neither does my patience."@
    } else if i == 9 {
        "Your doomscroll backlog grows: "@ + total + " items. You keep doing actual work."@
    } else if i == 10 {
        "I've been busy: "@ + total + " items consumed, "@ + minutes + " minutes of distraction neutralized."@
    } else if i == 11 {
        "Running tally: "@ + total + " items. At this rate, you might actually get things done today."@
    } else {
        total + " items of slop processed. Human-made or AI-generated? Not that it matters."@
    }
}

/// Renders the `i`-th general teaser.
pub fn general_teaser_text(i: usize, total: &str, memes: &str, jokes: &str, news: &str, videos: &str, minutes: &str) -> (s: String)
    requires
        i < 13,
    ensures
        s@ == general_teaser(i as int, total@, memes@, jokes@, news@, videos@, minutes@),
{
    if i == 0 {
        let mut s = String::from_str("I've found ");
        s.append(total);
        s.append(" things today. ");
        s.append(memes);
        s.append(" memes, ");
        s.append(jokes);
        s.append(" jokes. You can binge later.");
        s
    } else if i == 1 {
        let mut s = String::from_str("Doomscrolled for you: ");
        s.append(total);
        s.append(" items and counting. Estimated ");
        s.append(minutes);
        s.append(" minutes saved.");
        s
    } else if i == 2 {
        let mut s = String::from_str("Your procrastination proxy is hard at work. ");
        s.append(total);
        s.append(" items catalogued.");
        s
    } else if i == 3 {
        let mut s = String::from_str("I've checked ");
        s.append(news);
        s.append(" news articles, ");
        s.append(memes);
        s.append(" memes, and ");
        s.append(videos);
        s.append(" videos. You've checked zero. Perfect.");
        s
    } else if i == 4 {
        let mut s = String::from_str(total);
        s.append(" items collected and counting. Your curated doomscroll awaits.");
        s
    } else if i == 5 {
        let mut s = String::from_str("The Cazzmachine has catalogued ");
        s.append(total);
        s.append(" distractions. They're not going anywhere.");
        s
    } else if i == 6 {
        let mut s = String::from_str(total);
        s.append(" things found so far. That's roughly ");
        s.append(minutes);
        s.append(" minutes of internet I absorbed for you.");
        s
    } else if i == 7 {
        let mut s = String::from_str("Status report: ");
        s.append(memes);
        s.append(" memes, ");
        s.append(jokes);
        s.append(" jokes, ");
        s.append(news);
        s.append(" news articles. All handled. You're clear.");
        s
    } else if i == 8 {
        let mut s = String::from_str(total);
        s.append(" items deep. The internet has no bottom and neither does my patience.");
        s
    } else if i == 9 {
        let mut s = String::from_str("Your doomscroll backlog grows: ");
        s.append(total);
        s.append(" items. You keep doing actual work.");
        s
    } else if i == 10 {
        let mut s = String::from_str("I've been busy: ");
        s.append(total);
        s.append(" items consumed, ");
        s.append(minutes);
        s.append(" minutes of distraction neutralized.");
        s
    } else if i == 11 {
        let mut s = String::from_str("Running tally: ");
        s.append(total);
        s.append(" items. At this rate, you might actually get things done today.");
        s
    } else {
        let mut s = String::from_str(total);
        s.append(" items of slop processed. Human-made or AI-generated? Not that it matters.");
        s
    }
}

/// Law: the teasers that quote a count or a length quote the one they are given.
pub proof fn law_joke_teaser_quotes(i: int, jokes: Seq<char>)
    ensures
        (i == 0 || i == 4 || i == 10) ==> has_substring(joke_teaser(i, jokes), jokes),
{
    if i == 0 {
        lemma_occurs_between(joke_teaser(i, jokes), "Read "@, jokes, " dad jokes. None were funny. You're not missing anything."@);
    } else if i == 4 {
        lemma_occurs_between(joke_teaser(i, jokes), Seq::<char>::empty(), jokes, " jokes in and my sense of humor is legally dead. You're not missing much."@);
    } else if i == 10 {
        lemma_occurs_between(joke_teaser(i, jokes), "If bad jokes were currency, I'd be rich. "@, jokes, " and counting."@);
    }
}

/// Law: the teasers that quote a count or a length quote the one they are given.
pub proof fn law_news_teaser_quotes(i: int, news: Seq<char>)
    ensures
        (i == 0 || i == 6) ==> has_substring(news_teaser(i, news), news),
{
    if i == 0 {
        lemma_occurs_between(news_teaser(i, news), "Checked the news "@, news, " times. Nothing happened. Keep working."@);
    } else if i == 6 {
        lemma_occurs_between(news_teaser(i, news), Seq::<char>::empty(), news, " articles checked. The world is still out there. Unfortunately."@);
    }
}

/// Law: the teasers that quote a count or a length quote the one they are given.
pub proof fn law_video_teaser_quotes(i: int, first: Seq<char>, second: Seq<char>, third: Seq<char>)
    ensures
        i == 1 ==> has_substring(video_teaser(i, first, second, third), first),
        i == 3 ==> has_substring(video_teaser(i, first, second, third), second),
        i == 8 ==> has_substring(video_teaser(i, first, second, third), third),
{
    if i == 1 {
        lemma_occurs_between(video_teaser(i, first, second, third), "Found a video that's "@, first, " seconds of pure joy. Save it for later."@);
    } else if i == 3 {
        lemma_occurs_between(video_teaser(i, first, second, third), "Auto-played a video so you didn't have to. It was "@, second, " seconds long. You'll survive."@);
    } else if i == 8 {
        lemma_occurs_between(video_teaser(i, first, second, third), "Previewed a "@, third, "-second video. Your future self will decide if it was worth it."@);
    }
}

/// Law: the teasers that quote a count or a length quote the one they are given.
pub proof fn law_other_teaser_quotes(i: int, total: Seq<char>)
    ensures
        0 <= i < 1 ==> has_substring(other_teaser(i, total), total),
{
    if i == 0 {
        lemma_occurs_between(other_teaser(i, total), "Found "@, total, " interesting things while you've been working. Stay focused!"@);
    }
}

/// Law: the teasers that quote a count or a length quote the one they are given.
pub proof fn law_general_teaser_quotes(i: int, total: Seq<char>, memes: Seq<char>, jokes: Seq<char>, news: Seq<char>, videos: Seq<char>, minutes: Seq<char>)
    ensures
        (i == 0 || i == 1 || i == 2 || i == 4 || i == 5 || i == 6 || i == 8 || i == 9 || i == 10 || i == 11 || i == 12) ==> has_substring(general_teaser(i, total, memes, jokes, news, videos, minutes), total),
        (i == 0 || i == 3 || i == 7) ==> has_substring(general_teaser(i, total, memes, jokes, news, videos, minutes), memes),
        (i == 0 || i == 7) ==> has_substring(general_teaser(i, total, memes, jokes, news, videos, minutes), jokes),
        (i == 1 || i == 6 || i == 10) ==> has_substring(general_teaser(i, total, memes, jokes, news, videos, minutes), minutes),
        (i == 3 || i == 7) ==> has_substring(general_teaser(i, total, memes, jokes, news, videos, minutes), news),
        i == 3 ==> has_substring(general_teaser(i, total, memes, jokes, news, videos, minutes), videos),
{
    if i == 0 {
        lemma_occurs_between(general_teaser(i, total, memes, jokes, news, videos, minutes), "I've found "@, total, " things today. "@ + memes + " memes, "@ + jokes + " jokes. You can binge later."@);
        lemma_occurs_between(general_teaser(i, total, memes, jokes, news, videos, minutes), "I've found "@ + total + " things today. "@, memes, " memes, "@ + jokes + " jokes. You can binge later."@);
        lemma_occurs_between(general_teaser(i, total, memes, jokes, news, videos, minutes), "I've found "@ + total + " things today. "@ + memes + " memes, "@, jokes, " jokes. You can binge later."@);
    } else if i == 1 {
        lemma_occurs_between(general_teaser(i, total, memes, jokes, news, videos, minutes), "Doomscrolled for you: "@, total, " items and counting. Estimated "@ + minutes + " minutes saved."@);
        lemma_occurs_between(general_teaser(i, total, memes, jokes, news, videos, minutes), "Doomscrolled for you: "@ + total + " items and counting. Estimated "@, minutes, " minutes saved."@);
    } else if i == 2 {
        lemma_occurs_between(general_teaser(i, total, memes, jokes, news, videos, minutes), "Your procrastination proxy is hard at work. "@, total, " items catalogued."@);
    } else if i == 3 {
        lemma_occurs_between(general_teaser(i, total, memes, jokes, news, videos, minutes), "I've checked "@, news, " news articles, "@ + memes + " memes, and "@ + videos + " videos. You've checked zero. Perfect."@);
        lemma_occurs_between(general_teaser(i, total, memes, jokes, news, videos, minutes), "I've checked "@ + news + " news articles, "@, memes, " memes, and "@ + videos + " videos. You've checked zero. Perfect."@);
        lemma_occurs_between(general_teaser(i, total, memes, jokes, news, videos, minutes), "I've checked "@ + news + " news articles, "@ + memes + " memes, and "@, videos, " videos. You've checked zero. Perfect."@);
    } else if i == 4 {
        lemma_occurs_between(general_teaser(i, total, memes, jokes, news, videos, minutes), Seq::<char>::empty(), total, " items collected and counting. Your curated doomscroll awaits."@);
    } else if i == 5 {
        lemma_occurs_between(general_teaser(i, total, memes, jokes, news, videos, minutes), "The Cazzmachine has catalogued "@, total, " distractions. They're not going anywhere."@);
    } else if i == 6 {
        lemma_occurs_between(general_teaser(i, total, memes, jokes, news, videos, minutes), Seq::<char>::empty(), total, " things found so far. That's roughly "@ + minutes + " minutes of internet I absorbed for you."@);
        lemma_occurs_between(general_teaser(i, total, memes, jokes, news, videos, minutes), total + " things found so far. That's roughly "@, minutes, " minutes of internet I absorbed for you."@);
    } else if i == 7 {
        lemma_occurs_between(general_teaser(i, total, memes, jokes, news, videos, minutes), "Status report: "@, memes, " memes, "@ + jokes + " jokes, "@ + news + " news articles. All handled. You're clear."@);
        lemma_occurs_between(general_teaser(i, total, memes, jokes, news, videos, minutes), "Status report: "@ + memes + " memes, "@, jokes, " jokes, "@ + news + " news articles. All handled. You're clear."@);
        lemma_occurs_between(general_teaser(i, total, memes, jokes, news, videos, minutes), "Status report: "@ + memes + " memes, "@ + jokes + " jokes, "@, news, " news articles. All handled. You're clear."@);
    } else if i == 8 {
        lemma_occurs_between(general_teaser(i, total, memes, jokes, news, videos, minutes), Seq::<char>::empty(), total, " items deep. The internet has no bottom and neither does my patience."@);
    } else if i == 9 {
        lemma_occurs_between(general_teaser(i, total, memes, jokes, news, videos, minutes), "Your doomscroll backlog grows: "@, total, " items. You keep doing actual work."@);
    } else if i == 10 {
        lemma_occurs_between(general_teaser(i, total, memes, jokes, news, videos, minutes), "I've been busy: "@, total, " items consumed, "@ + minutes + " minutes of distraction neutralized."@);
        lemma_occurs_between(general_teaser(i, total, memes, jokes, news, videos, minutes), "I've been busy: "@ + total + " items consumed, "@, minutes, " minutes of distraction neutralized."@);
    } else if i == 11 {
        lemma_occurs_between(general_teaser(i, total, memes, jokes, news, videos, minutes), "Running tally: "@, total, " items. At this rate, you might actually get things done today."@);
    } else if i == 12 {
        lemma_occurs_between(general_teaser(i, total, memes, jokes, news, videos, minutes), Seq::<char>::empty(), total, " items of slop processed. Human-made or AI-generated? Not that it matters."@);
    }
}

/// Law: after a find in one of the known categories, a category teaser is
/// taken from that category's own list (quoting that category's count where
/// it quotes one); after any other find, or none, from the catch-all list.
pub proof fn law_teaser_follows_category(s: DayStats, c: TeaserChoices, other: Seq<char>)
    requires
        s.total_items > 0,
        c.use_category,
    ensures
        teaser_text(s, Some("meme"@), c) == meme_teaser(c.pick as int),
        pick_bound(s, Some("meme"@), c) == 12,
        teaser_text(s, Some("joke"@), c) == joke_teaser(c.pick as int, count_text(s.jokes_found)),
        pick_bound(s, Some("joke"@), c) == 12,
        teaser_text(s, Some("news"@), c) == news_teaser(c.pick as int, count_text(s.news_checked)),
        pick_bound(s, Some("news"@), c) == 12,
        teaser_text(s, Some("video"@), c) == video_teaser(
            c.pick as int,
            decimal(video_seconds(c.first_video_draw) as nat),
            decimal(video_seconds(c.second_video_draw) as nat),
            decimal(video_seconds(c.third_video_draw) as nat),
        ),
        pick_bound(s, Some("video"@), c) == 9,
        teaser_text(s, Some("gossip"@), c) == gossip_teaser(c.pick as int),
        pick_bound(s, Some("gossip"@), c) == 9,
        teaser_text(s, None, c) == other_teaser(c.pick as int, count_text(s.total_items)),
        other != "meme"@ && other != "joke"@ && other != "news"@ && other != "video"@ && other
            != "gossip"@ ==> teaser_text(s, Some(other), c) == other_teaser(
            c.pick as int,
            count_text(s.total_items),
        ),
{
    reveal_strlit("meme");
    reveal_strlit("joke");
    reveal_strlit("news");
    reveal_strlit("video");
    reveal_strlit("gossip");
    assert("joke"@[0] != "meme"@[0]);
    assert("news"@[0] != "meme"@[0] && "news"@[0] != "joke"@[0]);
    assert("video"@.len() != "meme"@.len() && "video"@.len() != "joke"@.len());
    assert("video"@.len() != "news"@.len());
    assert("gossip"@.len() != "meme"@.len() && "gossip"@.len() != "joke"@.len());
    assert("gossip"@.len() != "news"@.len() && "gossip"@.len() != "video"@.len());
}

/// Law: a video teaser quotes a length of 10 to 49 seconds.
pub proof fn law_video_seconds_range(draw: u32)
    ensures
        10 <= video_seconds(draw) <= 49,
{
}

/// Law: on a day with finds, the teasers that quote the day's figures quote
/// the right ones: the total, meme, joke, news and video counts and the
/// total minutes saved in the general teasers, the joke or news count after
/// a joke or news find, and the drawn video lengths after a video.
pub proof fn law_teaser_quotes_figures(s: DayStats, category: Option<Seq<char>>, c: TeaserChoices)
    requires
        s.total_items > 0,
    ensures
        !c.use_category && (c.pick == 1 || c.pick == 6 || c.pick == 10) ==> {
            let minutes_saved = decimal(s.estimated_time_saved_minutes as nat);
            has_substring(teaser_text(s, category, c), minutes_saved)
        },
        !c.use_category && (c.pick == 0 || c.pick == 1 || c.pick == 2 || c.pick == 4 || c.pick == 5
            || c.pick == 6 || c.pick == 8 || c.pick == 9 || c.pick == 10 || c.pick == 11 || c.pick
            == 12) ==> has_substring(teaser_text(s, category, c), count_text(s.total_items)),
        !c.use_category && (c.pick == 0 || c.pick == 3 || c.pick == 7) ==> has_substring(
            teaser_text(s, category, c),
            count_text(s.memes_found),
        ),
        !c.use_category && (c.pick == 0 || c.pick == 7) ==> has_substring(
            teaser_text(s, category, c),
            count_text(s.jokes_found),
        ),
        !c.use_category && (c.pick == 3 || c.pick == 7) ==> has_substring(
            teaser_text(s, category, c),
            count_text(s.news_checked),
        ),
        !c.use_category && c.pick == 3 ==> has_substring(
            teaser_text(s, category, c),
            count_text(s.videos_found),
        ),
        c.use_category && category == Some("joke"@) && (c.pick == 0 || c.pick == 4 || c.pick == 10)
            ==> has_substring(teaser_text(s, category, c), count_text(s.jokes_found)),
        c.use_category && category == Some("news"@) && (c.pick == 0 || c.pick == 6) ==> has_substring(
            teaser_text(s, category, c),
            count_text(s.news_checked),
        ),
        c.use_category && category == Some("video"@) && c.pick == 1 ==> has_substring(
            teaser_text(s, category, c),
            decimal(video_seconds(c.first_video_draw) as nat),
        ),
        c.use_category && category == Some("video"@) && c.pick == 3 ==> has_substring(
            teaser_text(s, category, c),
            decimal(video_seconds(c.second_video_draw) as nat),
        ),
        c.use_category && category == Some("video"@) && c.pick == 8 ==> has_substring(
            teaser_text(s, category, c),
            decimal(video_seconds(c.third_video_draw) as nat),
        ),
{
    if c.use_category {
        law_teaser_follows_category(s, c, Seq::empty());
        law_joke_teaser_quotes(c.pick as int, count_text(s.jokes_found));
        law_news_teaser_quotes(c.pick as int, count_text(s.news_checked));
        law_video_teaser_quotes(
            c.pick as int,
            decimal(video_seconds(c.first_video_draw) as nat),
            decimal(video_seconds(c.second_video_draw) as nat),
            decimal(video_seconds(c.third_video_draw) as nat),
        );
    } else {
        law_general_teaser_quotes(
            c.pick as int,
            count_text(s.total_items),
            count_text(s.memes_found),
            count_text(s.jokes_found),
            count_text(s.news_checked),
            count_text(s.videos_found),
            decimal(s.estimated_time_saved_minutes as nat),
        );
    }
}

/// Law: before anything is found, every teaser is one of the idle lines,
/// whatever the latest category and the draws.
pub proof fn law_empty_day_teaser(s: DayStats, category: Option<Seq<char>>, c: TeaserChoices)
    requires
        s.total_items == 0,
    ensures
        teaser_text(s, category, c) == idle_teaser(c.pick as int),
        pick_bound(s, category, c) == IDLE_TEASERS,
{
}

/// Writes the teaser for `stats` after a find in `latest_category`, with
/// the draws `c`.
pub fn compose_teaser(stats: &DayStats, latest_category: Option<&str>, c: &TeaserChoices) -> (s:
    String)
    requires
        c.pick < pick_bound(*stats, category_view(latest_category), *c),
    ensures
        s@ == teaser_text(*stats, category_view(latest_category), *c),
{
    if stats.total_items == 0 {
        return idle_teaser_text(c.pick);
    }
    if c.use_category {
        let k = teaser_kind_of(latest_category);
        match k {
            TeaserKind::Meme => meme_teaser_text(c.pick),
            TeaserKind::Joke => joke_teaser_text(
                c.pick,
                decimal_string(stats.jokes_found).as_str(),
            ),
            TeaserKind::News => news_teaser_text(
                c.pick,
                decimal_string(stats.news_checked).as_str(),
            ),
            TeaserKind::Video => {
                let first = decimal_string((c.first_video_draw % 40 + 10) as u64);
                let second = decimal_string((c.second_video_draw % 40 + 10) as u64);
                let third = decimal_string((c.third_video_draw % 40 + 10) as u64);
                video_teaser_text(c.pick, first.as_str(), second.as_str(), third.as_str())
            },
            TeaserKind::Gossip => gossip_teaser_text(c.pick),
            TeaserKind::Other => other_teaser_text(
                c.pick,
                decimal_string(stats.total_items).as_str(),
            ),
        }
    } else {
        let total = decimal_string(stats.total_items);
        let memes = decimal_string(stats.memes_found);
        let jokes = decimal_string(stats.jokes_found);
        let news = decimal_string(stats.news_checked);
        let videos = decimal_string(stats.videos_found);
        let minutes = decimal_string(stats.estimated_time_saved_minutes as u64);
        general_teaser_text(
            c.pick,
            total.as_str(),
            memes.as_str(),
            jokes.as_str(),
            news.as_str(),
            videos.as_str(),
            minutes.as_str(),
        )
    }
}

/// Writes a teaser for `stats` after a find in `latest_category`, drawing
/// the teaser at random from its list (and, after a video, the lengths it
/// quotes). `use_category` says whether the category list or the general
/// list is drawn from; it is unused while nothing has been found.
pub fn generate_teaser(stats: &DayStats, latest_category: Option<&str>, use_category: bool) -> (s:
    String)
    ensures
        exists|c: TeaserChoices|
            c.use_category == use_category && c.pick < pick_bound(
                *stats,
                category_view(latest_category),
                c,
            ) && s@ == teaser_text(*stats, category_view(latest_category), c),
{
    let mut c = TeaserChoices {
        pick: 0,
        use_category,
        first_video_draw: 0,
        second_video_draw: 0,
        third_video_draw: 0,
    };
    if stats.total_items == 0 {
        c.pick = random_index(IDLE_TEASERS);
    } else {
        let k = teaser_kind_of(latest_category);
        if k == TeaserKind::Video {
            c.first_video_draw = random_u32();
            c.second_video_draw = random_u32();
            c.third_video_draw = random_u32();
        }
        if use_category {
            c.pick = random_index(kind_length(k));
        } else {
            c.pick = random_index(GENERAL_TEASERS);
        }
    }
    let s = compose_teaser(stats, latest_category, &c);
    assert(c.use_category == use_category && c.pick < pick_bound(
        *stats,
        category_view(latest_category),
        c,
    ) && s@ == teaser_text(*stats, category_view(latest_category), c));
    s
}

} // verus!
