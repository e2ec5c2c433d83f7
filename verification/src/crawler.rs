//! Crawl planning and bookkeeping: how many providers a cycle uses, which
//! providers exist, when a crawl is retried, when the buffer is refilled, and
//! what each step records in the diagnostic log.

use vstd::prelude::*;
use crate::diagnostics::{DiagnosticEvent, event_is, make_event};
use crate::text::{decimal, decimal_string, str_equal};

verus! {

/// The number of content providers.
pub const PROVIDER_COUNT: usize = 13;

/// Providers crawled per cycle at throttle level `level`.
pub open spec fn providers_for_level(level: u8) -> usize {
    if level >= 7 {
        13
    } else if level >= 4 {
        if 6 + (level - 4) * 2 <= 13 { (6 + (level - 4) * 2) as usize } else { 13 }
    } else {
        if 3 + level <= 13 { (3 + level) as usize } else { 13 }
    }
}

/// How many providers a crawl cycle uses at throttle level `level`.
pub fn providers_per_cycle(level: u8) -> (n: usize)
    ensures
        n == providers_for_level(level),
{
    if level >= 7 {
        13
    } else if level >= 4 {
        6 + (level as usize - 4) * 2
    } else {
        3 + level as usize
    }
}

/// Law: every cycle crawls at least one provider and never more than exist;
/// a higher throttle level never crawls fewer providers, and from level 7 on
/// all of them are crawled.
pub proof fn law_providers_per_cycle(level: u8, higher: u8)
    ensures
        0 < providers_for_level(level) <= PROVIDER_COUNT,
        level <= higher ==> providers_for_level(level) <= providers_for_level(higher),
        level >= 7 ==> providers_for_level(level) == PROVIDER_COUNT,
{
}

/// The content providers, in their fixed order.
#[derive(PartialEq, Eq, Structural, Clone, Copy, Debug)]
pub enum ProviderKind {
    RedditMemes,
    RedditDadJokes,
    RedditCelebrityGossip,
    DadJoke,
    RedditMeme,
    RedditVideo,
    Gossip,
    GoogleNews,
    JokeApi,
    UselessFacts,
    ChuckNorris,
    HackerNews,
    BbcNews,
}

/// The provider at position `idx`; positions past the last give the last.
pub open spec fn provider_at(idx: int) -> ProviderKind {
    if idx == 0 {
        ProviderKind::RedditMemes
    } else if idx == 1 {
        ProviderKind::RedditDadJokes
    } else if idx == 2 {
        ProviderKind::RedditCelebrityGossip
    } else if idx == 3 {
        ProviderKind::DadJoke
    } else if idx == 4 {
        ProviderKind::RedditMeme
    } else if idx == 5 {
        ProviderKind::RedditVideo
    } else if idx == 6 {
        ProviderKind::Gossip
    } else if idx == 7 {
        ProviderKind::GoogleNews
    } else if idx == 8 {
        ProviderKind::JokeApi
    } else if idx == 9 {
        ProviderKind::UselessFacts
    } else if idx == 10 {
        ProviderKind::ChuckNorris
    } else if idx == 11 {
        ProviderKind::HackerNews
    } else {
        ProviderKind::BbcNews
    }
}

/// The provider at position `idx`.
pub fn make_provider(idx: usize) -> (p: ProviderKind)
    ensures
        p == provider_at(idx as int),
{
    match idx {
        0 => ProviderKind::RedditMemes,
        1 => ProviderKind::RedditDadJokes,
        2 => ProviderKind::RedditCelebrityGossip,
        3 => ProviderKind::DadJoke,
        4 => ProviderKind::RedditMeme,
        5 => ProviderKind::RedditVideo,
        6 => ProviderKind::Gossip,
        7 => ProviderKind::GoogleNews,
        8 => ProviderKind::JokeApi,
        9 => ProviderKind::UselessFacts,
        10 => ProviderKind::ChuckNorris,
        11 => ProviderKind::HackerNews,
        _ => ProviderKind::BbcNews,
    }
}

/// Every provider, in order: what a full crawl uses.
pub fn all_providers() -> (v: Vec<ProviderKind>)
    ensures
        v@.len() == PROVIDER_COUNT,
        forall|i: int| 0 <= i < PROVIDER_COUNT ==> v@[i] == provider_at(i),
{
    let mut v: Vec<ProviderKind> = Vec::new();
    let mut i: usize = 0;
    while i < PROVIDER_COUNT
        invariant
            i <= PROVIDER_COUNT,
            v@.len() == i,
            forall|k: int| 0 <= k < i ==> v@[k] == provider_at(k),
        decreases PROVIDER_COUNT - i,
    {
        v.push(make_provider(i));
        i = i + 1;
    }
    v
}

/// Law: the positions name thirteen different providers, so a full crawl
/// visits each provider exactly once.
pub proof fn law_providers_distinct(i: int, j: int)
    requires
        0 <= i < PROVIDER_COUNT,
        0 <= j < PROVIDER_COUNT,
        i != j,
    ensures
        provider_at(i) != provider_at(j),
{
}

/// The position of the provider that a stored provider name stands for.
pub open spec fn name_index(name: Seq<char>) -> Option<usize> {
    if name == "memes"@ {
        Some(0)
    } else if name == "dad_jokes"@ {
        Some(1)
    } else if name == "celebrity_gossip"@ {
        Some(2)
    } else if name == "icanhazdadjoke"@ || name == "dadjoke"@ {
        Some(3)
    } else if name == "reddit-memes"@ || name == "reddit_meme"@ || name == "reddit_memes"@ {
        Some(4)
    } else if name == "reddit-videos"@ || name == "reddit_video"@ {
        Some(5)
    } else if name == "gossip"@ {
        Some(6)
    } else if name == "google-news"@ || name == "google_news"@ {
        Some(7)
    } else if name == "jokeapi"@ {
        Some(8)
    } else if name == "uselessfacts"@ {
        Some(9)
    } else if name == "chucknorris"@ {
        Some(10)
    } else if name == "hackernews"@ {
        Some(11)
    } else if name == "bbc-news"@ || name == "bbcnews"@ {
        Some(12)
    } else {
        None
    }
}

/// The position of the provider that `name` stands for, accepting the
/// several spellings that stored statistics use.
pub fn name_to_idx(name: &str) -> (r: Option<usize>)
    ensures
        r == name_index(name@),
{
    if str_equal(name, "memes") {
        Some(0)
    } else if str_equal(name, "dad_jokes") {
        Some(1)
    } else if str_equal(name, "celebrity_gossip") {
        Some(2)
    } else if str_equal(name, "icanhazdadjoke") || str_equal(name, "dadjoke") {
        Some(3)
    } else if str_equal(name, "reddit-memes") || str_equal(name, "reddit_meme") || str_equal(
        name,
        "reddit_memes",
    ) {
        Some(4)
    } else if str_equal(name, "reddit-videos") || str_equal(name, "reddit_video") {
        Some(5)
    } else if str_equal(name, "gossip") {
        Some(6)
    } else if str_equal(name, "google-news") || str_equal(name, "google_news") {
        Some(7)
    } else if str_equal(name, "jokeapi") {
        Some(8)
    } else if str_equal(name, "uselessfacts") {
        Some(9)
    } else if str_equal(name, "chucknorris") {
        Some(10)
    } else if str_equal(name, "hackernews") {
        Some(11)
    } else if str_equal(name, "bbc-news") || str_equal(name, "bbcnews") {
        Some(12)
    } else {
        None
    }
}

/// Law: a recognised name always leads to one of the providers.
pub proof fn law_name_index_in_range(name: Seq<char>)
    ensures
        name_index(name) matches Some(i) ==> i < PROVIDER_COUNT,
{
}

/// Rounds a manual crawl makes before it gives up.
pub const TRIGGER_CRAWL_ATTEMPTS: u32 = 3;
/// Rounds a buffer refill makes before it gives up.
pub const REFILL_CRAWL_ATTEMPTS: u32 = 2;

/// What a retried crawl has done so far.
pub struct CrawlRetryView {
    pub max_attempts: u32,
    /// Rounds that added nothing.
    pub attempts: u32,
    /// Items that the last round added.
    pub items_added: u32,
    pub finished: bool,
}

/// The states a retried crawl can be in: it stops at the first round that
/// adds items, or when `max_attempts` rounds have added nothing.
pub open spec fn retry_valid(v: CrawlRetryView) -> bool {
    &&& v.attempts <= v.max_attempts
    &&& v.items_added > 0 ==> v.attempts < v.max_attempts
    &&& v.finished <==> (v.items_added > 0 || v.attempts == v.max_attempts)
}

/// Crawl rounds run so far.
pub open spec fn rounds_run(v: CrawlRetryView) -> nat {
    if v.items_added > 0 {
        (v.attempts + 1) as nat
    } else {
        v.attempts as nat
    }
}

/// The retry loop of a crawl: crawl again while rounds add nothing, up to a
/// fixed number of rounds.
pub struct CrawlRetry {
    max_attempts: u32,
    attempts: u32,
    items_added: u32,
}

impl View for CrawlRetry {
    type V = CrawlRetryView;

    closed spec fn view(&self) -> CrawlRetryView {
        CrawlRetryView {
            max_attempts: self.max_attempts,
            attempts: self.attempts,
            items_added: self.items_added,
            finished: self.items_added > 0 || self.attempts >= self.max_attempts,
        }
    }
}

impl CrawlRetry {
    #[verifier::type_invariant]
    spec fn consistent(self) -> bool {
        &&& self.attempts <= self.max_attempts
        &&& self.items_added > 0 ==> self.attempts < self.max_attempts
    }

    /// A retry loop that allows `max_attempts` rounds and has run none.
    pub fn new(max_attempts: u32) -> (r: CrawlRetry)
        ensures
            r@.max_attempts == max_attempts,
            r@.attempts == 0,
            r@.items_added == 0,
            retry_valid(r@),
    {
        CrawlRetry { max_attempts, attempts: 0, items_added: 0 }
    }

    /// Whether another crawl round is due.
    pub fn should_crawl(&self) -> (r: bool)
        ensures
            r == !self@.finished,
            retry_valid(self@),
    {
        proof {
            use_type_invariant(self);
        }
        self.items_added == 0 && self.attempts < self.max_attempts
    }

    /// Records that a round added `added` items.
    pub fn record_round(&mut self, added: u32)
        requires
            !old(self)@.finished,
        ensures
            final(self)@.max_attempts == old(self)@.max_attempts,
            final(self)@.items_added == added,
            added > 0 ==> final(self)@.attempts == old(self)@.attempts,
            added == 0 ==> final(self)@.attempts == old(self)@.attempts + 1,
            rounds_run(final(self)@) == rounds_run(old(self)@) + 1,
            retry_valid(final(self)@),
    {
        proof {
            use_type_invariant(&*self);
        }
        if added > 0 {
            self.items_added = added;
        } else {
            self.attempts = self.attempts + 1;
        }
    }

    /// Items added by the last round (zero if none ran or all failed).
    pub fn items_added(&self) -> (r: u32)
        ensures
            r == self@.items_added,
            retry_valid(self@),
    {
        proof {
            use_type_invariant(self);
        }
        self.items_added
    }
}

/// Law: a retried crawl never runs more rounds than it allows, and once it
/// has finished with nothing added, it has used every round.
pub proof fn law_retry_bounded(v: CrawlRetryView)
    requires
        retry_valid(v),
    ensures
        rounds_run(v) <= v.max_attempts,
        v.finished && v.items_added == 0 ==> rounds_run(v) == v.max_attempts,
        !v.finished ==> v.items_added == 0 && rounds_run(v) < v.max_attempts,
{
}

/// Whether a buffer in state `health` asks for a refill crawl at throttle
/// level `throttle_level`.
pub open spec fn refill_wanted(health: Seq<char>, throttle_level: u8) -> bool {
    health == "critical"@ || health == "low"@ || (throttle_level >= 7 && health == "moderate"@)
}

/// Whether the buffer needs a refill crawl before items are consumed: always
/// when critical or low, and also when moderate at throttle level 7 or more.
pub fn needs_refill(health: &str, throttle_level: u8) -> (r: bool)
    ensures
        r == refill_wanted(health@, throttle_level),
{
    str_equal(health, "critical") || str_equal(health, "low") || (throttle_level >= 7 && str_equal(
        health,
        "moderate",
    ))
}

/// Law: a higher throttle level never refills less often.
pub proof fn law_refill_monotone(health: Seq<char>, level: u8, higher: u8)
    requires
        level <= higher,
        refill_wanted(health, level),
    ensures
        refill_wanted(health, higher),
{
}

/// The event that opens a refill.
pub fn refill_start_event(health: &str) -> (e: DiagnosticEvent)
    ensures
        event_is(e, "buffer_refill"@, "info"@, "Buffer health: "@ + health@ + ", triggering refill crawl"@),
{
    let mut msg = String::from_str("Buffer health: ");
    msg.append(health);
    msg.append(", triggering refill crawl");
    make_event("buffer_refill", "info", msg)
}

/// The event that closes a refill that added `items_added` items.
pub fn refill_done_event(items_added: u32) -> (e: DiagnosticEvent)
    ensures
        event_is(
            e,
            "buffer_refill"@,
            "info"@,
            "Buffer refill crawl added "@ + decimal(items_added as nat) + " items"@,
        ),
{
    let mut msg = String::from_str("Buffer refill crawl added ");
    msg.append(decimal_string(items_added as u64).as_str());
    msg.append(" items");
    make_event("buffer_refill", "info", msg)
}

/// The event that records how long a provider took.
pub fn fetch_timing_event(provider_name: &str, elapsed_ms: u64) -> (e: DiagnosticEvent)
    ensures
        event_is(
            e,
            "crawl_timing"@,
            "debug"@,
            provider_name@ + ": fetched in "@ + decimal(elapsed_ms as nat) + "ms"@,
        ),
{
    let mut msg = String::from_str(provider_name);
    msg.append(": fetched in ");
    msg.append(decimal_string(elapsed_ms).as_str());
    msg.append("ms");
    make_event("crawl_timing", "debug", msg)
}

/// What one provider's fetch means for its statistics and the log.
pub struct FetchReport {
    /// Whether the fetch counts as a success in the provider's statistics.
    pub success: bool,
    pub event: DiagnosticEvent,
}

/// The report on a fetch that returned `item_count` items: a success when
/// any came back.
pub fn fetch_report(provider_name: &str, item_count: usize) -> (r: FetchReport)
    ensures
        r.success == (item_count > 0),
        item_count > 0 ==> event_is(
            r.event,
            "crawl_success"@,
            "info"@,
            provider_name@ + ": fetched "@ + decimal(item_count as nat) + " items"@,
        ),
        item_count == 0 ==> event_is(
            r.event,
            "crawl_error"@,
            "warn"@,
            provider_name@ + ": no items fetched"@,
        ),
{
    if item_count > 0 {
        let mut msg = String::from_str(provider_name);
        msg.append(": fetched ");
        msg.append(decimal_string(item_count as u64).as_str());
        msg.append(" items");
        FetchReport { success: true, event: make_event("crawl_success", "info", msg) }
    } else {
        let mut msg = String::from_str(provider_name);
        msg.append(": no items fetched");
        FetchReport { success: false, event: make_event("crawl_error", "warn", msg) }
    }
}

/// What storing one fetched item came to.
#[derive(PartialEq, Eq, Structural, Clone, Copy, Debug)]
pub enum InsertOutcome {
    /// The item was new and is now stored.
    Inserted,
    /// The item was stored before.
    AlreadyStored,
    /// Storing failed.
    Failed,
}

/// The running count of new items in one crawl.
pub struct CrawlTally {
    pub items_added: u32,
}

impl CrawlTally {
    /// A crawl that has added nothing yet.
    pub fn new() -> (t: CrawlTally)
        ensures
            t.items_added == 0,
    {
        CrawlTally { items_added: 0 }
    }

    /// Counts one stored item: only a newly inserted one adds to the total.
    pub fn record_insert(&mut self, outcome: InsertOutcome)
        requires
            outcome == InsertOutcome::Inserted ==> old(self).items_added < u32::MAX,
        ensures
            outcome == InsertOutcome::Inserted ==> final(self).items_added == old(self).items_added + 1,
            outcome != InsertOutcome::Inserted ==> final(self).items_added == old(self).items_added,
    {
        match outcome {
            InsertOutcome::Inserted => {
                self.items_added = self.items_added + 1;
            },
            _ => {},
        }
    }

    /// The event that closes the crawl.
    pub fn complete_event(&self) -> (e: DiagnosticEvent)
        ensures
            event_is(
                e,
                "crawl_complete"@,
                "info"@,
                "Crawl complete: "@ + decimal(self.items_added as nat) + " new items"@,
            ),
    {
        let mut msg = String::from_str("Crawl complete: ");
        msg.append(decimal_string(self.items_added as u64).as_str());
        msg.append(" new items");
        make_event("crawl_complete", "info", msg)
    }
}

} // verus!
