use std::collections::BTreeMap;

use xkcd::comic::Comic;
use xkcd::error::SyncError;
use xkcd::fetch::{load_comic, FetchAction, FetchEvent, FetchOutcome, FetchState, RetryPolicy};
use xkcd::settings::SettingsCall;
use xkcd::sync::{index_comics, SyncAction, SyncEvent, SyncState};

fn titled(num: usize, title: &str) -> Comic {
    Comic {
        month: String::from("1"),
        num,
        link: String::new(),
        year: String::from("2024"),
        news: String::new(),
        safe_title: String::from(title),
        transcript: String::new(),
        alt: format!("alt {}", num),
        img: format!("https://imgs.xkcd.com/comics/{}.png", num),
        title: String::from(title),
        day: String::from("1"),
    }
}

fn sample(num: usize) -> Comic {
    titled(num, &format!("Comic {}", num))
}

/// One scripted answer of the feed to a request for a comic.
#[derive(Clone)]
enum Answer {
    Status(u16),
    Down,
    Garbage,
}

/// A feed in memory: the published comics, answers scripted for single
/// numbers (used up one by one, before the feed answers by itself), and a
/// record of what was asked.
struct Feed {
    published: BTreeMap<usize, Comic>,
    head_fails: bool,
    scripted: BTreeMap<usize, Vec<Answer>>,
    requested: Vec<usize>,
    head_requests: usize,
    pauses: Vec<u64>,
}

impl Feed {
    fn with(nums: &[usize]) -> Feed {
        let mut published = BTreeMap::new();
        for &num in nums {
            published.insert(num, sample(num));
        }
        Feed {
            published,
            head_fails: false,
            scripted: BTreeMap::new(),
            requested: Vec::new(),
            head_requests: 0,
            pauses: Vec::new(),
        }
    }

    fn script(&mut self, num: usize, answers: Vec<Answer>) {
        let mut answers = answers;
        answers.reverse();
        self.scripted.insert(num, answers);
    }

    fn number_in(url: &str) -> usize {
        let rest = url.strip_prefix("https://xkcd.com/").expect("an address of the feed");
        let digits = rest.strip_suffix("/info.0.json").expect("the address of a description");
        digits.parse().expect("a comic's number")
    }

    fn request(&mut self, url: &str) -> FetchEvent {
        let num = Feed::number_in(url);
        self.requested.push(num);
        let scripted = self.scripted.get_mut(&num).and_then(|answers| answers.pop());
        match scripted {
            Some(Answer::Status(code)) => FetchEvent::Status(code),
            Some(Answer::Down) => FetchEvent::Unreachable,
            Some(Answer::Garbage) => FetchEvent::Status(200),
            None => {
                if self.published.contains_key(&num) {
                    FetchEvent::Status(200)
                } else {
                    FetchEvent::Status(404)
                }
            }
        }
    }

    fn body(&mut self, num: usize, garbage: bool) -> FetchEvent {
        if garbage {
            return FetchEvent::Malformed;
        }
        match self.published.get(&num) {
            Some(comic) => FetchEvent::Body(comic.clone()),
            None => FetchEvent::Malformed,
        }
    }

    fn fetch(&mut self, policy: &RetryPolicy, num: usize) -> FetchOutcome {
        let mut state = FetchState::new(num);
        let mut event = FetchEvent::Begin;
        let mut garbage = false;
        loop {
            let (next, action) = load_comic(policy, state, event);
            state = next;
            event = match action {
                FetchAction::Get { url } => {
                    garbage = self.next_is_garbage(num);
                    self.request(&url)
                }
                FetchAction::RetryAfter { secs, url } => {
                    self.pauses.push(secs);
                    garbage = self.next_is_garbage(num);
                    self.request(&url)
                }
                FetchAction::ReadBody => self.body(num, garbage),
                FetchAction::Finish(outcome) => return outcome,
            };
        }
    }

    fn next_is_garbage(&self, num: usize) -> bool {
        match self.scripted.get(&num).and_then(|answers| answers.last()) {
            Some(Answer::Garbage) => true,
            _ => false,
        }
    }

    fn head(&mut self, url: &str) -> SyncEvent {
        assert_eq!(url, "https://xkcd.com/info.0.json");
        self.head_requests += 1;
        if self.head_fails {
            return SyncEvent::HeadUnavailable;
        }
        match self.published.values().next_back() {
            Some(comic) => SyncEvent::Head(comic.clone()),
            None => SyncEvent::HeadUnavailable,
        }
    }
}

/// An index in memory: documents keyed by number, the settings, and a
/// record of the calls.
struct Index {
    documents: BTreeMap<usize, Comic>,
    ranking_rules: Vec<String>,
    sortable_attributes: Vec<String>,
    settings_calls: usize,
    queries: usize,
    writes: usize,
    refuse_settings: bool,
    refuse_queries: bool,
    refuse_writes: bool,
}

impl Index {
    fn holding(nums: &[usize]) -> Index {
        let mut documents = BTreeMap::new();
        for &num in nums {
            documents.insert(num, sample(num));
        }
        Index {
            documents,
            ranking_rules: Vec::new(),
            sortable_attributes: Vec::new(),
            settings_calls: 0,
            queries: 0,
            writes: 0,
            refuse_settings: false,
            refuse_queries: false,
            refuse_writes: false,
        }
    }

    fn nums(&self) -> Vec<usize> {
        self.documents.keys().copied().collect()
    }

    fn configure(&mut self, call: SettingsCall) -> SyncEvent {
        self.settings_calls += 1;
        if self.refuse_settings {
            return SyncEvent::Rejected;
        }
        match call {
            SettingsCall::SetRankingRules(rules) => self.ranking_rules = rules,
            SettingsCall::SetSortableAttributes(attributes) => {
                self.sortable_attributes = attributes
            }
        }
        SyncEvent::Acknowledged
    }

    fn newest(&mut self, sort: &str, limit: usize) -> SyncEvent {
        assert_eq!(sort, "num:desc");
        assert_eq!(limit, 1);
        self.queries += 1;
        if self.refuse_queries {
            return SyncEvent::QueryFailed;
        }
        SyncEvent::Hits(self.documents.keys().rev().take(limit).copied().collect())
    }

    fn write(&mut self, documents: Vec<Comic>, primary_key: &str) -> SyncEvent {
        assert_eq!(primary_key, "num");
        self.writes += 1;
        if self.refuse_writes {
            return SyncEvent::Rejected;
        }
        for comic in documents {
            self.documents.insert(comic.num, comic);
        }
        SyncEvent::Acknowledged
    }
}

/// Runs one synchronisation to its end, the fetches one after the other.
fn sync(feed: &mut Feed, index: &mut Index, policy: &RetryPolicy) -> Result<usize, SyncError> {
    let mut state = SyncState::Idle;
    let mut event = SyncEvent::Begin;
    let mut waiting: Vec<usize> = Vec::new();
    loop {
        let (next, action) = index_comics(state, event);
        state = next;
        event = match action {
            SyncAction::Configure(call) => index.configure(call),
            SyncAction::QueryCursor { sort, limit } => index.newest(&sort, limit),
            SyncAction::FetchHead { url } => feed.head(&url),
            SyncAction::FetchRange { start, end } => {
                assert!(start < end);
                waiting = (start..end).rev().collect();
                let num = waiting.pop().expect("a range that is not empty");
                SyncEvent::Joined(feed.fetch(policy, num))
            }
            SyncAction::AwaitJoin => {
                let num = waiting.pop().expect("a fetch that has not ended");
                SyncEvent::Joined(feed.fetch(policy, num))
            }
            SyncAction::Write { documents, primary_key } => index.write(documents, &primary_key),
            SyncAction::Finish(result) => {
                assert_eq!(state, SyncState::Finished(result));
                return result;
            }
        };
    }
}

fn range(from: usize, to: usize) -> Vec<usize> {
    (from..=to).collect()
}

#[test]
fn first_run_fills_an_empty_index() {
    let mut feed = Feed::with(&range(1, 5));
    let mut index = Index::holding(&[]);
    let written = sync(&mut feed, &mut index, &RetryPolicy::default());
    assert_eq!(written, Ok(5));
    assert_eq!(index.nums(), range(1, 5));
    assert_eq!(feed.requested, vec![1, 2, 3, 4]);
    assert_eq!(feed.head_requests, 1);
    assert_eq!(index.writes, 1);
    for num in 1..=5 {
        assert_eq!(index.documents[&num], sample(num));
    }
}

#[test]
fn every_run_configures_the_index_first() {
    let mut feed = Feed::with(&range(1, 3));
    let mut index = Index::holding(&[]);
    assert_eq!(sync(&mut feed, &mut index, &RetryPolicy::default()), Ok(3));
    assert_eq!(
        index.ranking_rules,
        vec!["words", "typo", "proximity", "attribute", "sort", "exactness", "num:desc"]
    );
    assert_eq!(index.sortable_attributes, vec!["num"]);
    assert_eq!(index.settings_calls, 2);
}

#[test]
fn sync_twice_is_sync_once() {
    let mut feed = Feed::with(&range(1, 6));
    let mut index = Index::holding(&[1, 2]);
    let policy = RetryPolicy::default();
    assert_eq!(sync(&mut feed, &mut index, &policy), Ok(5));
    let after_first = index.documents.clone();
    let fetched = feed.requested.len();
    let writes = index.writes;

    assert_eq!(sync(&mut feed, &mut index, &policy), Ok(0));
    assert_eq!(index.documents, after_first);
    assert_eq!(feed.requested.len(), fetched);
    assert_eq!(index.writes, writes);
    assert_eq!(feed.head_requests, 2);
}

#[test]
fn up_to_date_index_is_left_alone() {
    let mut feed = Feed::with(&range(1, 4));
    let mut index = Index::holding(&range(1, 4));
    assert_eq!(sync(&mut feed, &mut index, &RetryPolicy::default()), Ok(0));
    assert!(feed.requested.is_empty());
    assert_eq!(index.writes, 0);
    assert_eq!(index.nums(), range(1, 4));
}

#[test]
fn empty_index_with_head_at_the_floor_is_taken_as_up_to_date() {
    let mut feed = Feed::with(&[1]);
    let mut index = Index::holding(&[]);
    assert_eq!(sync(&mut feed, &mut index, &RetryPolicy::default()), Ok(0));
    assert!(feed.requested.is_empty());
    assert_eq!(index.writes, 0);
    assert!(index.documents.is_empty());
}

#[test]
fn later_write_overwrites_the_same_number() {
    let mut index = Index::holding(&[]);
    assert_eq!(index.write(vec![titled(7, "first")], "num"), SyncEvent::Acknowledged);
    assert_eq!(index.write(vec![titled(7, "second")], "num"), SyncEvent::Acknowledged);
    assert_eq!(index.nums(), vec![7]);
    assert_eq!(index.documents[&7], titled(7, "second"));
}

#[test]
fn rerun_overwrites_what_the_index_held_at_the_cursor() {
    let mut feed = Feed::with(&range(1, 4));
    let mut index = Index::holding(&[]);
    index.documents.insert(2, titled(2, "stale"));
    assert_eq!(sync(&mut feed, &mut index, &RetryPolicy::default()), Ok(3));
    assert_eq!(feed.requested, vec![2, 3]);
    assert_eq!(index.nums(), vec![2, 3, 4]);
    assert_eq!(index.documents[&2], sample(2));
}

#[test]
fn gap_tolerance() {
    let mut feed = Feed::with(&[5, 7, 8]);
    let mut index = Index::holding(&[5]);
    let mut state = SyncState::ResolvingHead { cursor: 5 };
    let mut event = SyncEvent::Head(sample(8));
    let policy = RetryPolicy::default();
    let mut waiting: Vec<usize> = Vec::new();
    let mut batch: Vec<Comic> = Vec::new();
    let result = loop {
        let (next, action) = index_comics(state, event);
        state = next;
        event = match action {
            SyncAction::FetchRange { start, end } => {
                assert_eq!((start, end), (5, 8));
                waiting = vec![7, 6, 5];
                SyncEvent::Joined(feed.fetch(&policy, waiting.pop().unwrap()))
            }
            SyncAction::AwaitJoin => SyncEvent::Joined(feed.fetch(&policy, waiting.pop().unwrap())),
            SyncAction::Write { documents, primary_key } => {
                batch = documents.clone();
                index.write(documents, &primary_key)
            }
            SyncAction::Finish(result) => break result,
            _ => panic!("a run past the head asks for nothing else"),
        };
    };
    assert_eq!(result, Ok(3));
    assert_eq!(feed.requested, vec![5, 6, 7]);
    let fetched: Vec<usize> = batch.iter().map(|comic| comic.num).filter(|num| *num != 8).collect();
    assert_eq!(fetched, vec![5, 7]);
    assert_eq!(batch, vec![sample(8), sample(5), sample(7)]);
    assert_eq!(index.nums(), vec![5, 7, 8]);
}

#[test]
fn gap_in_the_feed_does_not_fail_the_sync() {
    let mut feed = Feed::with(&[1, 2, 4, 5]);
    feed.script(3, vec![Answer::Status(404)]);
    let mut index = Index::holding(&[]);
    assert_eq!(sync(&mut feed, &mut index, &RetryPolicy::default()), Ok(4));
    assert_eq!(index.nums(), vec![1, 2, 4, 5]);
    assert_eq!(feed.requested, vec![1, 2, 3, 4]);
}

#[test]
fn retry_then_succeed_puts_the_comic_in_the_batch() {
    let mut feed = Feed::with(&range(1, 10));
    feed.script(9, vec![Answer::Status(503)]);
    let mut index = Index::holding(&range(1, 8));
    assert_eq!(sync(&mut feed, &mut index, &RetryPolicy::default()), Ok(3));
    assert_eq!(feed.requested, vec![8, 9, 9]);
    assert_eq!(feed.pauses, vec![3]);
    assert_eq!(index.nums(), range(1, 10));
    assert_eq!(index.documents[&9], sample(9));
}

#[test]
fn network_failure_is_retried_like_a_server_error() {
    let mut feed = Feed::with(&range(1, 4));
    feed.script(2, vec![Answer::Down, Answer::Down]);
    let mut index = Index::holding(&[1]);
    assert_eq!(sync(&mut feed, &mut index, &RetryPolicy::default()), Ok(4));
    assert_eq!(feed.requested, vec![1, 2, 2, 2, 3]);
    assert_eq!(feed.pauses, vec![3, 3]);
    assert_eq!(index.nums(), range(1, 4));
}

#[test]
fn malformed_item_fails_the_sync_before_any_write() {
    let mut feed = Feed::with(&range(1, 6));
    feed.script(3, vec![Answer::Garbage]);
    let mut index = Index::holding(&[1]);
    let result = sync(&mut feed, &mut index, &RetryPolicy::default());
    assert_eq!(result, Err(SyncError::MalformedItem { num: 3 }));
    assert_eq!(index.writes, 0);
    assert_eq!(index.nums(), vec![1]);
    assert_eq!(feed.requested, vec![1, 2, 3]);
    assert!(feed.pauses.is_empty());
}

#[test]
fn malformed_last_item_fails_the_sync_before_any_write() {
    let mut feed = Feed::with(&range(1, 4));
    feed.script(3, vec![Answer::Garbage]);
    let mut index = Index::holding(&[]);
    let result = sync(&mut feed, &mut index, &RetryPolicy::default());
    assert_eq!(result, Err(SyncError::MalformedItem { num: 3 }));
    assert_eq!(index.writes, 0);
    assert!(index.documents.is_empty());
}

#[test]
fn exhausted_retries_fail_the_sync_before_any_write() {
    let mut feed = Feed::with(&range(1, 4));
    feed.script(2, vec![Answer::Status(500), Answer::Down, Answer::Status(502)]);
    let mut index = Index::holding(&[]);
    let policy = RetryPolicy { max_retries: 2, delay_secs: 1 };
    let result = sync(&mut feed, &mut index, &policy);
    assert_eq!(result, Err(SyncError::RetriesExhausted { num: 2 }));
    assert_eq!(index.writes, 0);
    assert_eq!(feed.pauses, vec![1, 1]);
}

#[test]
fn cursor_is_the_greatest_number_in_the_index() {
    let mut index = Index::holding(&[3, 1, 2]);
    let hits = index.newest("num:desc", 1);
    assert_eq!(hits, SyncEvent::Hits(vec![3]));
    let (state, action) = index_comics(SyncState::ResolvingCursor, hits);
    assert_eq!(state, SyncState::ResolvingHead { cursor: 3 });
    assert_eq!(action, SyncAction::FetchHead { url: String::from("https://xkcd.com/info.0.json") });
}

#[test]
fn cursor_of_an_empty_index_is_the_first_comic() {
    let mut index = Index::holding(&[]);
    let hits = index.newest("num:desc", 1);
    assert_eq!(hits, SyncEvent::Hits(vec![]));
    let (state, _) = index_comics(SyncState::ResolvingCursor, hits);
    assert_eq!(state, SyncState::ResolvingHead { cursor: 1 });
}

#[test]
fn failed_cursor_query_falls_back_to_the_first_comic() {
    let mut feed = Feed::with(&range(1, 3));
    let mut index = Index::holding(&[1, 2]);
    index.refuse_queries = true;
    assert_eq!(sync(&mut feed, &mut index, &RetryPolicy::default()), Ok(3));
    assert_eq!(feed.requested, vec![1, 2]);
    assert_eq!(index.nums(), vec![1, 2, 3]);
}

#[test]
fn configuring_twice_changes_nothing_and_fails_nothing() {
    let mut feed = Feed::with(&range(1, 2));
    let mut index = Index::holding(&[]);
    let policy = RetryPolicy::default();
    assert_eq!(sync(&mut feed, &mut index, &policy), Ok(2));
    let rules = index.ranking_rules.clone();
    let sortable = index.sortable_attributes.clone();
    assert_eq!(sync(&mut feed, &mut index, &policy), Ok(0));
    assert_eq!(index.ranking_rules, rules);
    assert_eq!(index.sortable_attributes, sortable);
    assert_eq!(index.settings_calls, 4);
}

#[test]
fn refused_settings_fail_the_sync() {
    let mut feed = Feed::with(&range(1, 3));
    let mut index = Index::holding(&[]);
    index.refuse_settings = true;
    let result = sync(&mut feed, &mut index, &RetryPolicy::default());
    assert_eq!(result, Err(SyncError::IndexConfig));
    assert_eq!(index.settings_calls, 1);
    assert_eq!(index.queries, 0);
    assert_eq!(feed.head_requests, 0);
    assert_eq!(index.writes, 0);
}

#[test]
fn missing_head_fails_the_sync() {
    let mut feed = Feed::with(&range(1, 3));
    feed.head_fails = true;
    let mut index = Index::holding(&[]);
    let result = sync(&mut feed, &mut index, &RetryPolicy::default());
    assert_eq!(result, Err(SyncError::HeadResolution));
    assert!(feed.requested.is_empty());
    assert_eq!(index.writes, 0);
}

#[test]
fn refused_write_fails_the_sync() {
    let mut feed = Feed::with(&range(1, 3));
    let mut index = Index::holding(&[]);
    index.refuse_writes = true;
    let result = sync(&mut feed, &mut index, &RetryPolicy::default());
    assert_eq!(result, Err(SyncError::IndexWrite));
    assert_eq!(index.writes, 1);
    assert!(index.documents.is_empty());
}

#[test]
fn end_to_end_scenario() {
    let mut feed = Feed::with(&[1, 2, 3, 4, 5, 6, 7, 8, 9, 10, 11, 12]);
    let mut index = Index::holding(&[1, 2, 3, 4, 5, 6, 8, 9, 10]);
    index.documents.insert(10, titled(10, "as indexed before"));
    let written = sync(&mut feed, &mut index, &RetryPolicy::default());
    assert_eq!(written, Ok(3));
    assert_eq!(feed.requested, vec![10, 11]);
    assert_eq!(index.nums(), vec![1, 2, 3, 4, 5, 6, 8, 9, 10, 11, 12]);
    assert!(index.documents.contains_key(&10));
    assert!(!index.documents.contains_key(&7));
    assert_eq!(index.documents[&10], sample(10));
    assert_eq!(index.documents[&11], sample(11));
    assert_eq!(index.documents[&12], sample(12));
    assert_eq!(index.writes, 1);
}

#[test]
fn index_ahead_of_the_feed_gets_the_head_alone() {
    let mut feed = Feed::with(&range(1, 4));
    let mut index = Index::holding(&[1, 9]);
    assert_eq!(sync(&mut feed, &mut index, &RetryPolicy::default()), Ok(1));
    assert!(feed.requested.is_empty());
    assert_eq!(index.nums(), vec![1, 4, 9]);
    let after_first = index.documents.clone();
    assert_eq!(sync(&mut feed, &mut index, &RetryPolicy::default()), Ok(1));
    assert_eq!(index.documents, after_first);
}
