use vstd::prelude::*;
use crate::config::{AvailableSite, LocalConfig};
use crate::error::ApplicationError;
use crate::source_data::{SourceBookForm, SourceDataUpdateForm, SourceTagForm};

verus! {

/// The total number of tries one resilient fetch makes at most.
pub const MAX_FETCH_TRIES: u32 = 3;

/// The fixed delay observed between retries, in seconds.
pub const RETRY_DELAY_SECS: u64 = 1;

/// The request timeout used when none is configured, in seconds.
pub const DEFAULT_TIMEOUT_SECS: u64 = 20;

/// The inter-request spacing used when none is configured, in seconds.
pub const DEFAULT_WAITING_SECS: u64 = 8;

/// How one fetch attempt failed: connection establishment, timeout, or
/// anything else (an HTTP-level status, a body that fails to decode).
#[derive(Debug, Clone, Copy, PartialEq, Eq, Structural)]
pub enum FetchFailureKind {
    Connect,
    Timeout,
    Other,
}

/// What one fetch attempt came to.
#[derive(Debug, Clone, Copy, PartialEq, Eq, Structural)]
pub enum AttemptOutcome {
    Success,
    Failure(FetchFailureKind),
}

/// Only connection-establishment and timeout failures are retried.
pub open spec fn is_transport_failure(o: AttemptOutcome) -> bool {
    o == AttemptOutcome::Failure(FetchFailureKind::Connect) || o == AttemptOutcome::Failure(
        FetchFailureKind::Timeout,
    )
}

pub open spec fn failure_kind(o: AttemptOutcome) -> FetchFailureKind {
    match o {
        AttemptOutcome::Failure(f) => f,
        AttemptOutcome::Success => arbitrary(),
    }
}

/// The length of the longest prefix of retriable (transport) failures.
pub open spec fn transport_failure_prefix(outcomes: Seq<AttemptOutcome>) -> nat
    decreases outcomes.len(),
{
    if outcomes.len() == 0 || !is_transport_failure(outcomes[0]) {
        0
    } else {
        (1 + transport_failure_prefix(outcomes.drop_first())) as nat
    }
}

/// How many attempts the retry loop makes on this outcome script:
/// one more than the number of leading transport failures, capped at the
/// total budget of three tries.
pub open spec fn fetch_attempts_spec(outcomes: Seq<AttemptOutcome>) -> int {
    let failures = transport_failure_prefix(outcomes);
    if failures >= MAX_FETCH_TRIES - 1 {
        MAX_FETCH_TRIES as int
    } else {
        failures as int + 1
    }
}

/// What the retry loop returns on this outcome script: the retry count on
/// success, the first non-transport failure unretried, or — after the
/// budget is exhausted — the last transport failure.
pub open spec fn fetch_result_spec(outcomes: Seq<AttemptOutcome>) -> Result<int, FetchFailureKind> {
    let failures = transport_failure_prefix(outcomes);
    if failures >= MAX_FETCH_TRIES {
        Err(failure_kind(outcomes[MAX_FETCH_TRIES - 1]))
    } else {
        match outcomes[failures as int] {
            AttemptOutcome::Success => Ok(failures as int),
            AttemptOutcome::Failure(f) => Err(f),
        }
    }
}

/// What the retry loop does after one attempt.
#[derive(Debug, Clone, Copy, PartialEq, Eq, Structural)]
pub enum FetchStep {
    Deliver,
    SleepAndRetry,
    GiveUp(FetchFailureKind),
}

/// The retry decision after one attempt: deliver a success at once; retry
/// a transport failure while tries remain, observing the fixed delay
/// first; give up on the third transport failure or on the first failure
/// of any other kind.
pub fn fetch_step(retry_cnt: &mut u32, outcome: &AttemptOutcome) -> (r: FetchStep)
    requires
        *old(retry_cnt) < MAX_FETCH_TRIES,
    ensures
        match *outcome {
            AttemptOutcome::Success => r == FetchStep::Deliver && *final(retry_cnt) == *old(
                retry_cnt,
            ),
            AttemptOutcome::Failure(f) => if is_transport_failure(*outcome) {
                *final(retry_cnt) == *old(retry_cnt) + 1 && r == (if *old(retry_cnt) + 1
                    < MAX_FETCH_TRIES {
                    FetchStep::SleepAndRetry
                } else {
                    FetchStep::GiveUp(f)
                })
            } else {
                r == FetchStep::GiveUp(f) && *final(retry_cnt) == *old(retry_cnt)
            },
        },
{
    match outcome {
        AttemptOutcome::Success => FetchStep::Deliver,
        AttemptOutcome::Failure(f) => {
            if matches!(f, FetchFailureKind::Connect) || matches!(f, FetchFailureKind::Timeout) {
                *retry_cnt = *retry_cnt + 1;
                if *retry_cnt < MAX_FETCH_TRIES {
                    FetchStep::SleepAndRetry
                } else {
                    FetchStep::GiveUp(*f)
                }
            } else {
                FetchStep::GiveUp(*f)
            }
        },
    }
}

pub proof fn lemma_transport_prefix_at(outcomes: Seq<AttemptOutcome>, i: int)
    requires
        0 <= i < outcomes.len(),
        forall|j: int| 0 <= j < i ==> is_transport_failure(outcomes[j]),
        !is_transport_failure(outcomes[i]),
    ensures
        transport_failure_prefix(outcomes) == i,
    decreases i,
{
    if i == 0 {
    } else {
        let rest = outcomes.drop_first();
        assert(is_transport_failure(outcomes[0]));
        assert forall|j: int| 0 <= j < i - 1 implies is_transport_failure(rest[j]) by {
            assert(rest[j] == outcomes[j + 1]);
        }
        assert(rest[i - 1] == outcomes[i]);
        lemma_transport_prefix_at(rest, i - 1);
    }
}

pub proof fn lemma_transport_prefix_ge(outcomes: Seq<AttemptOutcome>, i: int)
    requires
        0 <= i <= outcomes.len(),
        forall|j: int| 0 <= j < i ==> is_transport_failure(outcomes[j]),
    ensures
        transport_failure_prefix(outcomes) >= i,
    decreases i,
{
    if i <= 0 {
    } else {
        let rest = outcomes.drop_first();
        assert(is_transport_failure(outcomes[0]));
        assert forall|j: int| 0 <= j < i - 1 implies is_transport_failure(rest[j]) by {
            assert(rest[j] == outcomes[j + 1]);
        }
        lemma_transport_prefix_ge(rest, i - 1);
    }
}

/// Exactly `1 + min(leading transport failures, 2)` attempts are made, and
/// a script whose first outcome is no transport failure gets exactly one
/// attempt — a non-transport failure is never retried.
pub proof fn lemma_fetch_attempt_count(outcomes: Seq<AttemptOutcome>)
    ensures
        fetch_attempts_spec(outcomes) == 1 + vstd::math::min(
            transport_failure_prefix(outcomes) as int,
            (MAX_FETCH_TRIES - 1) as int,
        ),
        outcomes.len() > 0 && !is_transport_failure(outcomes[0]) ==> fetch_attempts_spec(outcomes)
            == 1,
        1 <= fetch_attempts_spec(outcomes) <= MAX_FETCH_TRIES,
{
}

/// What one whole resilient fetch did on a script of attempt outcomes.
pub struct FetchRunReport {
    pub attempts: usize,
    pub result: Result<u32, FetchFailureKind>,
}

pub open spec fn report_matches(
    result: Result<u32, FetchFailureKind>,
    model: Result<int, FetchFailureKind>,
) -> bool {
    match (result, model) {
        (Ok(c), Ok(m)) => c as int == m,
        (Err(f), Err(g)) => f == g,
        _ => false,
    }
}

/// Runs the bounded retry loop over a script of outcomes, one per attempt.
/// The script must cover the whole budget; outcomes past the attempt that
/// settles the fetch are never looked at. On success the report carries
/// how many retries preceded it.
pub fn run_fetch_retry(outcomes: &Vec<AttemptOutcome>) -> (r: FetchRunReport)
    requires
        outcomes@.len() >= MAX_FETCH_TRIES as int,
    ensures
        r.attempts == fetch_attempts_spec(outcomes@),
        report_matches(r.result, fetch_result_spec(outcomes@)),
{
    let mut retry_cnt: u32 = 0;
    let mut i: usize = 0;
    let mut last_failure = FetchFailureKind::Other;
    while i < MAX_FETCH_TRIES as usize
        invariant
            outcomes@.len() >= MAX_FETCH_TRIES as int,
            i <= MAX_FETCH_TRIES,
            retry_cnt == i,
            forall|j: int| 0 <= j < i ==> is_transport_failure(outcomes@[j]),
            i > 0 ==> last_failure == failure_kind(outcomes@[i - 1]),
        decreases MAX_FETCH_TRIES as int - i,
    {
        let outcome = &outcomes[i];
        let step = fetch_step(&mut retry_cnt, outcome);
        match step {
            FetchStep::Deliver => {
                proof {
                    lemma_transport_prefix_at(outcomes@, i as int);
                }
                return FetchRunReport { attempts: i + 1, result: Ok(retry_cnt) };
            },
            FetchStep::GiveUp(f) => {
                proof {
                    if is_transport_failure(outcomes@[i as int]) {
                        lemma_transport_prefix_ge(outcomes@, i as int + 1);
                    } else {
                        lemma_transport_prefix_at(outcomes@, i as int);
                    }
                }
                return FetchRunReport { attempts: i + 1, result: Err(f) };
            },
            FetchStep::SleepAndRetry => {
                last_failure = match outcome {
                    AttemptOutcome::Failure(f) => *f,
                    AttemptOutcome::Success => FetchFailureKind::Other,
                };
            },
        }
        i = i + 1;
    }
    proof {
        lemma_transport_prefix_ge(outcomes@, MAX_FETCH_TRIES as int);
    }
    FetchRunReport { attempts: MAX_FETCH_TRIES as usize, result: Err(last_failure) }
}

/// The fixed, realistic browser header set every outbound fetch carries,
/// as name-value pairs.
pub fn fetch_headers() -> (r: Vec<(String, String)>)
    ensures
        r@.len() == 4,
        r@[0].0@ == "User-Agent"@,
        r@[0].1@
            == "Mozilla/5.0 (Macintosh; Intel Mac OS X 10_15_4) AppleWebKit/537.36 (KHTML, like Gecko) Chrome/80.0.3987.163 Safari/537.36"@,
        r@[1].0@ == "Accept-Encoding"@,
        r@[1].1@ == "gzip, deflate"@,
        r@[2].0@ == "Accept"@,
        r@[2].1@ == "*/*"@,
        r@[3].0@ == "Connection"@,
        r@[3].1@ == "keep-alive"@,
{
    let mut headers: Vec<(String, String)> = Vec::new();
    headers.push((
        "User-Agent".to_owned(),
        "Mozilla/5.0 (Macintosh; Intel Mac OS X 10_15_4) AppleWebKit/537.36 (KHTML, like Gecko) Chrome/80.0.3987.163 Safari/537.36".to_owned(),
    ));
    headers.push(("Accept-Encoding".to_owned(), "gzip, deflate".to_owned()));
    headers.push(("Accept".to_owned(), "*/*".to_owned()));
    headers.push(("Connection".to_owned(), "keep-alive".to_owned()));
    headers
}

/// Connection settings for outbound fetches; the HTTP client built from
/// them lives at the I/O layer.
#[derive(Debug, Clone, Copy, PartialEq, Eq, Structural)]
pub struct Adapter {
    pub waiting: u64,
    pub timeout: u64,
}

/// The closed set of scraping rules; the registry maps site names onto it.
#[derive(Debug, Clone, Copy, PartialEq, Eq, Structural)]
pub enum DownloadRule {
    Sankakucomplex,
}

/// Timing metadata of one completed download: retries across all of its
/// fetches, and the total elapsed time in milliseconds.
#[derive(Debug, Clone, Copy, PartialEq, Eq, Structural)]
pub struct DownloadAttachInfo {
    pub retry_count: i32,
    pub time_cost: i64,
}

/// Drives resilient fetches per external item: dispatches a site to its
/// configured rule and paces successive items.
pub struct DownloadModule {
    pub adapter: Adapter,
    pub available_sites: Vec<AvailableSite>,
}

/// The rule name configured for a site; a later entry for the same site
/// overrides an earlier one.
pub open spec fn lookup_rule_spec(entries: Seq<AvailableSite>, site: Seq<char>) -> Option<
    Seq<char>,
>
    decreases entries.len(),
{
    if entries.len() == 0 {
        None
    } else if entries.last().site@ == site {
        Some(entries.last().rule@)
    } else {
        lookup_rule_spec(entries.drop_last(), site)
    }
}

/// The rule implementation a configured rule name stands for, if any.
pub open spec fn rule_of_name(rule: Seq<char>) -> Option<DownloadRule> {
    if rule == "sankakucomplex"@ {
        Some(DownloadRule::Sankakucomplex)
    } else {
        None
    }
}

impl DownloadModule {
    pub fn new(config: &LocalConfig) -> (r: DownloadModule)
        ensures
            r.adapter.timeout == match config.download.timeout_interval {
                Some(t) => t,
                None => DEFAULT_TIMEOUT_SECS,
            },
            r.adapter.waiting == match config.download.waiting_interval {
                Some(w) => w,
                None => DEFAULT_WAITING_SECS,
            },
            r.available_sites@ == config.download.available_sites@,
    {
        let timeout = match config.download.timeout_interval {
            Some(t) => t,
            None => DEFAULT_TIMEOUT_SECS,
        };
        let waiting = match config.download.waiting_interval {
            Some(w) => w,
            None => DEFAULT_WAITING_SECS,
        };
        let mut sites: Vec<AvailableSite> = Vec::new();
        let mut i: usize = 0;
        while i < config.download.available_sites.len()
            invariant
                i <= config.download.available_sites.len(),
                sites@ == config.download.available_sites@.subrange(0, i as int),
            decreases config.download.available_sites.len() - i,
        {
            let entry = &config.download.available_sites[i];
            sites.push(AvailableSite { site: entry.site.clone(), rule: entry.rule.clone() });
            proof {
                assert(sites@ =~= config.download.available_sites@.subrange(0, i as int + 1));
            }
            i = i + 1;
        }
        proof {
            assert(sites@ =~= config.download.available_sites@);
        }
        DownloadModule { adapter: Adapter { waiting, timeout }, available_sites: sites }
    }

    /// Looks the site up in the registry, later entries taking precedence.
    pub fn lookup_rule(&self, site: &str) -> (r: Option<String>)
        ensures
            match r {
                Some(rule) => lookup_rule_spec(self.available_sites@, site@) == Some(rule@),
                None => lookup_rule_spec(self.available_sites@, site@) is None,
            },
    {
        let site_owned: String = site.to_owned();
        let mut i: usize = self.available_sites.len();
        proof {
            assert(self.available_sites@.subrange(0, i as int) =~= self.available_sites@);
        }
        while i > 0
            invariant
                i <= self.available_sites@.len(),
                site_owned@ == site@,
                lookup_rule_spec(self.available_sites@, site@) == lookup_rule_spec(
                    self.available_sites@.subrange(0, i as int),
                    site@,
                ),
            decreases i,
        {
            i = i - 1;
            let entry = &self.available_sites[i];
            proof {
                assert(self.available_sites@.subrange(0, i as int + 1).last()
                    == self.available_sites@[i as int]);
            }
            if entry.site == site_owned {
                proof {
                    let full = self.available_sites@;
                    let pre = full.subrange(0, i as int + 1);
                    assert(pre.last() == full[i as int]);
                    assert(pre.last().site@ == site@);
                    assert(lookup_rule_spec(pre, site@) == Some(pre.last().rule@));
                }
                return Some(entry.rule.clone());
            }
            proof {
                let full = self.available_sites@;
                let pre = full.subrange(0, i as int + 1);
                assert(pre.last() == full[i as int]);
                assert(pre.last().site@ != site@);
                assert(lookup_rule_spec(pre, site@) == lookup_rule_spec(pre.drop_last(), site@));
                assert(pre.drop_last() =~= full.subrange(0, i as int));
            }
        }
        proof {
            assert(self.available_sites@.subrange(0, 0) =~= Seq::<AvailableSite>::empty());
        }
        None
    }

    /// Resolves a site to the rule that downloads it. An unconfigured
    /// site, or a configured rule name with no matching implementation, is
    /// a configuration error raised before any network call is made.
    pub fn resolve_rule(&self, site: &str) -> (r: Result<DownloadRule, ApplicationError>)
        ensures
            match lookup_rule_spec(self.available_sites@, site@) {
                Some(rule_name) => match rule_of_name(rule_name) {
                    Some(rule) => r == Ok::<DownloadRule, ApplicationError>(rule),
                    None => (r matches Err(e) && e.message@ == "Unsupported rule type "@
                        + rule_name + "."@),
                },
                None => (r matches Err(e) && e.message@ == "Site "@ + site@
                    + " not configured in available sites."@),
            },
    {
        match self.lookup_rule(site) {
            Some(rule) => {
                let known: String = "sankakucomplex".to_owned();
                if rule == known {
                    Ok(DownloadRule::Sankakucomplex)
                } else {
                    let mut m: String = "Unsupported rule type ".to_owned();
                    m.append(rule.as_str());
                    m.append(".");
                    Err(ApplicationError { message: m })
                }
            },
            None => {
                let mut m: String = "Site ".to_owned();
                m.append(site);
                m.append(" not configured in available sites.");
                Err(ApplicationError { message: m })
            },
        }
    }

    /// The pacing delay in seconds before the next outbound fetch:
    /// the configured spacing less the whole seconds the previous item
    /// already cost, but never below half the configured spacing.
    pub fn wait_delay_secs(&self, time_cost: i64) -> (r: u64)
        requires
            time_cost >= 0,
        ensures
            r == pace_delay_spec(self.adapter.waiting as int, time_cost as int),
            self.adapter.waiting / 2 <= r <= self.adapter.waiting,
    {
        let waiting = self.adapter.waiting;
        let half = waiting / 2;
        let cost_secs = (time_cost as u64) / 1000;
        if cost_secs < waiting {
            let reduced = waiting - cost_secs;
            if reduced > half {
                reduced
            } else {
                half
            }
        } else {
            half
        }
    }
}

/// The pacing formula: `max(waiting - cost/1000, waiting/2)`, all in whole
/// seconds.
pub open spec fn pace_delay_spec(waiting: int, cost_ms: int) -> int {
    let reduced = waiting - cost_ms / 1000;
    let half = waiting / 2;
    if reduced > half {
        reduced
    } else {
        half
    }
}

/// For every previous cost between zero and the configured spacing, the
/// pacing delay stays between half the configured spacing and the whole of
/// it: slow items shorten the idle time, but never below the floor that
/// prevents bursts.
pub proof fn lemma_pace_delay_bounds(waiting: int, cost_ms: int)
    requires
        waiting >= 0,
        0 <= cost_ms <= waiting * 1000,
    ensures
        waiting / 2 <= pace_delay_spec(waiting, cost_ms) <= waiting,
{
    assert(cost_ms / 1000 >= 0);
    assert(cost_ms / 1000 <= waiting) by {
        assert(cost_ms <= waiting * 1000);
        vstd::arithmetic::div_mod::lemma_div_is_ordered(cost_ms, waiting * 1000, 1000);
        vstd::arithmetic::div_mod::lemma_div_multiples_vanish(waiting, 1000);
    }
}

/// The normalized extracted payload one rule produces per external item.
#[derive(Debug, Clone, PartialEq)]
pub struct DownloadResult {
    pub title: Option<String>,
    pub description: Option<String>,
    pub tags: Option<Vec<DownloadTag>>,
    pub books: Option<Vec<DownloadBook>>,
    pub relations: Option<Vec<i64>>,
}

#[derive(Debug, Clone, PartialEq)]
pub struct DownloadTag {
    pub code: String,
    pub name: Option<String>,
    pub other_name: Option<String>,
    pub tag_type: Option<String>,
}

#[derive(Debug, Clone, PartialEq)]
pub struct DownloadBook {
    pub code: String,
    pub title: Option<String>,
    pub other_title: Option<String>,
}

fn clone_opt_string(o: &Option<String>) -> (r: Option<String>)
    ensures
        r == *o,
{
    match o {
        Some(s) => Some(s.clone()),
        None => None,
    }
}

/// The update form a downloaded tag maps onto, field for field.
pub open spec fn tag_form_of(t: DownloadTag) -> SourceTagForm {
    SourceTagForm { code: t.code, name: t.name, other_name: t.other_name, tag_type: t.tag_type }
}

/// The update form a downloaded book maps onto, field for field.
pub open spec fn book_form_of(b: DownloadBook) -> SourceBookForm {
    SourceBookForm { code: b.code, title: b.title, other_title: b.other_title }
}

impl DownloadResult {
    /// Builds the source-data update request from this download outcome:
    /// every extracted field carried over unchanged, and the fields no
    /// download produces (status, links, additional info) left unset.
    pub fn to_update_form(&self) -> (r: SourceDataUpdateForm)
        ensures
            r.title == self.title,
            r.description == self.description,
            match self.tags {
                None => r.tags is None,
                Some(ts) => (r.tags matches Some(v) && v@ == ts@.map_values(
                    |t: DownloadTag| tag_form_of(t),
                )),
            },
            match self.books {
                None => r.books is None,
                Some(bs) => (r.books matches Some(v) && v@ == bs@.map_values(
                    |b: DownloadBook| book_form_of(b),
                )),
            },
            match self.relations {
                None => r.relations is None,
                Some(rs) => (r.relations matches Some(v) && v@ == rs@),
            },
            r.status is None,
            r.links is None,
            r.additional_info is None,
    {
        let tags: Option<Vec<SourceTagForm>> = match &self.tags {
            None => None,
            Some(ts) => {
                let mut v: Vec<SourceTagForm> = Vec::new();
                let mut i: usize = 0;
                while i < ts.len()
                    invariant
                        i <= ts@.len(),
                        v@ == ts@.subrange(0, i as int).map_values(
                            |t: DownloadTag| tag_form_of(t),
                        ),
                    decreases ts@.len() - i,
                {
                    let t = &ts[i];
                    v.push(
                        SourceTagForm {
                            code: t.code.clone(),
                            name: clone_opt_string(&t.name),
                            other_name: clone_opt_string(&t.other_name),
                            tag_type: clone_opt_string(&t.tag_type),
                        },
                    );
                    proof {
                        assert(v@ =~= ts@.subrange(0, i as int + 1).map_values(
                            |t: DownloadTag| tag_form_of(t),
                        ));
                    }
                    i = i + 1;
                }
                proof {
                    assert(ts@.subrange(0, ts@.len() as int) =~= ts@);
                }
                Some(v)
            },
        };
        let books: Option<Vec<SourceBookForm>> = match &self.books {
            None => None,
            Some(bs) => {
                let mut v: Vec<SourceBookForm> = Vec::new();
                let mut i: usize = 0;
                while i < bs.len()
                    invariant
                        i <= bs@.len(),
                        v@ == bs@.subrange(0, i as int).map_values(
                            |b: DownloadBook| book_form_of(b),
                        ),
                    decreases bs@.len() - i,
                {
                    let b = &bs[i];
                    v.push(
                        SourceBookForm {
                            code: b.code.clone(),
                            title: clone_opt_string(&b.title),
                            other_title: clone_opt_string(&b.other_title),
                        },
                    );
                    proof {
                        assert(v@ =~= bs@.subrange(0, i as int + 1).map_values(
                            |b: DownloadBook| book_form_of(b),
                        ));
                    }
                    i = i + 1;
                }
                proof {
                    assert(bs@.subrange(0, bs@.len() as int) =~= bs@);
                }
                Some(v)
            },
        };
        let relations: Option<Vec<i64>> = match &self.relations {
            None => None,
            Some(rs) => {
                let mut v: Vec<i64> = Vec::new();
                let mut i: usize = 0;
                while i < rs.len()
                    invariant
                        i <= rs@.len(),
                        v@ == rs@.subrange(0, i as int),
                    decreases rs@.len() - i,
                {
                    v.push(rs[i]);
                    proof {
                        assert(v@ =~= rs@.subrange(0, i as int + 1));
                    }
                    i = i + 1;
                }
                proof {
                    assert(rs@.subrange(0, rs@.len() as int) =~= rs@);
                }
                Some(v)
            },
        };
        SourceDataUpdateForm {
            title: clone_opt_string(&self.title),
            description: clone_opt_string(&self.description),
            tags,
            books,
            relations,
            status: None,
            links: None,
            additional_info: None,
        }
    }
}

} // verus!
