//! The retry policy of a feed fetch and the addresses the feeds are read from.
use vstd::prelude::*;
use vstd::string::*;
use crate::config::Config;
use crate::domain::{ApiError, ApiErrorView};

verus! {

/// Milliseconds of pause after the first failed attempt; each later pause is
/// one unit longer than the one before.
pub const BACKOFF_UNIT_MS: u64 = 100;

/// How one attempt to read a feed ended.
#[derive(Clone, Copy, Debug, PartialEq, Eq, Structural)]
pub enum AttemptOutcome {
    /// A success status, and a body that parsed.
    Payload,
    /// A success status, and a body that did not parse.
    Malformed,
    /// Any other status.
    Status,
    /// No response: the connection failed or timed out.
    Transport,
}

/// What to do after an attempt.
#[derive(Clone, Copy, Debug, PartialEq, Eq, Structural)]
pub enum FetchStep {
    /// Hand the parsed payload to the caller.
    Deliver,
    /// Pause, then try again.
    RetryAfter { delay_ms: u64 },
    /// Give up: the body did not parse.
    FailParse,
    /// Give up: the last answer still had a failing status.
    FailStatus,
    /// Give up: the last attempt still got no answer.
    FailTransport,
}

/// The pause that follows the failed attempt number `attempt` (from 0).
pub open spec fn backoff_ms(attempt: u32) -> u64 {
    (BACKOFF_UNIT_MS * (attempt + 1)) as u64
}

/// The step that follows attempt number `attempt` under a budget of
/// `retries` retries. Only a failing status or a missing answer is retried,
/// and only while the budget lasts.
pub open spec fn step_after(retries: u32, attempt: u32, outcome: AttemptOutcome) -> FetchStep {
    match outcome {
        AttemptOutcome::Payload => FetchStep::Deliver,
        AttemptOutcome::Malformed => FetchStep::FailParse,
        AttemptOutcome::Status => if attempt < retries {
            FetchStep::RetryAfter { delay_ms: backoff_ms(attempt) }
        } else {
            FetchStep::FailStatus
        },
        AttemptOutcome::Transport => if attempt < retries {
            FetchStep::RetryAfter { delay_ms: backoff_ms(attempt) }
        } else {
            FetchStep::FailTransport
        },
    }
}

/// The course of one fetch: how many attempts were made, the pauses between
/// them, and how it ended (`None` while it has not ended).
pub struct FetchRun {
    pub attempts: usize,
    pub delays: Vec<u64>,
    pub end: Option<FetchStep>,
}

pub struct FetchRunView {
    pub attempts: int,
    pub delays: Seq<u64>,
    pub end: Option<FetchStep>,
}

impl View for FetchRun {
    type V = FetchRunView;

    open spec fn view(&self) -> FetchRunView {
        FetchRunView { attempts: self.attempts as int, delays: self.delays@, end: self.end }
    }
}

/// The course of a fetch from attempt `i` on, when the attempts end as
/// `outcomes` says, one after the other.
pub open spec fn run_from(retries: u32, outcomes: Seq<AttemptOutcome>, i: int) -> FetchRunView
    decreases outcomes.len() - i,
{
    if i < 0 || i >= outcomes.len() || i > u32::MAX {
        FetchRunView { attempts: i, delays: Seq::empty(), end: None }
    } else {
        match step_after(retries, i as u32, outcomes[i]) {
            FetchStep::RetryAfter { delay_ms } => {
                let rest = run_from(retries, outcomes, i + 1);
                FetchRunView {
                    attempts: rest.attempts,
                    delays: seq![delay_ms] + rest.delays,
                    end: rest.end,
                }
            },
            last => FetchRunView { attempts: i + 1, delays: Seq::empty(), end: Some(last) },
        }
    }
}

/// Whether an attempt ended in a way that is retried.
pub open spec fn is_failure(outcome: AttemptOutcome) -> bool {
    outcome == AttemptOutcome::Status || outcome == AttemptOutcome::Transport
}

/// The settings of a fetch: how often it is retried and how long one attempt
/// may take.
pub struct HttpClient {
    pub retries: u32,
    pub timeout_secs: u64,
}

impl HttpClient {
    pub fn new(config: Config) -> (c: HttpClient)
        ensures
            c.retries == config.http_retries,
            c.timeout_secs == config.http_timeout_secs,
    {
        HttpClient { retries: config.http_retries, timeout_secs: config.http_timeout_secs }
    }

    /// Decides what follows attempt number `attempt` (from 0).
    pub fn next_step(&self, attempt: u32, outcome: AttemptOutcome) -> (step: FetchStep)
        ensures
            step == step_after(self.retries, attempt, outcome),
    {
        match outcome {
            AttemptOutcome::Payload => FetchStep::Deliver,
            AttemptOutcome::Malformed => FetchStep::FailParse,
            AttemptOutcome::Status => {
                if attempt < self.retries {
                    FetchStep::RetryAfter { delay_ms: BACKOFF_UNIT_MS * (attempt as u64 + 1) }
                } else {
                    FetchStep::FailStatus
                }
            },
            AttemptOutcome::Transport => {
                if attempt < self.retries {
                    FetchStep::RetryAfter { delay_ms: BACKOFF_UNIT_MS * (attempt as u64 + 1) }
                } else {
                    FetchStep::FailTransport
                }
            },
        }
    }

    /// Plays a fetch through against a list of attempt results and reports
    /// its course. Results beyond the end of the fetch are not looked at.
    pub fn replay(&self, outcomes: &Vec<AttemptOutcome>) -> (run: FetchRun)
        ensures
            run@ == run_from(self.retries, outcomes@, 0),
    {
        let mut delays: Vec<u64> = Vec::new();
        let mut i: usize = 0;
        while i < outcomes.len()
            invariant
                i <= outcomes.len(),
                i <= self.retries,
                run_from(self.retries, outcomes@, 0) == (FetchRunView {
                    attempts: run_from(self.retries, outcomes@, i as int).attempts,
                    delays: delays@ + run_from(self.retries, outcomes@, i as int).delays,
                    end: run_from(self.retries, outcomes@, i as int).end,
                }),
            decreases outcomes.len() - i,
        {
            let step = self.next_step(i as u32, outcomes[i]);
            match step {
                FetchStep::RetryAfter { delay_ms } => {
                    proof {
                        let rest = run_from(self.retries, outcomes@, i + 1);
                        assert((delays@.push(delay_ms)) + rest.delays =~= delays@ + (seq![delay_ms]
                            + rest.delays));
                    }
                    delays.push(delay_ms);
                    i = i + 1;
                },
                _ => {
                    proof {
                        assert(delays@ + Seq::<u64>::empty() =~= delays@);
                    }
                    return FetchRun { attempts: i + 1, delays, end: Some(step) };
                },
            }
        }
        proof {
            assert(delays@ + Seq::<u64>::empty() =~= delays@);
        }
        FetchRun { attempts: i, delays, end: None }
    }

    /// The error reported when the last answer still had a failing status.
    pub fn status_failure(status: &str, url: &str) -> (e: ApiError)
        ensures
            e@ == ApiErrorView::Internal("HTTP "@ + status@ + " from "@ + url@),
    {
        let msg = String::from_str("HTTP ").concat(status).concat(" from ").concat(url);
        ApiError::Internal(msg)
    }
}

/// A fetch whose first `retries + 1` attempts all fail stops after exactly
/// that many attempts, having paused once between each two of them, for 100
/// ms, 200 ms and so on, and ends in the failure of its last attempt.
pub proof fn lemma_failures_exhaust_budget(retries: u32, outcomes: Seq<AttemptOutcome>)
    requires
        outcomes.len() > retries,
        forall|i: int| 0 <= i <= retries ==> is_failure(#[trigger] outcomes[i]),
    ensures
        run_from(retries, outcomes, 0).attempts == retries + 1,
        run_from(retries, outcomes, 0).delays.len() == retries,
        forall|k: int|
            0 <= k < retries ==> #[trigger] run_from(retries, outcomes, 0).delays[k] == 100 * (k
                + 1),
        run_from(retries, outcomes, 0).end == Some(
            if outcomes[retries as int] == AttemptOutcome::Status {
                FetchStep::FailStatus
            } else {
                FetchStep::FailTransport
            },
        ),
{
    lemma_failures_from(retries, outcomes, 0);
}

proof fn lemma_failures_from(retries: u32, outcomes: Seq<AttemptOutcome>, i: int)
    requires
        outcomes.len() > retries,
        0 <= i <= retries,
        forall|j: int| 0 <= j <= retries ==> is_failure(#[trigger] outcomes[j]),
    ensures
        run_from(retries, outcomes, i).attempts == retries + 1,
        run_from(retries, outcomes, i).delays.len() == retries - i,
        forall|k: int|
            0 <= k < retries - i ==> #[trigger] run_from(retries, outcomes, i).delays[k] == 100 * (i
                + k + 1),
        run_from(retries, outcomes, i).end == Some(
            if outcomes[retries as int] == AttemptOutcome::Status {
                FetchStep::FailStatus
            } else {
                FetchStep::FailTransport
            },
        ),
    decreases retries - i,
{
    assert(is_failure(outcomes[i]));
    if i < retries {
        lemma_failures_from(retries, outcomes, i + 1);
        let rest = run_from(retries, outcomes, i + 1);
        let here = run_from(retries, outcomes, i);
        assert(here.delays == seq![backoff_ms(i as u32)] + rest.delays);
        assert forall|k: int| 0 <= k < retries - i implies #[trigger] here.delays[k] == 100 * (i
            + k + 1) by {
            if k > 0 {
                assert(here.delays[k] == rest.delays[k - 1]);
            }
        }
    }
}

/// The query parameter that carries the API key; nothing at all without a key.
pub open spec fn key_suffix(key: Seq<char>) -> Seq<char> {
    if key.len() == 0 {
        Seq::empty()
    } else {
        "&api_key="@ + key
    }
}

/// An address made of a fixed head, a first day, a joint, a last day and the
/// key parameter.
pub open spec fn ranged_url(
    head: Seq<char>,
    start: Seq<char>,
    joint: Seq<char>,
    end: Seq<char>,
    key: Seq<char>,
) -> Seq<char> {
    head + start + joint + end + key_suffix(key)
}

/// Reads the satellite's position from one fixed address.
pub struct IssClient {
    pub http: HttpClient,
    pub base_url: String,
}

impl IssClient {
    pub fn new(config: Config) -> (c: IssClient)
        ensures
            c.http.retries == config.http_retries,
            c.http.timeout_secs == config.http_timeout_secs,
            c.base_url@ == config.where_iss_url@,
    {
        let base_url = config.where_iss_url.clone();
        IssClient { http: HttpClient::new(config), base_url }
    }

    /// The address of the current position.
    pub fn current_url(&self) -> (url: String)
        ensures
            url@ == self.base_url@,
    {
        self.base_url.clone()
    }
}

/// Reads the catalog and the space-science feeds.
pub struct NasaClient {
    pub http: HttpClient,
    pub base_url: String,
    pub api_key: String,
}

impl NasaClient {
    pub fn new(config: Config) -> (c: NasaClient)
        ensures
            c.http.retries == config.http_retries,
            c.http.timeout_secs == config.http_timeout_secs,
            c.base_url@ == config.nasa_url@,
            c.api_key@ == config.nasa_key@,
    {
        let base_url = config.nasa_url.clone();
        let api_key = config.nasa_key.clone();
        NasaClient { http: HttpClient::new(config), base_url, api_key }
    }

    fn with_key(&self, url: String) -> (r: String)
        ensures
            r@ == url@ + key_suffix(self.api_key@),
    {
        if self.api_key.as_str().is_empty() {
            proof {
                assert(url@ + Seq::<char>::empty() =~= url@);
            }
            url
        } else {
            let r = url.concat("&api_key=").concat(self.api_key.as_str());
            proof {
                assert(r@ =~= url@ + ("&api_key="@ + self.api_key@));
            }
            r
        }
    }

    fn with_range(&self, head: &str, start: &str, joint: &str, end: &str) -> (r: String)
        ensures
            r@ == ranged_url(head@, start@, joint@, end@, self.api_key@),
    {
        let url = String::from_str(head).concat(start).concat(joint).concat(end);
        self.with_key(url)
    }

    /// The address of the dataset catalog.
    pub fn osdr_url(&self) -> (url: String)
        ensures
            url@ == self.base_url@,
    {
        self.base_url.clone()
    }

    /// The address of the picture of the day.
    pub fn apod_url(&self) -> (url: String)
        ensures
            url@ == "https://api.nasa.gov/planetary/apod?thumbs=true"@ + key_suffix(self.api_key@),
    {
        self.with_key(String::from_str("https://api.nasa.gov/planetary/apod?thumbs=true"))
    }

    /// The address of the near-earth objects seen from `start_date` to
    /// `end_date`, both written as year, month and day.
    pub fn neo_feed_url(&self, start_date: &str, end_date: &str) -> (url: String)
        ensures
            url@ == ranged_url(
                "https://api.nasa.gov/neo/rest/v1/feed?start_date="@,
                start_date@,
                "&end_date="@,
                end_date@,
                self.api_key@,
            ),
    {
        self.with_range(
            "https://api.nasa.gov/neo/rest/v1/feed?start_date=",
            start_date,
            "&end_date=",
            end_date,
        )
    }

    /// The address of the solar flares seen from `start_date` to `end_date`.
    pub fn donki_flr_url(&self, start_date: &str, end_date: &str) -> (url: String)
        ensures
            url@ == ranged_url(
                "https://api.nasa.gov/DONKI/FLR?startDate="@,
                start_date@,
                "&endDate="@,
                end_date@,
                self.api_key@,
            ),
    {
        self.with_range(
            "https://api.nasa.gov/DONKI/FLR?startDate=",
            start_date,
            "&endDate=",
            end_date,
        )
    }

    /// The address of the coronal mass ejections seen from `start_date` to
    /// `end_date`.
    pub fn donki_cme_url(&self, start_date: &str, end_date: &str) -> (url: String)
        ensures
            url@ == ranged_url(
                "https://api.nasa.gov/DONKI/CME?startDate="@,
                start_date@,
                "&endDate="@,
                end_date@,
                self.api_key@,
            ),
    {
        self.with_range(
            "https://api.nasa.gov/DONKI/CME?startDate=",
            start_date,
            "&endDate=",
            end_date,
        )
    }
}

/// Reads the next launch from one fixed address.
pub struct SpaceXClient {
    pub http: HttpClient,
}

impl SpaceXClient {
    pub fn new(config: Config) -> (c: SpaceXClient)
        ensures
            c.http.retries == config.http_retries,
            c.http.timeout_secs == config.http_timeout_secs,
    {
        SpaceXClient { http: HttpClient::new(config) }
    }

    /// The address of the next launch.
    pub fn next_launch_url(&self) -> (url: String)
        ensures
            url@ == "https://api.spacexdata.com/v4/launches/next"@,
    {
        String::from_str("https://api.spacexdata.com/v4/launches/next")
    }
}

} // verus!
