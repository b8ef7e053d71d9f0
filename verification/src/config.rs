//! Settings of the service and the defaults that fill the gaps.
use vstd::prelude::*;
use vstd::string::*;
use crate::domain::opt_view;
use crate::text::u64_from_text;

verus! {

/// Seconds between two polls of each feed.
#[derive(Clone, Copy, Debug, PartialEq, Eq, Structural)]
pub struct FetchIntervals {
    pub osdr: u64,
    pub iss: u64,
    pub apod: u64,
    pub neo: u64,
    pub donki: u64,
    pub spacex: u64,
}

#[derive(Debug, Clone)]
pub struct Config {
    pub database_url: String,
    /// Where the shared request counters live; without it no request is gated.
    pub redis_url: Option<String>,
    pub nasa_url: String,
    pub nasa_key: String,
    pub where_iss_url: String,
    pub fetch_intervals: FetchIntervals,
    pub http_timeout_secs: u64,
    pub http_retries: u32,
    pub rate_limit_per_minute: u32,
}

/// The optional settings as they were found, each still as text.
#[derive(Debug, Clone, Default)]
pub struct RawSettings {
    pub redis_url: Option<String>,
    pub nasa_url: Option<String>,
    pub nasa_key: Option<String>,
    pub where_iss_url: Option<String>,
    pub osdr_every: Option<String>,
    pub iss_every: Option<String>,
    pub apod_every: Option<String>,
    pub neo_every: Option<String>,
    pub donki_every: Option<String>,
    pub spacex_every: Option<String>,
    pub http_timeout: Option<String>,
    pub http_retries: Option<String>,
    pub rate_limit: Option<String>,
}

/// The number a setting stands for: what its text denotes, or the default
/// when the setting is missing or is no number.
pub open spec fn number_or(raw: Option<Seq<char>>, default: u64) -> u64 {
    match raw {
        Some(s) => match u64_from_text(s) {
            Some(n) => n,
            None => default,
        },
        None => default,
    }
}

/// The text of a setting, or the default when it is missing.
pub open spec fn text_or(raw: Option<Seq<char>>, default: Seq<char>) -> Seq<char> {
    match raw {
        Some(s) => s,
        None => default,
    }
}

pub fn env_u64(raw: &Option<String>, default: u64) -> (n: u64)
    ensures
        n == number_or(opt_view(*raw), default),
{
    match raw {
        Some(s) => match crate::text::parse_u64(s.as_str()) {
            Some(n) => n,
            None => default,
        },
        None => default,
    }
}

fn text_setting(raw: Option<String>, default: &str) -> (s: String)
    ensures
        s@ == text_or(opt_view(raw), default@),
{
    match raw {
        Some(s) => s,
        None => String::from_str(default),
    }
}

impl Config {
    /// Builds the settings from what was found, filling each gap with its
    /// default. A retry count or a request threshold beyond 32 bits keeps its
    /// low 32 bits.
    pub fn from_settings(database_url: String, raw: RawSettings) -> (c: Config)
        ensures
            c.database_url@ == database_url@,
            opt_view(c.redis_url) == opt_view(raw.redis_url),
            c.nasa_url@ == text_or(
                opt_view(raw.nasa_url),
                "https://visualization.osdr.nasa.gov/biodata/api/v2/datasets/?format=json"@,
            ),
            c.nasa_key@ == text_or(opt_view(raw.nasa_key), ""@),
            c.where_iss_url@ == text_or(
                opt_view(raw.where_iss_url),
                "https://api.wheretheiss.at/v1/satellites/25544"@,
            ),
            c.fetch_intervals == (FetchIntervals {
                osdr: number_or(opt_view(raw.osdr_every), 600),
                iss: number_or(opt_view(raw.iss_every), 120),
                apod: number_or(opt_view(raw.apod_every), 43200),
                neo: number_or(opt_view(raw.neo_every), 7200),
                donki: number_or(opt_view(raw.donki_every), 3600),
                spacex: number_or(opt_view(raw.spacex_every), 3600),
            }),
            c.http_timeout_secs == number_or(opt_view(raw.http_timeout), 30),
            c.http_retries == number_or(opt_view(raw.http_retries), 3) as u32,
            c.rate_limit_per_minute == number_or(opt_view(raw.rate_limit), 60) as u32,
    {
        let fetch_intervals = FetchIntervals {
            osdr: env_u64(&raw.osdr_every, 600),
            iss: env_u64(&raw.iss_every, 120),
            apod: env_u64(&raw.apod_every, 43200),
            neo: env_u64(&raw.neo_every, 7200),
            donki: env_u64(&raw.donki_every, 3600),
            spacex: env_u64(&raw.spacex_every, 3600),
        };
        let http_timeout_secs: u64 = env_u64(&raw.http_timeout, 30);
        let http_retries: u32 = #[verifier::truncate]
        (env_u64(&raw.http_retries, 3) as u32);
        let rate_limit_per_minute: u32 = #[verifier::truncate]
        (env_u64(&raw.rate_limit, 60) as u32);
        Config {
            database_url,
            redis_url: raw.redis_url,
            nasa_url: text_setting(
                raw.nasa_url,
                "https://visualization.osdr.nasa.gov/biodata/api/v2/datasets/?format=json",
            ),
            nasa_key: text_setting(raw.nasa_key, ""),
            where_iss_url: text_setting(
                raw.where_iss_url,
                "https://api.wheretheiss.at/v1/satellites/25544",
            ),
            fetch_intervals,
            http_timeout_secs,
            http_retries,
            rate_limit_per_minute,
        }
    }
}

} // verus!
