//! The run configuration, its request headers, and its validation.

use vstd::prelude::*;
use vstd::string::StringExecFns;
use crate::error::{BastionError, invalid_config, is_invalid_config, outcome_is};
use crate::text::{chars_of, range_is, string_from, to_uppercase, upper_case};
use crate::time::Duration;

verus! {

/// The HTTP method of the benchmark's requests.
#[derive(Debug, Clone, Copy, PartialEq, Eq, Structural)]
pub enum HttpMethod {
    Get,
    Post,
    Put,
    Patch,
    Delete,
    Head,
}

/// The method whose upper-case name is `u`, if any.
pub open spec fn method_named(u: Seq<char>) -> Option<HttpMethod> {
    if u == "GET"@ {
        Some(HttpMethod::Get)
    } else if u == "POST"@ {
        Some(HttpMethod::Post)
    } else if u == "PUT"@ {
        Some(HttpMethod::Put)
    } else if u == "PATCH"@ {
        Some(HttpMethod::Patch)
    } else if u == "DELETE"@ {
        Some(HttpMethod::Delete)
    } else if u == "HEAD"@ {
        Some(HttpMethod::Head)
    } else {
        None
    }
}

/// The outcome of reading a method from its upper-cased name `u`.
pub open spec fn method_outcome(r: Result<HttpMethod, BastionError>, u: Seq<char>) -> bool {
    match method_named(u) {
        Some(m) => r == Ok::<HttpMethod, BastionError>(m),
        None => r matches Err(e) && is_invalid_config(e, "Invalid HTTP method: "@ + u),
    }
}

impl HttpMethod {
    /// The method named by `upper`, the already upper-cased argument.
    pub fn from_upper(upper: &str) -> (r: Result<HttpMethod, BastionError>)
        ensures
            method_outcome(r, upper@),
    {
        let v = chars_of(upper);
        let n = v.len();
        assert(v@.subrange(0, n as int) =~= upper@);
        if range_is(&v, 0, n, "GET") {
            Ok(HttpMethod::Get)
        } else if range_is(&v, 0, n, "POST") {
            Ok(HttpMethod::Post)
        } else if range_is(&v, 0, n, "PUT") {
            Ok(HttpMethod::Put)
        } else if range_is(&v, 0, n, "PATCH") {
            Ok(HttpMethod::Patch)
        } else if range_is(&v, 0, n, "DELETE") {
            Ok(HttpMethod::Delete)
        } else if range_is(&v, 0, n, "HEAD") {
            Ok(HttpMethod::Head)
        } else {
            assert(v@.subrange(0, n as int) =~= upper@);
            let mut m = string_from("Invalid HTTP method: ");
            m.append(upper);
            Err(invalid_config(m))
        }
    }

    /// The method named by `s`, in any letter case.
    pub fn from_str(s: &str) -> (r: Result<HttpMethod, BastionError>)
        ensures
            method_outcome(r, upper_case(s@)),
    {
        let upper = to_uppercase(s);
        HttpMethod::from_upper(upper.as_str())
    }
}

impl std::str::FromStr for HttpMethod {
    type Err = BastionError;

    fn from_str(s: &str) -> (r: Result<HttpMethod, BastionError>)
        ensures
            method_outcome(r, upper_case(s@)),
    {
        HttpMethod::from_str(s)
    }
}

/// How long the benchmark runs.
#[derive(Debug, Clone, Copy)]
pub enum RunMode {
    /// Send exactly this many requests.
    RequestCount(u64),
    /// Send requests until this span has passed.
    Duration(Duration),
}

/// The form of the final report.
#[derive(Debug, Clone, Copy, PartialEq, Eq, Structural)]
pub enum OutputFormat {
    Csv,
    Json,
    Terminal,
}

/// Request headers: each name at most once, with its value.
#[derive(Debug)]
pub struct Headers {
    entries: Vec<(String, String)>,
}

impl Headers {
    #[verifier::type_invariant]
    spec fn names_distinct(self) -> bool {
        forall|i: int, j: int|
            0 <= i < j < self.entries@.len() ==> #[trigger] self.entries@[i].0@
                != #[trigger] self.entries@[j].0@
    }

    /// The names and values, in the order the names first came.
    pub closed spec fn pairs(self) -> Seq<(Seq<char>, Seq<char>)> {
        self.entries@.map_values(|e: (String, String)| (e.0@, e.1@))
    }

    spec fn index_of(self, name: Seq<char>) -> int {
        choose|i: int| 0 <= i < self.entries@.len() && self.entries@[i].0@ == name
    }

    /// No headers.
    pub fn new() -> (h: Headers)
        ensures
            h@ == Map::<Seq<char>, Seq<char>>::empty(),
            h.pairs() == Seq::<(Seq<char>, Seq<char>)>::empty(),
    {
        let h = Headers { entries: Vec::new() };
        assert(h@ =~= Map::<Seq<char>, Seq<char>>::empty());
        assert(h.pairs() =~= Seq::<(Seq<char>, Seq<char>)>::empty());
        h
    }

    /// How many distinct names there are.
    pub fn len(&self) -> (n: usize)
        ensures
            n == self.pairs().len(),
    {
        self.entries.len()
    }

    /// The `i`-th name and value.
    pub fn entry(&self, i: usize) -> (e: &(String, String))
        requires
            i < self.pairs().len(),
        ensures
            (e.0@, e.1@) == self.pairs()[i as int],
    {
        &self.entries[i]
    }

    proof fn lemma_index_of(self, i: int)
        requires
            self.names_distinct(),
            0 <= i < self.entries@.len(),
        ensures
            self.index_of(self.entries@[i].0@) == i,
    {
        let name = self.entries@[i].0@;
        let j = self.index_of(name);
        assert(0 <= j < self.entries@.len() && self.entries@[j].0@ == name);
        if j < i {
            assert(self.entries@[j].0@ != self.entries@[i].0@);
        } else if j > i {
            assert(self.entries@[i].0@ != self.entries@[j].0@);
        }
    }

    /// Sets the value of `name` to `value`: a name already present keeps its
    /// place and takes the new value; a new name comes last.
    pub fn insert(&mut self, name: String, value: String)
        ensures
            final(self)@ == old(self)@.insert(name@, value@),
            old(self)@.contains_key(name@) ==> final(self).pairs().len() == old(self).pairs().len(),
            !old(self)@.contains_key(name@) ==> final(self).pairs() == old(self).pairs().push(
                (name@, value@),
            ),
    {
        proof {
            use_type_invariant(&*self);
        }
        let ghost old_self = *self;
        let ghost name_v = name@;
        let ghost value_v = value@;
        let n = self.entries.len();
        let mut i: usize = 0;
        while i < n
            invariant
                n == self.entries@.len(),
                *self == old_self,
                old_self.names_distinct(),
                i <= n,
                forall|j: int| 0 <= j < i ==> self.entries@[j].0@ != name_v,
                name@ == name_v,
                value@ == value_v,
                *old(self) == old_self,
            decreases n - i,
        {
            if self.entries[i].0 == name {
                let mut entries: Vec<(String, String)> = Vec::new();
                std::mem::swap(&mut entries, &mut self.entries);
                let ghost before = entries@;
                entries.set(i, (name, value));
                proof {
                    assert forall|a: int, b: int|
                        0 <= a < b < entries@.len() implies #[trigger] entries@[a].0@
                        != #[trigger] entries@[b].0@ by {
                        assert(entries@[a].0@ == before[a].0@);
                        assert(entries@[b].0@ == before[b].0@);
                    }
                }
                self.entries = entries;
                proof {
                    let new_self = *self;
                    assert forall|k: Seq<char>| #[trigger]
                        new_self@.contains_key(k) == old_self@.insert(name_v, value_v).contains_key(
                            k,
                        ) by {
                        if new_self@.contains_key(k) {
                            let j = choose|j: int|
                                0 <= j < new_self.entries@.len() && new_self.entries@[j].0@ == k;
                            assert(old_self.entries@[j].0@ == k);
                        }
                        if old_self@.contains_key(k) {
                            let j = choose|j: int|
                                0 <= j < old_self.entries@.len() && old_self.entries@[j].0@ == k;
                            assert(new_self.entries@[j].0@ == k);
                        }
                        if k == name_v {
                            assert(new_self.entries@[i as int].0@ == k);
                        }
                    }
                    assert forall|k: Seq<char>| #[trigger]
                        new_self@.contains_key(k) implies new_self@[k] == old_self@.insert(
                            name_v,
                            value_v,
                        )[k] by {
                        let j = choose|j: int|
                            0 <= j < new_self.entries@.len() && new_self.entries@[j].0@ == k;
                        new_self.lemma_index_of(j);
                        old_self.lemma_index_of(j);
                    }
                    assert(new_self@ =~= old_self@.insert(name_v, value_v));
                    assert(old_self@.contains_key(name_v)) by {
                        assert(old_self.entries@[i as int].0@ == name_v);
                    }
                }
                return;
            }
            i = i + 1;
        }
        let mut entries: Vec<(String, String)> = Vec::new();
        std::mem::swap(&mut entries, &mut self.entries);
        entries.push((name, value));
        proof {
            assert forall|a: int, b: int|
                0 <= a < b < entries@.len() implies #[trigger] entries@[a].0@
                != #[trigger] entries@[b].0@ by {
                if b == n {
                    assert(entries@[a].0@ == old_self.entries@[a].0@);
                } else {
                    assert(entries@[a].0@ == old_self.entries@[a].0@);
                    assert(entries@[b].0@ == old_self.entries@[b].0@);
                }
            }
        }
        self.entries = entries;
        proof {
            let new_self = *self;
            assert(new_self.entries@ == old_self.entries@.push((new_self.entries@[n as int])));
            assert forall|k: Seq<char>| #[trigger]
                new_self@.contains_key(k) == old_self@.insert(name_v, value_v).contains_key(k) by {
                if new_self@.contains_key(k) {
                    let j = choose|j: int|
                        0 <= j < new_self.entries@.len() && new_self.entries@[j].0@ == k;
                    if j < n {
                        assert(old_self.entries@[j].0@ == k);
                    }
                }
                if old_self@.contains_key(k) {
                    let j = choose|j: int|
                        0 <= j < old_self.entries@.len() && old_self.entries@[j].0@ == k;
                    assert(new_self.entries@[j].0@ == k);
                }
                if k == name_v {
                    assert(new_self.entries@[n as int].0@ == k);
                }
            }
            assert forall|k: Seq<char>| #[trigger]
                new_self@.contains_key(k) implies new_self@[k] == old_self@.insert(
                    name_v,
                    value_v,
                )[k] by {
                let j = choose|j: int|
                    0 <= j < new_self.entries@.len() && new_self.entries@[j].0@ == k;
                new_self.lemma_index_of(j);
                if j < n {
                    old_self.lemma_index_of(j);
                }
            }
            assert(new_self@ =~= old_self@.insert(name_v, value_v));
            assert(!old_self@.contains_key(name_v)) by {
                if old_self@.contains_key(name_v) {
                    let j = choose|j: int|
                        0 <= j < old_self.entries@.len() && old_self.entries@[j].0@ == name_v;
                    assert(self.entries@[j].0@ != name_v);
                }
            }
            assert(new_self.pairs() =~= old_self.pairs().push((name_v, value_v)));
        }
    }
}

impl Clone for Headers {
    fn clone(&self) -> (h: Headers)
        ensures
            h.pairs() == self.pairs(),
            h@ == self@,
    {
        proof {
            use_type_invariant(self);
        }
        let n = self.entries.len();
        let mut entries: Vec<(String, String)> = Vec::new();
        let mut i: usize = 0;
        while i < n
            invariant
                n == self.entries@.len(),
                i <= n,
                entries@.len() == i,
                forall|j: int|
                    0 <= j < i ==> #[trigger] entries@[j].0@ == self.entries@[j].0@
                        && entries@[j].1@ == self.entries@[j].1@,
            decreases n - i,
        {
            let e = &self.entries[i];
            entries.push((e.0.clone(), e.1.clone()));
            i = i + 1;
        }
        proof {
            assert forall|a: int, b: int|
                0 <= a < b < entries@.len() implies #[trigger] entries@[a].0@
                != #[trigger] entries@[b].0@ by {
                assert(entries@[a].0@ == self.entries@[a].0@);
                assert(entries@[b].0@ == self.entries@[b].0@);
            }
        }
        let h = Headers { entries };
        proof {
            assert(h.pairs() =~= self.pairs());
            assert forall|k: Seq<char>| #[trigger] h@.contains_key(k) == self@.contains_key(k) by {
                if h@.contains_key(k) {
                    let j = choose|j: int| 0 <= j < h.entries@.len() && h.entries@[j].0@ == k;
                    assert(self.entries@[j].0@ == k);
                }
                if self@.contains_key(k) {
                    let j = choose|j: int|
                        0 <= j < self.entries@.len() && self.entries@[j].0@ == k;
                    assert(h.entries@[j].0@ == k);
                }
            }
            assert forall|k: Seq<char>| #[trigger] h@.contains_key(k) implies h@[k] == self@[k] by {
                let j = choose|j: int| 0 <= j < h.entries@.len() && h.entries@[j].0@ == k;
                h.lemma_index_of(j);
                self.lemma_index_of(j);
            }
            assert(h@ =~= self@);
        }
        h
    }
}

impl View for Headers {
    type V = Map<Seq<char>, Seq<char>>;

    closed spec fn view(&self) -> Map<Seq<char>, Seq<char>> {
        Map::new(
            |k: Seq<char>| exists|i: int| 0 <= i < self.entries@.len() && self.entries@[i].0@ == k,
            |k: Seq<char>| self.entries@[self.index_of(k)].1@,
        )
    }
}

/// Everything a run needs to know.
#[derive(Debug, Clone)]
pub struct Config {
    pub url: String,
    pub run_mode: RunMode,
    pub concurrency: usize,
    pub rate_limit: Option<u32>,
    pub timeout: Duration,
    pub method: HttpMethod,
    pub body: Option<String>,
    pub headers: Headers,
    pub output_format: OutputFormat,
    pub output_file: Option<String>,
    pub progress: bool,
    pub keep_alive: bool,
    pub follow_redirects: bool,
    pub warmup: Option<Duration>,
    pub channel_capacity: usize,
    pub http2: bool,
    /// Threshold assertions to check after the run, as written.
    pub assertions: Vec<String>,
    /// A baseline report to compare the run with.
    pub compare: Option<String>,
    /// Where to write the per-second time series.
    pub csv_file: Option<String>,
}

/// `reqwest::Url::parse`: the error message it gives for `s`, if it refuses it.
pub uninterp spec fn url_parse_error(s: Seq<char>) -> Option<Seq<char>>;

/// `reqwest::Url::parse` (the `url` crate's parser): `None` where `s` parses
/// as a URL, else the parse error's message. What it accepts is named, not
/// written out, here.
#[verifier::external_body]
fn url_error(s: &str) -> (r: Option<String>)
    ensures
        match r {
            None => url_parse_error(s@) is None,
            Some(m) => url_parse_error(s@) == Some(m@),
        },
{
    match reqwest::Url::parse(s) {
        Ok(_) => None,
        Err(e) => Some(e.to_string()),
    }
}

/// The complaint about a run of `n` requests, if any.
pub open spec fn count_mode_error(n: u64) -> Option<Seq<char>> {
    if n == 0 {
        Some("Request count must be greater than 0"@)
    } else {
        None
    }
}

/// The complaint about a run lasting `nanos` nanoseconds, if any.
pub open spec fn span_mode_error(nanos: nat) -> Option<Seq<char>> {
    if nanos == 0 {
        Some("Duration must be greater than 0"@)
    } else {
        None
    }
}

/// The complaint about run mode `m`, if any.
pub open spec fn mode_error(m: RunMode) -> Option<Seq<char>> {
    match m {
        RunMode::RequestCount(n) => count_mode_error(n),
        RunMode::Duration(d) => span_mode_error(d.nanos()),
    }
}

/// The first check that a configuration with these settings fails, as its
/// message, given the URL parser's verdict `url_error` on `url` and the
/// complaint `mode_err` about the run mode; `None` when it passes them all.
pub open spec fn settings_error(
    url: Seq<char>,
    url_error: Option<Seq<char>>,
    mode_err: Option<Seq<char>>,
    concurrency: usize,
    rate_limit: Option<u32>,
    http2: bool,
    keep_alive: bool,
) -> Option<Seq<char>> {
    if url.len() == 0 {
        Some("URL cannot be empty"@)
    } else if url_error is Some {
        Some("Invalid URL: '"@ + url + "': "@ + url_error->0)
    } else if mode_err is Some {
        mode_err
    } else if concurrency == 0 {
        Some("Concurrency must be greater than 0"@)
    } else if concurrency > 10_000 {
        Some("Concurrency above 10,000 is unsupported (check OS fd limits)"@)
    } else if rate_limit == Some(0u32) {
        Some("Rate limit must be greater than 0 req/s"@)
    } else if http2 && !keep_alive {
        Some("HTTP/2 requires keep-alive connections. Remove --no-keep-alive"@)
    } else {
        None
    }
}

/// Whether `c` has a URL, at least one request or a non-zero duration, a
/// concurrency between 1 and 10,000 and no zero rate limit.
pub open spec fn passes_checks_before_http2(c: Config) -> bool {
    &&& c.url@.len() > 0
    &&& match c.run_mode {
        RunMode::RequestCount(n) => n > 0,
        RunMode::Duration(d) => d.nanos() > 0,
    }
    &&& 1 <= c.concurrency <= 10_000
    &&& c.rate_limit != Some(0u32)
}

/// HTTP/2 is refused only without keep-alive: for settings with a URL the
/// parser accepts, no complaint about the run mode, a concurrency between 1
/// and 10,000 and no zero rate limit, the settings pass exactly when
/// keep-alive is on or HTTP/2 is off, so that with keep-alive on, turning
/// HTTP/2 on or off changes nothing.
pub proof fn law_http2_needs_only_keep_alive(
    url: Seq<char>,
    mode_err: Option<Seq<char>>,
    concurrency: usize,
    rate_limit: Option<u32>,
    http2: bool,
    keep_alive: bool,
)
    requires
        url.len() > 0,
        mode_err is None,
        1 <= concurrency <= 10_000,
        rate_limit != Some(0u32),
    ensures
        settings_error(url, None, mode_err, concurrency, rate_limit, http2, keep_alive) is None
            <==> (keep_alive || !http2),
        keep_alive ==> settings_error(url, None, mode_err, concurrency, rate_limit, http2, true)
            == settings_error(url, None, mode_err, concurrency, rate_limit, !http2, true),
{
}

/// The first check that `c` fails, as its message, given the URL parser's
/// verdict `url_error` on `c.url`; `None` when `c` is valid.
pub open spec fn config_error(c: Config, url_error: Option<Seq<char>>) -> Option<Seq<char>> {
    settings_error(
        c.url@,
        url_error,
        mode_error(c.run_mode),
        c.concurrency,
        c.rate_limit,
        c.http2,
        c.keep_alive,
    )
}

impl Config {
    /// Checks the configuration, given the URL parser's verdict on `self.url`.
    pub fn validate_with(&self, url_error: &Option<String>) -> (r: Result<(), BastionError>)
        ensures
            outcome_is(
                r,
                config_error(
                    *self,
                    match url_error {
                        None => None,
                        Some(m) => Some(m@),
                    },
                ),
            ),
            passes_checks_before_http2(*self) && url_error is None ==> (r is Ok <==> (
            self.keep_alive || !self.http2)),
    {
        if self.url.as_str().unicode_len() == 0 {
            return Err(invalid_config(string_from("URL cannot be empty")));
        }
        if let Some(e) = url_error {
            let mut m = string_from("Invalid URL: '");
            m.append(self.url.as_str());
            m.append("': ");
            m.append(e.as_str());
            return Err(invalid_config(m));
        }
        match &self.run_mode {
            RunMode::RequestCount(n) => {
                if *n == 0 {
                    return Err(invalid_config(string_from("Request count must be greater than 0")));
                }
            },
            RunMode::Duration(d) => {
                if d.is_zero() {
                    return Err(invalid_config(string_from("Duration must be greater than 0")));
                }
            },
        }
        if self.concurrency == 0 {
            return Err(invalid_config(string_from("Concurrency must be greater than 0")));
        }
        if self.concurrency > 10_000 {
            return Err(
                invalid_config(
                    string_from("Concurrency above 10,000 is unsupported (check OS fd limits)"),
                ),
            );
        }
        if let Some(rate_limit) = self.rate_limit {
            if rate_limit == 0 {
                return Err(invalid_config(string_from("Rate limit must be greater than 0 req/s")));
            }
        }
        if self.http2 && !self.keep_alive {
            return Err(
                invalid_config(
                    string_from("HTTP/2 requires keep-alive connections. Remove --no-keep-alive"),
                ),
            );
        }
        Ok(())
    }

    /// Checks the configuration: the URL is non-empty and parses, the run
    /// has at least one request or a non-zero duration, the concurrency is
    /// between 1 and 10,000, a rate limit is positive, and HTTP/2 comes with
    /// keep-alive. The first failing check gives the error.
    pub fn validate(&self) -> (r: Result<(), BastionError>)
        ensures
            outcome_is(r, config_error(*self, url_parse_error(self.url@))),
            passes_checks_before_http2(*self) && url_parse_error(self.url@) is None ==> (r is Ok
                <==> (self.keep_alive || !self.http2)),
    {
        if self.url.as_str().unicode_len() == 0 {
            return Err(invalid_config(string_from("URL cannot be empty")));
        }
        let e = url_error(self.url.as_str());
        self.validate_with(&e)
    }
}

} // verus!
