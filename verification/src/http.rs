//! Building the one HTTP request from configuration and extracting a price
//! from its response.
//!
//! The processor itself performs no network traffic: it validates and holds
//! the request plan (URL, method, form payload, extraction pattern), and it
//! turns a response body into an optional decimal price. The driver that owns
//! the transport issues the request and hands the body text back.

use vstd::prelude::*;
use vstd::string::StringExecFns;
use crate::config::{ConfigParser, ConfigValue, spec_section, spec_get, spec_get_str,
    spec_get_str_or, spec_get_hash, pairs_view, StrLookup, MapLookup};
use crate::decimal::{Dec, decimal_of};
use crate::errors::AppError;
use crate::text::str_eq_nocase;

verus! {

/// The request methods the configuration may name.
#[derive(Clone, Copy, Debug, PartialEq, Eq, Structural)]
pub enum HttpMethod {
    GET,
    POST,
}

pub open spec fn invalid_method_msg(m: Seq<char>) -> Seq<char> {
    "invalid http method: "@ + m
}

impl HttpMethod {
    /// Reads a method name, ignoring case; an unsupported name is a
    /// configuration error.
    pub fn from_str(method: &str) -> (r: Result<HttpMethod, AppError>)
        ensures
            str_eq_nocase(method@, "GET"@) ==> r == Ok::<HttpMethod, AppError>(HttpMethod::GET),
            !str_eq_nocase(method@, "GET"@) && str_eq_nocase(method@, "POST"@) ==> r == Ok::<
                HttpMethod,
                AppError,
            >(HttpMethod::POST),
            !str_eq_nocase(method@, "GET"@) && !str_eq_nocase(method@, "POST"@) ==> (r matches Err(
                e,
            ) && e matches AppError::Config(m) && m@ == invalid_method_msg(method@)),
    {
        if crate::text::eq_nocase(method, "GET") {
            Ok(HttpMethod::GET)
        } else if crate::text::eq_nocase(method, "POST") {
            Ok(HttpMethod::POST)
        } else {
            Err(AppError::Config("invalid http method: ".to_owned().concat(method)))
        }
    }
}

/// Whether the outside pattern engine accepts a pattern, a function of the
/// pattern text alone.
pub uninterp spec fn regex_ok(pattern: Seq<char>) -> bool;

/// The text of the first capture group of the first match of a pattern in a
/// haystack, if any: a function of the pattern and the haystack alone.
pub uninterp spec fn capture1_of(pattern: Seq<char>, text: Seq<char>) -> Option<Seq<char>>;

/// Relies on regex's `RegexBuilder::build` (with multi-line semantics, so
/// `^`/`$` match per line) and `Regex::captures`: whether a pattern compiles,
/// and the first capture group of its first match, depend on the pattern and
/// the haystack text alone.
#[verifier::external_body]
fn capture_first_group(pattern: &str, text: &str) -> (r: Result<Option<String>, AppError>)
    ensures
        (r is Ok) == regex_ok(pattern@),
        r matches Ok(o) ==> (match o {
            Option::Some(t) => capture1_of(pattern@, text@) == Some(t@),
            Option::None => capture1_of(pattern@, text@) is None,
        }),
        r matches Err(e) ==> e is RegEx,
{
    match regex::RegexBuilder::new(pattern).multi_line(true).build() {
        Ok(re) => Ok(
            re.captures(text).and_then(|c| c.get(1)).map(|m| m.as_str().to_owned()),
        ),
        Err(e) => Err(AppError::RegEx(e.to_string())),
    }
}

/// The plan of the one request a run performs.
#[derive(Debug)]
pub struct HttpProcessor {
    /// Destination of the request.
    pub url: String,
    /// Configured method; only `POST` can actually be fetched.
    pub method: HttpMethod,
    /// Optional form fields for a `POST` body.
    pub payload: Option<Vec<(String, String)>>,
    /// Price extraction pattern; it compiles (construction checked it).
    pub pattern: String,
}

/// Everything the "processing" section determines about the request plan,
/// or the first configuration failure, in the order construction checks them.
pub enum HttpConfigOut {
    /// The `url` read failed, with the configuration message.
    BadUrl(Seq<char>),
    /// The `regex` read failed, with the configuration message.
    BadRegexKey(Seq<char>),
    /// The pattern engine rejects the pattern.
    BadPattern(Seq<char>),
    /// The method name is neither `GET` nor `POST`, in any case.
    BadMethod(Seq<char>),
    /// The payload is present but not a mapping of scalars.
    BadPayload(Seq<char>),
    /// A valid plan.
    Ready {
        url: Seq<char>,
        pattern: Seq<char>,
        method: HttpMethod,
        payload: Option<Seq<(Seq<char>, Seq<char>)>>,
    },
}

/// What building the processor from a document yields.
pub open spec fn spec_http_config(doc: ConfigValue) -> HttpConfigOut {
    let conf = spec_section(doc, "processing"@);
    match spec_get_str(conf, "url"@, "processing"@) {
        StrLookup::Fail(m) => HttpConfigOut::BadUrl(m),
        StrLookup::Found(url) => match spec_get_str(conf, "regex"@, "processing"@) {
            StrLookup::Fail(m) => HttpConfigOut::BadRegexKey(m),
            StrLookup::Found(pat) => if !regex_ok(pat) {
                HttpConfigOut::BadPattern(pat)
            } else {
                let ms = spec_get_str_or(conf, "method"@, "processing"@, "GET"@);
                if !str_eq_nocase(ms, "GET"@) && !str_eq_nocase(ms, "POST"@) {
                    HttpConfigOut::BadMethod(ms)
                } else {
                    let method = if str_eq_nocase(ms, "GET"@) {
                        HttpMethod::GET
                    } else {
                        HttpMethod::POST
                    };
                    if spec_get(conf, "payload"@) is Missing {
                        HttpConfigOut::Ready { url, pattern: pat, method, payload: None }
                    } else {
                        match spec_get_hash(conf, "payload"@, "processing"@) {
                            MapLookup::Found(t) => HttpConfigOut::Ready {
                                url,
                                pattern: pat,
                                method,
                                payload: Some(t),
                            },
                            MapLookup::Fail(m) => HttpConfigOut::BadPayload(m),
                        }
                    }
                }
            },
        },
    }
}

/// How a construction result corresponds to what the document determines.
pub open spec fn matches_http_config(r: Result<HttpProcessor, AppError>, o: HttpConfigOut) -> bool {
    match o {
        HttpConfigOut::BadUrl(m) => r matches Err(e) && e matches AppError::Config(mm) && mm@ == m,
        HttpConfigOut::BadRegexKey(m) => r matches Err(e) && e matches AppError::Config(mm) && mm@
            == m,
        HttpConfigOut::BadPattern(_) => r matches Err(e) && e is RegEx,
        HttpConfigOut::BadMethod(ms) => r matches Err(e) && e matches AppError::Config(mm)
            && mm@ == invalid_method_msg(ms),
        HttpConfigOut::BadPayload(m) => r matches Err(e) && e matches AppError::Config(mm) && mm@
            == m,
        HttpConfigOut::Ready { url, pattern, method, payload } => r matches Ok(h) && h.url@ == url
            && h.pattern@ == pattern && h.method == method && regex_ok(pattern) && (match (
            h.payload,
            payload,
        ) {
            (Option::Some(v), Option::Some(t)) => pairs_view(v@) == t,
            (Option::None, Option::None) => true,
            _ => false,
        }),
    }
}

impl HttpProcessor {
    /// Builds the request plan from the "processing" section: required `url`
    /// and `regex` (checked against the pattern engine), optional `method`
    /// (default `GET`) and `payload`.
    pub fn from_config(conf: &ConfigParser) -> (r: Result<Self, AppError>)
        ensures
            matches_http_config(r, spec_http_config(conf.0)),
    {
        let cfg_processing = conf.section("processing");
        let url = match cfg_processing.get_str("url") {
            Ok(u) => u,
            Err(e) => return Err(e),
        };
        let regex_str = match cfg_processing.get_str("regex") {
            Ok(s) => s,
            Err(e) => return Err(e),
        };
        match capture_first_group(regex_str.as_str(), "") {
            Ok(_) => (),
            Err(e) => return Err(e),
        };
        let method_str = cfg_processing.get_str_or("method", "GET");
        let method = match HttpMethod::from_str(method_str.as_str()) {
            Ok(m) => m,
            Err(e) => return Err(e),
        };
        let payload = match cfg_processing.get_hash_if_present("payload") {
            Ok(p) => p,
            Err(e) => return Err(e),
        };
        Ok(HttpProcessor { url, method, payload, pattern: regex_str })
    }

    /// The form fields a `POST` sends: the configured payload, or none.
    pub fn form_fields(&self) -> (r: Vec<(String, String)>)
        ensures
            self.payload matches Some(v) ==> pairs_view(r@) == pairs_view(v@),
            self.payload is None ==> r@.len() == 0,
    {
        match &self.payload {
            Option::None => Vec::new(),
            Option::Some(v) => {
                let mut out: Vec<(String, String)> = Vec::new();
                let mut i: usize = 0;
                while i < v.len()
                    invariant
                        i <= v@.len(),
                        out@.len() == i,
                        forall|j: int|
                            0 <= j < i ==> (#[trigger] out@[j]).0@ == v@[j].0@ && out@[j].1@
                                == v@[j].1@,
                    decreases v@.len() - i,
                {
                    let e = &v[i];
                    out.push((e.0.clone(), e.1.clone()));
                    i += 1;
                }
                proof {
                    assert(pairs_view(out@) =~= pairs_view(v@));
                }
                out
            },
        }
    }

    /// Applies the configured pattern to a response body and parses the first
    /// capture group as a decimal. A body the pattern does not match, or a
    /// match without a capture group, is absence, never an error.
    pub fn extract_price(&self, body: &str) -> (r: Result<Option<Dec>, AppError>)
        ensures
            !regex_ok(self.pattern@) ==> (r matches Err(e) && e is RegEx),
            regex_ok(self.pattern@) && capture1_of(self.pattern@, body@) is None ==> r == Ok::<
                Option<Dec>,
                AppError,
            >(None),
            regex_ok(self.pattern@) ==> (capture1_of(self.pattern@, body@) matches Some(t) ==> ((
            decimal_of(t) matches Some(p) ==> (r matches Ok(o) && o matches Some(d) && (d.m, d.s)
                == p && d.wf())) && (decimal_of(t) is None ==> (r matches Err(e) && e
                is ParseError)))),
    {
        match capture_first_group(self.pattern.as_str(), body) {
            Err(e) => Err(e),
            Ok(None) => Ok(None),
            Ok(Some(text)) => match Dec::parse(text.as_str()) {
                Ok(d) => Ok(Some(d)),
                Err(e) => Err(e),
            },
        }
    }
}

} // verus!
