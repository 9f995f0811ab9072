//! The orchestrator: the run's decision logic as one step-by-step state
//! machine.
//!
//! Every step is a pure function from the previous state and the outcome of
//! one outside action (connect, three queries, one HTTP request, one write)
//! to the next state, the log lines to emit, and the next action. A thin
//! driver performs the actions and feeds their results back as plain values;
//! everything decided here is verified.

use vstd::prelude::*;
use vstd::string::StringExecFns;
use crate::config::{ConfigParser, ConfigValue, spec_section, spec_get_str, spec_get_str_or,
    StrLookup};
use crate::decimal::{Dec, Cmp, cmp_dec, spec_render};
use crate::errors::AppError;
use crate::http::{HttpProcessor, HttpMethod, HttpConfigOut, spec_http_config, matches_http_config,
    regex_ok, capture1_of};
use crate::decimal::decimal_of;
use crate::store::{ConnSpec, ConnOut, spec_conn_config, item_id_from_lookup,
    account_id_from_lookup, last_price_from_lookup};
use crate::text::str_eq_nocase;

verus! {

/// Log verbosity, mirroring the level names the logging collaborator knows.
#[derive(Clone, Copy, Debug, PartialEq, Eq, Structural)]
pub enum LogLevel {
    Off,
    Error,
    Warn,
    Info,
    Debug,
    Trace,
}

/// The level a name denotes, compared ignoring ASCII case.
pub open spec fn spec_level_of(s: Seq<char>) -> Option<LogLevel> {
    if str_eq_nocase(s, "OFF"@) {
        Some(LogLevel::Off)
    } else if str_eq_nocase(s, "ERROR"@) {
        Some(LogLevel::Error)
    } else if str_eq_nocase(s, "WARN"@) {
        Some(LogLevel::Warn)
    } else if str_eq_nocase(s, "INFO"@) {
        Some(LogLevel::Info)
    } else if str_eq_nocase(s, "DEBUG"@) {
        Some(LogLevel::Debug)
    } else if str_eq_nocase(s, "TRACE"@) {
        Some(LogLevel::Trace)
    } else {
        None
    }
}

/// Reads a verbosity name; an unrecognized one is a configuration error.
pub fn level_from_name(s: &str) -> (r: Result<LogLevel, AppError>)
    ensures
        spec_level_of(s@) matches Some(l) ==> r == Ok::<LogLevel, AppError>(l),
        spec_level_of(s@) is None ==> (r matches Err(e) && e matches AppError::Config(m) && m@
            == "wrong log level"@),
{
    if crate::text::eq_nocase(s, "OFF") {
        Ok(LogLevel::Off)
    } else if crate::text::eq_nocase(s, "ERROR") {
        Ok(LogLevel::Error)
    } else if crate::text::eq_nocase(s, "WARN") {
        Ok(LogLevel::Warn)
    } else if crate::text::eq_nocase(s, "INFO") {
        Ok(LogLevel::Info)
    } else if crate::text::eq_nocase(s, "DEBUG") {
        Ok(LogLevel::Debug)
    } else if crate::text::eq_nocase(s, "TRACE") {
        Ok(LogLevel::Trace)
    } else {
        Err(AppError::Config("wrong log level".to_owned()))
    }
}

/// One line for the driver to log at a given level.
#[derive(Debug)]
pub struct LogLine {
    pub level: LogLevel,
    pub text: String,
}

/// The abstract content of a list of log lines.
pub open spec fn log_view(l: Seq<LogLine>) -> Seq<(LogLevel, Seq<char>)> {
    l.map_values(|e: LogLine| (e.level, e.text@))
}

/// The informational line every fetched price produces.
pub open spec fn current_price_msg(cp: Dec) -> Seq<char> {
    "current price: "@ + spec_render(cp)
}

/// The comparative line for a price that fell.
pub open spec fn decreases_msg(cp: Dec, lp: Dec) -> Seq<char> {
    "current price: "@ + spec_render(cp) + " last stored price: "@ + spec_render(lp)
        + " => price decreases"@
}

/// The comparative line for a price that rose.
pub open spec fn increases_msg(cp: Dec, lp: Dec) -> Seq<char> {
    "current price: "@ + spec_render(cp) + " last stored price: "@ + spec_render(lp)
        + " => price increases"@
}

/// The persist decision: a fetched price is stored exactly when there is no
/// prior observation or the value differs from the last stored one.
pub open spec fn spec_insert(cp: Dec, lp: Option<Dec>) -> Option<Dec> {
    match lp {
        Option::None => Some(cp),
        Option::Some(l) => if cp.val() != l.val() {
            Some(cp)
        } else {
            None
        },
    }
}

/// The log lines the decision emits: the current price, then one comparative
/// line when a prior observation exists and the value moved.
pub open spec fn spec_logs(cp: Dec, lp: Option<Dec>) -> Seq<(LogLevel, Seq<char>)> {
    let head = seq![(LogLevel::Info, current_price_msg(cp))];
    match lp {
        Option::None => head,
        Option::Some(l) => if cp.val() < l.val() {
            head.push((LogLevel::Info, decreases_msg(cp, l)))
        } else if cp.val() > l.val() {
            head.push((LogLevel::Info, increases_msg(cp, l)))
        } else {
            head
        },
    }
}

/// What the decision policy produced for one fetched price.
#[derive(Debug)]
pub struct Decision {
    pub logs: Vec<LogLine>,
    pub insert: Option<Dec>,
}

fn comparative_line(cp: &Dec, lp: &Dec, suffix: &str) -> (r: String)
    requires
        cp.wf(),
        lp.wf(),
    ensures
        r@ == "current price: "@ + spec_render(*cp) + " last stored price: "@ + spec_render(*lp)
            + suffix@,
{
    let r = "current price: ".to_owned().concat(cp.render().as_str()).concat(
        " last stored price: ",
    ).concat(lp.render().as_str()).concat(suffix);
    proof {
        assert(r@ =~= "current price: "@ + spec_render(*cp) + " last stored price: "@
            + spec_render(*lp) + suffix@);
    }
    r
}

/// Applies the persist-decision policy to a fetched price and the last
/// stored one, producing the exact log lines and the optional write.
pub fn decide(cp: Dec, lp: Option<Dec>) -> (r: Decision)
    requires
        cp.wf(),
        lp matches Some(l) ==> l.wf(),
    ensures
        r.insert == spec_insert(cp, lp),
        log_view(r.logs@) == spec_logs(cp, lp),
{
    let mut logs: Vec<LogLine> = Vec::new();
    logs.push(
        LogLine { level: LogLevel::Info, text: "current price: ".to_owned().concat(cp.render().as_str()) },
    );
    match lp {
        Option::None => {
            proof {
                assert(log_view(logs@) =~= spec_logs(cp, lp));
            }
            Decision { logs, insert: Some(cp) }
        },
        Option::Some(l) => {
            let c = cmp_dec(cp, l);
            match c {
                Cmp::Lt => logs.push(
                    LogLine {
                        level: LogLevel::Info,
                        text: comparative_line(&cp, &l, " => price decreases"),
                    },
                ),
                Cmp::Gt => logs.push(
                    LogLine {
                        level: LogLevel::Info,
                        text: comparative_line(&cp, &l, " => price increases"),
                    },
                ),
                Cmp::Eq => (),
            }
            let insert = match c {
                Cmp::Eq => None,
                _ => Some(cp),
            };
            proof {
                assert(log_view(logs@) =~= spec_logs(cp, lp));
            }
            Decision { logs, insert }
        },
    }
}

/// An equal price is never persisted; a changed one always is, and what is
/// persisted is the fetched value itself.
pub proof fn lemma_persist_iff_changed(cp: Dec, lp: Dec)
    requires
        cp.wf(),
        lp.wf(),
    ensures
        cp.val() == lp.val() ==> spec_insert(cp, Some(lp)) is None,
        cp.val() != lp.val() ==> spec_insert(cp, Some(lp)) == Some(cp),
{
}

/// A price with no prior observation is always persisted.
pub proof fn lemma_first_observation_persisted(cp: Dec)
    requires
        cp.wf(),
    ensures
        spec_insert(cp, None) == Some(cp),
{
}

/// Running the pipeline twice against an unchanged upstream price inserts at
/// most once: whatever the first run decided, the last stored value then
/// equals the fetched one, so the second run inserts nothing.
pub proof fn lemma_idempotent_reruns(cp: Dec, lp: Option<Dec>)
    requires
        cp.wf(),
        lp matches Some(l) ==> l.wf(),
    ensures
        ({
            let stored_after_first = match spec_insert(cp, lp) {
                Option::Some(p) => Some(p),
                Option::None => lp,
            };
            spec_insert(cp, stored_after_first) is None
        }),
{
}

/// The comparative-message law: the logs carry the "decreases" line exactly
/// when the price fell, and the "increases" line exactly when it rose.
pub proof fn lemma_comparative_messages(cp: Dec, lp: Dec)
    requires
        cp.wf(),
        lp.wf(),
    ensures
        spec_logs(cp, Some(lp)).contains((LogLevel::Info, decreases_msg(cp, lp))) <==> cp.val()
            < lp.val(),
        spec_logs(cp, Some(lp)).contains((LogLevel::Info, increases_msg(cp, lp))) <==> cp.val()
            > lp.val(),
{
    reveal_strlit("current price: ");
    reveal_strlit(" last stored price: ");
    reveal_strlit(" => price decreases");
    reveal_strlit(" => price increases");
    let logs = spec_logs(cp, Some(lp));
    let cur = current_price_msg(cp);
    let dmsg = decreases_msg(cp, lp);
    let imsg = increases_msg(cp, lp);
    // the plain line is shorter than either comparative line
    assert(cur.len() < dmsg.len());
    assert(cur.len() < imsg.len());
    // the two comparative lines differ where one says "decreases"
    let pos = 15 + spec_render(cp).len() + 20 + spec_render(lp).len() + 10;
    assert(dmsg[pos as int] == 'd');
    assert(imsg[pos as int] == 'i');
    assert(dmsg != imsg);
    if cp.val() < lp.val() {
        assert(logs[1] == (LogLevel::Info, dmsg));
        assert(logs.contains((LogLevel::Info, dmsg)));
        assert(forall|i: int| 0 <= i < logs.len() ==> logs[i].1 != imsg);
    } else if cp.val() > lp.val() {
        assert(logs[1] == (LogLevel::Info, imsg));
        assert(logs.contains((LogLevel::Info, imsg)));
        assert(forall|i: int| 0 <= i < logs.len() ==> logs[i].1 != dmsg);
    } else {
        assert(forall|i: int| 0 <= i < logs.len() ==> logs[i].1 != dmsg && logs[i].1 != imsg);
    }
}

/// Everything the configuration determines before any outside action, or the
/// first configuration failure, in the order the run checks them.
pub enum PrepOut {
    /// The log level name is unrecognized.
    BadLevel,
    /// The required item name is unreadable, with the configuration message.
    BadItem(Seq<char>),
    /// The required account name is unreadable.
    BadAccount(Seq<char>),
    /// The storage user is unreadable.
    BadConn(Seq<char>),
    Ready {
        level: LogLevel,
        item: Seq<char>,
        account: Seq<char>,
        user: Seq<char>,
        password: Option<Seq<char>>,
        database: Seq<char>,
        host: Seq<char>,
        fetch: HttpConfigOut,
    },
}

/// What preparing a run from a document yields.
pub open spec fn spec_prepare(doc: ConfigValue) -> PrepOut {
    let level_name = spec_get_str_or(spec_section(doc, "log"@), "level"@, "log"@, "info"@);
    match spec_level_of(level_name) {
        Option::None => PrepOut::BadLevel,
        Option::Some(level) => {
            let pconf = spec_section(doc, "processing"@);
            match spec_get_str(pconf, "item"@, "processing"@) {
                StrLookup::Fail(m) => PrepOut::BadItem(m),
                StrLookup::Found(item) => match spec_get_str(pconf, "account"@, "processing"@) {
                    StrLookup::Fail(m) => PrepOut::BadAccount(m),
                    StrLookup::Found(account) => match spec_conn_config(doc) {
                        ConnOut::BadUser(m) => PrepOut::BadConn(m),
                        ConnOut::Ready { user, password, database, host } => PrepOut::Ready {
                            level,
                            item,
                            account,
                            user,
                            password,
                            database,
                            host,
                            fetch: spec_http_config(doc),
                        },
                    },
                },
            }
        },
    }
}

/// How a prepared run corresponds to what the document determines.
pub open spec fn matches_prepare(r: Result<Prepared, AppError>, o: PrepOut) -> bool {
    match o {
        PrepOut::BadLevel => r matches Err(e) && e matches AppError::Config(m) && m@
            == "wrong log level"@,
        PrepOut::BadItem(m) => r matches Err(e) && e matches AppError::Config(mm) && mm@ == m,
        PrepOut::BadAccount(m) => r matches Err(e) && e matches AppError::Config(mm) && mm@ == m,
        PrepOut::BadConn(m) => r matches Err(e) && e matches AppError::Config(mm) && mm@ == m,
        PrepOut::Ready { level, item, account, user, password, database, host, fetch } => r
            matches Ok(p) && p.log_level == level && p.item_name@ == item && p.account_name@
            == account && p.conn.user@ == user && p.conn.database@ == database && p.conn.host@
            == host && (match (p.conn.password, password) {
            (Option::Some(a), Option::Some(b)) => a@ == b,
            (Option::None, Option::None) => true,
            _ => false,
        }) && matches_http_config(p.fetch, fetch),
    }
}

/// A run that has read its configuration and waits for the storage
/// collaborator to connect with [`Prepared::conn`].
#[derive(Debug)]
pub struct Prepared {
    pub log_level: LogLevel,
    pub conn: ConnSpec,
    pub item_name: String,
    pub account_name: String,
    pub fetch: Result<HttpProcessor, AppError>,
}

/// Reads everything a run needs from the configuration, in the order the run
/// reports failures: log level, item name, account name, storage user. The
/// request plan is kept as its own result: its failure surfaces only after
/// the storage steps, as the run's sequence dictates.
pub fn prepare(cfg: &ConfigParser) -> (r: Result<Prepared, AppError>)
    ensures
        matches_prepare(r, spec_prepare(cfg.0)),
{
    let level_str = cfg.section("log").get_str_or("level", "info");
    let log_level = match level_from_name(level_str.as_str()) {
        Ok(l) => l,
        Err(e) => return Err(e),
    };
    let cfg_processing = cfg.section("processing");
    let item_name = match cfg_processing.get_str("item") {
        Ok(s) => s,
        Err(e) => return Err(e),
    };
    let account_name = match cfg_processing.get_str("account") {
        Ok(s) => s,
        Err(e) => return Err(e),
    };
    let conn = match ConnSpec::from_config(cfg) {
        Ok(c) => c,
        Err(e) => return Err(e),
    };
    let fetch = HttpProcessor::from_config(cfg);
    Ok(Prepared { log_level, conn, item_name, account_name, fetch })
}

/// Connected to the store; waiting for the item identity row.
#[derive(Debug)]
pub struct Connected {
    pub item_name: String,
    pub account_name: String,
    pub fetch: Result<HttpProcessor, AppError>,
}

impl Prepared {
    /// Consumes the connect outcome: a failure becomes a storage error with
    /// the backend's message.
    pub fn on_connected(self, outcome: Result<(), String>) -> (r: Result<Connected, AppError>)
        ensures
            outcome is Ok ==> (r matches Ok(c) && c.item_name == self.item_name && c.account_name
                == self.account_name && c.fetch == self.fetch),
            outcome matches Err(m) ==> (r matches Err(e) && e matches AppError::Db(mm) && mm@
                == m@),
    {
        match outcome {
            Ok(_) => Ok(
                Connected {
                    item_name: self.item_name,
                    account_name: self.account_name,
                    fetch: self.fetch,
                },
            ),
            Err(m) => Err(AppError::Db(m)),
        }
    }
}

/// The item identity is known; waiting for the account identity row.
#[derive(Debug)]
pub struct WithItem {
    pub account_name: String,
    pub item_id: i32,
    pub fetch: Result<HttpProcessor, AppError>,
}

impl Connected {
    /// Consumes the item lookup: no row means the item does not exist.
    pub fn on_item_row(self, row: Result<Option<i32>, String>) -> (r: Result<WithItem, AppError>)
        ensures
            row matches Ok(o) ==> (match o {
                Option::Some(id) => r matches Ok(w) && w.item_id == id && w.account_name
                    == self.account_name && w.fetch == self.fetch,
                Option::None => r matches Err(e) && e matches AppError::Db(m) && m@
                    == "item not found"@,
            }),
            row matches Err(m) ==> (r matches Err(e) && e matches AppError::Db(mm) && mm@ == m@),
    {
        match item_id_from_lookup(row) {
            Ok(id) => Ok(
                WithItem { account_name: self.account_name, item_id: id, fetch: self.fetch },
            ),
            Err(e) => Err(e),
        }
    }
}

/// Both identities are known; waiting for the last stored price.
#[derive(Debug)]
pub struct WithIds {
    pub item_id: i32,
    pub account_id: i32,
    pub fetch: Result<HttpProcessor, AppError>,
}

impl WithItem {
    /// Consumes the account lookup: no row means the account does not exist.
    pub fn on_account_row(self, row: Result<Option<i32>, String>) -> (r: Result<WithIds, AppError>)
        ensures
            row matches Ok(o) ==> (match o {
                Option::Some(id) => r matches Ok(w) && w.item_id == self.item_id && w.account_id
                    == id && w.fetch == self.fetch,
                Option::None => r matches Err(e) && e matches AppError::Db(m) && m@
                    == "account not found"@,
            }),
            row matches Err(m) ==> (r matches Err(e) && e matches AppError::Db(mm) && mm@ == m@),
    {
        match account_id_from_lookup(row) {
            Ok(id) => Ok(WithIds { item_id: self.item_id, account_id: id, fetch: self.fetch }),
            Err(e) => Err(e),
        }
    }
}

/// Ready to issue the request: the driver posts [`HttpProcessor::url`] with
/// [`HttpProcessor::form_fields`] and hands the body text back.
#[derive(Debug)]
pub struct ReadyToFetch {
    pub item_id: i32,
    pub account_id: i32,
    pub last_price: Option<Dec>,
    pub fetcher: HttpProcessor,
}

impl WithIds {
    /// Consumes the last-price row. Only now may a bad request plan surface,
    /// and a plan whose method is not `POST` fails here, before any network
    /// attempt.
    pub fn on_last_price(self, row: Result<Option<Dec>, String>) -> (r: Result<
        ReadyToFetch,
        AppError,
    >)
        requires
            row matches Ok(o) ==> (o matches Some(l) ==> l.wf()),
        ensures
            row matches Err(m) ==> (r matches Err(e) && e matches AppError::Db(mm) && mm@ == m@),
            r matches Ok(f) ==> (f.last_price matches Some(l) ==> l.wf()),
            row matches Ok(lp) ==> (match self.fetch {
                Result::Err(e) => r matches Err(e2) && e2 == e,
                Result::Ok(h) => if h.method != HttpMethod::POST {
                    r matches Err(e) && e matches AppError::Config(m) && m@
                        == "unsupported method"@
                } else {
                    r matches Ok(f) && f.item_id == self.item_id && f.account_id == self.account_id
                        && f.last_price == lp && f.fetcher == h
                },
            }),
    {
        let lp = match last_price_from_lookup(row) {
            Ok(o) => o,
            Err(e) => return Err(e),
        };
        match self.fetch {
            Err(e) => Err(e),
            Ok(h) => match h.method {
                HttpMethod::POST => Ok(
                    ReadyToFetch {
                        item_id: self.item_id,
                        account_id: self.account_id,
                        last_price: lp,
                        fetcher: h,
                    },
                ),
                _ => Err(AppError::Config("unsupported method".to_owned())),
            },
        }
    }
}

/// One observation write for the driver to perform.
#[derive(Clone, Copy, Debug, PartialEq, Eq, Structural)]
pub struct InsertCmd {
    pub item_id: i32,
    pub account_id: i32,
    pub price: Dec,
}

/// The end of the decision pipeline: lines to log, and at most one write.
#[derive(Debug)]
pub struct Decided {
    pub logs: Vec<LogLine>,
    pub insert: Option<InsertCmd>,
}

/// The write the decision policy asks for, addressed to the pair of
/// identities.
pub open spec fn spec_insert_cmd(
    cp: Dec,
    lp: Option<Dec>,
    item_id: i32,
    account_id: i32,
) -> Option<InsertCmd> {
    match spec_insert(cp, lp) {
        Option::Some(p) => Some(InsertCmd { item_id, account_id, price: p }),
        Option::None => None,
    }
}

impl ReadyToFetch {
    /// Consumes the request outcome: a transport or status failure is a
    /// request error; a body runs through extraction and the decision policy.
    pub fn on_response(self, resp: Result<String, String>) -> (r: Result<Decided, AppError>)
        requires
            self.last_price matches Some(l) ==> l.wf(),
        ensures
            resp matches Err(m) ==> (r matches Err(e) && e matches AppError::Request(mm) && mm@
                == m@),
            resp matches Ok(body) ==> ({
                let pat = self.fetcher.pattern@;
                &&& !regex_ok(pat) ==> (r matches Err(e) && e is RegEx)
                &&& regex_ok(pat) && capture1_of(pat, body@) is None ==> (r matches Ok(d)
                    && d.insert is None && log_view(d.logs@) == seq![
                    (LogLevel::Warn, "no price found"@),
                ])
                &&& regex_ok(pat) ==> (capture1_of(pat, body@) matches Some(t) ==> ((decimal_of(t)
                    is None ==> (r matches Err(e) && e is ParseError)) && (decimal_of(t)
                    matches Some(p) ==> (r matches Ok(d) && log_view(d.logs@) == spec_logs(
                    Dec { m: p.0, s: p.1 },
                    self.last_price,
                ) && d.insert == spec_insert_cmd(
                    Dec { m: p.0, s: p.1 },
                    self.last_price,
                    self.item_id,
                    self.account_id,
                )))))
            }),
    {
        let body = match resp {
            Ok(b) => b,
            Err(m) => return Err(AppError::Request(m)),
        };
        match self.fetcher.extract_price(body.as_str()) {
            Err(e) => Err(e),
            Ok(None) => {
                let mut logs: Vec<LogLine> = Vec::new();
                logs.push(LogLine { level: LogLevel::Warn, text: "no price found".to_owned() });
                proof {
                    assert(log_view(logs@) =~= seq![(LogLevel::Warn, "no price found"@)]);
                }
                Ok(Decided { logs, insert: None })
            },
            Ok(Some(cp)) => {
                let d = decide(cp, self.last_price);
                let insert = match d.insert {
                    Some(p) => Some(
                        InsertCmd {
                            item_id: self.item_id,
                            account_id: self.account_id,
                            price: p,
                        },
                    ),
                    None => None,
                };
                Ok(Decided { logs: d.logs, insert })
            },
        }
    }
}

} // verus!
