use price_sniffer::config::{ConfigParser, ConfigValue};
use price_sniffer::decimal::Dec;
use price_sniffer::errors::AppError;
use price_sniffer::pipeline::{decide, level_from_name, prepare, Decided, LogLevel, ReadyToFetch};
use price_sniffer::store::{account_id_from_lookup, insert_outcome, item_id_from_lookup};

fn processing_entries(with_url: bool, method: Option<&str>) -> Vec<(String, ConfigValue)> {
    let mut entries = vec![
        ("item".to_string(), ConfigValue::Str("widget".to_string())),
        ("account".to_string(), ConfigValue::Str("home".to_string())),
    ];
    if with_url {
        entries.push((
            "url".to_string(),
            ConfigValue::Str("http://shop.example/price".to_string()),
        ));
    }
    entries.push((
        "regex".to_string(),
        ConfigValue::Str("price: (\\d+\\.\\d+)".to_string()),
    ));
    if let Some(m) = method {
        entries.push(("method".to_string(), ConfigValue::Str(m.to_string())));
    }
    entries
}

fn full_config(with_url: bool, method: Option<&str>) -> ConfigParser {
    ConfigParser::new(ConfigValue::Mapping(vec![
        (
            "log".to_string(),
            ConfigValue::Mapping(vec![(
                "level".to_string(),
                ConfigValue::Str("info".to_string()),
            )]),
        ),
        (
            "database".to_string(),
            ConfigValue::Mapping(vec![(
                "user".to_string(),
                ConfigValue::Str("pricer".to_string()),
            )]),
        ),
        (
            "processing".to_string(),
            ConfigValue::Mapping(processing_entries(with_url, method)),
        ),
    ]))
}

fn drive_to_fetch(cfg: &ConfigParser, last_price: Option<Dec>) -> ReadyToFetch {
    let prepared = prepare(cfg).unwrap();
    assert_eq!(prepared.conn.user, "pricer");
    assert_eq!(prepared.conn.database, "management");
    assert_eq!(prepared.conn.host, "localhost");
    let connected = prepared.on_connected(Ok(())).unwrap();
    assert_eq!(connected.item_name, "widget");
    assert_eq!(connected.account_name, "home");
    let with_item = connected.on_item_row(Ok(Some(11))).unwrap();
    let with_ids = with_item.on_account_row(Ok(Some(22))).unwrap();
    with_ids.on_last_price(Ok(last_price)).unwrap()
}

fn finish(decided: Decided) -> Result<(), AppError> {
    match decided.insert {
        Some(_) => insert_outcome(Ok(())),
        None => Ok(()),
    }
}

#[test]
fn scenario_first_observation_inserts_and_logs_current_price() {
    let cfg = full_config(true, Some("POST"));
    let ready = drive_to_fetch(&cfg, None);
    let decided = ready
        .on_response(Ok("price: 10.50".to_string()))
        .unwrap();
    let cmd = decided.insert.expect("a first observation must be inserted");
    assert_eq!(cmd.item_id, 11);
    assert_eq!(cmd.account_id, 22);
    assert_eq!(cmd.price, Dec::new(1050, 2).unwrap());
    assert_eq!(decided.logs.len(), 1);
    assert_eq!(decided.logs[0].level, LogLevel::Info);
    assert_eq!(decided.logs[0].text, "current price: 10.50");
    assert!(finish(decided).is_ok());
}

#[test]
fn scenario_higher_price_inserts_and_logs_increase() {
    let cfg = full_config(true, Some("POST"));
    let ready = drive_to_fetch(&cfg, Some(Dec::new(1000, 2).unwrap()));
    let decided = ready
        .on_response(Ok("price: 10.50".to_string()))
        .unwrap();
    let cmd = decided.insert.expect("a changed price must be inserted");
    assert_eq!(cmd.price, Dec::new(1050, 2).unwrap());
    assert_eq!(decided.logs.len(), 2);
    assert_eq!(
        decided.logs[1].text,
        "current price: 10.50 last stored price: 10.00 => price increases"
    );
    assert!(!decided.logs.iter().any(|l| l.text.contains("decreases")));
}

#[test]
fn scenario_lower_price_inserts_and_logs_decrease() {
    let cfg = full_config(true, Some("POST"));
    let ready = drive_to_fetch(&cfg, Some(Dec::new(1100, 2).unwrap()));
    let decided = ready
        .on_response(Ok("price: 10.50".to_string()))
        .unwrap();
    assert!(decided.insert.is_some());
    assert_eq!(decided.logs.len(), 2);
    assert_eq!(
        decided.logs[1].text,
        "current price: 10.50 last stored price: 11.00 => price decreases"
    );
    assert!(!decided.logs.iter().any(|l| l.text.contains("increases")));
}

#[test]
fn scenario_unchanged_price_is_not_inserted() {
    let cfg = full_config(true, Some("POST"));
    let ready = drive_to_fetch(&cfg, Some(Dec::new(1050, 2).unwrap()));
    let decided = ready
        .on_response(Ok("price: 10.50".to_string()))
        .unwrap();
    assert!(decided.insert.is_none());
    assert_eq!(decided.logs.len(), 1);
    assert_eq!(decided.logs[0].text, "current price: 10.50");
}

#[test]
fn scenario_unchanged_price_across_scales_is_not_inserted() {
    let cfg = full_config(true, Some("POST"));
    // the stored value 10.5 equals the fetched 10.50 in value, not in shape
    let ready = drive_to_fetch(&cfg, Some(Dec::new(105, 1).unwrap()));
    let decided = ready
        .on_response(Ok("price: 10.50".to_string()))
        .unwrap();
    assert!(decided.insert.is_none());
}

#[test]
fn scenario_no_match_warns_and_succeeds() {
    let cfg = full_config(true, Some("POST"));
    let ready = drive_to_fetch(&cfg, Some(Dec::new(1050, 2).unwrap()));
    let decided = ready
        .on_response(Ok("the shop is closed today".to_string()))
        .unwrap();
    assert!(decided.insert.is_none());
    assert_eq!(decided.logs.len(), 1);
    assert_eq!(decided.logs[0].level, LogLevel::Warn);
    assert_eq!(decided.logs[0].text, "no price found");
    assert!(finish(decided).is_ok());
}

#[test]
fn scenario_missing_url_fails_with_config_error() {
    let cfg = full_config(false, Some("POST"));
    let prepared = prepare(&cfg).unwrap();
    let connected = prepared.on_connected(Ok(())).unwrap();
    let with_item = connected.on_item_row(Ok(Some(11))).unwrap();
    let with_ids = with_item.on_account_row(Ok(Some(22))).unwrap();
    let e = with_ids.on_last_price(Ok(None)).unwrap_err();
    assert_eq!(
        e,
        AppError::Config("Missing key 'url' in section 'processing'".to_string())
    );
}

#[test]
fn scenario_get_method_fails_before_any_request() {
    let cfg = full_config(true, None); // method defaults to GET
    let prepared = prepare(&cfg).unwrap();
    let connected = prepared.on_connected(Ok(())).unwrap();
    let with_item = connected.on_item_row(Ok(Some(11))).unwrap();
    let with_ids = with_item.on_account_row(Ok(Some(22))).unwrap();
    // the run ends here: no ReadyToFetch state, hence no request, ever
    let e = with_ids.on_last_price(Ok(None)).unwrap_err();
    assert_eq!(e, AppError::Config("unsupported method".to_string()));
}

#[test]
fn rerunning_after_an_insert_inserts_nothing() {
    let cp = Dec::parse("10.50").unwrap();
    // first run: no prior observation, so the price is stored
    let first = decide(cp, None);
    let stored = first.insert.expect("first run inserts");
    // second run against an unchanged upstream price
    let second = decide(cp, Some(stored));
    assert!(second.insert.is_none());
}

#[test]
fn decision_inserts_exactly_on_changed_value() {
    let cp = Dec::new(1050, 2).unwrap();
    assert!(decide(cp, Some(Dec::new(1050, 2).unwrap())).insert.is_none());
    assert_eq!(
        decide(cp, Some(Dec::new(999, 2).unwrap())).insert,
        Some(cp)
    );
    assert_eq!(decide(cp, None).insert, Some(cp));
}

#[test]
fn lookup_interpreters_name_what_is_missing() {
    assert_eq!(item_id_from_lookup(Ok(Some(5))).unwrap(), 5);
    assert_eq!(
        item_id_from_lookup(Ok(None)).unwrap_err(),
        AppError::Db("item not found".to_string())
    );
    assert_eq!(
        account_id_from_lookup(Ok(None)).unwrap_err(),
        AppError::Db("account not found".to_string())
    );
    assert_eq!(
        account_id_from_lookup(Err("backend down".to_string())).unwrap_err(),
        AppError::Db("backend down".to_string())
    );
    assert_eq!(
        insert_outcome(Err("constraint violated".to_string())).unwrap_err(),
        AppError::Db("constraint violated".to_string())
    );
}

#[test]
fn connect_failure_becomes_db_error() {
    let cfg = full_config(true, Some("POST"));
    let prepared = prepare(&cfg).unwrap();
    let e = prepared
        .on_connected(Err("no route to host".to_string()))
        .unwrap_err();
    assert_eq!(e, AppError::Db("no route to host".to_string()));
}

#[test]
fn transport_failure_becomes_request_error() {
    let cfg = full_config(true, Some("POST"));
    let ready = drive_to_fetch(&cfg, None);
    let e = ready
        .on_response(Err("status 500".to_string()))
        .unwrap_err();
    assert_eq!(e, AppError::Request("status 500".to_string()));
}

#[test]
fn captured_text_that_is_no_number_is_a_parse_error() {
    let cfg = ConfigParser::new(ConfigValue::Mapping(vec![
        (
            "database".to_string(),
            ConfigValue::Mapping(vec![(
                "user".to_string(),
                ConfigValue::Str("pricer".to_string()),
            )]),
        ),
        (
            "processing".to_string(),
            ConfigValue::Mapping(vec![
                ("item".to_string(), ConfigValue::Str("widget".to_string())),
                ("account".to_string(), ConfigValue::Str("home".to_string())),
                (
                    "url".to_string(),
                    ConfigValue::Str("http://shop.example/price".to_string()),
                ),
                (
                    "regex".to_string(),
                    ConfigValue::Str("price: (\\S+)".to_string()),
                ),
                ("method".to_string(), ConfigValue::Str("POST".to_string())),
            ]),
        ),
    ]));
    let ready = drive_to_fetch(&cfg, None);
    let e = ready
        .on_response(Ok("price: soon".to_string()))
        .unwrap_err();
    assert!(matches!(e, AppError::ParseError(_)));
}

#[test]
fn wrong_log_level_is_a_config_error() {
    assert_eq!(level_from_name("info").unwrap(), LogLevel::Info);
    assert_eq!(level_from_name("WARN").unwrap(), LogLevel::Warn);
    assert_eq!(level_from_name("Trace").unwrap(), LogLevel::Trace);
    assert_eq!(
        level_from_name("loud").unwrap_err(),
        AppError::Config("wrong log level".to_string())
    );
}

#[test]
fn item_lookup_failure_stops_the_run() {
    let cfg = full_config(true, Some("POST"));
    let prepared = prepare(&cfg).unwrap();
    let connected = prepared.on_connected(Ok(())).unwrap();
    let e = connected.on_item_row(Ok(None)).unwrap_err();
    assert_eq!(e, AppError::Db("item not found".to_string()));
}
