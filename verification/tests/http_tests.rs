use price_sniffer::config::{ConfigParser, ConfigValue};
use price_sniffer::decimal::Dec;
use price_sniffer::errors::AppError;
use price_sniffer::http::{HttpMethod, HttpProcessor};

fn processing(entries: Vec<(String, ConfigValue)>) -> ConfigParser {
    ConfigParser::new(ConfigValue::Mapping(vec![(
        "processing".to_string(),
        ConfigValue::Mapping(entries),
    )]))
}

fn plan(regex: &str) -> HttpProcessor {
    HttpProcessor {
        url: "http://shop.example/price".to_string(),
        method: HttpMethod::POST,
        payload: None,
        pattern: regex.to_string(),
    }
}

#[test]
fn method_names_are_read_case_insensitively() {
    assert_eq!(HttpMethod::from_str("GET").unwrap(), HttpMethod::GET);
    assert_eq!(HttpMethod::from_str("get").unwrap(), HttpMethod::GET);
    assert_eq!(HttpMethod::from_str("post").unwrap(), HttpMethod::POST);
    assert_eq!(HttpMethod::from_str("PoSt").unwrap(), HttpMethod::POST);
    assert_eq!(
        HttpMethod::from_str("PUT").unwrap_err(),
        AppError::Config("invalid http method: PUT".to_string())
    );
}

#[test]
fn from_config_reads_the_whole_plan() {
    let cfg = processing(vec![
        (
            "url".to_string(),
            ConfigValue::Str("http://shop.example/price".to_string()),
        ),
        (
            "regex".to_string(),
            ConfigValue::Str("price: (\\d+\\.\\d+)".to_string()),
        ),
        ("method".to_string(), ConfigValue::Str("POST".to_string())),
        (
            "payload".to_string(),
            ConfigValue::Mapping(vec![
                ("article".to_string(), ConfigValue::Str("widget".to_string())),
                ("qty".to_string(), ConfigValue::Int(2)),
            ]),
        ),
    ]);
    let h = HttpProcessor::from_config(&cfg).unwrap();
    assert_eq!(h.url, "http://shop.example/price");
    assert_eq!(h.method, HttpMethod::POST);
    assert_eq!(h.pattern, "price: (\\d+\\.\\d+)");
    assert_eq!(
        h.form_fields(),
        vec![
            ("article".to_string(), "widget".to_string()),
            ("qty".to_string(), "2".to_string()),
        ]
    );
}

#[test]
fn from_config_defaults_method_to_get_and_payload_to_empty() {
    let cfg = processing(vec![
        (
            "url".to_string(),
            ConfigValue::Str("http://shop.example/price".to_string()),
        ),
        ("regex".to_string(), ConfigValue::Str("(\\d+)".to_string())),
    ]);
    let h = HttpProcessor::from_config(&cfg).unwrap();
    assert_eq!(h.method, HttpMethod::GET);
    assert!(h.payload.is_none());
    assert!(h.form_fields().is_empty());
}

#[test]
fn from_config_requires_url_first() {
    let cfg = processing(vec![(
        "regex".to_string(),
        ConfigValue::Str("(\\d+)".to_string()),
    )]);
    assert_eq!(
        HttpProcessor::from_config(&cfg).unwrap_err(),
        AppError::Config("Missing key 'url' in section 'processing'".to_string())
    );
}

#[test]
fn malformed_pattern_is_a_regex_error() {
    let cfg = processing(vec![
        (
            "url".to_string(),
            ConfigValue::Str("http://shop.example/price".to_string()),
        ),
        ("regex".to_string(), ConfigValue::Str("(unclosed".to_string())),
    ]);
    let e = HttpProcessor::from_config(&cfg).unwrap_err();
    assert!(matches!(e, AppError::RegEx(_)));
}

#[test]
fn unknown_method_name_is_a_config_error() {
    let cfg = processing(vec![
        (
            "url".to_string(),
            ConfigValue::Str("http://shop.example/price".to_string()),
        ),
        ("regex".to_string(), ConfigValue::Str("(\\d+)".to_string())),
        ("method".to_string(), ConfigValue::Str("DELETE".to_string())),
    ]);
    assert_eq!(
        HttpProcessor::from_config(&cfg).unwrap_err(),
        AppError::Config("invalid http method: DELETE".to_string())
    );
}

#[test]
fn malformed_payload_is_a_config_error() {
    let cfg = processing(vec![
        (
            "url".to_string(),
            ConfigValue::Str("http://shop.example/price".to_string()),
        ),
        ("regex".to_string(), ConfigValue::Str("(\\d+)".to_string())),
        ("payload".to_string(), ConfigValue::Str("flat".to_string())),
    ]);
    assert_eq!(
        HttpProcessor::from_config(&cfg).unwrap_err(),
        AppError::Config("Key 'payload' in Section 'processing' is not a hash".to_string())
    );
}

#[test]
fn extraction_finds_the_first_capture() {
    let h = plan("price: (\\d+\\.\\d+)");
    let got = h
        .extract_price("noise\nprice: 12.30\nprice: 99.99\n")
        .unwrap();
    assert_eq!(got, Some(Dec::new(1230, 2).unwrap()));
}

#[test]
fn extraction_uses_multi_line_anchors() {
    let h = plan("^total: (\\d+)$");
    let got = h.extract_price("intro\ntotal: 42\noutro").unwrap();
    assert_eq!(got, Some(Dec::new(42, 0).unwrap()));
}

#[test]
fn no_match_is_absence_not_an_error() {
    let h = plan("price: (\\d+\\.\\d+)");
    assert_eq!(h.extract_price("no numbers here").unwrap(), None);
}

#[test]
fn match_without_capture_group_is_absence() {
    let h = plan("\\d+\\.\\d+");
    assert_eq!(h.extract_price("price: 10.50").unwrap(), None);
}

#[test]
fn captured_non_number_is_a_parse_error() {
    let h = plan("price: (\\S+)");
    let e = h.extract_price("price: unknown").unwrap_err();
    assert!(matches!(e, AppError::ParseError(_)));
}
