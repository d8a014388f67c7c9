use fastclient::json::{JsonMember, JsonValue};
use fastclient::scrape::{
    extract_address, extract_email, extract_industry, extract_name, extract_phone,
    industry_for_type, json_ld_blocks, json_ld_record, normalize_url, prepare_scrape, read_block,
    scrape_data, scrape_page, select_json_ld, JsonLdBlock, ScrapeRequest, ScrapeResponse, EMPTY_URL_MESSAGE,
};

fn text(s: &str) -> JsonValue {
    JsonValue::Text(s.to_string())
}

fn object(members: Vec<(&str, JsonValue)>) -> JsonValue {
    JsonValue::Object(
        members
            .into_iter()
            .map(|(k, v)| JsonMember { key: k.to_string(), value: v })
            .collect(),
    )
}

#[test]
fn url_gets_a_scheme() {
    assert_eq!(normalize_url("  example.com "), Some("https://example.com".to_string()));
    assert_eq!(normalize_url("http://a.b"), Some("http://a.b".to_string()));
    assert_eq!(normalize_url("https://a.b/x"), Some("https://a.b/x".to_string()));
    assert_eq!(normalize_url("HTTP://x"), Some("https://HTTP://x".to_string()));
    assert_eq!(normalize_url("   "), None);
}

#[test]
fn normalizing_twice_changes_nothing() {
    for u in ["example.com", " http://x ", "https://y", "a b"] {
        let once = normalize_url(u).unwrap();
        assert_eq!(normalize_url(&once), Some(once.clone()));
    }
}

#[test]
fn blank_url_is_refused() {
    let r = prepare_scrape(&ScrapeRequest { url: " \t".to_string() });
    match r {
        Err(resp) => {
            assert!(!resp.success);
            assert!(resp.data.is_none());
            assert_eq!(resp.error.as_deref(), Some(EMPTY_URL_MESSAGE));
        }
        Ok(_) => panic!("blank URL accepted"),
    }
    assert_eq!(
        prepare_scrape(&ScrapeRequest { url: "acme.com".to_string() }).ok(),
        Some("https://acme.com".to_string())
    );
}

#[test]
fn response_constructors() {
    let f = ScrapeResponse::failure("nope".to_string());
    assert!(!f.success && f.data.is_none() && f.error.as_deref() == Some("nope"));
}

#[test]
fn email_skips_placeholder_domains() {
    assert_eq!(
        extract_email("<p>Contact: info@acme.io or test@example.com</p>"),
        Some("info@acme.io".to_string())
    );
    assert_eq!(
        extract_email("<p>noreply@example.com then sales@acme.com</p>"),
        Some("sales@acme.com".to_string())
    );
    assert_eq!(extract_email("<p>a@sentry.io b@w3.org</p>"), None);
    assert_eq!(extract_email("<p>no address here</p>"), None);
}

#[test]
fn script_pattern_does_not_compile_so_scripts_stay() {
    // The script/style pattern uses a back-reference, which the regex crate
    // refuses; the page is then searched as it is.
    assert_eq!(
        extract_email("<script>x@foo.com</script><p>a@bar.com</p>"),
        Some("x@foo.com".to_string())
    );
}

#[test]
fn phone_numbers() {
    assert_eq!(
        extract_phone("<p>Call (555) 123-4567 today</p>"),
        Some("(555) 123-4567".to_string())
    );
    assert_eq!(extract_phone("<b>+1 555.123.4567</b>"), Some("555.123.4567".to_string()));
    assert_eq!(extract_phone("<p>no number</p>"), None);
}

#[test]
fn phone_tags_are_blanked_before_searching() {
    // Without tag removal the digits would be split by the markup.
    assert_eq!(
        extract_phone("<span>555</span>-<span>123</span>-<span>4567</span>"),
        None
    );
    assert_eq!(extract_phone("555<br>1234567"), Some("555 1234567".to_string()));
}

#[test]
fn city_and_state() {
    assert_eq!(
        extract_address("<div>Springfield, IL 62704</div>"),
        Some(("Springfield".to_string(), "IL".to_string()))
    );
    assert_eq!(
        extract_address("<div>Austin, TX</div>"),
        Some(("Austin".to_string(), "TX".to_string()))
    );
    assert_eq!(extract_address("<div>Paris, France</div>"), None);
}

#[test]
fn industry_from_keywords() {
    assert_eq!(
        extract_industry("<h1>Best Plumbing in Town</h1>"),
        Some("Construction".to_string())
    );
    assert_eq!(extract_industry("<p>We write software</p>"), Some("Technology".to_string()));
    assert_eq!(extract_industry("<p>\u{c9}COLE GYM</p>"), Some("Fitness".to_string()));
    assert_eq!(extract_industry("<p>nothing relevant</p>"), None);
}

#[test]
fn industry_from_schema_type() {
    assert_eq!(industry_for_type("HAIRSALON"), Some("Beauty".to_string()));
    assert_eq!(industry_for_type("Dentist"), Some("Healthcare".to_string()));
    assert_eq!(industry_for_type("Spaceship"), None);
}

#[test]
fn name_from_title() {
    assert_eq!(
        extract_name("<title>Acme Plumbing | Home</title>"),
        Some("Acme Plumbing".to_string())
    );
    assert_eq!(
        extract_name("<title>Joe's Caf\u{e9} \u{2014} Best</title>"),
        Some("Joe's Caf\u{e9}".to_string())
    );
    assert_eq!(extract_name("<title>  \u{2013} Dash</title>"), None);
    assert_eq!(extract_name("<p>no title</p>"), None);
}

#[test]
fn json_ld_bodies_are_captured() {
    let html = r#"<script type="application/ld+json">{"@type":"Organization","name":"Acme"}</script>"#;
    assert_eq!(
        json_ld_blocks(html),
        Some(vec![Some(r#"{"@type":"Organization","name":"Acme"}"#.to_string())])
    );
    assert_eq!(json_ld_blocks("<p>none</p>"), Some(vec![]));
}

#[test]
fn organisation_record_is_selected() {
    let org = object(vec![("@type", text("localbusiness")), ("name", text("X"))]);
    let blocks = vec![JsonLdBlock::Malformed, JsonLdBlock::Parsed(org)];
    let chosen = select_json_ld(&blocks).expect("record");
    assert!(matches!(chosen.get("name"), Some(JsonValue::Text(n)) if n == "X"));

    let person = object(vec![("@type", text("Person"))]);
    assert!(select_json_ld(&vec![JsonLdBlock::Parsed(person)]).is_none());

    assert!(select_json_ld(&vec![JsonLdBlock::MissingBody, JsonLdBlock::Parsed(object(vec![("@type", text("Store"))]))]).is_none());
}

#[test]
fn graph_items_are_searched_and_end_the_block() {
    let graph = object(vec![
        ("@type", text("Organization")),
        (
            "@graph",
            JsonValue::Array(vec![
                object(vec![("@type", text("Person"))]),
                object(vec![("@type", text("Store")), ("name", text("Shop"))]),
            ]),
        ),
    ]);
    let blocks = vec![JsonLdBlock::Parsed(graph)];
    let chosen = select_json_ld(&blocks).expect("graph item");
    assert!(matches!(chosen.get("name"), Some(JsonValue::Text(n)) if n == "Shop"));

    // A graph without an organisation does not fall back to the outer @type.
    let empty_graph = object(vec![
        ("@type", text("Organization")),
        ("@graph", JsonValue::Array(vec![])),
    ]);
    assert!(select_json_ld(&vec![JsonLdBlock::Parsed(empty_graph)]).is_none());
}

#[test]
fn record_fields_win_and_page_fills_the_rest() {
    let record = object(vec![
        ("@type", text("Dentist")),
        ("name", text("Smile Co")),
        ("email", text("hi@smile.co")),
        (
            "address",
            object(vec![("addressLocality", text("Denver"))]),
        ),
    ]);
    let html = "<title>Other | x</title><p>Call 303-555-1234. Boulder, CO 80301 x@y.org</p>";
    let d = scrape_data(Some(&record), html);
    assert_eq!(d.name.as_deref(), Some("Smile Co"));
    assert_eq!(d.email.as_deref(), Some("hi@smile.co"));
    assert_eq!(d.phone.as_deref(), Some("303-555-1234"));
    assert_eq!(d.city.as_deref(), Some("Denver"));
    assert_eq!(d.state.as_deref(), Some("CO"));
    assert_eq!(d.industry.as_deref(), Some("Healthcare"));

    let d = scrape_data(None, html);
    assert_eq!(d.name.as_deref(), Some("Other"));
    assert_eq!(d.email.as_deref(), Some("x@y.org"));
    assert_eq!(d.city.as_deref(), Some("Boulder"));
    assert_eq!(d.industry, None);
}

#[test]
fn json_ld_bodies_are_parsed() {
    assert!(matches!(read_block(None), JsonLdBlock::MissingBody));
    assert!(matches!(read_block(Some("{not json".to_string())), JsonLdBlock::Malformed));
    match read_block(Some(r#"{"b": [1.5, true, null], "a": "x"}"#.to_string())) {
        JsonLdBlock::Parsed(JsonValue::Object(members)) => {
            assert_eq!(members.len(), 2);
            // serde_json keeps object members sorted by key.
            assert_eq!(members[0].key, "a");
            assert!(matches!(&members[0].value, JsonValue::Text(t) if t == "x"));
            assert_eq!(members[1].key, "b");
            match &members[1].value {
                JsonValue::Array(items) => {
                    assert!(matches!(&items[0], JsonValue::Number(n) if n == "1.5"));
                    assert!(matches!(&items[1], JsonValue::Bool(true)));
                    assert!(matches!(&items[2], JsonValue::Null));
                }
                _ => panic!("array expected"),
            }
        }
        _ => panic!("object expected"),
    }
}

#[test]
fn page_record_comes_from_its_json_ld() {
    let html = [
        r#"<script type="application/ld+json">{broken</script>"#,
        r#"<script type="application/ld+json">{"@type":"Person","name":"P"}</script>"#,
        r#"<script type="application/ld+json">{"@type":"LocalBusiness","name":"Acme"}</script>"#,
    ]
    .concat();
    let record = json_ld_record(&html).expect("record");
    assert!(matches!(record.get("name"), Some(JsonValue::Text(n)) if n == "Acme"));
    assert!(json_ld_record("<p>no data</p>").is_none());

    let graph = r#"<script type="application/ld+json">{"@graph":[{"@type":"Person"},{"@type":"Store","name":"Shop"}]}</script>"#;
    let record = json_ld_record(graph).expect("graph item");
    assert!(matches!(record.get("name"), Some(JsonValue::Text(n)) if n == "Shop"));
}

#[test]
fn page_details_combine_record_and_text() {
    let html = [
        r#"<html><head><title>Ignored | Site</title>"#,
        r#"<script type="application/ld+json">{"@type":"MedicalBusiness","name":"Bright Smiles"}</script></head>"#,
        r#"<body>Write to hello@brightsmiles.com or call (512) 555-0199. Austin, TX 78701</body></html>"#,
    ]
    .concat();
    let data = scrape_page(&html);
    assert_eq!(data.name.as_deref(), Some("Bright Smiles"));
    assert_eq!(data.email.as_deref(), Some("hello@brightsmiles.com"));
    assert_eq!(data.phone.as_deref(), Some("(512) 555-0199"));
    assert_eq!(data.industry.as_deref(), Some("Healthcare"));
    assert_eq!(data.state.as_deref(), Some("TX"));
}
