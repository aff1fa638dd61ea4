use clothes_search::parse_catalog;

const ONE: &str = r#"[{"id": 1, "seaon": "winter", "article": "sweatshirt", "cost": 19.99, "size": "L", "pattern": "striped"}]"#;

#[test]
fn parses_one_record() {
    let v = parse_catalog(ONE).unwrap();
    assert_eq!(v.len(), 1);
    assert_eq!(v[0].id, 1);
    assert_eq!(v[0].seaon, "winter");
    assert_eq!(v[0].article, "sweatshirt");
    assert_eq!(v[0].cost, "19.99");
    assert_eq!(v[0].size, "L");
    assert_eq!(v[0].pattern, "striped");
}

#[test]
fn parses_fields_in_any_order() {
    let s = r#"[{"pattern": "plain", "cost": 5, "size": "S", "article": "tees", "seaon": "summer", "id": 42}]"#;
    let v = parse_catalog(s).unwrap();
    assert_eq!(v[0].id, 42);
    assert_eq!(v[0].cost, "5");
    assert_eq!(v[0].article, "tees");
}

#[test]
fn parses_several_records_and_whitespace() {
    let s = "\t[ {\"id\":1,\"seaon\":\"fall\",\"article\":\"joggers\",\"cost\":30,\"size\":\"M\",\"pattern\":\"solid\"} ,\n {\"id\":2,\"seaon\":\"spring\",\"article\":\"t-shirt\",\"cost\":9.5,\"size\":\"XL\",\"pattern\":\"dotted\"} ]\r\n";
    let v = parse_catalog(s).unwrap();
    assert_eq!(v.len(), 2);
    assert_eq!(v[0].article, "joggers");
    assert_eq!(v[1].id, 2);
    assert_eq!(v[1].cost, "9.5");
}

#[test]
fn parses_empty_array() {
    assert_eq!(parse_catalog("[]").unwrap().len(), 0);
    assert_eq!(parse_catalog("  [\n]  ").unwrap().len(), 0);
}

#[test]
fn parses_number_shapes() {
    let mk = |cost: &str| {
        format!(
            r#"[{{"id": 1, "seaon": "s", "article": "a", "cost": {}, "size": "m", "pattern": "p"}}]"#,
            cost
        )
    };
    assert_eq!(parse_catalog(&mk("0")).unwrap()[0].cost, "0");
    assert_eq!(parse_catalog(&mk("-3.5")).unwrap()[0].cost, "-3.5");
    assert_eq!(parse_catalog(&mk("1e3")).unwrap()[0].cost, "1e3");
    assert_eq!(parse_catalog(&mk("1.5E-2")).unwrap()[0].cost, "1.5E-2");
    assert!(parse_catalog(&mk("1.")).is_err());
    assert!(parse_catalog(&mk(".5")).is_err());
    assert!(parse_catalog(&mk("01")).is_err());
    assert!(parse_catalog(&mk("1e")).is_err());
    assert!(parse_catalog(&mk("+1")).is_err());
}

#[test]
fn accepts_large_ids_that_fit() {
    let s = format!(
        r#"[{{"id": {}, "seaon": "s", "article": "a", "cost": 1, "size": "m", "pattern": "p"}}]"#,
        usize::MAX
    );
    let v = parse_catalog(&s).unwrap();
    assert_eq!(v[0].id, usize::MAX);
}

#[test]
fn rejects_ids_that_do_not_fit() {
    let mk = |id: &str| {
        format!(
            r#"[{{"id": {}, "seaon": "s", "article": "a", "cost": 1, "size": "m", "pattern": "p"}}]"#,
            id
        )
    };
    assert!(parse_catalog(&mk("99999999999999999999999")).is_err());
    assert!(parse_catalog(&mk("18446744073709551616")).is_err());
    assert!(parse_catalog(&mk("-1")).is_err());
    assert!(parse_catalog(&mk("1.5")).is_err());
    assert!(parse_catalog(&mk("1e2")).is_err());
}

#[test]
fn rejects_missing_field() {
    let s = r#"[{"id": 1, "seaon": "w", "article": "a", "cost": 1, "size": "m"}]"#;
    assert!(parse_catalog(s).is_err());
}

#[test]
fn rejects_duplicate_field() {
    let s = r#"[{"id": 1, "id": 2, "seaon": "w", "article": "a", "cost": 1, "size": "m", "pattern": "p"}]"#;
    assert!(parse_catalog(s).is_err());
}

#[test]
fn rejects_unknown_field() {
    let s = r#"[{"id": 1, "seaon": "w", "article": "a", "cost": 1, "size": "m", "pattern": "p", "extra": "x"}]"#;
    assert!(parse_catalog(s).is_err());
}

#[test]
fn rejects_broken_shapes() {
    assert!(parse_catalog("").is_err());
    assert!(parse_catalog("   ").is_err());
    assert!(parse_catalog("{}").is_err());
    assert!(parse_catalog("[").is_err());
    assert!(parse_catalog("[{}]").is_err());
    assert!(parse_catalog("[,]").is_err());
    assert!(parse_catalog(ONE.trim_end_matches(']')).is_err());
    let mut trailing = String::from(ONE);
    trailing.push('x');
    assert!(parse_catalog(&trailing).is_err());
    let s = r#"[{"id": 1 "seaon": "w", "article": "a", "cost": 1, "size": "m", "pattern": "p"}]"#;
    assert!(parse_catalog(s).is_err());
}

#[test]
fn rejects_escapes_and_controls_in_strings() {
    let s = "[{\"id\": 1, \"seaon\": \"w\", \"article\": \"a\\\"b\", \"cost\": 1, \"size\": \"m\", \"pattern\": \"p\"}]";
    assert!(parse_catalog(s).is_err());
    let s = "[{\"id\": 1, \"seaon\": \"w\", \"article\": \"a\nb\", \"cost\": 1, \"size\": \"m\", \"pattern\": \"p\"}]";
    assert!(parse_catalog(s).is_err());
    let s = "[{\"id\": 1, \"seaon\": \"w\", \"article\": \"unterminated";
    assert!(parse_catalog(s).is_err());
}

#[test]
fn accepts_text_beyond_ascii() {
    let s = r#"[{"id": 7, "seaon": "hiver", "article": "béret", "cost": 12.5, "size": "Ü", "pattern": "rayé"}]"#;
    let v = parse_catalog(s).unwrap();
    assert_eq!(v[0].article, "béret");
    assert_eq!(v[0].size, "Ü");
}

#[test]
fn accepted_text_is_json_too() {
    // Everything the library accepts should be JSON to a general parser.
    let samples = [
        ONE.to_string(),
        "[]".to_string(),
        r#"[{"pattern": "plain", "cost": -2e-1, "size": "S", "article": "tees", "seaon": "summer", "id": 0}]"#.to_string(),
    ];
    for s in samples {
        if parse_catalog(&s).is_ok() {
            assert!(serde_json::from_str::<serde_json::Value>(&s).is_ok());
        }
    }
}
