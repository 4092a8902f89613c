use acled_api::{AcledQuery, Date, DeletedQuery, Region, Where};

fn pairs(v: &[(&str, &str)]) -> Vec<(String, String)> {
    v.iter().map(|(k, x)| (k.to_string(), x.to_string())).collect()
}

#[test]
fn query_test() {
    let query = AcledQuery {
        country: Where::Matches("Germany".into()),
        ..Default::default()
    };
    assert_eq!(
        query.as_parameters(),
        vec![("country".into(), "Germany".into())]
    );

    let query = AcledQuery {
        id: Where::Matches("GER-123".into()),
        ..Default::default()
    };
    assert_eq!(
        query.as_parameters(),
        vec![("event_id_cnty".into(), "GER-123".into())]
    );

    let query = AcledQuery {
        region: Where::Matches(Region::MiddleAfrica),
        date: Where::GreaterThan(Date::from_ymd_opt(2024, 02, 28).unwrap()),
        ..Default::default()
    };
    assert_eq!(
        query.as_parameters(),
        vec![
            ("region".into(), "2".into()),
            ("event_date_where".into(), ">".into()),
            ("event_date".into(), "2024-02-28".into())
        ]
    );
}

#[test]
fn unspecified_gives_nothing() {
    let w: Where<String> = Where::Unspecified;
    assert!(w.as_parameters("country").is_empty());
    let w: Where<u64> = Where::default();
    assert!(w.as_parameters("timestamp").is_empty());
    assert!(AcledQuery::default().as_parameters().is_empty());
    assert!(DeletedQuery::default().as_parameters().is_empty());
}

#[test]
fn encoding_is_repeatable() {
    let w = Where::Like("Ger*".to_string());
    assert_eq!(w.as_parameters("country"), w.as_parameters("country"));
}

#[test]
fn comparisons_give_two_pairs() {
    assert_eq!(
        Where::Equal(7u32).as_parameters("year"),
        pairs(&[("year_where", "="), ("year", "7")])
    );
    assert_eq!(
        Where::Like("Ger*".to_string()).as_parameters("country"),
        pairs(&[("country_where", "LIKE"), ("country", "Ger*")])
    );
    assert_eq!(
        Where::GreaterThan(1710025200u64).as_parameters("timestamp"),
        pairs(&[("timestamp_where", ">"), ("timestamp", "1710025200")])
    );
    assert_eq!(
        Where::GreaterThanOrEqual(2022u32).as_parameters("year"),
        pairs(&[("year_where", ">="), ("year", "2022")])
    );
}

#[test]
fn between_joins_with_bar() {
    let a = Date::from_ymd_opt(2024, 1, 5).unwrap();
    let b = Date::from_ymd_opt(2024, 12, 31).unwrap();
    assert_eq!(
        Where::Between(a, b).as_parameters("event_date"),
        pairs(&[("event_date_where", "BETWEEN"), ("event_date", "2024-01-05|2024-12-31")])
    );
    assert_eq!(
        Where::Between(Region::EasternAfrica, Region::Antarctica).as_parameters("region"),
        pairs(&[("region_where", "BETWEEN"), ("region", "3|20")])
    );
}

#[test]
fn single_country_round_trip() {
    let query = AcledQuery {
        country: Where::Matches("Germany".to_string()),
        ..Default::default()
    };
    assert_eq!(query.as_parameters(), pairs(&[("country", "Germany")]));
}

#[test]
fn fields_keep_their_order() {
    let query = AcledQuery {
        timestamp: Where::Equal(5u64),
        country: Where::Matches("Chad".to_string()),
        year: Where::Matches(2020u32),
        ..Default::default()
    };
    assert_eq!(
        query.as_parameters(),
        pairs(&[("country", "Chad"), ("year", "2020"), ("timestamp_where", "="), ("timestamp", "5")])
    );
    let query = DeletedQuery {
        id: Where::Matches("GER-1".to_string()),
        timestamp: Where::GreaterThanOrEqual(1710025200),
    };
    assert_eq!(
        query.as_parameters(),
        pairs(&[
            ("event_id_cnty", "GER-1"),
            ("deleted_timestamp_where", ">="),
            ("deleted_timestamp", "1710025200")
        ])
    );
}

#[test]
fn region_codes_and_names() {
    assert_eq!(Region::MiddleAfrica.code(), 2);
    assert_eq!(Region::Antarctica.code(), 20);
    assert_eq!(Region::CaucasusAndCentralAsia.name(), "Caucasus and Central Asia");
    assert_eq!(Region::from_name("Middle Africa"), Some(Region::MiddleAfrica));
    assert_eq!(Region::from_name("Europe"), Some(Region::Europe));
    assert_eq!(Region::from_name("Atlantis"), None);
    assert_eq!(Region::from_name("middle africa"), None);
}

#[test]
fn dates_exist_or_not() {
    assert!(Date::from_ymd_opt(2024, 2, 29).is_some());
    assert!(Date::from_ymd_opt(2023, 2, 29).is_none());
    assert!(Date::from_ymd_opt(2023, 13, 1).is_none());
    assert!(Date::from_ymd_opt(400000, 1, 1).is_none());
    let d = Date::parse("2024-02-28").unwrap();
    assert_eq!((d.year, d.month, d.day), (2024, 2, 28));
    assert!(Date::parse("28.02.2024").is_none());
    assert_eq!(Date::from_ymd_opt(987, 3, 4).unwrap().to_text(), "0987-03-04");
    assert_eq!(Date::from_ymd_opt(12345, 3, 4).unwrap().to_text(), "+12345-03-04");
}
