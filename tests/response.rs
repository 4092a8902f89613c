use std::cell::RefCell;

use acled_api::{
    decode_page, AcledData, AcledEvent, Api, Configuration, DeletedData, DeletedEvent,
    DeletedQuery, Error, RawEnvelope, Region, Request, Where, PAGE_LIMIT,
};

fn deleted(i: usize) -> DeletedData {
    DeletedData {
        event_id_cnty: format!("GER-{i}"),
        deleted_timestamp: format!("{}", 1710025200 + i),
    }
}

fn page(records: Vec<DeletedData>) -> RawEnvelope<DeletedData> {
    RawEnvelope {
        success: Some(true),
        count: Some(records.len() as u64),
        data: Some(records),
        error_message: None,
    }
}

fn acled(date: &str) -> AcledData {
    AcledData {
        event_id_cnty: "GER-7".to_string(),
        event_date: date.to_string(),
        timestamp: "1710025200".to_string(),
        disorder_type: "Demonstrations".to_string(),
        event_type: "Protests".to_string(),
        sub_event_type: "Peaceful protest".to_string(),
        country: "Germany".to_string(),
        region: "Europe".to_string(),
        admin1: "Berlin".to_string(),
        latitude: "52.52".to_string(),
        longitude: "13.40".to_string(),
        notes: "A march.".to_string(),
    }
}

fn api() -> Api {
    Api::new(Configuration { key: "k".to_string(), email: "e@example.com".to_string() })
}

fn has(params: &[(String, String)], k: &str, v: &str) -> bool {
    params.iter().any(|(a, b)| a == k && b == v)
}

#[test]
fn short_page_is_fetched_once() {
    let sent: RefCell<Vec<Request>> = RefCell::new(Vec::new());
    let transport = |req: Request| {
        sent.borrow_mut().push(req);
        Ok(page(vec![deleted(1), deleted(2)]))
    };
    let query = DeletedQuery { id: Where::Matches("GER-1".to_string()), ..Default::default() };
    let events = api().get_deleted(&query, &transport).unwrap();
    assert_eq!(
        events,
        vec![
            DeletedEvent { id: "GER-1".to_string(), timestamp: 1710025201 },
            DeletedEvent { id: "GER-2".to_string(), timestamp: 1710025202 },
        ]
    );
    let sent = sent.into_inner();
    assert_eq!(sent.len(), 1);
    assert_eq!(sent[0].url, "https://api.acleddata.com/deleted/read");
    assert_eq!(
        sent[0].parameters,
        vec![
            ("event_id_cnty".to_string(), "GER-1".to_string()),
            ("key".to_string(), "k".to_string()),
            ("email".to_string(), "e@example.com".to_string()),
        ]
    );
}

#[test]
fn empty_page_ends_fetch() {
    let calls = RefCell::new(0usize);
    let transport = |_req: Request| {
        *calls.borrow_mut() += 1;
        Ok(page(Vec::new()))
    };
    let events = api().get_deleted(&DeletedQuery::default(), &transport).unwrap();
    assert!(events.is_empty());
    assert_eq!(calls.into_inner(), 1);
}

#[test]
fn full_page_then_short_page() {
    let sent: RefCell<Vec<Request>> = RefCell::new(Vec::new());
    let transport = |req: Request| {
        let n = sent.borrow().len();
        sent.borrow_mut().push(req);
        if n == 0 {
            Ok(page((0..PAGE_LIMIT).map(deleted).collect()))
        } else {
            Ok(page(vec![deleted(PAGE_LIMIT), deleted(PAGE_LIMIT + 1)]))
        }
    };
    let events = api().get_deleted(&DeletedQuery::default(), &transport).unwrap();
    assert_eq!(events.len(), PAGE_LIMIT + 2);
    for (i, e) in events.iter().enumerate() {
        assert_eq!(e.id, format!("GER-{i}"));
    }
    let sent = sent.into_inner();
    assert_eq!(sent.len(), 2);
    assert!(!sent[0].parameters.iter().any(|(k, _)| k == "page"));
    assert!(has(&sent[1].parameters, "page", "2"));
}

#[test]
fn failing_page_discards_earlier_pages() {
    let calls = RefCell::new(0usize);
    let transport = |_req: Request| {
        let n = *calls.borrow();
        *calls.borrow_mut() += 1;
        if n == 0 {
            Ok(page((0..PAGE_LIMIT).map(deleted).collect()))
        } else {
            Err(Error::ReqwestError("connection reset".to_string()))
        }
    };
    let r = api().get_deleted(&DeletedQuery::default(), &transport);
    assert_eq!(r, Err(Error::ReqwestError("connection reset".to_string())));
}

#[test]
fn failure_shape_is_api_error() {
    let env: RawEnvelope<DeletedData> = RawEnvelope {
        success: Some(false),
        count: Some(0),
        data: None,
        error_message: Some("bad key".to_string()),
    };
    assert_eq!(decode_page(env), Err(Error::APIError { message: "bad key".to_string() }));
}

#[test]
fn count_mismatch_is_contract_violation() {
    let mut env = page(vec![deleted(1), deleted(2)]);
    env.count = Some(3);
    assert!(matches!(decode_page(env), Err(Error::ContractViolation(_))));
    let mut env = page(vec![deleted(1), deleted(2)]);
    env.count = Some(1);
    assert!(matches!(decode_page(env), Err(Error::ContractViolation(_))));
}

#[test]
fn broken_envelopes_are_contract_violations() {
    let env: RawEnvelope<DeletedData> =
        RawEnvelope { success: Some(true), count: Some(0), data: None, error_message: None };
    assert!(matches!(decode_page(env), Err(Error::ContractViolation(_))));
    let mut env = page(vec![deleted(1)]);
    env.success = Some(false);
    assert!(matches!(decode_page(env), Err(Error::ContractViolation(_))));
    let env: RawEnvelope<DeletedData> = RawEnvelope {
        success: Some(false),
        count: Some(2),
        data: None,
        error_message: Some("bad key".to_string()),
    };
    assert!(matches!(decode_page(env), Err(Error::ContractViolation(_))));
}

#[test]
fn unreadable_date_names_field() {
    assert_eq!(
        AcledEvent::try_from(&acled("28/02/2024")),
        Err(Error::ParseError("event_date".to_string()))
    );
}

#[test]
fn acled_record_converts() {
    let e = AcledEvent::try_from(&acled("2024-02-28")).unwrap();
    assert_eq!((e.date.year, e.date.month, e.date.day), (2024, 2, 28));
    assert_eq!(e.timestamp, 1710025200);
    assert_eq!(e.region, Region::Europe);
    assert_eq!(e.event_type, ("Protests".to_string(), "Peaceful protest".to_string()));
    assert_eq!(e.administrative_region, "Berlin");
    assert_eq!(e.note, "A march.");
}

#[test]
fn acled_fields_fail_in_order() {
    let mut d = acled("2024-02-28");
    d.timestamp = "soon".to_string();
    d.region = "Atlantis".to_string();
    assert_eq!(AcledEvent::try_from(&d), Err(Error::ParseError("timestamp".to_string())));
    d.timestamp = "+12".to_string();
    assert_eq!(AcledEvent::try_from(&d), Err(Error::ParseError("region".to_string())));
}

#[test]
fn bad_timestamp_fails_whole_page() {
    let mut bad = deleted(2);
    bad.deleted_timestamp = "12a".to_string();
    assert_eq!(
        decode_page(page(vec![deleted(1), bad])),
        Err(Error::ParseError("deleted_timestamp".to_string()))
    );
    let mut big = deleted(3);
    big.deleted_timestamp = "18446744073709551616".to_string();
    assert!(DeletedEvent::try_from(&big).is_err());
}

#[test]
fn acled_fetch_reads_every_page() {
    let sent: RefCell<Vec<Request>> = RefCell::new(Vec::new());
    let transport = |req: Request| {
        sent.borrow_mut().push(req);
        Ok(RawEnvelope {
            success: Some(true),
            count: Some(1),
            data: Some(vec![acled("2024-02-28")]),
            error_message: None,
        })
    };
    let query = acled_api::AcledQuery {
        region: Where::Matches(Region::Europe),
        ..Default::default()
    };
    let events = api().get_acled(&query, &transport).unwrap();
    assert_eq!(events.len(), 1);
    assert_eq!(events[0].country, "Germany");
    let sent = sent.into_inner();
    assert_eq!(sent.len(), 1);
    assert_eq!(sent[0].url, "https://api.acleddata.com/acled/read");
    assert!(has(&sent[0].parameters, "region", "12"));
}

#[test]
fn api_error_ends_fetch() {
    let transport = |_req: Request| {
        Ok(RawEnvelope::<DeletedData> {
            success: Some(false),
            count: Some(0),
            data: None,
            error_message: Some("bad key".to_string()),
        })
    };
    let r = api().get_deleted(&DeletedQuery::default(), &transport);
    assert_eq!(r, Err(Error::APIError { message: "bad key".to_string() }));
}

#[test]
fn longer_page_goes_on_to_next() {
    let sent: RefCell<Vec<Request>> = RefCell::new(Vec::new());
    let transport = |req: Request| {
        let n = sent.borrow().len();
        sent.borrow_mut().push(req);
        if n == 0 {
            Ok(page((0..PAGE_LIMIT + 1).map(deleted).collect()))
        } else {
            Ok(page(vec![deleted(PAGE_LIMIT + 1)]))
        }
    };
    let events = api().get_deleted(&DeletedQuery::default(), &transport).unwrap();
    assert_eq!(events.len(), PAGE_LIMIT + 2);
    assert_eq!(events[PAGE_LIMIT + 1].id, format!("GER-{}", PAGE_LIMIT + 1));
    let sent = sent.into_inner();
    assert_eq!(sent.len(), 2);
    assert!(has(&sent[1].parameters, "page", "2"));
}

#[test]
fn parse_error_on_second_page_stops_fetch() {
    let calls = RefCell::new(0usize);
    let transport = |_req: Request| {
        let n = *calls.borrow();
        *calls.borrow_mut() += 1;
        if n == 0 {
            Ok(page((0..PAGE_LIMIT).map(deleted).collect()))
        } else {
            let mut bad = deleted(PAGE_LIMIT);
            bad.deleted_timestamp = "x".to_string();
            Ok(page(vec![bad]))
        }
    };
    let r = api().get_deleted(&DeletedQuery::default(), &transport);
    assert_eq!(r, Err(Error::ParseError("deleted_timestamp".to_string())));
    assert_eq!(calls.into_inner(), 2);
}
