use rendezvous::ident::format_id;
use rendezvous::precondition::TagList;
use rendezvous::store::{Error, ReadOutcome, RendezVousHandler, MAX_CONTENT_LENGTH, SESSION_TTL_MS};

const T1: &str = "\"LPJNul-wow4m6DsqxbninhsWHlwfp0JecwQzYpOLmCQ\""; // etag of b"hello"
const T2: &str = "\"SG6kYiTRu0-2gPNPfJrZao8k7Ii-c-qOWmxlJg6cuKc\""; // etag of b"world"

fn handler() -> RendezVousHandler {
    RendezVousHandler::new(String::from("https://example.com/")).expect("a well-formed base address")
}

fn header(headers: &[(String, String)], name: &str) -> String {
    headers
        .iter()
        .find(|(n, _)| n == name)
        .map(|(_, v)| v.clone())
        .unwrap_or_else(|| panic!("header {name} is present"))
}

fn create_hello(h: &mut RendezVousHandler, now: u64) -> (u128, String) {
    let resp = h
        .handle_post(Some(5), Some(String::from("text/plain")), b"hello".to_vec(), now)
        .expect("create succeeds");
    let id_str = format_id(resp.id);
    (resp.id, id_str)
}

#[test]
fn scenario_full_exchange() {
    let mut h = handler();
    // create: body b"hello", content type text/plain
    let resp = h
        .handle_post(Some(5), Some(String::from("text/plain")), b"hello".to_vec(), 1_000)
        .expect("create succeeds");
    assert_eq!(header(&resp.headers, "etag"), T1);
    assert_eq!(header(&resp.headers, "content-type"), "application/json");
    let id_str = format_id(resp.id);
    assert_eq!(
        resp.url,
        format!("https://example.com/_matrix/client/unstable/org.matrix.msc4108/rendezvous/{id_str}")
    );

    // unconditional read: the submitted bytes under the same tag
    match h.handle_get(&id_str, None, 1_000).expect("read succeeds") {
        ReadOutcome::Full { data, content_type, content_length, headers } => {
            assert_eq!(data, b"hello".to_vec());
            assert_eq!(content_type, "text/plain");
            assert_eq!(content_length, 5);
            assert_eq!(header(&headers, "etag"), T1);
        }
        ReadOutcome::NotModified { .. } => panic!("an unconditional read returns the body"),
    }

    // update with the current tag: accepted, tag moves to T2
    let upd = h
        .handle_put(
            &id_str,
            Some(5),
            Some(String::from("text/plain")),
            Some(TagList::Tags(vec![String::from(T1)])),
            b"world".to_vec(),
            2_000,
        )
        .expect("a matching If-Match is accepted");
    assert_eq!(header(&upd.headers, "etag"), T2);
    assert_ne!(T1, T2);

    // update with the now-stale tag: conflict, response carries T2
    match h.handle_put(
        &id_str,
        Some(5),
        Some(String::from("text/plain")),
        Some(TagList::Tags(vec![String::from(T1)])),
        b"again".to_vec(),
        3_000,
    ) {
        Err(Error::PreconditionFailed { headers }) => {
            assert_eq!(header(&headers, "etag"), T2);
        }
        _ => panic!("a stale If-Match is a conflict"),
    }

    // the conflict mutated nothing
    match h.handle_get(&id_str, None, 3_000).expect("read succeeds") {
        ReadOutcome::Full { data, headers, .. } => {
            assert_eq!(data, b"world".to_vec());
            assert_eq!(header(&headers, "etag"), T2);
        }
        ReadOutcome::NotModified { .. } => panic!("an unconditional read returns the body"),
    }

    // delete, then read: gone
    let del = h.handle_delete(&id_str, 4_000).expect("delete succeeds");
    assert_eq!(header(&del.headers, "access-control-allow-origin"), "*");
    assert!(matches!(h.handle_get(&id_str, None, 4_000), Err(Error::NotFound)));
    assert!(matches!(
        h.handle_put(
            &id_str,
            Some(1),
            Some(String::from("text/plain")),
            Some(TagList::Wildcard),
            b"x".to_vec(),
            4_000,
        ),
        Err(Error::NotFound)
    ));
}

#[test]
fn read_conditional_on_current_tag_is_not_modified() {
    let mut h = handler();
    let (_, id_str) = create_hello(&mut h, 1_000);
    let current = TagList::Tags(vec![String::from(T1)]);
    match h.handle_get(&id_str, Some(current), 1_000).expect("read succeeds") {
        ReadOutcome::NotModified { headers } => {
            assert_eq!(header(&headers, "etag"), T1);
        }
        ReadOutcome::Full { .. } => panic!("the current tag is a cache hit"),
    }
    // any other tag gets the full body
    let other = TagList::Tags(vec![String::from(T2)]);
    match h.handle_get(&id_str, Some(other), 1_000).expect("read succeeds") {
        ReadOutcome::Full { data, .. } => assert_eq!(data, b"hello".to_vec()),
        ReadOutcome::NotModified { .. } => panic!("a stale tag returns the body"),
    }
    // the wildcard matches whatever is stored
    match h.handle_get(&id_str, Some(TagList::Wildcard), 1_000).expect("read succeeds") {
        ReadOutcome::NotModified { .. } => {}
        ReadOutcome::Full { .. } => panic!("the wildcard is a cache hit"),
    }
}

#[test]
fn update_without_if_match_fails_distinctly() {
    let mut h = handler();
    let (_, id_str) = create_hello(&mut h, 1_000);
    let r = h.handle_put(
        &id_str,
        Some(5),
        Some(String::from("text/plain")),
        None,
        b"world".to_vec(),
        2_000,
    );
    assert!(matches!(r, Err(Error::MissingOrInvalidHeader)));
    // distinct from a conflict, and nothing was mutated
    match h.handle_get(&id_str, None, 2_000).expect("read succeeds") {
        ReadOutcome::Full { data, .. } => assert_eq!(data, b"hello".to_vec()),
        ReadOutcome::NotModified { .. } => panic!("an unconditional read returns the body"),
    }
}

#[test]
fn oversized_payloads_are_rejected_unmutated() {
    let mut h = handler();
    let (_, id_str) = create_hello(&mut h, 1_000);
    let big = vec![0u8; (MAX_CONTENT_LENGTH + 1) as usize];

    // a declared length over the cap
    let r = h.handle_post(
        Some(MAX_CONTENT_LENGTH + 1),
        Some(String::from("text/plain")),
        big.clone(),
        1_000,
    );
    assert!(matches!(r, Err(Error::PayloadTooLarge)));

    // an actual body over the cap, behind an understated declaration
    let r = h.handle_put(
        &id_str,
        Some(5),
        Some(String::from("text/plain")),
        Some(TagList::Wildcard),
        big,
        2_000,
    );
    assert!(matches!(r, Err(Error::PayloadTooLarge)));

    // the session is untouched
    match h.handle_get(&id_str, None, 2_000).expect("read succeeds") {
        ReadOutcome::Full { data, headers, .. } => {
            assert_eq!(data, b"hello".to_vec());
            assert_eq!(header(&headers, "etag"), T1);
        }
        ReadOutcome::NotModified { .. } => panic!("an unconditional read returns the body"),
    }

    // a payload exactly at the cap is accepted
    let exact = vec![7u8; MAX_CONTENT_LENGTH as usize];
    let r = h.handle_post(
        Some(MAX_CONTENT_LENGTH),
        Some(String::from("application/octet-stream")),
        exact,
        1_000,
    );
    assert!(r.is_ok());
}

#[test]
fn missing_or_malformed_content_headers_are_rejected() {
    let mut h = handler();
    let r = h.handle_post(None, Some(String::from("text/plain")), b"hi".to_vec(), 1_000);
    assert!(matches!(r, Err(Error::MissingOrInvalidHeader)));
    let r = h.handle_post(Some(2), None, b"hi".to_vec(), 1_000);
    assert!(matches!(r, Err(Error::MissingOrInvalidHeader)));
    // "text" is not a well-formed MIME type
    let r = h.handle_post(Some(2), Some(String::from("text")), b"hi".to_vec(), 1_000);
    assert!(matches!(r, Err(Error::MissingOrInvalidHeader)));
}

#[test]
fn unknown_and_undecodable_identifiers_are_not_found() {
    let mut h = handler();
    assert!(matches!(h.handle_get("not an identifier", None, 1_000), Err(Error::NotFound)));
    let absent = format_id(12345);
    assert!(matches!(h.handle_get(&absent, None, 1_000), Err(Error::NotFound)));
    assert!(matches!(h.handle_delete(&absent, 1_000), Err(Error::NotFound)));
}

#[test]
fn expired_sessions_behave_as_absent() {
    let mut h = handler();
    let (_, id_str) = create_hello(&mut h, 1_000);
    let expiry = 1_000 + SESSION_TTL_MS;
    // on the expiry instant the session is still live
    assert!(h.handle_get(&id_str, None, expiry).is_ok());
    // one millisecond later it is gone, and stays gone even for an
    // earlier clock: the expired entry was removed on lookup
    assert!(matches!(h.handle_get(&id_str, None, expiry + 1), Err(Error::NotFound)));
    assert!(matches!(h.handle_get(&id_str, None, 1_000), Err(Error::NotFound)));
}

#[test]
fn expired_sessions_cannot_be_updated_or_deleted() {
    let mut h = handler();
    let (_, id_str) = create_hello(&mut h, 1_000);
    let late = 1_000 + SESSION_TTL_MS + 1;
    let r = h.handle_put(
        &id_str,
        Some(5),
        Some(String::from("text/plain")),
        Some(TagList::Wildcard),
        b"world".to_vec(),
        late,
    );
    assert!(matches!(r, Err(Error::NotFound)));

    let mut h2 = handler();
    let (_, id_str2) = create_hello(&mut h2, 1_000);
    assert!(matches!(h2.handle_delete(&id_str2, late), Err(Error::NotFound)));
}

#[test]
fn response_headers_carry_http_dates() {
    let mut h = handler();
    let resp = h
        .handle_post(Some(5), Some(String::from("text/plain")), b"hello".to_vec(), 0)
        .expect("create succeeds");
    assert_eq!(header(&resp.headers, "last-modified"), "Thu, 01 Jan 1970 00:00:00 GMT");
    assert_eq!(header(&resp.headers, "expires"), "Thu, 01 Jan 1970 00:05:00 GMT");
    assert_eq!(header(&resp.headers, "pragma"), "no-cache");
    assert_eq!(header(&resp.headers, "access-control-allow-origin"), "*");
    assert_eq!(header(&resp.headers, "access-control-expose-headers"), "etag");
}

#[test]
fn error_statuses_and_codes() {
    assert_eq!(Error::NotFound.status(), 404);
    assert_eq!(Error::PayloadTooLarge.status(), 413);
    assert_eq!(Error::MissingOrInvalidHeader.status(), 400);
    let conflict = Error::PreconditionFailed { headers: Vec::new() };
    assert_eq!(conflict.status(), 412);
    assert_eq!(conflict.errcode(), Some("M_CONCURRENT_WRITE"));
    assert_eq!(Error::NotFound.errcode(), None);
}

#[test]
fn malformed_base_addresses_are_refused() {
    assert!(RendezVousHandler::new(String::from("ht tp://bad base")).is_none());
    assert!(RendezVousHandler::new(String::from("https://example.com/")).is_some());
}
