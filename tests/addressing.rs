use gcal::calendar_list::{default_entry_kind, default_list_kind, CalendarList, CalendarListItem};
use gcal::error::ClientError;
use gcal::query::QueryParams;
use gcal::resources::CalendarAccessRole;
use gcal::sendable::{compose_url, resolve_url, url_string, Sendable};

fn pairs_of(u: &url::Url) -> Vec<(String, String)> {
    u.query_pairs()
        .map(|(k, v)| (k.into_owned(), v.into_owned()))
        .collect()
}

#[test]
fn query_insert_keeps_keys_unique() {
    let mut q = QueryParams::new();
    assert_eq!(q.len(), 0);
    q.insert("a".to_string(), "1".to_string());
    q.insert("b".to_string(), "2".to_string());
    q.insert("a".to_string(), "3".to_string());
    assert_eq!(q.len(), 2);
    assert_eq!(q.get(&"a".to_string()), Some("3".to_string()));
    assert_eq!(q.get(&"b".to_string()), Some("2".to_string()));
    assert_eq!(q.get(&"c".to_string()), None);
    let (k0, v0) = q.pair(0);
    assert_eq!((k0.as_str(), v0.as_str()), ("a", "3"));
    let (k1, v1) = q.pair(1);
    assert_eq!((k1.as_str(), v1.as_str()), ("b", "2"));
}

#[test]
fn query_copy_is_equal() {
    let mut q = QueryParams::new();
    q.insert("x".to_string(), "y".to_string());
    let c = q.copied();
    assert_eq!(c.len(), 1);
    assert_eq!(c.get(&"x".to_string()), Some("y".to_string()));
}

#[test]
fn compose_url_without_query() {
    let r = compose_url(&"users/me/calendarList".to_string(), &Vec::new());
    assert_eq!(r, "https://www.googleapis.com/calendar/v3/users/me/calendarList");
}

#[test]
fn compose_url_joins_pairs() {
    let pairs = vec![
        ("x".to_string(), "1".to_string()),
        ("y".to_string(), "2".to_string()),
    ];
    let r = compose_url(&"p".to_string(), &pairs);
    assert_eq!(r, "https://www.googleapis.com/calendar/v3/p?x=1&y=2");
}

#[test]
fn url_string_form_encodes_keys_and_values() {
    let mut q = QueryParams::new();
    q.insert("a b".to_string(), "c&d=e".to_string());
    let r = url_string(&"users/me".to_string(), &q);
    assert_eq!(r, "https://www.googleapis.com/calendar/v3/users/me?a+b=c%26d%3De");
}

#[test]
fn resolve_url_parses_composed_text() {
    let mut q = QueryParams::new();
    q.insert("k".to_string(), "v w".to_string());
    let u = resolve_url(&"users/me/calendarList".to_string(), &q).unwrap();
    assert_eq!(u.scheme(), "https");
    assert_eq!(u.host_str(), Some("www.googleapis.com"));
    assert_eq!(u.path(), "/calendar/v3/users/me/calendarList");
    assert_eq!(pairs_of(&u), vec![("k".to_string(), "v w".to_string())]);
}

#[test]
fn calendar_list_url_has_list_path() {
    let cl = CalendarList::default();
    assert_eq!(cl.path(None), "users/me/calendarList");
    assert_eq!(cl.path(Some("watch".to_string())), "users/me/calendarList");
    let u = cl.url(None).unwrap();
    assert_eq!(u.as_str(), "https://www.googleapis.com/calendar/v3/users/me/calendarList");
    assert_eq!(u.query(), None);
}

#[test]
fn url_is_the_same_when_resolved_twice() {
    let cl = CalendarList::list_request(false, CalendarAccessRole::Owner);
    let a = cl.url(Some("x".to_string())).unwrap();
    let b = cl.url(Some("x".to_string())).unwrap();
    assert_eq!(a, b);
    assert_eq!(a.as_str(), b.as_str());
}

#[test]
fn every_query_pair_appears_once_and_path_is_unaffected() {
    let plain = CalendarList::default().url(None).unwrap();
    let cl = CalendarList::list_request(true, CalendarAccessRole::Writer);
    let u = cl.url(None).unwrap();
    assert_eq!(u.path(), plain.path());
    let pairs = pairs_of(&u);
    assert_eq!(pairs.len(), 2);
    let role: Vec<_> = pairs.iter().filter(|p| p.0 == "minAccessRole").collect();
    assert_eq!(role.len(), 1);
    assert_eq!(role[0].1, "writer");
    let hidden: Vec<_> = pairs.iter().filter(|p| p.0 == "showHidden").collect();
    assert_eq!(hidden.len(), 1);
    assert_eq!(hidden[0].1, "true");
}

#[test]
fn listing_calendars_sets_hidden_and_role_filters() {
    let cl = CalendarList::list_request(true, CalendarAccessRole::Reader);
    let q = cl.query();
    assert_eq!(q.len(), 2);
    assert_eq!(q.get(&"showHidden".to_string()), Some("true".to_string()));
    assert_eq!(q.get(&"minAccessRole".to_string()), Some("reader".to_string()));
    assert!(cl.items.is_empty());
    assert_eq!(cl.kind, None);
    let u = cl.url(None).unwrap();
    assert_eq!(
        u.as_str(),
        "https://www.googleapis.com/calendar/v3/users/me/calendarList?minAccessRole=reader&showHidden=true"
    );
}

#[test]
fn listing_without_hidden_writes_false() {
    let cl = CalendarList::list_request(false, CalendarAccessRole::FreeBusyReader);
    let q = cl.query();
    assert_eq!(q.get(&"showHidden".to_string()), Some("false".to_string()));
    assert_eq!(q.get(&"minAccessRole".to_string()), Some("freeBusyReader".to_string()));
}

#[test]
fn access_roles_as_written_by_the_service() {
    assert_eq!(CalendarAccessRole::FreeBusyReader.as_string(), "freeBusyReader");
    assert_eq!(CalendarAccessRole::Reader.as_string(), "reader");
    assert_eq!(CalendarAccessRole::Writer.as_string(), "writer");
    assert_eq!(CalendarAccessRole::Owner.as_string(), "owner");
}

#[test]
fn default_kinds() {
    assert_eq!(default_entry_kind(), Some("calendar#calendarListEntry".to_string()));
    assert_eq!(default_list_kind(), Some("calendar#calendarList".to_string()));
}

#[test]
fn calendar_list_item_path_and_url() {
    let item = CalendarListItem::new(
        "team@group.calendar.google.com".to_string(),
        "\"e1\"".to_string(),
        "Team".to_string(),
        CalendarAccessRole::Reader,
    );
    assert_eq!(item.path(None), "users/me/calendarList/team@group.calendar.google.com");
    assert_eq!(item.query().len(), 0);
    assert!(item.default_reminders.is_empty());
    assert_eq!(item.kind, None);
    let u = item.url(None).unwrap();
    assert_eq!(u.path(), "/calendar/v3/users/me/calendarList/team@group.calendar.google.com");
}

#[test]
fn empty_calendar_list() {
    let cl = CalendarList::default();
    assert_eq!(cl.kind, None);
    assert_eq!(cl.etag, "");
    assert_eq!(cl.next_sync_token, None);
    assert!(cl.items.is_empty());
    assert_eq!(cl.query().len(), 0);
}

#[test]
fn url_error_kind_is_distinct() {
    assert_ne!(ClientError::Url, ClientError::Serialization);
}
