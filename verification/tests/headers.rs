use ip_echo::header_set::HeaderSet;
use ip_echo::object::TextObject;
use ip_echo::record::Record;

#[test]
fn new_header_set_is_empty() {
    let set = HeaderSet::new();
    assert!(set.is_empty());
    assert_eq!(set.len(), 0);
    assert_eq!(set.get("host"), None);
    assert!(!set.contains("host"));
    assert_eq!(set.to_json(), "{}");
}

#[test]
fn add_line_stores_the_value_under_the_lowercase_name() {
    let mut set = HeaderSet::new();
    set.add_line("Host:example.com".to_string());
    assert!(!set.is_empty());
    assert_eq!(set.len(), 1);
    assert_eq!(set.get("host"), Some("example.com".to_string()));
    assert_eq!(set.get("Host"), None);
    assert!(set.contains("host"));
    assert!(!set.contains("accept"));
}

#[test]
fn add_line_last_occurrence_wins() {
    let mut set = HeaderSet::new();
    set.add_line("Accept:text/html".to_string());
    set.add_line("ACCEPT:application/json".to_string());
    assert_eq!(set.len(), 1);
    assert_eq!(set.get("accept"), Some("application/json".to_string()));
}

#[test]
fn add_line_without_colon_stores_an_empty_value() {
    let mut set = HeaderSet::new();
    set.add_line("Upgrade".to_string());
    assert_eq!(set.get("upgrade"), Some("".to_string()));
    assert_eq!(set.len(), 1);
}

#[test]
fn add_line_with_leading_colon_stores_under_the_empty_name() {
    let mut set = HeaderSet::new();
    set.add_line(":odd".to_string());
    assert_eq!(set.get(""), Some("odd".to_string()));
}

#[test]
fn header_set_json_lists_names_in_ascending_order() {
    let mut set = HeaderSet::new();
    set.add_line("Host:example.com".to_string());
    set.add_line("Accept:*/*".to_string());
    assert_eq!(set.to_json(), "{\"accept\":\"*/*\",\"host\":\"example.com\"}");
}

#[test]
fn header_set_json_escapes_what_json_must() {
    let mut set = HeaderSet::new();
    set.add_line("X-Quote:say \"hi\"\\now\ttab".to_string());
    assert_eq!(set.to_json(), "{\"x-quote\":\"say \\\"hi\\\"\\\\now\\ttab\"}");
}

#[test]
fn header_set_clone_holds_the_same_headers() {
    let mut set = HeaderSet::new();
    set.add_line("Host:a".to_string());
    let copy = set.clone();
    set.add_line("Host:b".to_string());
    assert_eq!(copy.get("host"), Some("a".to_string()));
    assert_eq!(set.get("host"), Some("b".to_string()));
    assert_eq!(copy.len(), 1);
}

#[test]
fn text_object_insert_get_and_replace() {
    let mut object = TextObject::new();
    assert!(object.is_empty());
    assert_eq!(object.to_json(), "{}");
    object.insert("b".to_string(), "2".to_string());
    object.insert("a".to_string(), "1".to_string());
    assert_eq!(object.len(), 2);
    assert_eq!(object.get("a"), Some("1".to_string()));
    assert_eq!(object.get("c"), None);
    object.insert("a".to_string(), "3".to_string());
    assert_eq!(object.len(), 2);
    assert_eq!(object.get("a"), Some("3".to_string()));
    assert_eq!(object.to_json(), "{\"a\":\"3\",\"b\":\"2\"}");
    let copy = object.clone();
    assert_eq!(copy.to_json(), object.to_json());
}

#[test]
fn records_are_flat_objects_under_their_key() {
    assert_eq!(
        Record::LocalAddr("0.0.0.0:3000".to_string()).to_json(),
        "{\"local_addr\":\"0.0.0.0:3000\"}"
    );
    assert_eq!(
        Record::PeerAddr("127.0.0.1:54321".to_string()).to_json(),
        "{\"peer_addr\":\"127.0.0.1:54321\"}"
    );
    assert_eq!(
        Record::RequestLine("GET / HTTP/1.1\r\n".to_string()).to_json(),
        "{\"request_line\":\"GET / HTTP/1.1\\r\\n\"}"
    );
}

#[test]
fn headers_record_is_a_bare_object() {
    let mut set = HeaderSet::new();
    set.add_line("Host: example.com".to_string());
    assert_eq!(
        Record::Headers(set).to_json(),
        "{\"host\":\" example.com\"}"
    );
    assert_eq!(Record::Headers(HeaderSet::new()).to_json(), "{}");
}
