use ldap_avatar::config::ServerConfig;
use ldap_avatar::directory::{
    advance, first_value, search_filter, start, BinaryAttribute, DirectoryEntry, LookupResult,
    Reply, Request, SearchScope, Stage, Transition, RESULT_SUCCESS,
};

fn sample_config() -> ServerConfig {
    ServerConfig::from_settings(
        Some("ldap://directory.example:389".to_string()),
        Some("cn=reader,dc=example".to_string()),
        Some("hunter2".to_string()),
        Some("ou=people,dc=example".to_string()),
        Some("thumbnailPhoto".to_string()),
        vec![0xAA, 0xBB],
    )
}

fn succeeded(entries: Vec<DirectoryEntry>) -> Reply {
    Reply::Answered { code: 0, detail: "rc=0 (success)".to_string(), entries }
}

fn answered(code: u32, detail: &str, entries: Vec<DirectoryEntry>) -> Reply {
    Reply::Answered { code, detail: detail.to_string(), entries }
}

fn attribute(name: &str, values: Vec<Vec<u8>>) -> BinaryAttribute {
    BinaryAttribute { name: name.to_string(), values }
}

fn entry(dn: &str, attributes: Vec<BinaryAttribute>) -> DirectoryEntry {
    DirectoryEntry { dn: dn.to_string(), attributes }
}

#[test]
fn filter_for_an_address() {
    assert_eq!(
        search_filter("a@b.com"),
        "(&(objectClass=inetOrgPerson)(mail=a@b.com))"
    );
}

#[test]
fn filter_for_an_empty_identifier() {
    assert_eq!(search_filter(""), "(&(objectClass=inetOrgPerson)(mail=))");
}

#[test]
fn filter_takes_the_identifier_as_it_is() {
    assert_eq!(
        search_filter("j\u{f6}rg*)(x@example.org"),
        "(&(objectClass=inetOrgPerson)(mail=j\u{f6}rg*)(x@example.org))"
    );
}

#[test]
fn lookup_starts_by_connecting() {
    let config = sample_config();
    let (stage, request) = start(&config);
    assert_eq!(stage, Stage::Connecting);
    assert_eq!(
        request,
        Request::Connect { uri: "ldap://directory.example:389".to_string() }
    );
}

#[test]
fn connection_is_followed_by_a_bind() {
    let config = sample_config();
    let next = advance(&config, "a@b.com", Stage::Connecting, succeeded(Vec::new()));
    assert_eq!(
        next,
        Transition::Continue {
            stage: Stage::Binding,
            request: Request::Bind {
                dn: "cn=reader,dc=example".to_string(),
                password: "hunter2".to_string(),
            },
        }
    );
}

#[test]
fn bind_is_followed_by_a_subtree_search() {
    let config = sample_config();
    let next = advance(&config, "a@b.com", Stage::Binding, succeeded(Vec::new()));
    assert_eq!(
        next,
        Transition::Continue {
            stage: Stage::Searching,
            request: Request::Search {
                base: "ou=people,dc=example".to_string(),
                scope: SearchScope::Subtree,
                filter: "(&(objectClass=inetOrgPerson)(mail=a@b.com))".to_string(),
                attribute: "thumbnailPhoto".to_string(),
            },
        }
    );
}

#[test]
fn connection_failure_ends_the_lookup() {
    let config = sample_config();
    let next = advance(
        &config,
        "a@b.com",
        Stage::Connecting,
        Reply::Failure("connection refused".to_string()),
    );
    assert_eq!(
        next,
        Transition::Finished(LookupResult::ConnectionError("connection refused".to_string()))
    );
}

#[test]
fn bind_failure_ends_the_lookup() {
    let config = sample_config();
    let next = advance(
        &config,
        "a@b.com",
        Stage::Binding,
        Reply::Failure("invalid credentials".to_string()),
    );
    assert_eq!(
        next,
        Transition::Finished(LookupResult::BindError("invalid credentials".to_string()))
    );
}

#[test]
fn search_failure_ends_the_lookup() {
    let config = sample_config();
    let next = advance(
        &config,
        "a@b.com",
        Stage::Searching,
        Reply::Failure("no such object".to_string()),
    );
    assert_eq!(
        next,
        Transition::Finished(LookupResult::SearchError("no such object".to_string()))
    );
}

#[test]
fn search_with_a_picture_ends_with_its_bytes() {
    let config = sample_config();
    let entries = vec![entry(
        "uid=a,ou=people,dc=example",
        vec![attribute("thumbnailPhoto", vec![vec![1, 2, 3, 4]])],
    )];
    let next = advance(&config, "a@b.com", Stage::Searching, succeeded(entries));
    assert_eq!(next, Transition::Finished(LookupResult::Value(vec![1, 2, 3, 4])));
}

#[test]
fn search_without_entries_ends_as_absent() {
    let config = sample_config();
    let next = advance(&config, "a@b.com", Stage::Searching, succeeded(Vec::new()));
    assert_eq!(next, Transition::Finished(LookupResult::Absent));
}

#[test]
fn entry_without_the_attribute_ends_as_absent() {
    let config = sample_config();
    let entries = vec![entry(
        "uid=a,ou=people,dc=example",
        vec![attribute("jpegPhoto", vec![vec![1, 2, 3]])],
    )];
    let next = advance(&config, "a@b.com", Stage::Searching, succeeded(entries));
    assert_eq!(next, Transition::Finished(LookupResult::Absent));
}

#[test]
fn entry_without_any_attribute_ends_as_absent() {
    let config = sample_config();
    let entries = vec![entry("uid=a,ou=people,dc=example", Vec::new())];
    let next = advance(&config, "a@b.com", Stage::Searching, succeeded(entries));
    assert_eq!(next, Transition::Finished(LookupResult::Absent));
}

#[test]
fn full_lookup_runs_connect_bind_search() {
    let config = sample_config();
    let (stage, request) = start(&config);
    assert!(matches!(request, Request::Connect { .. }));
    let (stage, request) = match advance(&config, "a@b.com", stage, succeeded(Vec::new())) {
        Transition::Continue { stage, request } => (stage, request),
        Transition::Finished(result) => panic!("ended after connecting: {:?}", result),
    };
    assert_eq!(stage, Stage::Binding);
    assert!(matches!(request, Request::Bind { .. }));
    let (stage, request) = match advance(&config, "a@b.com", stage, succeeded(Vec::new())) {
        Transition::Continue { stage, request } => (stage, request),
        Transition::Finished(result) => panic!("ended after binding: {:?}", result),
    };
    assert_eq!(stage, Stage::Searching);
    assert!(matches!(request, Request::Search { .. }));
    let entries = vec![entry("uid=a", vec![attribute("thumbnailPhoto", vec![vec![7]])])];
    let last = advance(&config, "a@b.com", stage, succeeded(entries));
    assert_eq!(last, Transition::Finished(LookupResult::Value(vec![7])));
}

#[test]
fn first_value_of_the_named_attribute() {
    let entries = vec![entry(
        "uid=a",
        vec![
            attribute("jpegPhoto", vec![vec![9, 9]]),
            attribute("thumbnailPhoto", vec![vec![1, 2], vec![3, 4]]),
        ],
    )];
    assert_eq!(first_value(&entries, &"thumbnailPhoto".to_string()), Some(vec![1, 2]));
    assert_eq!(first_value(&entries, &"jpegPhoto".to_string()), Some(vec![9, 9]));
}

#[test]
fn only_the_first_value_counts() {
    let entries = vec![entry(
        "uid=a",
        vec![attribute("thumbnailPhoto", vec![vec![5], vec![6], vec![7]])],
    )];
    assert_eq!(first_value(&entries, &"thumbnailPhoto".to_string()), Some(vec![5]));
}

#[test]
fn only_the_first_entry_counts() {
    let entries = vec![
        entry("uid=a", vec![attribute("thumbnailPhoto", vec![vec![1]])]),
        entry("uid=b", vec![attribute("thumbnailPhoto", vec![vec![2]])]),
    ];
    assert_eq!(first_value(&entries, &"thumbnailPhoto".to_string()), Some(vec![1]));
}

#[test]
fn first_entry_without_picture_hides_later_ones() {
    let entries = vec![
        entry("uid=a", Vec::new()),
        entry("uid=b", vec![attribute("thumbnailPhoto", vec![vec![2]])]),
    ];
    assert_eq!(first_value(&entries, &"thumbnailPhoto".to_string()), None);
}

#[test]
fn attribute_without_values_counts_as_missing() {
    let entries = vec![entry("uid=a", vec![attribute("thumbnailPhoto", Vec::new())])];
    assert_eq!(first_value(&entries, &"thumbnailPhoto".to_string()), None);
}

#[test]
fn attribute_names_are_compared_exactly() {
    let entries = vec![entry("uid=a", vec![attribute("thumbnailphoto", vec![vec![1]])])];
    assert_eq!(first_value(&entries, &"thumbnailPhoto".to_string()), None);
    assert_eq!(first_value(&entries, &"thumbnailphoto".to_string()), Some(vec![1]));
}

#[test]
fn empty_value_is_still_a_value() {
    let entries = vec![entry("uid=a", vec![attribute("thumbnailPhoto", vec![Vec::new()])])];
    assert_eq!(first_value(&entries, &"thumbnailPhoto".to_string()), Some(Vec::new()));
}

#[test]
fn no_entries_no_value() {
    assert_eq!(first_value(&Vec::new(), &"thumbnailPhoto".to_string()), None);
}

#[test]
fn success_is_code_zero() {
    assert_eq!(RESULT_SUCCESS, 0);
}

#[test]
fn rejected_bind_ends_the_lookup() {
    let config = sample_config();
    let next = advance(
        &config,
        "a@b.com",
        Stage::Binding,
        answered(49, "rc=49 (invalidCredentials)", Vec::new()),
    );
    assert_eq!(
        next,
        Transition::Finished(LookupResult::BindError("rc=49 (invalidCredentials)".to_string()))
    );
}

#[test]
fn search_answered_with_an_error_code_ends_the_lookup() {
    let config = sample_config();
    let entries = vec![entry("uid=a", vec![attribute("thumbnailPhoto", vec![vec![7]])])];
    let next = advance(
        &config,
        "a@b.com",
        Stage::Searching,
        answered(32, "rc=32 (noSuchObject)", entries),
    );
    assert_eq!(
        next,
        Transition::Finished(LookupResult::SearchError("rc=32 (noSuchObject)".to_string()))
    );
}

#[test]
fn connection_answered_with_an_error_code_ends_the_lookup() {
    let config = sample_config();
    let next = advance(&config, "a@b.com", Stage::Connecting, answered(52, "unavailable", Vec::new()));
    assert_eq!(
        next,
        Transition::Finished(LookupResult::ConnectionError("unavailable".to_string()))
    );
}

#[test]
fn every_code_but_zero_is_an_error() {
    let config = sample_config();
    for code in [1u32, 4, 10, 49, 80, 122, u32::MAX] {
        let next = advance(&config, "a@b.com", Stage::Binding, answered(code, "refused", Vec::new()));
        assert_eq!(next, Transition::Finished(LookupResult::BindError("refused".to_string())));
    }
    let next = advance(&config, "a@b.com", Stage::Binding, answered(0, "fine", Vec::new()));
    assert!(matches!(next, Transition::Continue { stage: Stage::Searching, .. }));
}

#[test]
fn words_of_a_successful_answer_are_not_used() {
    let config = sample_config();
    let entries = vec![entry("uid=a", vec![attribute("thumbnailPhoto", vec![vec![7]])])];
    let next = advance(&config, "a@b.com", Stage::Searching, answered(0, "anything", entries));
    assert_eq!(next, Transition::Finished(LookupResult::Value(vec![7])));
}
