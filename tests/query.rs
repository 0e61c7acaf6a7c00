use libsql_client::client::{query_param, take_query_param};
use url::Url;

fn pop_query_param(url: &mut Url, param: String) -> Option<String> {
    let mut pairs: Vec<(String, String)> = url
        .query_pairs()
        .map(|(k, v)| (k.into_owned(), v.into_owned()))
        .collect();
    let value = take_query_param(&mut pairs, &param);
    url.query_pairs_mut()
        .clear()
        .extend_pairs(pairs.iter().map(|(k, v)| (k.as_str(), v.as_str())));
    value
}

#[test]
fn test_pop_query_param_existing() {
    let mut url = Url::parse("http://turso.io/?super=yes&sqld=yo").unwrap();
    let param = "sqld".to_string();
    let result = pop_query_param(&mut url, param.clone());
    assert_eq!(result, Some("yo".to_string()));
    assert_eq!(url.query_pairs().count(), 1);
    assert_eq!(url.query_pairs().find(|(key, _)| key == &param), None);
}

#[test]
fn test_pop_query_param_not_existing() {
    let mut url = Url::parse("http://turso.io/?super=yes&sqld=yo").unwrap();
    let param = "ohno".to_string();
    let result = pop_query_param(&mut url, param.clone());
    assert_eq!(result, None);
    assert_eq!(url.as_str(), "http://turso.io/?super=yes&sqld=yo");
}

#[test]
fn first_of_repeated_keys_is_taken() {
    let mut pairs = vec![
        ("a".to_string(), "1".to_string()),
        ("b".to_string(), "2".to_string()),
        ("a".to_string(), "3".to_string()),
        ("c".to_string(), "4".to_string()),
    ];
    assert_eq!(take_query_param(&mut pairs, "a"), Some("1".to_string()));
    let keys: Vec<&str> = pairs.iter().map(|(k, _)| k.as_str()).collect();
    assert_eq!(keys, vec!["c", "b", "a"]);
}

#[test]
fn query_param_reads_first_value() {
    let pairs = vec![
        ("authToken".to_string(), "t1".to_string()),
        ("authToken".to_string(), "t2".to_string()),
    ];
    assert_eq!(query_param(&pairs, "authToken"), Some("t1".to_string()));
    assert_eq!(query_param(&pairs, "other"), None);
}
