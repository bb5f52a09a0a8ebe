use wiki::request::{page_url, random_url, request_url, search_url, Param, API_URL};

fn query_value(address: &str, name: &str) -> Option<String> {
    let parsed = url::Url::parse(address).expect("the address parses");
    let found = parsed.query_pairs().find(|(k, _)| k == name).map(|(_, v)| v.into_owned());
    found
}

#[test]
fn search_url_plain_term() {
    assert_eq!(
        search_url("foo"),
        "https://en.wikipedia.org/w/api.php?action=query&list=search&srsearch=foo&format=json"
    );
}

#[test]
fn search_url_encodes_reserved_characters() {
    assert_eq!(
        search_url("rock & roll=fun?"),
        "https://en.wikipedia.org/w/api.php?action=query&list=search&srsearch=rock+%26+roll%3Dfun%3F&format=json"
    );
}

#[test]
fn search_url_encodes_unreserved_and_non_ascii() {
    assert_eq!(
        search_url("a*b-c.d_e~é"),
        "https://en.wikipedia.org/w/api.php?action=query&list=search&srsearch=a*b-c.d_e%7E%C3%A9&format=json"
    );
}

#[test]
fn search_term_is_recovered_from_the_address() {
    for term in ["a b", "x&y", "k=v", "100% sure", "a+b", "#tag?", "naïve café", "", "日本語 & more"] {
        let address = search_url(term);
        assert_eq!(query_value(&address, "srsearch").as_deref(), Some(term));
        assert_eq!(query_value(&address, "action").as_deref(), Some("query"));
        assert_eq!(query_value(&address, "list").as_deref(), Some("search"));
        assert_eq!(query_value(&address, "format").as_deref(), Some("json"));
    }
}

#[test]
fn search_url_starts_at_the_endpoint() {
    assert_eq!(API_URL, "https://en.wikipedia.org/w/api.php");
    let address = search_url("x y");
    let parsed = url::Url::parse(&address).expect("the address parses");
    assert_eq!(parsed.as_str(), address);
    assert_eq!(parsed.path(), "/w/api.php");
    assert_eq!(parsed.host_str(), Some("en.wikipedia.org"));
}

#[test]
fn page_url_exact() {
    assert_eq!(
        page_url(42),
        "https://en.wikipedia.org/w/api.php?action=query&prop=extracts&explaintext=&exsectionformat=plain&pageids=42&format=json"
    );
}

#[test]
fn page_url_largest_id() {
    let address = page_url(u64::MAX);
    assert_eq!(query_value(&address, "pageids").as_deref(), Some("18446744073709551615"));
    assert_eq!(query_value(&address, "explaintext").as_deref(), Some(""));
}

#[test]
fn random_url_exact() {
    assert_eq!(
        random_url(3),
        "https://en.wikipedia.org/w/api.php?action=query&list=random&rnlimit=3&rnnamespace=0&format=json"
    );
    assert_eq!(
        random_url(0),
        "https://en.wikipedia.org/w/api.php?action=query&list=random&rnlimit=0&rnnamespace=0&format=json"
    );
}

#[test]
fn request_url_without_parameters() {
    assert_eq!(request_url(&Vec::new()), "https://en.wikipedia.org/w/api.php?");
}

#[test]
fn request_url_encodes_names_and_values() {
    let params = vec![
        Param { name: "a b".to_string(), value: "1&2".to_string() },
        Param { name: "c".to_string(), value: String::new() },
    ];
    assert_eq!(request_url(&params), "https://en.wikipedia.org/w/api.php?a+b=1%262&c=");
}
