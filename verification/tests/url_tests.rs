use ferrum::url::{blank_target, get_title_from_url, normalize};

#[test]
fn bare_domain_gets_https_prefix() {
    let t = normalize("github.com");
    assert_eq!(t.s, "https://github.com");
}

#[test]
fn bare_domain_with_path_gets_https_prefix() {
    let t = normalize("github.com/emilk/egui");
    assert_eq!(t.s, "https://github.com/emilk/egui");
}

#[test]
fn https_input_is_verbatim() {
    let t = normalize("https://github.com");
    assert_eq!(t.s, "https://github.com");
}

#[test]
fn http_input_is_verbatim() {
    let t = normalize("http://example.com");
    assert_eq!(t.s, "http://example.com");
}

#[test]
fn free_text_becomes_search_query() {
    let t = normalize("rust programming");
    assert_eq!(t.s, "https://www.google.com/search?q=rust%20programming");
}

#[test]
fn dot_with_whitespace_becomes_search_query() {
    let t = normalize("what is rust-lang.org");
    assert!(t.s.starts_with("https://www.google.com/search?q="));
    assert!(t.s.contains("rust-lang.org"));
}

#[test]
fn dotless_word_becomes_search_query() {
    let t = normalize("rust");
    assert_eq!(t.s, "https://www.google.com/search?q=rust");
}

#[test]
fn empty_input_becomes_empty_search_query() {
    let t = normalize("");
    assert_eq!(t.s, "https://www.google.com/search?q=");
}

#[test]
fn already_encoded_input_is_double_encoded() {
    let t = normalize("a%20b");
    assert_eq!(t.s, "https://www.google.com/search?q=a%2520b");
}

#[test]
fn tab_character_counts_as_whitespace() {
    let t = normalize("a.b\tc");
    assert!(t.s.starts_with("https://www.google.com/search?q="));
}

#[test]
fn blank_target_is_sentinel() {
    assert_eq!(blank_target().s, "about:blank");
}

#[test]
fn title_of_blank_is_placeholder() {
    assert_eq!(get_title_from_url("about:blank"), "New Tab");
}

#[test]
fn title_of_https_url_is_host() {
    assert_eq!(get_title_from_url("https://github.com/emilk/egui"), "github.com");
}

#[test]
fn title_of_http_url_is_host() {
    assert_eq!(get_title_from_url("http://example.com/index.html"), "example.com");
}

#[test]
fn title_of_host_only_url_is_host() {
    assert_eq!(get_title_from_url("https://rust-lang.org"), "rust-lang.org");
}

#[test]
fn title_of_other_text_is_the_text() {
    assert_eq!(get_title_from_url("some note"), "some note");
}
