use ogcapi_services::link::{
    Link, MEDIA_GEO_JSON, MEDIA_JSON, REL_DATA, REL_ITEMS, REL_SELF,
};
use ogcapi_services::request_url::BaseUrl;
use ogcapi_services::text::join;

fn link(href: &str, rel: &str, media_type: Option<&str>, title: Option<&str>) -> Link {
    Link {
        href: href.to_string(),
        rel: rel.to_string(),
        media_type: media_type.map(|m| m.to_string()),
        title: title.map(|t| t.to_string()),
    }
}

#[test]
fn relation_and_media_type_names() {
    assert_eq!(REL_SELF, "self");
    assert_eq!(REL_ITEMS, "items");
    assert_eq!(REL_DATA, "data");
    assert_eq!(MEDIA_JSON, "application/json");
    assert_eq!(MEDIA_GEO_JSON, "application/geo+json");
}

#[test]
fn join_appends() {
    assert_eq!(join("", ""), "");
    assert_eq!(join("a", ""), "a");
    assert_eq!(join("", "b"), "b");
    assert_eq!(join("Items of ", "Lakes"), "Items of Lakes");
}

#[test]
fn new_link_has_neither_type_nor_title() {
    let made = Link::new("http://example.org/x".to_string(), "next");
    assert_eq!(made, link("http://example.org/x", "next", None, None));
}

#[test]
fn mime_and_title_set_one_field_each() {
    let made = Link::new("h".to_string(), "r").mime("text/html");
    assert_eq!(made, link("h", "r", Some("text/html"), None));
    let made = made.title("T".to_string());
    assert_eq!(made, link("h", "r", Some("text/html"), Some("T")));
    let made = made.mime("application/json").title("U".to_string());
    assert_eq!(made, link("h", "r", Some("application/json"), Some("U")));
}

#[test]
fn document_link_points_at_the_list() {
    let made = Link::document("http://localhost:8484/collections");
    let expected = link(
        "http://localhost:8484/collections",
        "self",
        Some("application/json"),
        Some("this document"),
    );
    assert_eq!(made, expected);
}

#[test]
fn resource_link_points_below_the_list() {
    let made = Link::resource("http://localhost:8484/collections", "lakes");
    assert_eq!(made, link("http://localhost:8484/collections/lakes", "self", None, None));
}

#[test]
fn items_link_is_titled_by_title() {
    let title = Some("Large Lakes".to_string());
    let made = Link::items("http://localhost:8484/collections/lakes", &title, "lakes");
    let expected = link(
        "http://localhost:8484/collections/lakes/items",
        "items",
        Some("application/geo+json"),
        Some("Items of Large Lakes"),
    );
    assert_eq!(made, expected);
}

#[test]
fn items_link_falls_back_to_the_id() {
    let made = Link::items("http://localhost:8484/collections/lakes", &None, "lakes");
    let expected = link(
        "http://localhost:8484/collections/lakes/items",
        "items",
        Some("application/geo+json"),
        Some("Items of lakes"),
    );
    assert_eq!(made, expected);
}

#[test]
fn items_link_keeps_an_empty_title() {
    let made = Link::items("b", &Some(String::new()), "lakes");
    assert_eq!(made, link("b/items", "items", Some("application/geo+json"), Some("Items of ")));
}

#[test]
fn data_link_advertises_the_collections() {
    let made = Link::data("http://localhost:8484");
    let expected = link(
        "http://localhost:8484/collections",
        "data",
        Some("application/json"),
        Some("Metadata about the resource collections"),
    );
    assert_eq!(made, expected);
}

#[test]
fn base_url_drops_query_and_fragment() {
    let cases = [
        ("http://localhost:8484/collections", "http://localhost:8484/collections"),
        ("http://localhost:8484/collections?f=json", "http://localhost:8484/collections"),
        ("http://localhost:8484/collections#top", "http://localhost:8484/collections"),
        ("http://localhost:8484/collections?f=json&limit=5#top", "http://localhost:8484/collections"),
        ("http://localhost:8484/collections/lakes?x=1", "http://localhost:8484/collections/lakes"),
        ("https://example.org/a/b/?q", "https://example.org/a/b/"),
        ("https://example.org?q=1", "https://example.org/"),
        ("https://user:pw@example.org:8443/c?q#f", "https://user:pw@example.org:8443/c"),
    ];
    for (url, expected) in cases {
        let base = BaseUrl::parse(url).unwrap();
        assert_eq!(base.as_str(), expected);
    }
}

#[test]
fn base_url_is_the_parsed_text() {
    let base = BaseUrl::parse("HTTP://EXAMPLE.org:80/a b?q").unwrap();
    assert_eq!(base.as_str(), "http://example.org/a%20b");
}

#[test]
fn base_url_rejects_what_is_no_url() {
    assert!(BaseUrl::parse("").is_none());
    assert!(BaseUrl::parse("/collections").is_none());
    assert!(BaseUrl::parse("collections?f=json").is_none());
    assert!(BaseUrl::parse("http://[::1/collections").is_none());
}
