use crawlers::api::{Api, ApiError, SavedSearch, SavedSearchResponse};
use crawlers::collector::{CollectorTarget, TargetUrlBuilder};
use crawlers::crawler::buyee::{buyee_search_url, BUYEE_URL};
use crawlers::crawlers::buyee::Buyee;
use crawlers::text::{decimal_string, replace};

fn search(query: &str, vinyl_only: bool) -> SavedSearch {
    SavedSearch {
        id: "1".to_string(),
        name: "n".to_string(),
        query: query.to_string(),
        created_at: String::new(),
        updated_at: String::new(),
        vinyl_only,
        user_id: "u".to_string(),
    }
}

#[test]
fn base_url_of_buyee() {
    assert_eq!(CollectorTarget::Buyee.base_url(), "https://buyee.jp/item/search/query/");
}

#[test]
fn builder_full_vinyl_url() {
    let url = TargetUrlBuilder::new(CollectorTarget::Buyee)
        .base_url()
        .with_term("miles davis")
        .vinyl_only(true)
        .add_scrape_protection()
        .build();
    assert_eq!(url, "https://buyee.jp/item/search/query/miles davis/category/22260?suggest=1");
}

#[test]
fn builder_without_vinyl_category() {
    let url = TargetUrlBuilder::new(CollectorTarget::Buyee)
        .base_url()
        .with_term("coltrane")
        .vinyl_only(false)
        .add_scrape_protection()
        .build();
    assert_eq!(url, "https://buyee.jp/item/search/query/coltrane?suggest=1");
}

#[test]
fn builder_new_is_empty_and_steps_append() {
    assert_eq!(TargetUrlBuilder::new(CollectorTarget::Buyee).build(), "");
    assert_eq!(TargetUrlBuilder::new(CollectorTarget::Buyee).with_term("x").build(), "x");
    assert_eq!(TargetUrlBuilder::new(CollectorTarget::Buyee).add_scrape_protection().build(), "?suggest=1");
    assert_eq!(
        TargetUrlBuilder::new(CollectorTarget::Buyee).with_term("x").base_url().build(),
        "https://buyee.jp/item/search/query/"
    );
}

#[test]
fn buyee_search_url_of_saved_search() {
    assert_eq!(
        Buyee::search_url(&search("jazz", true)),
        "https://buyee.jp/item/search/query/jazz/category/22260?suggest=1"
    );
    assert_eq!(
        Buyee::search_url(&search("jazz", false)),
        "https://buyee.jp/item/search/query/jazz?suggest=1"
    );
}

#[test]
fn buyee_listing_url() {
    assert_eq!(Buyee::listing_url("/item/jdirectitems/auction/x123"), "https://buyee.jp/item/jdirectitems/auction/x123");
    assert_eq!(Buyee::listing_url(""), "https://buyee.jp");
}

#[test]
fn template_search_url() {
    assert_eq!(BUYEE_URL, "https://buyee.jp/item/search/query/{{term}}/category/22260");
    assert_eq!(buyee_search_url("bill evans"), "https://buyee.jp/item/search/query/bill evans/category/22260");
    // the term is not scanned for the placeholder again
    assert_eq!(buyee_search_url("{{term}}"), "https://buyee.jp/item/search/query/{{term}}/category/22260");
}

#[test]
fn template_url_matches_builder_without_protection() {
    let built = TargetUrlBuilder::new(CollectorTarget::Buyee).base_url().with_term("ab").vinyl_only(true).build();
    assert_eq!(buyee_search_url("ab"), built);
}

#[test]
fn replace_cases() {
    assert_eq!(replace("aaa", "aa", "b"), "aaa".replace("aa", "b"));
    assert_eq!(replace("aaa", "aa", "b"), "ba");
    assert_eq!(replace("", "x", "y"), "");
    assert_eq!(replace("xyx", "x", ""), "y");
    assert_eq!(replace("日本語の本", "本", "ほん"), "日ほん語のほん");
    assert_eq!(replace("ab", "abc", "z"), "ab");
}

#[test]
fn decimal_strings() {
    assert_eq!(decimal_string(0), "0");
    assert_eq!(decimal_string(7), "7");
    assert_eq!(decimal_string(404), "404");
    assert_eq!(decimal_string(65535), "65535");
}

#[test]
fn api_urls_and_status() {
    let api = Api::from_base_url("http://localhost:3000".to_string());
    assert_eq!(api.saved_searches_url(), "http://localhost:3000/api/saved_searches");
    assert_eq!(Api::check_status(200), Ok(()));
    assert_eq!(Api::check_status(404), Err(ApiError::BadStatus(404)));
    assert_eq!(Api::check_status(201), Err(ApiError::BadStatus(201)));
}

#[test]
fn api_error_message() {
    assert_eq!(ApiError::BadStatus(500).message(), "Got status: 500");
    assert_eq!(ApiError::BadStatus(3).message(), "Got status: 3");
}

#[test]
fn saved_search_response_keeps_order() {
    let r = SavedSearchResponse::new(vec![search("a", true), search("b", false)]);
    let s = r.into_searches();
    assert_eq!(s.len(), 2);
    assert_eq!(s[0].query, "a");
    assert_eq!(s[1].query, "b");
    assert_eq!(s[0], search("a", true));
}

#[test]
fn vinyl_false_changes_nothing() {
    let with = TargetUrlBuilder::new(CollectorTarget::Buyee).base_url().with_term("q").vinyl_only(false).build();
    let without = TargetUrlBuilder::new(CollectorTarget::Buyee).base_url().with_term("q").build();
    assert_eq!(with, without);
}

#[test]
fn steps_only_append() {
    let before = TargetUrlBuilder::new(CollectorTarget::Buyee).base_url().build();
    let after = TargetUrlBuilder::new(CollectorTarget::Buyee).base_url().with_term("t").vinyl_only(true).build();
    assert!(after.starts_with(&before));
    assert!(after.starts_with("https://buyee.jp/item/search/query/t"));
}
