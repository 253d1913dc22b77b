use crawlers::api::{Api, SavedSearch};
use crawlers::collector::{CollectAction, CollectEvent, CollectPhase, Collector, CollectorTarget};
use crawlers::crawlers::buyee::Listing;

fn search(query: &str) -> SavedSearch {
    SavedSearch { query: query.to_string(), ..Default::default() }
}

fn listing(price: &str) -> Listing {
    let mut l = Listing::default();
    l.price = price.to_string();
    l
}

fn collector() -> Collector {
    Collector::with_api(Api::from_base_url("http://api".to_string()))
}

#[test]
fn untroubled_run_scrapes_each_search_once_in_order() {
    let c = collector();
    assert_eq!(c.api().saved_searches_url(), "http://api/api/saved_searches");
    let mut run = c.start_run();
    assert_eq!(run.phase(), CollectPhase::Ready);
    let s = run.step(CollectEvent::Start);
    assert!(s.process.is_empty());
    assert!(matches!(s.next, CollectAction::FetchSearches(CollectorTarget::Buyee)));
    let s = run.step(CollectEvent::SearchesFetched(vec![search("a"), search("b")]));
    assert!(s.process.is_empty());
    assert!(matches!(&s.next, CollectAction::Scrape(CollectorTarget::Buyee, q) if q.query == "a"));
    let s = run.step(CollectEvent::ListingsScraped(vec![listing("1"), listing("2")]));
    assert_eq!(s.process.len(), 2);
    assert_eq!(s.process[1].price, "2");
    assert!(matches!(&s.next, CollectAction::Scrape(CollectorTarget::Buyee, q) if q.query == "b"));
    let s = run.step(CollectEvent::ListingsScraped(vec![listing("3")]));
    assert_eq!(s.process[0].price, "3");
    assert!(matches!(s.next, CollectAction::Finish));
    assert_eq!(run.phase(), CollectPhase::Done);
}

#[test]
fn run_without_searches_finishes() {
    let mut run = collector().start_run();
    run.step(CollectEvent::Start);
    let s = run.step(CollectEvent::SearchesFetched(vec![]));
    assert!(matches!(s.next, CollectAction::Finish));
    assert_eq!(run.phase(), CollectPhase::Done);
}

#[test]
fn failed_fetch_aborts_and_stays_failed() {
    let mut run = collector().start_run();
    run.step(CollectEvent::Start);
    let s = run.step(CollectEvent::SearchesFailed);
    assert!(matches!(s.next, CollectAction::Abort));
    assert_eq!(run.phase(), CollectPhase::Failed);
    let s = run.step(CollectEvent::Start);
    assert!(matches!(s.next, CollectAction::Wait));
    let s = run.step(CollectEvent::ListingsScraped(vec![listing("x")]));
    assert!(matches!(s.next, CollectAction::Wait));
    assert!(s.process.is_empty());
    assert_eq!(run.phase(), CollectPhase::Failed);
}

#[test]
fn failed_scrape_aborts() {
    let mut run = collector().start_run();
    run.step(CollectEvent::Start);
    run.step(CollectEvent::SearchesFetched(vec![search("a"), search("b")]));
    let s = run.step(CollectEvent::ScrapeFailed);
    assert!(matches!(s.next, CollectAction::Abort));
    assert_eq!(run.phase(), CollectPhase::Failed);
}

#[test]
fn events_out_of_place_are_ignored() {
    let mut run = collector().start_run();
    let s = run.step(CollectEvent::SearchesFetched(vec![search("a")]));
    assert!(matches!(s.next, CollectAction::Wait));
    assert_eq!(run.phase(), CollectPhase::Ready);
    run.step(CollectEvent::Start);
    let s = run.step(CollectEvent::ScrapeFailed);
    assert!(matches!(s.next, CollectAction::Wait));
    assert_eq!(run.phase(), CollectPhase::AwaitingSearches);
}
