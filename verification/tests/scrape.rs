use crawlers::crawlers::buyee::{Buyee, CalendarDate, Listing};
use crawlers::crawlers::crawler::{Crawler, CrawlerType, ScrapeError};
use crawlers::html::Element;

const PAGE: &str = r#"<html><body>
<div class="itemCard__item">
  <div class="itemCard__itemName"><a href="/item/a1">Kind of Blue</a></div>
  <div class="g-price__outer"><span class="g-price">1,200 <b>YEN</b></span></div>
</div>
<div class="itemCard__item">
  <div class="itemCard__itemName"><a href="/item/b2">Blue Train</a></div>
  <div class="g-price__outer"><span class="g-price">3,400</span><span class="g-price"> YEN</span></div>
</div>
<div class="itemCard__item">
  <p>no price, no link</p>
</div>
</body></html>"#;

#[test]
fn scrape_reads_each_card() {
    let listings = Buyee::new().scrape(PAGE).unwrap();
    assert_eq!(listings.len(), 3);
    assert_eq!(listings[0].price, "1,200 YEN");
    assert_eq!(listings[0].url, "/item/a1");
    assert_eq!(listings[1].price, "3,400 YEN");
    assert_eq!(listings[1].url, "/item/b2");
    assert_eq!(listings[2].price, "");
    assert_eq!(listings[2].url, "");
    for l in &listings {
        assert!(l.images.is_empty());
        assert_eq!(l.start_date, CalendarDate { days_from_ce: 719163 });
        assert_eq!(l.end_date, CalendarDate { days_from_ce: 719165 });
    }
}

#[test]
fn scrape_without_cards_is_empty() {
    let listings = Buyee::new().scrape("<html><body><p>nothing</p></body></html>").unwrap();
    assert!(listings.is_empty());
}

#[test]
fn scrape_refuses_link_without_address() {
    let page = r#"<div class="itemCard__item"><div class="itemCard__itemName"><a>x</a></div></div>"#;
    assert_eq!(Buyee::new().scrape(page).unwrap_err(), ScrapeError::MissingLink);
}

#[test]
fn scrape_takes_last_link_of_a_card() {
    let page = r#"<div class="itemCard__item">
        <div class="itemCard__itemName"><a href="/first">1</a></div>
        <div class="itemCard__itemName"><a href="/second">2</a></div></div>"#;
    let listings = Buyee::new().scrape(page).unwrap();
    assert_eq!(listings[0].url, "/second");
}

#[test]
fn crawler_type_of_buyee() {
    assert_eq!(Buyee::new().crawler_type(), CrawlerType::Buyee);
}

const LISTING_PAGE: &str = r#"<html><body><ul class="slides">
<li><a href="https://img/1.jpg">1</a></li>
<li><a>no address</a></li>
<li><a href="https://img/2.jpg">2</a></li>
</ul><a href="https://elsewhere">x</a></body></html>"#;

#[test]
fn listing_images() {
    let listing = Listing::default();
    let listing = Buyee::with_images(listing, LISTING_PAGE);
    assert_eq!(listing.images, vec!["https://img/1.jpg".to_string(), "https://img/2.jpg".to_string()]);
    assert_eq!(listing.price, "");
    assert!(Buyee::new().process(Listing::default(), LISTING_PAGE).is_ok());
}

#[test]
fn listing_default_dates() {
    let l = Listing::default();
    assert_eq!(l.start_date.days_from_ce, 719163);
    assert_eq!(l.end_date.days_from_ce, 719165);
    assert!(l.found_at.days_from_ce > 719163);
    assert!(l.price.is_empty() && l.url.is_empty() && l.images.is_empty());
}

#[test]
fn image_urls_skip_missing() {
    let anchors = vec![
        Element { texts: vec![], attr: Some("a".to_string()) },
        Element { texts: vec![], attr: None },
        Element { texts: vec![], attr: Some("b".to_string()) },
    ];
    assert_eq!(Buyee::image_urls(&anchors), vec!["a".to_string(), "b".to_string()]);
}

#[test]
fn nested_elements_count_as_texts() {
    let page = r#"<div class="itemCard__item"><div class="g-price__outer"><span class="g-price">1<i>2</i>3</span></div></div>"#;
    let listings = Buyee::new().scrape(page).unwrap();
    assert_eq!(listings[0].price, "123");
}

#[test]
fn price_elements_outside_cards_are_ignored() {
    let page = r#"<div class="g-price__outer"><span class="g-price">999</span></div>
        <div class="itemCard__item"><div class="g-price__outer"><span class="g-price">5</span></div></div>"#;
    let listings = Buyee::new().scrape(page).unwrap();
    assert_eq!(listings.len(), 1);
    assert_eq!(listings[0].price, "5");
}

#[test]
fn listings_from_cards_directly() {
    let cards = vec![(
        vec![Element { texts: vec!["1".to_string(), "2".to_string()], attr: None }, Element { texts: vec!["3".to_string()], attr: None }],
        vec![Element { texts: vec![], attr: Some("/x".to_string()) }],
    )];
    let stamp = (CalendarDate { days_from_ce: 738000 }, CalendarDate { days_from_ce: 738001 });
    let listings = Buyee::listings_from_cards(&cards, &vec![stamp]);
    assert_eq!(listings.len(), 1);
    assert_eq!(listings[0].price, "123");
    assert_eq!(listings[0].url, "/x");
    assert_eq!(listings[0].found_at, stamp.0);
    assert_eq!(listings[0].updated_at, stamp.1);
    assert_eq!(listings[0].start_date.days_from_ce, 719163);
}

#[test]
fn stamped_listing() {
    let l = Listing::stamped(CalendarDate { days_from_ce: 739000 }, CalendarDate { days_from_ce: 739002 });
    assert_eq!(l.found_at.days_from_ce, 739000);
    assert_eq!(l.updated_at.days_from_ce, 739002);
    assert_eq!(l.start_date.days_from_ce, 719163);
    assert_eq!(l.end_date.days_from_ce, 719165);
    assert!(l.price.is_empty() && l.url.is_empty() && l.images.is_empty());
}

#[test]
fn scraped_listings_are_stamped_today() {
    let listings = Buyee::new().scrape(PAGE).unwrap();
    let today = Listing::default().found_at;
    for l in &listings {
        assert!((l.found_at.days_from_ce - today.days_from_ce).abs() <= 1);
        assert!((l.updated_at.days_from_ce - today.days_from_ce).abs() <= 1);
    }
}

#[test]
fn process_always_succeeds() {
    assert!(Buyee::new().process(Listing::default(), "").is_ok());
    assert!(Buyee::with_images(Listing::default(), "<p>no slides</p>").images.is_empty());
}
