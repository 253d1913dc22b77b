//! The Buyee crawler: the addresses of its pages, and the listings that it
//! reads off them.
use vstd::prelude::*;
use crate::api::SavedSearch;
use crate::collector::{search_url_of, CollectorTarget, TargetUrlBuilder};
use crate::crawlers::crawler::{Crawler, CrawlerType, ScrapeError};
use crate::html::{
    element_pairs_view, elements_view, paired_selection, select_elements, select_pairs, selection,
    Element, ElementView,
};

verus! {

/// The buyee scraper
pub struct Buyee;

/// A day of the proleptic Gregorian calendar, counted as chrono counts it:
/// January 1 of year 1 is day 1.
#[derive(Debug, Clone, Copy, PartialEq, Eq, Structural)]
pub struct CalendarDate {
    pub days_from_ce: i32,
}

/// January 1, 1970, the date that chrono's `NaiveDate::default` gives.
pub open spec fn epoch_days_from_ce() -> int {
    719163
}

/// `chrono::NaiveDate::default()`, taken as a day count with
/// `Datelike::num_days_from_ce`. chrono documents and implements the default
/// date as January 1, 1970, which is day 719163.
#[verifier::external_body]
fn default_date() -> (d: CalendarDate)
    ensures
        d.days_from_ce == epoch_days_from_ce(),
{
    CalendarDate { days_from_ce: chrono::Datelike::num_days_from_ce(&chrono::NaiveDate::default()) }
}

/// The date `days` days after `d`, by chrono: `NaiveDate` of the day count,
/// plus `TimeDelta::days(days)` with `checked_add_signed`, back to a day
/// count. The claims: a result is `d` moved by `days`, and there is one
/// whenever both dates lie well inside chrono's range (years -262143 to
/// 262142, beyond 95,700,000 days either way).
#[verifier::external_body]
fn date_plus_days(d: CalendarDate, days: i32) -> (r: Option<CalendarDate>)
    ensures
        r matches Some(e) ==> e.days_from_ce == d.days_from_ce + days,
        (-95_000_000 <= d.days_from_ce <= 95_000_000 && -95_000_000 <= d.days_from_ce + days
            <= 95_000_000) ==> r is Some,
{
    let date = chrono::NaiveDate::from_num_days_from_ce_opt(d.days_from_ce)?;
    let later = date.checked_add_signed(chrono::TimeDelta::days(days as i64))?;
    Some(CalendarDate { days_from_ce: chrono::Datelike::num_days_from_ce(&later) })
}

/// Today's date in UTC: `chrono::Utc::now().date_naive()` as a day count.
/// Which day it is depends on the clock, and is not claimed. The claim is
/// only that it is not before January 1, 1970: `Utc::now` measures the time
/// since the Unix epoch and panics, giving no date, when the clock is set
/// before it.
#[verifier::external_body]
fn today_utc() -> (d: CalendarDate)
    ensures
        d.days_from_ce >= epoch_days_from_ce(),
{
    CalendarDate {
        days_from_ce: chrono::Datelike::num_days_from_ce(&chrono::Utc::now().date_naive()),
    }
}

/// A listing found in the search results.
#[derive(Debug)]
pub struct Listing {
    pub price: String,
    pub images: Vec<String>,
    pub url: String,
    pub start_date: CalendarDate,
    pub end_date: CalendarDate,
    pub found_at: CalendarDate,
    pub updated_at: CalendarDate,
}

/// The dates that a fresh listing starts with: the default date, and an end
/// two days after it.
pub open spec fn has_default_dates(l: Listing) -> bool {
    &&& l.start_date.days_from_ce == epoch_days_from_ce()
    &&& l.end_date.days_from_ce == epoch_days_from_ce() + 2
}

impl Default for Listing {
    fn default() -> (r: Self)
        ensures
            r.price@ == Seq::<char>::empty(),
            r.images@.len() == 0,
            r.url@ == Seq::<char>::empty(),
            has_default_dates(r),
            r.found_at.days_from_ce >= epoch_days_from_ce(),
            r.updated_at.days_from_ce >= epoch_days_from_ce(),
    {
        Listing::stamped(today_utc(), today_utc())
    }
}

impl Listing {
    /// An empty listing with the default dates, found and updated on the
    /// given days.
    pub fn stamped(found_at: CalendarDate, updated_at: CalendarDate) -> (r: Listing)
        ensures
            r.price@ == Seq::<char>::empty(),
            r.images@.len() == 0,
            r.url@ == Seq::<char>::empty(),
            has_default_dates(r),
            r.found_at == found_at,
            r.updated_at == updated_at,
    {
        let start = default_date();
        // this should never be defaulted, but just in case :)
        let end = date_plus_days(start, 2).unwrap();
        Listing {
            price: String::new(),
            images: Vec::new(),
            url: String::new(),
            start_date: start,
            end_date: end,
            found_at,
            updated_at,
        }
    }

    fn new(price: String, url: String, found_at: CalendarDate, updated_at: CalendarDate) -> (r: Listing)
        ensures
            r.price == price,
            r.url == url,
            r.images@.len() == 0,
            has_default_dates(r),
            r.found_at == found_at,
            r.updated_at == updated_at,
    {
        let d = Listing::stamped(found_at, updated_at);
        Listing {
            price,
            images: d.images,
            url,
            start_date: d.start_date,
            end_date: d.end_date,
            found_at: d.found_at,
            updated_at: d.updated_at,
        }
    }

    fn set_images(&mut self, images: Vec<String>)
        ensures
            final(self).images == images,
            final(self).price == old(self).price,
            final(self).url == old(self).url,
            final(self).start_date == old(self).start_date,
            final(self).end_date == old(self).end_date,
            final(self).found_at == old(self).found_at,
            final(self).updated_at == old(self).updated_at,
    {
        self.images = images
    }
}

/// The pieces joined in order.
pub open spec fn concat_all(parts: Seq<Seq<char>>) -> Seq<char>
    decreases parts.len(),
{
    if parts.len() == 0 {
        Seq::empty()
    } else {
        concat_all(parts.drop_last()) + parts.last()
    }
}

/// The text of an element: its text nodes joined.
pub open spec fn element_text(e: ElementView) -> Seq<char> {
    concat_all(e.texts)
}

/// The price of a card: the texts of its price elements joined.
pub open spec fn price_text(els: Seq<ElementView>) -> Seq<char> {
    concat_all(els.map_values(|e: ElementView| element_text(e)))
}

/// Whether every element carries the attribute that was asked for.
pub open spec fn all_have_attr(els: Seq<ElementView>) -> bool {
    forall|i: int| 0 <= i < els.len() ==> (#[trigger] els[i]).attr is Some
}

/// The link of a card: the attribute of its last link element, or nothing
/// when it has none.
pub open spec fn last_attr(els: Seq<ElementView>) -> Seq<char> {
    if els.len() == 0 {
        Seq::empty()
    } else {
        els.last().attr.unwrap()
    }
}

/// The attributes that the elements carry, in order, skipping those without.
pub open spec fn present_attrs(els: Seq<ElementView>) -> Seq<Seq<char>>
    decreases els.len(),
{
    if els.len() == 0 {
        Seq::empty()
    } else {
        present_attrs(els.drop_last()) + match els.last().attr {
            Some(a) => seq![a],
            None => Seq::empty(),
        }
    }
}

/// Whether every card links to its listing with an address.
pub open spec fn all_cards_linked(cards: Seq<(Seq<ElementView>, Seq<ElementView>)>) -> bool {
    forall|i: int| 0 <= i < cards.len() ==> all_have_attr(#[trigger] cards[i].1)
}

/// Whether `l` is the fresh listing that the card with these price and
/// link elements describes, found and updated on the days `stamp` gives.
pub open spec fn listing_of_card(
    l: Listing,
    card: (Seq<ElementView>, Seq<ElementView>),
    stamp: (CalendarDate, CalendarDate),
) -> bool {
    &&& l.price@ == price_text(card.0)
    &&& l.url@ == last_attr(card.1)
    &&& l.images@.len() == 0
    &&& has_default_dates(l)
    &&& l.found_at == stamp.0
    &&& l.updated_at == stamp.1
}

/// The host that the links of the search results are relative to.
pub open spec fn buyee_host() -> Seq<char> {
    "https://buyee.jp"@
}

pub open spec fn card_selector() -> Seq<char> {
    "div.itemCard__item"@
}

pub open spec fn price_selector() -> Seq<char> {
    ".g-price__outer > span.g-price"@
}

pub open spec fn link_selector() -> Seq<char> {
    ".itemCard__itemName > a"@
}

pub open spec fn image_selector() -> Seq<char> {
    "ul.slides > li > a"@
}

pub open spec fn link_attr() -> Seq<char> {
    "href"@
}

/// What `scrape` gives for a page of search results: a listing for each
/// card, in order, each found and updated on the day that the clock gave
/// when it was made; or, when a card links without an address, the error
/// that says so.
pub open spec fn scrape_outcome(page: Seq<char>, r: Result<Vec<Listing>, ScrapeError>) -> bool {
    let cards = paired_selection(page, card_selector(), price_selector(), link_selector(), link_attr()).unwrap();
    &&& paired_selection(page, card_selector(), price_selector(), link_selector(), link_attr()) is Some
    &&& if all_cards_linked(cards) {
        &&& r is Ok
        &&& r->Ok_0@.len() == cards.len()
        &&& forall|i: int|
            0 <= i < cards.len() ==> listing_of_card(
                #[trigger] r->Ok_0@[i],
                cards[i],
                (r->Ok_0@[i].found_at, r->Ok_0@[i].updated_at),
            ) && r->Ok_0@[i].found_at.days_from_ce >= epoch_days_from_ce()
                && r->Ok_0@[i].updated_at.days_from_ce >= epoch_days_from_ce()
    } else {
        r == Err::<Vec<Listing>, ScrapeError>(ScrapeError::MissingLink)
    }
}

/// Appends the text of `e` to `out`.
fn append_text(e: &Element, out: &mut String)
    ensures
        final(out)@ == old(out)@ + element_text(e@),
{
    let ghost start = out@;
    let ghost texts = e@.texts;
    let n = e.texts.len();
    let mut j: usize = 0;
    assert(texts.take(0) =~= Seq::<Seq<char>>::empty());
    assert(start + concat_all(texts.take(0)) =~= start);
    while j < n
        invariant
            n == e.texts@.len(),
            texts == e@.texts,
            j <= n,
            out@ == start + concat_all(texts.take(j as int)),
        decreases n - j,
    {
        assert(texts.take(j + 1).drop_last() =~= texts.take(j as int));
        out.append(e.texts[j].as_str());
        assert(out@ =~= start + concat_all(texts.take(j + 1)));
        j = j + 1;
    }
    assert(texts.take(n as int) =~= texts);
}

/// The price text of a card's price elements.
fn price_of(els: &Vec<Element>) -> (r: String)
    ensures
        r@ == price_text(elements_view(els@)),
{
    let ghost parts = elements_view(els@).map_values(|e: ElementView| element_text(e));
    let n = els.len();
    let mut out = String::new();
    let mut i: usize = 0;
    assert(parts.take(0) =~= Seq::<Seq<char>>::empty());
    while i < n
        invariant
            n == els@.len(),
            parts == elements_view(els@).map_values(|e: ElementView| element_text(e)),
            i <= n,
            out@ == concat_all(parts.take(i as int)),
        decreases n - i,
    {
        assert(parts.take(i + 1).drop_last() =~= parts.take(i as int));
        append_text(&els[i], &mut out);
        assert(out@ =~= concat_all(parts.take(i + 1)));
        i = i + 1;
    }
    assert(parts.take(n as int) =~= parts);
    out
}

/// The address that a card's link elements give: that of the last one.
fn link_of(els: &Vec<Element>) -> (r: String)
    requires
        all_have_attr(elements_view(els@)),
    ensures
        r@ == last_attr(elements_view(els@)),
{
    let n = els.len();
    if n == 0 {
        String::new()
    } else {
        let last = &els[n - 1];
        assert(elements_view(els@)[n - 1].attr is Some);
        match &last.attr {
            Some(href) => href.clone(),
            None => String::new(),
        }
    }
}

/// Whether every element of `els` carries the attribute.
fn has_all_attrs(els: &Vec<Element>) -> (r: bool)
    ensures
        r == all_have_attr(elements_view(els@)),
{
    let n = els.len();
    let mut i: usize = 0;
    while i < n
        invariant
            n == els@.len(),
            i <= n,
            forall|k: int| 0 <= k < i ==> (#[trigger] elements_view(els@)[k]).attr is Some,
        decreases n - i,
    {
        if els[i].attr.is_none() {
            assert(elements_view(els@)[i as int].attr is None);
            return false;
        }
        i = i + 1;
    }
    true
}

/// Whether every card links to its listing with an address.
fn cards_linked(cards: &Vec<(Vec<Element>, Vec<Element>)>) -> (r: bool)
    ensures
        r == all_cards_linked(element_pairs_view(cards@)),
{
    let n = cards.len();
    let mut i: usize = 0;
    while i < n
        invariant
            n == cards@.len(),
            i <= n,
            forall|k: int| 0 <= k < i ==> all_have_attr(#[trigger] element_pairs_view(cards@)[k].1),
        decreases n - i,
    {
        if !has_all_attrs(&cards[i].1) {
            assert(!all_have_attr(element_pairs_view(cards@)[i as int].1));
            return false;
        }
        i = i + 1;
    }
    true
}

impl Buyee {
    /// The address of the search results for a saved search: Buyee's search
    /// URL for its query, in the vinyl category when the search asks for it,
    /// with scrape protection.
    pub fn search_url(search: &SavedSearch) -> (r: String)
        ensures
            r@ == search_url_of(CollectorTarget::Buyee, search.query@, search.vinyl_only),
    {
        TargetUrlBuilder::new(CollectorTarget::Buyee).base_url().with_term(search.query.as_str()).vinyl_only(
            search.vinyl_only,
        ).add_scrape_protection().build()
    }

    /// The address of a listing's page, from the link on its result card.
    pub fn listing_url(url: &str) -> (r: String)
        ensures
            r@ == buyee_host() + url@,
    {
        let mut s = String::new();
        s.append("https://buyee.jp");
        s.append(url);
        s
    }

    /// The listings that the result cards describe, one per card, in order,
    /// each found and updated on the days of its card's stamp.
    pub fn listings_from_cards(
        cards: &Vec<(Vec<Element>, Vec<Element>)>,
        stamps: &Vec<(CalendarDate, CalendarDate)>,
    ) -> (r: Vec<Listing>)
        requires
            all_cards_linked(element_pairs_view(cards@)),
            stamps@.len() == cards@.len(),
        ensures
            r@.len() == cards@.len(),
            forall|i: int|
                0 <= i < cards@.len() ==> listing_of_card(
                    #[trigger] r@[i],
                    element_pairs_view(cards@)[i],
                    stamps@[i],
                ),
    {
        let n = cards.len();
        let mut listings: Vec<Listing> = Vec::new();
        let mut i: usize = 0;
        while i < n
            invariant
                n == cards@.len(),
                i <= n,
                all_cards_linked(element_pairs_view(cards@)),
                stamps@.len() == n,
                listings@.len() == i,
                forall|k: int|
                    0 <= k < i ==> listing_of_card(
                        #[trigger] listings@[k],
                        element_pairs_view(cards@)[k],
                        stamps@[k],
                    ),
            decreases n - i,
        {
            let card = &cards[i];
            assert(all_have_attr(element_pairs_view(cards@)[i as int].1));
            let price = price_of(&card.0);
            let url = link_of(&card.1);
            let (found_at, updated_at) = stamps[i];
            listings.push(Listing::new(price, url, found_at, updated_at));
            i = i + 1;
        }
        listings
    }

    /// The image addresses that the anchors give, in order, skipping anchors
    /// without an address.
    pub fn image_urls(anchors: &Vec<Element>) -> (r: Vec<String>)
        ensures
            r@.map_values(|s: String| s@) == present_attrs(elements_view(anchors@)),
    {
        let ghost ev = elements_view(anchors@);
        let n = anchors.len();
        let mut images: Vec<String> = Vec::new();
        let mut i: usize = 0;
        assert(ev.take(0) =~= Seq::<ElementView>::empty());
        while i < n
            invariant
                n == anchors@.len(),
                ev == elements_view(anchors@),
                i <= n,
                images@.map_values(|s: String| s@) == present_attrs(ev.take(i as int)),
            decreases n - i,
        {
            assert(ev.take(i + 1).drop_last() =~= ev.take(i as int));
            let ghost before = images@;
            match &anchors[i].attr {
                Some(href) => {
                    images.push(href.clone());
                    assert(images@.map_values(|s: String| s@) =~= before.map_values(
                        |s: String| s@,
                    ) + seq![href@]);
                },
                None => {},
            }
            assert(images@.map_values(|s: String| s@) =~= present_attrs(ev.take(i + 1)));
            i = i + 1;
        }
        assert(ev.take(n as int) =~= ev);
        images
    }

    /// The listing with the images that its page shows.
    pub fn with_images(listing: Listing, listing_page: &str) -> (r: Listing)
        ensures
            selection(listing_page@, image_selector(), link_attr()) is Some,
            r.images@.map_values(|s: String| s@) == present_attrs(
                selection(listing_page@, image_selector(), link_attr()).unwrap(),
            ),
            r.price == listing.price,
            r.url == listing.url,
            r.start_date == listing.start_date,
            r.end_date == listing.end_date,
            r.found_at == listing.found_at,
            r.updated_at == listing.updated_at,
    {
        let anchors = select_elements(listing_page, "ul.slides > li > a", "href").unwrap();
        let images = Buyee::image_urls(&anchors);
        let mut listing = listing;
        listing.set_images(images);
        listing
    }
}

impl Crawler for Buyee {
    type Output = Listing;

    type ProcessOutput = ();

    fn new() -> Self {
        Buyee
    }

    fn crawler_type(&self) -> (r: CrawlerType)
        ensures
            r == CrawlerType::Buyee,
    {
        CrawlerType::Buyee
    }

    fn scrape(&self, search_page: &str) -> (r: Result<Vec<Listing>, ScrapeError>)
        ensures
            scrape_outcome(search_page@, r),
    {
        // Get the initial item cards (AKA search results) with their price
        // and link elements
        let cards = select_pairs(
            search_page,
            "div.itemCard__item",
            ".g-price__outer > span.g-price",
            ".itemCard__itemName > a",
            "href",
        ).unwrap();
        if !cards_linked(&cards) {
            return Err(ScrapeError::MissingLink);
        }
        // Each listing is found and updated today, by the clock
        let mut stamps: Vec<(CalendarDate, CalendarDate)> = Vec::new();
        let n = cards.len();
        let mut i: usize = 0;
        while i < n
            invariant
                n == cards@.len(),
                i <= n,
                stamps@.len() == i,
                forall|k: int|
                    0 <= k < i ==> (#[trigger] stamps@[k]).0.days_from_ce >= epoch_days_from_ce()
                        && stamps@[k].1.days_from_ce >= epoch_days_from_ce(),
            decreases n - i,
        {
            let found_at = today_utc();
            let updated_at = today_utc();
            stamps.push((found_at, updated_at));
            i = i + 1;
        }
        let listings = Buyee::listings_from_cards(&cards, &stamps);
        assert forall|i: int| 0 <= i < n implies listing_of_card(
            #[trigger] listings@[i],
            element_pairs_view(cards@)[i],
            (listings@[i].found_at, listings@[i].updated_at),
        ) && listings@[i].found_at.days_from_ce >= epoch_days_from_ce()
            && listings@[i].updated_at.days_from_ce >= epoch_days_from_ce() by {
            assert(listing_of_card(listings@[i], element_pairs_view(cards@)[i], stamps@[i]));
        }
        Ok(listings)
    }

    fn process(&self, listing: Listing, listing_page: &str) -> (r: Result<(), ScrapeError>)
        ensures
            r is Ok,
    {
        // First scrape all of the image urls from the listing page
        let listing = Buyee::with_images(listing, listing_page);
        // Then get the listing details (except for images)
        Ok(())
    }
}

/// Joining pieces one after the other, from the first to the last, is
/// flattening them.
pub proof fn lemma_concat_all_is_flatten(parts: Seq<Seq<char>>)
    ensures
        concat_all(parts) == parts.flatten(),
    decreases parts.len(),
{
    if parts.len() > 0 {
        lemma_concat_all_is_flatten(parts.drop_last());
        parts.drop_last().lemma_flatten_and_flatten_alt_are_equivalent();
    }
    parts.lemma_flatten_and_flatten_alt_are_equivalent();
}

/// The price of a card is all the text under its price elements, in
/// document order: the texts of each element, element after element.
pub proof fn lemma_price_is_all_price_text(els: Seq<ElementView>)
    ensures
        price_text(els) == els.map_values(|e: ElementView| e.texts.flatten()).flatten(),
{
    let joined = els.map_values(|e: ElementView| element_text(e));
    let flat = els.map_values(|e: ElementView| e.texts.flatten());
    assert forall|k: int| 0 <= k < els.len() implies joined[k] == flat[k] by {
        lemma_concat_all_is_flatten(els[k].texts);
    }
    assert(joined =~= flat);
    lemma_concat_all_is_flatten(flat);
}

/// A scrape reads every card that the page has, in order: when every link
/// on the page has an address it succeeds with exactly one listing per card
/// selected by `div.itemCard__item`, the i-th of them priced with all the
/// text under the i-th card's price elements and linked to the address of
/// its last link element; when some link has no address it fails with
/// `MissingLink`.
pub proof fn lemma_scrape_reads_every_card(page: Seq<char>, r: Result<Vec<Listing>, ScrapeError>)
    requires
        scrape_outcome(page, r),
    ensures
        paired_selection(
            page,
            "div.itemCard__item"@,
            ".g-price__outer > span.g-price"@,
            ".itemCard__itemName > a"@,
            "href"@,
        ) is Some,
        ({
            let cards = paired_selection(
                page,
                "div.itemCard__item"@,
                ".g-price__outer > span.g-price"@,
                ".itemCard__itemName > a"@,
                "href"@,
            ).unwrap();
            &&& r is Ok <==> (forall|i: int, j: int|
                0 <= i < cards.len() && 0 <= j < cards[i].1.len() ==> (#[trigger] cards[i].1[j]).attr is Some)
            &&& r is Err ==> r->Err_0 == ScrapeError::MissingLink
            &&& r is Ok ==> r->Ok_0@.len() == cards.len()
            &&& r is Ok ==> forall|i: int|
                0 <= i < cards.len() ==> {
                    &&& (#[trigger] r->Ok_0@[i]).price@ == cards[i].0.map_values(
                        |e: ElementView| e.texts.flatten(),
                    ).flatten()
                    &&& r->Ok_0@[i].url@ == if cards[i].1.len() == 0 {
                        Seq::<char>::empty()
                    } else {
                        cards[i].1[cards[i].1.len() - 1].attr.unwrap()
                    }
                    &&& r->Ok_0@[i].images@.len() == 0
                }
        }),
{
    let cards = paired_selection(page, card_selector(), price_selector(), link_selector(), link_attr()).unwrap();
    if all_cards_linked(cards) {
        assert forall|i: int, j: int|
            0 <= i < cards.len() && 0 <= j < cards[i].1.len() implies (#[trigger] cards[i].1[j]).attr is Some by {
            assert(all_have_attr(cards[i].1));
        }
        assert forall|i: int| 0 <= i < cards.len() implies (#[trigger] r->Ok_0@[i]).price@
            == cards[i].0.map_values(|e: ElementView| e.texts.flatten()).flatten() by {
            assert(listing_of_card(r->Ok_0@[i], cards[i], (r->Ok_0@[i].found_at, r->Ok_0@[i].updated_at)));
            lemma_price_is_all_price_text(cards[i].0);
        }
    } else {
        let i = choose|i: int| 0 <= i < cards.len() && !all_have_attr(#[trigger] cards[i].1);
        let j = choose|j: int| 0 <= j < cards[i].1.len() && !((#[trigger] cards[i].1[j]).attr is Some);
        assert(!(cards[i].1[j].attr is Some));
    }
}

/// Reading one more anchor after the others adds its address at the end of
/// the images when it has one, and adds nothing when it has none.
pub proof fn lemma_present_attrs_push(els: Seq<ElementView>, e: ElementView)
    ensures
        present_attrs(els.push(e)) == present_attrs(els) + match e.attr {
            Some(a) => seq![a],
            None => Seq::<Seq<char>>::empty(),
        },
{
    assert(els.push(e).drop_last() =~= els);
}

/// The images are the addresses of all anchors that have one, in the
/// anchors' order, and there are as many as there are such anchors.
pub proof fn lemma_images_are_every_present_href(els: Seq<ElementView>)
    ensures
        present_attrs(els) == els.filter(|e: ElementView| e.attr is Some).map_values(
            |e: ElementView| e.attr.unwrap(),
        ),
        present_attrs(els).len() == els.filter(|e: ElementView| e.attr is Some).len(),
    decreases els.len(),
{
    let has = |e: ElementView| e.attr is Some;
    let addr = |e: ElementView| e.attr.unwrap();
    if els.len() == 0 {
        reveal_with_fuel(Seq::filter, 1);
        assert(present_attrs(els) =~= els.filter(has).map_values(addr));
    } else {
        let front = els.drop_last();
        lemma_images_are_every_present_href(front);
        assert(els =~= front.push(els.last()));
        front.lemma_filter_push(els.last(), has);
        lemma_present_attrs_push(front, els.last());
        if els.last().attr is Some {
            assert(front.filter(has).push(els.last()).map_values(addr) =~= front.filter(has).map_values(
                addr,
            ) + seq![els.last().attr.unwrap()]);
        }
        assert(present_attrs(els) =~= els.filter(has).map_values(addr));
    }
}

} // verus!
