//! What every crawler offers.
use vstd::prelude::*;

verus! {

/// The marketplace that a crawler handles.
#[derive(Debug, Clone, Copy, PartialEq, Eq, Structural)]
pub enum CrawlerType {
    Buyee,
}

/// Why a crawler could not read a page.
#[derive(Debug, Clone, Copy, PartialEq, Eq, Structural)]
pub enum ScrapeError {
    /// A result card links to its listing without an address.
    MissingLink,
}

/// Pages that the caller fetched go in; the crawler reads them. `scrape`
/// reads a page of search results, `process` reads the page of one of the
/// listings found there.
pub trait Crawler: Sized {
    type Output;
    type ProcessOutput;

    fn new() -> Self;

    fn crawler_type(&self) -> CrawlerType;

    fn scrape(&self, search_page: &str) -> Result<Vec<Self::Output>, ScrapeError>;

    fn process(&self, listing: Self::Output, listing_page: &str) -> Result<
        Self::ProcessOutput,
        ScrapeError,
    >;
}

} // verus!
