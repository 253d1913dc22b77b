//! Search URLs for the collection targets, and the plan of a collection run.
use vstd::prelude::*;
use crate::api::{Api, SavedSearch};
use crate::crawlers::buyee::Listing;

verus! {

/// A marketplace that the collector scrapes.
#[derive(Clone, Copy, Debug, PartialEq, Eq, Structural)]
pub enum CollectorTarget {
    Buyee,
}

/// The search URL of `target` without any filter; the search term follows it.
pub open spec fn target_base_url(target: CollectorTarget) -> Seq<char> {
    match target {
        CollectorTarget::Buyee => "https://buyee.jp/item/search/query/"@,
    }
}

/// The path that restricts a Buyee search to the vinyl category.
pub open spec fn vinyl_category_path() -> Seq<char> {
    "/category/22260"@
}

/// The query that switches on Buyee's scrape protection.
pub open spec fn scrape_protection_query() -> Seq<char> {
    "?suggest=1"@
}

impl CollectorTarget {
    /// Get the base URL (no filters) for the target
    pub fn base_url(&self) -> (r: &'static str)
        ensures
            r@ == target_base_url(*self),
    {
        match self {
            // https://buyee.jp/item/search/query/{{term}}<query-params-here>
            CollectorTarget::Buyee => "https://buyee.jp/item/search/query/",
        }
    }
}

/// What a `TargetUrlBuilder` holds: its target and the URL built so far.
pub struct UrlDraft {
    pub target: CollectorTarget,
    pub url: Seq<char>,
}

/// Builds the search URL of a target step by step.
pub struct TargetUrlBuilder {
    target: CollectorTarget,
    url: String,
}

impl View for TargetUrlBuilder {
    type V = UrlDraft;

    closed spec fn view(&self) -> UrlDraft {
        UrlDraft { target: self.target, url: self.url@ }
    }
}

/// The draft after `base_url`.
pub open spec fn draft_base(d: UrlDraft) -> UrlDraft {
    UrlDraft { target: d.target, url: target_base_url(d.target) }
}

/// The draft after `with_term(query)`.
pub open spec fn draft_term(d: UrlDraft, query: Seq<char>) -> UrlDraft {
    match d.target {
        CollectorTarget::Buyee => UrlDraft { target: d.target, url: d.url + query },
    }
}

/// The draft after `vinyl_only(vinyl)`.
pub open spec fn draft_vinyl(d: UrlDraft, vinyl: bool) -> UrlDraft {
    match d.target {
        CollectorTarget::Buyee => if vinyl {
            UrlDraft { target: d.target, url: d.url + vinyl_category_path() }
        } else {
            d
        },
    }
}

/// The draft after `add_scrape_protection`.
pub open spec fn draft_protected(d: UrlDraft) -> UrlDraft {
    match d.target {
        CollectorTarget::Buyee => UrlDraft { target: d.target, url: d.url + scrape_protection_query() },
    }
}

/// The URL that `new(target).base_url().with_term(query).vinyl_only(vinyl)
/// .add_scrape_protection().build()` gives.
pub open spec fn search_url_of(target: CollectorTarget, query: Seq<char>, vinyl: bool) -> Seq<char> {
    draft_protected(
        draft_vinyl(draft_term(draft_base(UrlDraft { target, url: Seq::empty() }), query), vinyl),
    ).url
}

impl TargetUrlBuilder {
    pub fn new(target_platform: CollectorTarget) -> (r: TargetUrlBuilder)
        ensures
            r@ == (UrlDraft { target: target_platform, url: Seq::empty() }),
    {
        TargetUrlBuilder {
            target: target_platform,
            url: String::new(),
        }
    }

    /// Initialize the base_url
    pub fn base_url(self) -> (r: TargetUrlBuilder)
        ensures
            r@ == draft_base(self@),
    {
        let mut url = String::new();
        url.append(self.target.base_url());
        TargetUrlBuilder { target: self.target, url }
    }

    /// Set the term to search for
    pub fn with_term(self, query: &str) -> (r: TargetUrlBuilder)
        ensures
            r@ == draft_term(self@, query@),
    {
        let mut url = self.url;
        match self.target {
            CollectorTarget::Buyee => url.append(query),
        }
        TargetUrlBuilder { target: self.target, url }
    }

    /// Set category to vinyl only
    pub fn vinyl_only(self, vinyl_only: bool) -> (r: TargetUrlBuilder)
        ensures
            r@ == draft_vinyl(self@, vinyl_only),
    {
        let mut url = self.url;
        match self.target {
            CollectorTarget::Buyee => {
                // Buyee only needs an additional category if the vinyl flag is chosen
                if vinyl_only {
                    url.append("/category/22260");
                }
            },
        }
        TargetUrlBuilder { target: self.target, url }
    }

    /// Add some anti-scraper-detection measures to url (optional)
    pub fn add_scrape_protection(self) -> (r: TargetUrlBuilder)
        ensures
            r@ == draft_protected(self@),
    {
        let mut url = self.url;
        match self.target {
            CollectorTarget::Buyee => url.append("?suggest=1"),
        }
        TargetUrlBuilder { target: self.target, url }
    }

    pub fn build(self) -> (r: String)
        ensures
            r@ == self@.url,
    {
        self.url
    }
}

/// No step of the builder changes its target.
pub proof fn lemma_builder_steps_keep_target(d: UrlDraft, query: Seq<char>, vinyl: bool)
    ensures
        draft_base(d).target == d.target,
        draft_term(d, query).target == d.target,
        draft_vinyl(d, vinyl).target == d.target,
        draft_protected(d).target == d.target,
{
}

/// Asking for vinyl only with `false` leaves the builder as it was.
pub proof fn lemma_vinyl_false_keeps_draft(d: UrlDraft)
    ensures
        draft_vinyl(d, false) == d,
{
}

/// Each step after `base_url` only appends: the URL built before it is a
/// prefix of the URL after it.
pub proof fn lemma_builder_steps_append(d: UrlDraft, query: Seq<char>, vinyl: bool)
    ensures
        draft_term(d, query).url.take(d.url.len() as int) == d.url,
        draft_vinyl(d, vinyl).url.take(d.url.len() as int) == d.url,
        draft_protected(d).url.take(d.url.len() as int) == d.url,
{
    assert((d.url + query).take(d.url.len() as int) =~= d.url);
    assert((d.url + vinyl_category_path()).take(d.url.len() as int) =~= d.url);
    assert((d.url + scrape_protection_query()).take(d.url.len() as int) =~= d.url);
}

/// A full search URL is the target's base URL, then the search term, then
/// the vinyl category path when asked for, then the scrape-protection query.
pub proof fn lemma_search_url_layout(target: CollectorTarget, query: Seq<char>, vinyl: bool)
    ensures
        search_url_of(target, query, vinyl) == target_base_url(target) + query + (if vinyl {
            vinyl_category_path()
        } else {
            Seq::<char>::empty()
        }) + scrape_protection_query(),
{
    let base = target_base_url(target);
    if !vinyl {
        assert(base + query + Seq::<char>::empty() =~= base + query);
    }
}


/// The struct for managing the actual scraping of websites
pub struct Collector {
    targets: [CollectorTarget; 1],
    api: Api,
}

impl Collector {
    /// A collector over all targets that reads the saved searches from `api`.
    pub fn with_api(api: Api) -> (r: Collector)
        ensures
            r.spec_targets() == seq![CollectorTarget::Buyee],
            r.spec_api() == api,
    {
        let r = Collector { targets: [CollectorTarget::Buyee], api };
        assert(r.targets@ =~= seq![CollectorTarget::Buyee]);
        r
    }

    pub closed spec fn spec_targets(&self) -> Seq<CollectorTarget> {
        self.targets@
    }

    pub closed spec fn spec_api(&self) -> Api {
        self.api
    }

    /// The API that the saved searches come from.
    pub fn api(&self) -> (r: &Api)
        ensures
            *r == self.spec_api(),
    {
        &self.api
    }

    /// A run over all of the collector's targets, not started yet.
    pub fn start_run(&self) -> (r: CollectRun)
        ensures
            r.wf(),
            r@ == fresh_run(self.spec_targets()),
    {
        let mut targets: Vec<CollectorTarget> = Vec::new();
        let mut i: usize = 0;
        while i < 1
            invariant
                i <= 1,
                targets@ == self.targets@.take(i as int),
            decreases 1 - i,
        {
            assert(self.targets@.take(i + 1) =~= self.targets@.take(i as int).push(self.targets@[i as int]));
            targets.push(self.targets[i]);
            i = i + 1;
        }
        assert(self.targets@.take(1) =~= self.targets@);
        CollectRun { targets, next_target: 0, pending: Vec::new(), phase: CollectPhase::Ready }
    }
}

/// Where a collection run stands.
#[derive(Debug, Clone, Copy, PartialEq, Eq, Structural)]
pub enum CollectPhase {
    /// Not started.
    Ready,
    /// Waiting for the saved searches of the current target.
    AwaitingSearches,
    /// Waiting for the listings of the search handed out last.
    AwaitingListings,
    /// Every target is done.
    Done,
    /// A fetch or a scrape failed; the run stops.
    Failed,
}

/// What happened since the last step of a run.
pub enum CollectEvent {
    /// The caller wants the run to begin.
    Start,
    /// The API handed out these saved searches.
    SearchesFetched(Vec<SavedSearch>),
    /// The saved searches could not be had.
    SearchesFailed,
    /// Scraping the search handed out last found these listings.
    ListingsScraped(Vec<Listing>),
    /// Scraping the search handed out last failed.
    ScrapeFailed,
}

/// An event, with its lists as sequences.
pub enum CollectEventView {
    Start,
    SearchesFetched(Seq<SavedSearch>),
    SearchesFailed,
    ListingsScraped(Seq<Listing>),
    ScrapeFailed,
}

impl View for CollectEvent {
    type V = CollectEventView;

    open spec fn view(&self) -> CollectEventView {
        match self {
            CollectEvent::Start => CollectEventView::Start,
            CollectEvent::SearchesFetched(s) => CollectEventView::SearchesFetched(s@),
            CollectEvent::SearchesFailed => CollectEventView::SearchesFailed,
            CollectEvent::ListingsScraped(l) => CollectEventView::ListingsScraped(l@),
            CollectEvent::ScrapeFailed => CollectEventView::ScrapeFailed,
        }
    }
}

/// What the caller does next.
pub enum CollectAction {
    /// Fetch the saved searches for this target.
    FetchSearches(CollectorTarget),
    /// Scrape this target for this saved search.
    Scrape(CollectorTarget, SavedSearch),
    /// The run is over and succeeded.
    Finish,
    /// The run is over: the failure just reported ends it.
    Abort,
    /// The event does not fit where the run stands; nothing to do.
    Wait,
}

/// A step's outcome: the listings to hand to processing now, and what to do
/// next.
pub struct CollectStep {
    pub process: Vec<Listing>,
    pub next: CollectAction,
}

pub struct CollectStepView {
    pub process: Seq<Listing>,
    pub next: CollectAction,
}

impl View for CollectStep {
    type V = CollectStepView;

    open spec fn view(&self) -> CollectStepView {
        CollectStepView { process: self.process@, next: self.next }
    }
}

/// A run of the collector over its targets, one step per event.
pub struct CollectRun {
    targets: Vec<CollectorTarget>,
    next_target: usize,
    pending: Vec<SavedSearch>,
    phase: CollectPhase,
}

/// Where a run stands: its targets, how many of them it has begun, the saved
/// searches of the current target that it has not handed out yet, and its
/// phase.
pub struct CollectRunView {
    pub targets: Seq<CollectorTarget>,
    pub next_target: nat,
    pub pending: Seq<SavedSearch>,
    pub phase: CollectPhase,
}

impl View for CollectRun {
    type V = CollectRunView;

    closed spec fn view(&self) -> CollectRunView {
        CollectRunView {
            targets: self.targets@,
            next_target: self.next_target as nat,
            pending: self.pending@,
            phase: self.phase,
        }
    }
}

/// A run over `targets` that has not started.
pub open spec fn fresh_run(targets: Seq<CollectorTarget>) -> CollectRunView {
    CollectRunView { targets, next_target: 0, pending: Seq::empty(), phase: CollectPhase::Ready }
}

/// A run is well formed when it has begun no more targets than it has, and
/// while it waits it has begun one.
pub open spec fn run_wf(v: CollectRunView) -> bool {
    &&& v.next_target <= v.targets.len()
    &&& (v.phase == CollectPhase::AwaitingSearches || v.phase == CollectPhase::AwaitingListings)
        ==> v.next_target >= 1
}

/// Begin the next target, or finish when none is left.
pub open spec fn begin_target(v: CollectRunView) -> (CollectRunView, CollectAction) {
    if v.next_target < v.targets.len() {
        (
            CollectRunView {
                next_target: v.next_target + 1,
                phase: CollectPhase::AwaitingSearches,
                ..v
            },
            CollectAction::FetchSearches(v.targets[v.next_target as int]),
        )
    } else {
        (CollectRunView { phase: CollectPhase::Done, ..v }, CollectAction::Finish)
    }
}

/// Hand out the next pending search of the current target, or go on to the
/// next target when none is left.
pub open spec fn next_search(v: CollectRunView) -> (CollectRunView, CollectAction) {
    if v.pending.len() > 0 {
        (
            CollectRunView {
                pending: v.pending.drop_first(),
                phase: CollectPhase::AwaitingListings,
                ..v
            },
            CollectAction::Scrape(v.targets[v.next_target - 1], v.pending[0]),
        )
    } else {
        begin_target(v)
    }
}

/// One step of a run.
pub open spec fn collect_step(v: CollectRunView, e: CollectEventView) -> (
    CollectRunView,
    CollectStepView,
) {
    match e {
        CollectEventView::Start => if v.phase == CollectPhase::Ready {
            let (w, a) = begin_target(v);
            (w, CollectStepView { process: Seq::empty(), next: a })
        } else {
            (v, CollectStepView { process: Seq::empty(), next: CollectAction::Wait })
        },
        CollectEventView::SearchesFetched(searches) => if v.phase == CollectPhase::AwaitingSearches {
            let (w, a) = next_search(CollectRunView { pending: searches, ..v });
            (w, CollectStepView { process: Seq::empty(), next: a })
        } else {
            (v, CollectStepView { process: Seq::empty(), next: CollectAction::Wait })
        },
        CollectEventView::SearchesFailed => if v.phase == CollectPhase::AwaitingSearches {
            (
                CollectRunView { phase: CollectPhase::Failed, ..v },
                CollectStepView { process: Seq::empty(), next: CollectAction::Abort },
            )
        } else {
            (v, CollectStepView { process: Seq::empty(), next: CollectAction::Wait })
        },
        CollectEventView::ListingsScraped(listings) => if v.phase == CollectPhase::AwaitingListings {
            let (w, a) = next_search(v);
            (w, CollectStepView { process: listings, next: a })
        } else {
            (v, CollectStepView { process: Seq::empty(), next: CollectAction::Wait })
        },
        CollectEventView::ScrapeFailed => if v.phase == CollectPhase::AwaitingListings {
            (
                CollectRunView { phase: CollectPhase::Failed, ..v },
                CollectStepView { process: Seq::empty(), next: CollectAction::Abort },
            )
        } else {
            (v, CollectStepView { process: Seq::empty(), next: CollectAction::Wait })
        },
    }
}

/// The run after the events `es`, one step each, and the steps it took.
pub open spec fn run_events(v: CollectRunView, es: Seq<CollectEventView>) -> (
    CollectRunView,
    Seq<CollectStepView>,
)
    decreases es.len(),
{
    if es.len() == 0 {
        (v, Seq::empty())
    } else {
        let (w, steps) = run_events(v, es.drop_last());
        let (x, st) = collect_step(w, es.last());
        (x, steps.push(st))
    }
}

/// The events of a run in which nothing fails: it starts, the API hands out
/// `searches`, and scraping the k-th of them finds `found[k]`.
pub open spec fn untroubled_events(searches: Seq<SavedSearch>, found: Seq<Seq<Listing>>) -> Seq<
    CollectEventView,
> {
    seq![CollectEventView::Start, CollectEventView::SearchesFetched(searches)] + found.map_values(
        |ls: Seq<Listing>| CollectEventView::ListingsScraped(ls),
    )
}

/// Where a one-target run stands after the first `k` scrapes of an
/// untroubled run, and the steps it has taken.
pub open spec fn untroubled_after(
    t: CollectorTarget,
    searches: Seq<SavedSearch>,
    found: Seq<Seq<Listing>>,
    k: int,
    state: CollectRunView,
    steps: Seq<CollectStepView>,
) -> bool {
    let n = searches.len() as int;
    &&& state.targets == seq![t]
    &&& state.next_target == 1
    &&& if k < n {
        &&& state.phase == CollectPhase::AwaitingListings
        &&& state.pending == searches.skip(k + 1)
    } else {
        &&& state.phase == CollectPhase::Done
        &&& state.pending == Seq::<SavedSearch>::empty()
    }
    &&& steps.len() == k + 2
    &&& steps[0] == (CollectStepView { process: Seq::empty(), next: CollectAction::FetchSearches(t) })
    &&& steps[1].process == Seq::<Listing>::empty()
    &&& forall|j: int| 0 <= j <= k && j < n ==> (#[trigger] steps[j + 1]).next == CollectAction::Scrape(t, searches[j])
    &&& forall|j: int| 0 <= j < k ==> (#[trigger] steps[j + 2]).process == found[j]
    &&& k == n ==> steps[n + 1].next == CollectAction::Finish
}

proof fn lemma_untroubled_prefix(
    t: CollectorTarget,
    searches: Seq<SavedSearch>,
    found: Seq<Seq<Listing>>,
    k: int,
)
    requires
        found.len() == searches.len(),
        0 <= k <= searches.len(),
    ensures
        ({
            let (state, steps) = run_events(
                fresh_run(seq![t]),
                untroubled_events(searches, found).take(k + 2),
            );
            untroubled_after(t, searches, found, k, state, steps)
        }),
    decreases k,
{
    let es = untroubled_events(searches, found);
    let fresh = fresh_run(seq![t]);
    let n = searches.len() as int;
    if k == 0 {
        let e2 = es.take(2);
        // the first step starts the run, the second hands out the searches
        let e1 = e2.drop_last();
        assert(run_events(fresh, e1.drop_last()) == (fresh, Seq::<CollectStepView>::empty()));
        let (started, first_steps) = run_events(fresh, e1);
        let (state, steps) = run_events(fresh, e2);
        if k == n {
            assert(state.pending == Seq::<SavedSearch>::empty());
        }
        assert(untroubled_after(t, searches, found, k, state, steps));
    } else {
        lemma_untroubled_prefix(t, searches, found, k - 1);
        let prev = es.take(k + 1);
        let cur = es.take(k + 2);
        assert(cur.drop_last() =~= prev);
        let (s0, steps0) = run_events(fresh, prev);
        let (state, steps) = run_events(fresh, cur);
        if k < n {
            assert(s0.pending.drop_first() =~= searches.skip(k + 1));
        } else {
            assert(searches.skip(k) =~= Seq::<SavedSearch>::empty());
        }
        // the steps taken before stay as they were
        assert forall|j: int| 0 <= j <= k && j < n implies (#[trigger] steps[j + 1]).next
            == CollectAction::Scrape(t, searches[j]) by {}
        assert forall|j: int| 0 <= j < k implies (#[trigger] steps[j + 2]).process == found[j] by {}
        assert(untroubled_after(t, searches, found, k, state, steps));
    }
}

/// A run of a one-target collector in which nothing fails fetches the saved
/// searches of its target first, then scrapes each saved search exactly
/// once, in the order the API handed them out, hands the listings that each
/// scrape found to processing at the next step, and finishes after the last
/// one.
pub proof fn lemma_untroubled_run(t: CollectorTarget, searches: Seq<SavedSearch>, found: Seq<Seq<Listing>>)
    requires
        found.len() == searches.len(),
    ensures
        ({
            let n = searches.len() as int;
            let (state, steps) = run_events(fresh_run(seq![t]), untroubled_events(searches, found));
            &&& state.phase == CollectPhase::Done
            &&& steps.len() == n + 2
            &&& steps[0] == (CollectStepView { process: Seq::empty(), next: CollectAction::FetchSearches(t) })
            &&& steps[1].process == Seq::<Listing>::empty()
            &&& forall|j: int| 0 <= j < n ==> (#[trigger] steps[j + 1]).next == CollectAction::Scrape(t, searches[j])
            &&& forall|j: int| 0 <= j < n ==> (#[trigger] steps[j + 2]).process == found[j]
            &&& steps[n + 1].next == CollectAction::Finish
        }),
{
    let n = searches.len() as int;
    lemma_untroubled_prefix(t, searches, found, n);
    assert(untroubled_events(searches, found).take(n + 2) =~= untroubled_events(searches, found));
}

/// A run that is over, done or failed, stays as it is and asks for nothing
/// whatever happens.
pub proof fn lemma_finished_run_stays(v: CollectRunView, e: CollectEventView)
    requires
        v.phase == CollectPhase::Done || v.phase == CollectPhase::Failed,
    ensures
        collect_step(v, e) == (v, CollectStepView { process: Seq::empty(), next: CollectAction::Wait }),
{
}

/// A failure while the run waits for it ends the run: the step says to
/// abort, and the run is failed from then on.
pub proof fn lemma_failure_aborts(v: CollectRunView, e: CollectEventView)
    requires
        (v.phase == CollectPhase::AwaitingSearches && e == CollectEventView::SearchesFailed) || (
        v.phase == CollectPhase::AwaitingListings && e == CollectEventView::ScrapeFailed),
    ensures
        collect_step(v, e).0.phase == CollectPhase::Failed,
        collect_step(v, e).1.next == CollectAction::Abort,
        collect_step(v, e).1.process == Seq::<Listing>::empty(),
{
}

/// Every step keeps a run well formed.
pub proof fn lemma_step_keeps_wf(v: CollectRunView, e: CollectEventView)
    requires
        run_wf(v),
    ensures
        run_wf(collect_step(v, e).0),
{
}

impl CollectRun {
    pub closed spec fn wf(&self) -> bool {
        run_wf(self@)
    }

    /// Where the run stands.
    pub fn phase(&self) -> (r: CollectPhase)
        ensures
            r == self@.phase,
    {
        self.phase
    }

    fn begin_target(&mut self) -> (a: CollectAction)
        requires
            old(self).wf(),
        ensures
            final(self).wf(),
            (final(self)@, a) == begin_target(old(self)@),
    {
        if self.next_target < self.targets.len() {
            let target = self.targets[self.next_target];
            self.next_target = self.next_target + 1;
            self.phase = CollectPhase::AwaitingSearches;
            CollectAction::FetchSearches(target)
        } else {
            self.phase = CollectPhase::Done;
            CollectAction::Finish
        }
    }

    fn next_search(&mut self) -> (a: CollectAction)
        requires
            old(self).wf(),
            old(self)@.next_target >= 1,
        ensures
            final(self).wf(),
            (final(self)@, a) == next_search(old(self)@),
    {
        if self.pending.len() > 0 {
            let search = self.pending.remove(0);
            assert(old(self)@.pending.remove(0) =~= old(self)@.pending.drop_first());
            self.phase = CollectPhase::AwaitingListings;
            CollectAction::Scrape(self.targets[self.next_target - 1], search)
        } else {
            self.begin_target()
        }
    }

    /// Takes the run one step further on `event`.
    pub fn step(&mut self, event: CollectEvent) -> (r: CollectStep)
        requires
            old(self).wf(),
        ensures
            final(self).wf(),
            (final(self)@, r@) == collect_step(old(self)@, event@),
    {
        match event {
            CollectEvent::Start => if self.phase == CollectPhase::Ready {
                let a = self.begin_target();
                CollectStep { process: Vec::new(), next: a }
            } else {
                CollectStep { process: Vec::new(), next: CollectAction::Wait }
            },
            CollectEvent::SearchesFetched(searches) => if self.phase == CollectPhase::AwaitingSearches {
                self.pending = searches;
                let a = self.next_search();
                CollectStep { process: Vec::new(), next: a }
            } else {
                CollectStep { process: Vec::new(), next: CollectAction::Wait }
            },
            CollectEvent::SearchesFailed => if self.phase == CollectPhase::AwaitingSearches {
                self.phase = CollectPhase::Failed;
                CollectStep { process: Vec::new(), next: CollectAction::Abort }
            } else {
                CollectStep { process: Vec::new(), next: CollectAction::Wait }
            },
            CollectEvent::ListingsScraped(listings) => if self.phase == CollectPhase::AwaitingListings {
                let a = self.next_search();
                CollectStep { process: listings, next: a }
            } else {
                CollectStep { process: Vec::new(), next: CollectAction::Wait }
            },
            CollectEvent::ScrapeFailed => if self.phase == CollectPhase::AwaitingListings {
                self.phase = CollectPhase::Failed;
                CollectStep { process: Vec::new(), next: CollectAction::Abort }
            } else {
                CollectStep { process: Vec::new(), next: CollectAction::Wait }
            },
        }
    }
}

} // verus!
