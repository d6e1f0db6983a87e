use crate::cache::{refresh_due, Cache, CacheView};
use crate::filter::{directory_view, filtered_urls, get_filtered_urls, Filter, Instance};
use crate::rewrite::{absolute_page, convert_html_urls_to_absolute};
use crate::search_helpers::get_random_url_from_cache;
use vstd::prelude::*;
use vstd::string::StringExecFns;

verus! {

/// Why a search request failed.
#[derive(Clone, Debug)]
pub enum SearchError {
    /// The directory could not be fetched or read.
    DirectoryUnavailable { cause: String },
    /// No instance passed the filter.
    NoEligibleInstance,
    /// The chosen instance did not answer.
    InstanceUnreachable { cause: String },
}

pub open spec fn error_message(e: SearchError) -> Seq<char> {
    match e {
        SearchError::DirectoryUnavailable { cause } => "directory unavailable: "@ + cause@,
        SearchError::NoEligibleInstance => "no eligible instance"@,
        SearchError::InstanceUnreachable { cause } => "instance unreachable: "@ + cause@,
    }
}

impl SearchError {
    /// The plain-text description sent back to the client.
    pub fn message(&self) -> (r: String)
        ensures
            r@ == error_message(*self),
    {
        match self {
            SearchError::DirectoryUnavailable { cause } => {
                let mut m = String::from_str("directory unavailable: ");
                m.append(cause.as_str());
                m
            },
            SearchError::NoEligibleInstance => String::from_str("no eligible instance"),
            SearchError::InstanceUnreachable { cause } => {
                let mut m = String::from_str("instance unreachable: ");
                m.append(cause.as_str());
                m
            },
        }
    }
}

/// The parameters of a search request.
#[derive(Clone, Debug)]
pub struct Query {
    pub q: Option<String>,
}

pub open spec fn query_text(q: Query) -> Seq<char> {
    match q.q {
        Some(s) => s@,
        None => Seq::empty(),
    }
}

impl Query {
    /// The search terms, empty when none were given.
    pub fn text(&self) -> (r: String)
        ensures
            r@ == query_text(*self),
    {
        match &self.q {
            Some(s) => s.clone(),
            None => String::new(),
        }
    }
}

/// Where one search request stands.
#[derive(Debug)]
pub enum SearchStage {
    Start,
    AwaitingDirectory,
    AwaitingPage { url: String },
    Finished,
}

/// What the outside world reports back to a search request.
pub enum SearchEvent {
    /// The request has arrived.
    Begin,
    /// The directory fetch ended: its entries, or the cause of the failure.
    DirectoryFetched { directory: Result<Vec<Instance>, String> },
    /// The result page fetch ended: the page, or the cause of the failure.
    PageFetched { page: Result<String, String> },
}

/// What a search request asks the outside world to do next.
#[derive(Debug)]
pub enum SearchAction {
    FetchDirectory,
    FetchPage { url: String, query: String },
    Respond { body: String },
    Fail { error: SearchError },
}

/// The decisions of one search request: refresh the cache when due, choose an
/// instance, and rewrite the page it returns. The caller performs each action
/// and hands back what came of it.
#[derive(Debug)]
pub struct SearchSession {
    pub stage: SearchStage,
    pub query: String,
}

pub open spec fn accepts(stage: SearchStage, event: SearchEvent) -> bool {
    match (stage, event) {
        (SearchStage::Start, SearchEvent::Begin) => true,
        (SearchStage::AwaitingDirectory, SearchEvent::DirectoryFetched { .. }) => true,
        (SearchStage::AwaitingPage { .. }, SearchEvent::PageFetched { .. }) => true,
        _ => false,
    }
}

/// The outcome of choosing among `instances`: a fetch of one of them, or
/// the failure that none is eligible.
pub open spec fn selected(
    instances: Seq<Seq<char>>,
    query: String,
    stage: SearchStage,
    action: SearchAction,
) -> bool {
    if instances.len() == 0 {
        &&& stage is Finished
        &&& action == (SearchAction::Fail { error: SearchError::NoEligibleInstance })
    } else {
        &&& stage matches SearchStage::AwaitingPage { url }
        &&& instances.contains(url@)
        &&& action == (SearchAction::FetchPage { url, query })
    }
}

pub open spec fn refreshed(c: CacheView, d: Seq<Instance>, f: Filter, now: u64) -> CacheView {
    CacheView {
        instances: filtered_urls(directory_view(d), f@),
        creation_time: now,
        ttl: c.ttl,
    }
}

/// Refreshing from an empty directory leaves the cache without candidates,
/// so a refresh is due again at any later time.
pub proof fn lemma_empty_directory_stays_due(
    c: CacheView,
    d: Seq<Instance>,
    f: Filter,
    now: u64,
    later: u64,
)
    requires
        d.len() == 0,
    ensures
        refreshed(c, d, f, now).instances.len() == 0,
        refresh_due(refreshed(c, d, f, now), later),
{
    assert(directory_view(d) =~= Seq::<crate::filter::InstanceView>::empty());
}

impl SearchSession {
    pub fn new(query: &Query) -> (r: SearchSession)
        ensures
            r.stage is Start,
            r.query@ == query_text(*query),
    {
        SearchSession { stage: SearchStage::Start, query: query.text() }
    }

    /// Whether `event` is what the request waits for.
    pub fn accepts(&self, event: &SearchEvent) -> (r: bool)
        ensures
            r == accepts(self.stage, *event),
    {
        match (&self.stage, event) {
            (SearchStage::Start, SearchEvent::Begin) => true,
            (SearchStage::AwaitingDirectory, SearchEvent::DirectoryFetched { .. }) => true,
            (SearchStage::AwaitingPage { .. }, SearchEvent::PageFetched { .. }) => true,
            _ => false,
        }
    }

    fn select(&mut self, cache: &Cache) -> (r: SearchAction)
        ensures
            selected(cache@.instances, old(self).query, final(self).stage, r),
            final(self).query == old(self).query,
    {
        match get_random_url_from_cache(cache) {
            Ok(url) => {
                self.stage = SearchStage::AwaitingPage { url: url.clone() };
                SearchAction::FetchPage { url, query: self.query.clone() }
            },
            Err(error) => {
                self.stage = SearchStage::Finished;
                SearchAction::Fail { error }
            },
        }
    }

    /// Advances the request by one event. The cache changes only when a
    /// fetched directory replaces its candidates; a failed fetch leaves it
    /// as it was.
    pub fn step(&mut self, cache: &mut Cache, filter: &Filter, now: u64, event: SearchEvent) -> (r:
        SearchAction)
        requires
            accepts(old(self).stage, event),
        ensures
            final(self).query == old(self).query,
            match (old(self).stage, event) {
                (SearchStage::Start, SearchEvent::Begin) => {
                    &&& final(cache)@ == old(cache)@
                    &&& if refresh_due(old(cache)@, now) {
                        final(self).stage is AwaitingDirectory && r is FetchDirectory
                    } else {
                        selected(old(cache)@.instances, old(self).query, final(self).stage, r)
                    }
                },
                (
                    SearchStage::AwaitingDirectory,
                    SearchEvent::DirectoryFetched { directory: Ok(d) },
                ) => {
                    &&& final(cache)@ == refreshed(old(cache)@, d@, *filter, now)
                    &&& selected(final(cache)@.instances, old(self).query, final(self).stage, r)
                },
                (
                    SearchStage::AwaitingDirectory,
                    SearchEvent::DirectoryFetched { directory: Err(cause) },
                ) => {
                    &&& final(cache)@ == old(cache)@
                    &&& final(self).stage is Finished
                    &&& r == (SearchAction::Fail {
                        error: SearchError::DirectoryUnavailable { cause },
                    })
                },
                (
                    SearchStage::AwaitingPage { url },
                    SearchEvent::PageFetched { page: Ok(page) },
                ) => {
                    &&& final(cache)@ == old(cache)@
                    &&& final(self).stage is Finished
                    &&& r matches SearchAction::Respond { body }
                    &&& body@ == absolute_page(page@, url@)
                },
                (
                    SearchStage::AwaitingPage { .. },
                    SearchEvent::PageFetched { page: Err(cause) },
                ) => {
                    &&& final(cache)@ == old(cache)@
                    &&& final(self).stage is Finished
                    &&& r == (SearchAction::Fail {
                        error: SearchError::InstanceUnreachable { cause },
                    })
                },
                _ => false,
            },
    {
        match event {
            SearchEvent::Begin => {
                if cache.is_refresh_due(now) {
                    self.stage = SearchStage::AwaitingDirectory;
                    SearchAction::FetchDirectory
                } else {
                    self.select(cache)
                }
            },
            SearchEvent::DirectoryFetched { directory } => match directory {
                Ok(entries) => {
                    let urls = get_filtered_urls(&entries, filter);
                    cache.refresh(urls, now);
                    self.select(cache)
                },
                Err(cause) => {
                    self.stage = SearchStage::Finished;
                    SearchAction::Fail { error: SearchError::DirectoryUnavailable { cause } }
                },
            },
            SearchEvent::PageFetched { page } => {
                let url = match &self.stage {
                    SearchStage::AwaitingPage { url } => url.clone(),
                    _ => {
                        proof {
                            assert(false);
                        }
                        String::new()
                    },
                };
                self.stage = SearchStage::Finished;
                match page {
                    Ok(page) => SearchAction::Respond {
                        body: convert_html_urls_to_absolute(page, url.as_str()),
                    },
                    Err(cause) => SearchAction::Fail {
                        error: SearchError::InstanceUnreachable { cause },
                    },
                }
            },
        }
    }
}

} // verus!
