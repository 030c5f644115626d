//! The feed resolver: from a feed URL to the podcast's record, learning the
//! podcast from its feed the first time the URL is seen.
//!
//! Fetching is the caller's work. `resolve` says whether a fetch is needed,
//! and `resolve_fetched` takes what the transport brought back.

use crate::feed::{feed_of, feed_view, parse_rss, FeedInfo, FeedInfoView};
use crate::model::{resolved_as, Resolution};
use crate::records::{Error, PodcastChannel};
use crate::store::DB;
use vstd::prelude::*;

verus! {

/// What the transport brought back for a feed URL.
#[derive(Debug, PartialEq, Eq)]
pub enum FetchOutcome {
    /// The body of the response, as text.
    Body(String),
    /// The request failed.
    Failed,
}

/// What a fetch says of the channel: what the body holds where there is one,
/// and `Error::Transport` where the request failed.
pub open spec fn fetched_feed(fetched: FetchOutcome) -> Result<FeedInfoView, Error> {
    match fetched {
        FetchOutcome::Body(body) => feed_of(body@),
        FetchOutcome::Failed => Err(Error::Transport),
    }
}

/// Reads the channel's title and description out of what was fetched.
pub fn read_feed(fetched: FetchOutcome) -> (r: Result<FeedInfo, Error>)
    ensures
        feed_view(r) == fetched_feed(fetched),
{
    match fetched {
        FetchOutcome::Body(body) => parse_rss(body.as_str()),
        FetchOutcome::Failed => Err(Error::Transport),
    }
}

/// Where the resolution of a feed URL stands.
#[derive(Debug, PartialEq, Eq)]
pub enum ResolveStep {
    /// The podcast is known to the store: this is its record.
    Resolved(PodcastChannel),
    /// The podcast is unknown: fetch the feed and call `resolve_fetched`.
    NeedsFetch,
    /// The podcast could not be looked up, or is unknown and could not be
    /// learned.
    Failed(Error),
}

impl View for ResolveStep {
    type V = Resolution;

    open spec fn view(&self) -> Resolution {
        match *self {
            ResolveStep::Resolved(p) => Resolution::Resolved(p@),
            ResolveStep::NeedsFetch => Resolution::NeedsFetch,
            ResolveStep::Failed(e) => Resolution::Failed(e),
        }
    }
}

/// The view of the feed that a resolution has at hand, if any.
pub open spec fn feed_at_hand(feed: Option<Result<FeedInfo, Error>>) -> Option<
    Result<FeedInfoView, Error>,
> {
    match feed {
        Some(f) => Some(feed_view(f)),
        None => None,
    }
}

/// Resolves a feed URL with the given feed at hand: `None` before any fetch,
/// else what the fetch and the reading of its body came to. A known podcast
/// is returned without a look at the feed; an unknown one is filed from it.
pub fn resolve_with<D: DB>(db: &mut D, url: String, feed: Option<Result<FeedInfo, Error>>) -> (r:
    ResolveStep)
    ensures
        resolved_as(
            old(db).model(),
            final(db).model(),
            r@,
            url@,
            feed_at_hand(feed),
            D::reliable(),
        ),
        old(db).model().wf() ==> final(db).model().wf(),
{
    match db.get_podcast(url.clone()) {
        Ok(p) => ResolveStep::Resolved(p),
        Err(Error::NotFound) => match feed {
            None => ResolveStep::NeedsFetch,
            Some(Err(e)) => ResolveStep::Failed(e),
            Some(Ok(info)) => match db.create_podcast(url, info.title, info.description) {
                Ok(p) => ResolveStep::Resolved(p),
                Err(e) => ResolveStep::Failed(e),
            },
        },
        Err(e) => ResolveStep::Failed(e),
    }
}

/// Resolves a feed URL without network access: a known podcast is returned,
/// for an unknown one the answer is `NeedsFetch`.
pub fn resolve<D: DB>(db: &D, url: String) -> (r: ResolveStep)
    ensures
        resolved_as(db.model(), db.model(), r@, url@, None, D::reliable()),
{
    match db.get_podcast(url) {
        Ok(p) => ResolveStep::Resolved(p),
        Err(Error::NotFound) => ResolveStep::NeedsFetch,
        Err(e) => ResolveStep::Failed(e),
    }
}

/// Resolves a feed URL after its feed was fetched: a podcast that is still
/// unknown is filed with the title and description that the body holds.
pub fn resolve_fetched<D: DB>(db: &mut D, url: String, fetched: FetchOutcome) -> (r: Result<
    PodcastChannel,
    Error,
>)
    ensures
        resolved_as(
            old(db).model(),
            final(db).model(),
            match r {
                Ok(p) => Resolution::Resolved(p@),
                Err(e) => Resolution::Failed(e),
            },
            url@,
            Some(fetched_feed(fetched)),
            D::reliable(),
        ),
        old(db).model().wf() ==> final(db).model().wf(),
{
    let feed = read_feed(fetched);
    match resolve_with(db, url, Some(feed)) {
        ResolveStep::Resolved(p) => Ok(p),
        ResolveStep::Failed(e) => Err(e),
        ResolveStep::NeedsFetch => {
            proof {
                assert(false);
            }
            Err(Error::Transport)
        },
    }
}

} // verus!
