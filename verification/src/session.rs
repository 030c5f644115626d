//! The session and the workflow on top of the store: who is logged in, and
//! the subscription of that user to a feed.

use crate::feed::FeedInfo;
use crate::model::{new_user, subscribed_as, SessionModel, SubscribeOutcome};
use crate::records::{texts, Error, User};
use crate::resolver::{
    feed_at_hand, fetched_feed, read_feed, resolve_with, FetchOutcome, ResolveStep,
};
use crate::store::{list_outcome, user_outcome, DB};
use crate::uri::{is_uri, parses_as_uri};
use vstd::prelude::*;

verus! {

/// The state that every request works on: the session and the store.
pub struct AppState<D: DB> {
    current_user: Option<u128>,
    db: D,
}

/// What the session says of itself.
#[derive(Clone, Copy, Debug, PartialEq, Eq, Structural)]
pub struct UserStatus {
    pub user: Option<u128>,
    pub logged_in: bool,
}

/// Where a subscription request stands.
#[derive(Debug, PartialEq, Eq)]
pub enum SubscribeStep {
    /// The request is answered: with the user's subscriptions, or with the
    /// reason why nothing was subscribed.
    Done(Result<Vec<String>, Error>),
    /// The podcast is unknown: fetch the feed and call
    /// `finish_subscription`.
    NeedsFetch,
}

impl View for SubscribeStep {
    type V = SubscribeOutcome;

    open spec fn view(&self) -> SubscribeOutcome {
        match *self {
            SubscribeStep::Done(r) => SubscribeOutcome::Done(list_outcome(r)),
            SubscribeStep::NeedsFetch => SubscribeOutcome::NeedsFetch,
        }
    }
}

impl<D: DB> View for AppState<D> {
    type V = SessionModel;

    closed spec fn view(&self) -> SessionModel {
        SessionModel { current_user: self.current_user, store: self.db.model() }
    }
}

impl<D: DB> AppState<D> {
    /// A session on top of the given store, with nobody logged in.
    pub fn new(db: D) -> (s: Self)
        ensures
            s@ == (SessionModel { current_user: None, store: db.model() }),
    {
        AppState { current_user: None, db }
    }

    /// The store underneath.
    pub fn db(&self) -> (db: &D)
        ensures
            db.model() == self@.store,
    {
        &self.db
    }

    /// Creates a user. The session stays as it is.
    pub fn add_user(&mut self, name: String) -> (r: Result<User, Error>)
        ensures
            final(self)@.current_user == old(self)@.current_user,
            match r {
                Ok(u) => {
                    &&& !old(self)@.store.issued.contains(u.id)
                    &&& u@ == new_user(u.id, name@)
                    &&& final(self)@.store == old(self)@.store.with_user(u.id, name@)
                },
                Err(e) => e == Error::DbError && final(self)@.store == old(self)@.store,
            },
            old(self)@.wf() ==> final(self)@.wf(),
    {
        self.db.create_user(name)
    }

    /// Looks a user up by id.
    pub fn get_user(&self, id: u128) -> (r: Result<User, Error>)
        ensures
            ({
                ||| user_outcome(r) == self@.store.lookup_user(id)
                ||| !D::reliable() && r matches Err(Error::DbError)
            }),
    {
        self.db.get_user(id)
    }

    /// Logs in as the user with the given id. Where the store has no such
    /// user, or fails, the session stays as it was.
    pub fn login(&mut self, id: u128) -> (r: Result<(), Error>)
        ensures
            final(self)@.store == old(self)@.store,
            match r {
                Ok(_) => {
                    &&& old(self)@.store.users.contains_key(id)
                    &&& final(self)@.current_user == Some(id)
                },
                Err(e) => {
                    &&& final(self)@.current_user == old(self)@.current_user
                    &&& if old(self)@.store.users.contains_key(id) {
                        e == Error::DbError && !D::reliable()
                    } else {
                        e == Error::NotFound || (e == Error::DbError && !D::reliable())
                    }
                },
            },
            old(self)@.wf() ==> final(self)@.wf(),
    {
        match self.db.get_user(id) {
            Ok(_) => {
                self.current_user = Some(id);
                Ok(())
            },
            Err(e) => Err(e),
        }
    }

    /// Who is logged in, if anybody.
    pub fn user_status(&self) -> (r: UserStatus)
        ensures
            r.user == self@.current_user,
            r.logged_in == self@.current_user.is_some(),
    {
        match self.current_user {
            Some(id) => UserStatus { user: Some(id), logged_in: true },
            None => UserStatus { user: None, logged_in: false },
        }
    }

    /// One step of a subscription request, with everything that comes from
    /// outside given: whether the URL is a URI, and the feed at hand (`None`
    /// before any fetch, else what the fetch and the reading of its body
    /// came to).
    ///
    /// With nobody logged in the request fails with `Error::Unauthorized`,
    /// and with a URL that is no URI with `Error::InvalidUrl`; the store is
    /// not touched. Else the feed URL is resolved. An unknown podcast with no
    /// feed at hand asks for the fetch; with a feed that failed, the request
    /// fails with that error and the store is not touched. A podcast that is
    /// known, or was filed from the feed just now, is subscribed to.
    pub fn subscribe_with(
        &mut self,
        url: String,
        url_ok: bool,
        feed: Option<Result<FeedInfo, Error>>,
    ) -> (r: SubscribeStep)
        ensures
            final(self)@.current_user == old(self)@.current_user,
            subscribed_as(
                old(self)@,
                final(self)@.store,
                r@,
                url@,
                url_ok,
                feed_at_hand(feed),
                D::reliable(),
            ),
            old(self)@.current_user is None ==> {
                &&& r@ == SubscribeOutcome::Done(Err(Error::Unauthorized))
                &&& final(self)@.store == old(self)@.store
            },
            feed matches Some(Err(_)) && !old(self)@.store.podcasts.contains_key(url@) ==> {
                &&& r@ matches SubscribeOutcome::Done(Err(_))
                &&& final(self)@.store == old(self)@.store
            },
            feed is Some ==> r@ is Done,
            old(self)@.wf() ==> final(self)@.wf(),
            old(self)@.wf() ==> (r@ matches SubscribeOutcome::Done(Ok(list))
                ==> list.no_duplicates() && list.contains(url@)),
    {
        let user = match self.current_user {
            Some(user) => user,
            None => { return SubscribeStep::Done(Err(Error::Unauthorized)); },
        };
        if !url_ok {
            return SubscribeStep::Done(Err(Error::InvalidUrl));
        }
        match resolve_with(&mut self.db, url.clone(), feed) {
            ResolveStep::NeedsFetch => SubscribeStep::NeedsFetch,
            ResolveStep::Failed(e) => SubscribeStep::Done(Err(e)),
            ResolveStep::Resolved(_) => SubscribeStep::Done(self.db.subscribe(user, url)),
        }
    }

    /// Starts a subscription request for the logged-in user. The answer is
    /// final where the podcast is known or the request is refused; for an
    /// unknown podcast it asks for the feed to be fetched.
    pub fn subscribe_to_podcast(&mut self, url: String) -> (r: SubscribeStep)
        ensures
            final(self)@.current_user == old(self)@.current_user,
            subscribed_as(
                old(self)@,
                final(self)@.store,
                r@,
                url@,
                is_uri(url@),
                None,
                D::reliable(),
            ),
            old(self)@.current_user is None ==> {
                &&& r@ == SubscribeOutcome::Done(Err(Error::Unauthorized))
                &&& final(self)@.store == old(self)@.store
            },
            old(self)@.wf() ==> final(self)@.wf(),
            old(self)@.wf() ==> (r@ matches SubscribeOutcome::Done(Ok(list))
                ==> list.no_duplicates() && list.contains(url@)),
    {
        let url_ok = parses_as_uri(url.as_str());
        self.subscribe_with(url, url_ok, None)
    }

    /// Finishes a subscription request after the feed was fetched: a podcast
    /// that is still unknown is filed from the feed, and the logged-in user
    /// is subscribed to it.
    pub fn finish_subscription(&mut self, url: String, fetched: FetchOutcome) -> (r: Result<
        Vec<String>,
        Error,
    >)
        ensures
            final(self)@.current_user == old(self)@.current_user,
            subscribed_as(
                old(self)@,
                final(self)@.store,
                SubscribeOutcome::Done(list_outcome(r)),
                url@,
                is_uri(url@),
                Some(fetched_feed(fetched)),
                D::reliable(),
            ),
            old(self)@.current_user is None ==> {
                &&& r == Err::<Vec<String>, Error>(Error::Unauthorized)
                &&& final(self)@.store == old(self)@.store
            },
            fetched_feed(fetched) is Err && !old(self)@.store.podcasts.contains_key(url@) ==> {
                &&& r is Err
                &&& final(self)@.store == old(self)@.store
            },
            old(self)@.wf() ==> final(self)@.wf(),
            old(self)@.wf() ==> (r matches Ok(list) ==> texts(list@).no_duplicates()
                && texts(list@).contains(url@)),
    {
        let url_ok = parses_as_uri(url.as_str());
        let feed = read_feed(fetched);
        match self.subscribe_with(url, url_ok, Some(feed)) {
            SubscribeStep::Done(r) => r,
            SubscribeStep::NeedsFetch => {
                proof {
                    assert(false);
                }
                Err(Error::Transport)
            },
        }
    }
}

} // verus!
