//! What holds of the store, the resolver and the session across calls,
//! proved over the models that the contracts of the operations speak of.

use crate::feed::FeedInfoView;
use crate::model::{
    lemma_add_once_no_duplicates, lemma_with_user_wf, new_user, SessionModel, StoreModel,
    SubscribeOutcome,
};
use crate::records::{Error, UserView};
use vstd::prelude::*;

verus! {

/// Once a user is created under an id, looking that id up yields the record
/// that creation returned, and every other id is looked up as before. Where
/// the id was never handed out, as creation sees to, no user had it before,
/// and the store stays in order.
pub proof fn law_created_user_is_found(s: StoreModel, id: u128, name: Seq<char>)
    requires
        s.wf(),
    ensures
        s.with_user(id, name).lookup_user(id) == Ok::<UserView, Error>(new_user(id, name)),
        forall|other: u128|
            other != id ==> s.with_user(id, name).lookup_user(other) == s.lookup_user(other),
        !s.issued.contains(id) ==> s.lookup_user(id) == Err::<UserView, Error>(Error::NotFound),
        !s.issued.contains(id) ==> s.with_user(id, name).wf(),
{
    if s.users.contains_key(id) {
        assert(s.user_ok(id));
    }
    if !s.issued.contains(id) {
        lemma_with_user_wf(s, id, name);
    }
}

/// Once a feed URL has been resolved, resolving it again needs no feed and
/// so no fetch: whatever feed and id the second call is given, it returns the
/// record that the first call returned and leaves the store as it is. A
/// resolution of a known URL does not look at a feed at all. So of two
/// resolutions in a row, the first of which succeeds, at most the first
/// fetches.
pub proof fn law_resolve_twice(
    s: StoreModel,
    url: Seq<char>,
    feed1: Option<Result<FeedInfoView, Error>>,
    id1: u128,
    feed2: Option<Result<FeedInfoView, Error>>,
    id2: u128,
)
    requires
        s.resolve(url, feed1, id1).1 is Resolved,
    ensures
        ({
            let (s1, first) = s.resolve(url, feed1, id1);
            &&& s1.resolve(url, feed2, id2) == (s1, first)
            &&& s1.resolve(url, None, id2) == (s1, first)
            &&& s.podcasts.contains_key(url) ==> s.resolve(url, None, id1) == (s, first)
        }),
{
}

/// A resolution that fails, or that asks for the feed, leaves the store as
/// it was.
pub proof fn law_failed_resolution_changes_nothing(
    s: StoreModel,
    url: Seq<char>,
    feed: Option<Result<FeedInfoView, Error>>,
    id: u128,
)
    ensures
        !(s.resolve(url, feed, id).1 is Resolved) ==> s.resolve(url, feed, id).0 == s,
        s.resolve(url, feed, id).0 != s ==> s.creates(url, feed),
{
}

/// Subscribing a second time to the same feed changes nothing: the store
/// stays as the first subscription left it, the list returned is the one
/// returned before, and no feed occurs in it twice.
pub proof fn law_subscribe_twice(s: StoreModel, user: u128, url: Seq<char>)
    requires
        s.wf(),
    ensures
        ({
            let once = s.after_subscribe(user, url);
            &&& once.after_subscribe(user, url) == once
            &&& once.subscribe_result(user, url) == s.subscribe_result(user, url)
            &&& once.subscribe_result(user, url) matches Ok(list) ==> list.no_duplicates()
                && list.contains(url)
        }),
{
    if s.users.contains_key(user) {
        assert(s.user_ok(user));
    }
    lemma_subscribe_twice(s, user, url);
}

/// The law of subscribing twice, of any store in which the user's list holds
/// no feed twice.
proof fn lemma_subscribe_twice(s: StoreModel, user: u128, url: Seq<char>)
    requires
        s.users.contains_key(user) ==> s.users[user].subscribed.no_duplicates(),
    ensures
        ({
            let once = s.after_subscribe(user, url);
            &&& once.after_subscribe(user, url) == once
            &&& once.subscribe_result(user, url) == s.subscribe_result(user, url)
            &&& once.subscribe_result(user, url) matches Ok(list) ==> list.no_duplicates()
                && list.contains(url)
        }),
{
    let once = s.after_subscribe(user, url);
    if s.can_subscribe(user, url) {
        lemma_add_once_no_duplicates(s.users[user].subscribed, url);
        assert(once.users.insert(user, once.users[user]) =~= once.users);
    }
}

/// The same of two subscription requests in a row through the session, the
/// first of which subscribes: whatever the second request is given, it
/// returns the same list, without duplicates, asks for no fetch, and leaves
/// the store as the first request left it.
pub proof fn law_session_subscribe_twice(
    m: SessionModel,
    url: Seq<char>,
    feed1: Option<Result<FeedInfoView, Error>>,
    id1: u128,
    feed2: Option<Result<FeedInfoView, Error>>,
    id2: u128,
)
    requires
        m.wf(),
        m.subscribe(url, true, feed1, id1).1 matches SubscribeOutcome::Done(Ok(_)),
    ensures
        ({
            let (s1, first) = m.subscribe(url, true, feed1, id1);
            let m1 = SessionModel { current_user: m.current_user, store: s1 };
            &&& m1.subscribe(url, true, feed2, id2) == (s1, first)
            &&& first matches SubscribeOutcome::Done(Ok(list)) && list.no_duplicates()
                && list.contains(url)
        }),
{
    let user = m.current_user->Some_0;
    let resolved = m.store.resolve(url, feed1, id1).0;
    assert(m.store.user_ok(user));
    lemma_subscribe_twice(resolved, user, url);
}

/// With nobody logged in, a subscription request fails with
/// `Error::Unauthorized` and leaves the store as it was, whatever else it is
/// given.
pub proof fn law_anonymous_cannot_subscribe(
    m: SessionModel,
    url: Seq<char>,
    url_ok: bool,
    feed: Option<Result<FeedInfoView, Error>>,
    id: u128,
)
    requires
        m.current_user is None,
    ensures
        m.subscribe(url, url_ok, feed, id) == (
            m.store,
            SubscribeOutcome::Done(Err(Error::Unauthorized)),
        ),
{
}

/// A subscription request for an unknown feed that could not be fetched or
/// read fails and leaves the store, and with it every user's subscriptions,
/// as it was.
pub proof fn law_unresolvable_feed_changes_nothing(
    m: SessionModel,
    url: Seq<char>,
    url_ok: bool,
    e: Error,
    id: u128,
)
    requires
        !m.store.podcasts.contains_key(url),
    ensures
        m.subscribe(url, url_ok, Some(Err(e)), id).0 == m.store,
        m.subscribe(url, url_ok, Some(Err(e)), id).1 matches SubscribeOutcome::Done(Err(_)),
        m.current_user is Some && url_ok ==> m.subscribe(url, url_ok, Some(Err(e)), id).1
            == SubscribeOutcome::Done(Err(e)),
{
}

/// Whatever a subscription request does, no user and no podcast disappears,
/// no podcast's record changes, no user loses a subscription, a name or an
/// id, and no id that was handed out is forgotten.
pub proof fn law_subscribe_keeps_records(
    m: SessionModel,
    url: Seq<char>,
    url_ok: bool,
    feed: Option<Result<FeedInfoView, Error>>,
    id: u128,
)
    ensures
        ({
            let after = m.subscribe(url, url_ok, feed, id).0;
            &&& forall|who: u128| #[trigger]
                m.store.users.contains_key(who) ==> {
                    &&& after.users.contains_key(who)
                    &&& after.users[who].name == m.store.users[who].name
                    &&& after.users[who].id == m.store.users[who].id
                    &&& m.store.users[who].subscribed.is_prefix_of(after.users[who].subscribed)
                }
            &&& forall|u: Seq<char>| #[trigger]
                m.store.podcasts.contains_key(u) ==> after.podcasts.contains_key(u)
                    && after.podcasts[u] == m.store.podcasts[u]
            &&& m.store.issued.subset_of(after.issued)
        }),
{
}

} // verus!
