//! The mathematical model of a store and of a session: what they hold, what
//! each operation makes of them, and the lemmas by which the invariant is
//! kept.

use crate::feed::FeedInfoView;
use crate::records::{Error, PodcastView, UserView};
use vstd::prelude::*;

verus! {

/// What a store holds: its users by id, its podcasts by feed URL, and every
/// id it has ever handed out.
pub struct StoreModel {
    pub users: Map<u128, UserView>,
    pub podcasts: Map<Seq<char>, PodcastView>,
    pub issued: Set<u128>,
}

/// A user as `create_user` makes it: the given name, no subscriptions.
pub open spec fn new_user(id: u128, name: Seq<char>) -> UserView {
    UserView { name, id, subscribed: Seq::empty() }
}

/// A podcast as `create_podcast` makes it.
pub open spec fn new_podcast(
    id: u128,
    rss: Seq<char>,
    title: Seq<char>,
    description: Seq<char>,
) -> PodcastView {
    PodcastView { name: title, description, rss, id }
}

/// Where the resolution of a feed URL stands.
pub enum Resolution {
    /// The podcast is known to the store: this is its record.
    Resolved(PodcastView),
    /// The podcast is unknown and the feed has yet to be fetched.
    NeedsFetch,
    /// The podcast could not be looked up, or is unknown and could not be
    /// learned.
    Failed(Error),
}

/// Where a subscription request stands.
pub enum SubscribeOutcome {
    /// The request is answered: with the user's subscriptions, or with the
    /// reason why nothing was subscribed.
    Done(Result<Seq<Seq<char>>, Error>),
    /// The podcast is unknown and the feed has yet to be fetched.
    NeedsFetch,
}

/// A subscription list after subscribing to `url`: the URL is appended where
/// the list lacks it, and the list is left alone where it holds it.
pub open spec fn add_once(list: Seq<Seq<char>>, url: Seq<char>) -> Seq<Seq<char>> {
    if list.contains(url) {
        list
    } else {
        list.push(url)
    }
}

impl StoreModel {
    /// The store that holds nothing.
    pub open spec fn empty() -> StoreModel {
        StoreModel { users: Map::empty(), podcasts: Map::empty(), issued: Set::empty() }
    }

    /// The user's record is filed under its own id, its id was handed out by
    /// this store, its subscriptions hold no feed twice, and each of them is
    /// a known podcast.
    pub open spec fn user_ok(self, id: u128) -> bool {
        let u = self.users[id];
        &&& u.id == id
        &&& self.issued.contains(id)
        &&& u.subscribed.no_duplicates()
        &&& forall|i: int|
            0 <= i < u.subscribed.len() ==> self.podcasts.contains_key(#[trigger] u.subscribed[i])
    }

    /// The podcast's record is filed under its own feed URL, and its id was
    /// handed out by this store to no user.
    pub open spec fn podcast_ok(self, url: Seq<char>) -> bool {
        let p = self.podcasts[url];
        &&& p.rss == url
        &&& self.issued.contains(p.id)
        &&& !self.users.contains_key(p.id)
    }

    /// The invariant of a store: every user and every podcast is in order,
    /// and no two podcasts share an id.
    pub open spec fn wf(self) -> bool {
        &&& forall|id: u128| self.users.contains_key(id) ==> #[trigger] self.user_ok(id)
        &&& forall|url: Seq<char>|
            self.podcasts.contains_key(url) ==> #[trigger] self.podcast_ok(url)
        &&& forall|a: Seq<char>, b: Seq<char>|
            self.podcasts.contains_key(a) && self.podcasts.contains_key(b) && a != b
                ==> (#[trigger] self.podcasts[a]).id != (#[trigger] self.podcasts[b]).id
    }

    /// What looking up a user by id yields.
    pub open spec fn lookup_user(self, id: u128) -> Result<UserView, Error> {
        if self.users.contains_key(id) {
            Ok(self.users[id])
        } else {
            Err(Error::NotFound)
        }
    }

    /// What looking up a podcast by feed URL yields.
    pub open spec fn lookup_podcast(self, url: Seq<char>) -> Result<PodcastView, Error> {
        if self.podcasts.contains_key(url) {
            Ok(self.podcasts[url])
        } else {
            Err(Error::NotFound)
        }
    }

    /// The store after a user was created under `id`.
    pub open spec fn with_user(self, id: u128, name: Seq<char>) -> StoreModel {
        StoreModel {
            users: self.users.insert(id, new_user(id, name)),
            podcasts: self.podcasts,
            issued: self.issued.insert(id),
        }
    }

    /// The store after a podcast was filed under its feed URL, in place of
    /// any earlier record for that URL.
    pub open spec fn with_podcast(self, p: PodcastView) -> StoreModel {
        StoreModel {
            users: self.users,
            podcasts: self.podcasts.insert(p.rss, p),
            issued: self.issued.insert(p.id),
        }
    }

    /// Whether resolving `url` with this feed at hand files a new podcast:
    /// the URL is unknown and the feed was fetched and read.
    pub open spec fn creates(
        self,
        url: Seq<char>,
        feed: Option<Result<FeedInfoView, Error>>,
    ) -> bool {
        !self.podcasts.contains_key(url) && feed matches Some(Ok(_))
    }

    /// Resolving a feed URL: the store afterwards, and where the resolution
    /// stands. A known podcast is returned as it is filed, whatever `feed`
    /// holds. An unknown one needs its feed: with none at hand the answer is
    /// `NeedsFetch`; a feed that could not be fetched or read fails with that
    /// error; a feed that was read is filed under `url` with the id `id`.
    pub open spec fn resolve(
        self,
        url: Seq<char>,
        feed: Option<Result<FeedInfoView, Error>>,
        id: u128,
    ) -> (StoreModel, Resolution) {
        if self.podcasts.contains_key(url) {
            (self, Resolution::Resolved(self.podcasts[url]))
        } else {
            match feed {
                None => (self, Resolution::NeedsFetch),
                Some(Err(e)) => (self, Resolution::Failed(e)),
                Some(Ok(info)) => {
                    let p = new_podcast(id, url, info.title, info.description);
                    (self.with_podcast(p), Resolution::Resolved(p))
                },
            }
        }
    }

    /// Whether `subscribe` finds both the podcast and the user.
    pub open spec fn can_subscribe(self, user: u128, url: Seq<char>) -> bool {
        self.podcasts.contains_key(url) && self.users.contains_key(user)
    }

    /// The store after `user` subscribed to `url`; the store itself where
    /// the podcast or the user is unknown.
    pub open spec fn after_subscribe(self, user: u128, url: Seq<char>) -> StoreModel {
        if self.can_subscribe(user, url) {
            let u = self.users[user];
            StoreModel {
                users: self.users.insert(
                    user,
                    UserView { name: u.name, id: u.id, subscribed: add_once(u.subscribed, url) },
                ),
                podcasts: self.podcasts,
                issued: self.issued,
            }
        } else {
            self
        }
    }

    /// What `subscribe` returns: the user's subscriptions after the call, or
    /// `NotFound` where the podcast or the user is unknown.
    pub open spec fn subscribe_result(self, user: u128, url: Seq<char>) -> Result<
        Seq<Seq<char>>,
        Error,
    > {
        if self.can_subscribe(user, url) {
            Ok(add_once(self.users[user].subscribed, url))
        } else {
            Err(Error::NotFound)
        }
    }
}

/// What a resolution may do to a store. Either it does what `resolve` says,
/// filing a new podcast only under an id that was never handed out. Or the
/// backend fails: the store stays as it was; a reliable backend fails only
/// where a podcast was to be filed.
pub open spec fn resolved_as(
    before: StoreModel,
    after: StoreModel,
    r: Resolution,
    url: Seq<char>,
    feed: Option<Result<FeedInfoView, Error>>,
    reliable: bool,
) -> bool {
    let id = after.podcasts[url].id;
    ||| {
        &&& (after, r) == before.resolve(url, feed, id)
        &&& before.creates(url, feed) ==> !before.issued.contains(id)
    }
    ||| {
        &&& r == Resolution::Failed(Error::DbError)
        &&& after == before
        &&& reliable ==> before.creates(url, feed)
    }
}

/// What a session is: who is logged in, if anybody, and what the store
/// holds.
pub struct SessionModel {
    pub current_user: Option<u128>,
    pub store: StoreModel,
}

impl SessionModel {
    /// The invariant of a session: the store is in order and whoever is
    /// logged in is one of its users.
    pub open spec fn wf(self) -> bool {
        &&& self.store.wf()
        &&& self.current_user matches Some(id) ==> self.store.users.contains_key(id)
    }

    /// A subscription request: the store afterwards, and where the request
    /// stands. Nobody logged in: `Unauthorized`. A URL that is no URI:
    /// `InvalidUrl`. Else the feed URL is resolved, and where that yields the
    /// podcast the user is subscribed to it.
    pub open spec fn subscribe(
        self,
        url: Seq<char>,
        url_ok: bool,
        feed: Option<Result<FeedInfoView, Error>>,
        id: u128,
    ) -> (StoreModel, SubscribeOutcome) {
        match self.current_user {
            None => (self.store, SubscribeOutcome::Done(Err(Error::Unauthorized))),
            Some(user) => if !url_ok {
                (self.store, SubscribeOutcome::Done(Err(Error::InvalidUrl)))
            } else {
                let (resolved, resolution) = self.store.resolve(url, feed, id);
                match resolution {
                    Resolution::NeedsFetch => (resolved, SubscribeOutcome::NeedsFetch),
                    Resolution::Failed(e) => (resolved, SubscribeOutcome::Done(Err(e))),
                    Resolution::Resolved(_) => (
                        resolved.after_subscribe(user, url),
                        SubscribeOutcome::Done(resolved.subscribe_result(user, url)),
                    ),
                }
            },
        }
    }
}

/// What a subscription request may do to a store. Either it does what
/// `SessionModel::subscribe` says, filing a new podcast only under an id that
/// was never handed out. Or the backend fails: on a reliable backend only
/// where a podcast was to be filed, and the store stays as it was; on another
/// the podcast may have been filed before the failure.
pub open spec fn subscribed_as(
    before: SessionModel,
    after: StoreModel,
    r: SubscribeOutcome,
    url: Seq<char>,
    url_ok: bool,
    feed: Option<Result<FeedInfoView, Error>>,
    reliable: bool,
) -> bool {
    let id = after.podcasts[url].id;
    let attempted = before.current_user is Some && url_ok;
    let fresh = before.store.creates(url, feed) ==> !before.store.issued.contains(id);
    ||| {
        &&& (after, r) == before.subscribe(url, url_ok, feed, id)
        &&& attempted ==> fresh
    }
    ||| {
        &&& r == SubscribeOutcome::Done(Err(Error::DbError))
        &&& attempted
        &&& if reliable {
            after == before.store && before.store.creates(url, feed)
        } else {
            after == before.store || (after == before.store.resolve(url, feed, id).0 && fresh)
        }
    }
}

/// Creating a user under an id that was never handed out keeps the store in
/// order.
pub proof fn lemma_with_user_wf(s: StoreModel, id: u128, name: Seq<char>)
    requires
        s.wf(),
        !s.issued.contains(id),
    ensures
        s.with_user(id, name).wf(),
{
    let t = s.with_user(id, name);
    assert forall|k: u128| t.users.contains_key(k) implies #[trigger] t.user_ok(k) by {
        if k != id {
            assert(s.user_ok(k));
        }
    }
    assert forall|url: Seq<char>| t.podcasts.contains_key(url) implies #[trigger] t.podcast_ok(
        url,
    ) by {
        assert(s.podcast_ok(url));
    }
}

/// Filing a podcast whose id was never handed out keeps the store in order,
/// whether or not its feed URL was known before.
pub proof fn lemma_with_podcast_wf(s: StoreModel, p: PodcastView)
    requires
        s.wf(),
        !s.issued.contains(p.id),
    ensures
        s.with_podcast(p).wf(),
{
    let t = s.with_podcast(p);
    assert forall|k: u128| t.users.contains_key(k) implies #[trigger] t.user_ok(k) by {
        assert(s.user_ok(k));
    }
    assert forall|url: Seq<char>| t.podcasts.contains_key(url) implies #[trigger] t.podcast_ok(
        url,
    ) by {
        if url != p.rss {
            assert(s.podcast_ok(url));
        } else if s.users.contains_key(p.id) {
            assert(s.user_ok(p.id));
        }
    }
    assert forall|a: Seq<char>, b: Seq<char>|
        t.podcasts.contains_key(a) && t.podcasts.contains_key(b) && a != b implies
        (#[trigger] t.podcasts[a]).id != (#[trigger] t.podcasts[b]).id by {
        if a != p.rss {
            assert(s.podcast_ok(a));
        }
        if b != p.rss {
            assert(s.podcast_ok(b));
        }
    }
}

/// Adding a feed once keeps a list free of duplicates and puts the feed in
/// it; adding it once more changes nothing.
pub proof fn lemma_add_once_no_duplicates(list: Seq<Seq<char>>, url: Seq<char>)
    requires
        list.no_duplicates(),
    ensures
        add_once(list, url).no_duplicates(),
        add_once(list, url).contains(url),
        add_once(add_once(list, url), url) == add_once(list, url),
{
    let out = add_once(list, url);
    if !list.contains(url) {
        assert(out[list.len() as int] == url);
    }
}

/// Subscribing keeps the store in order.
pub proof fn lemma_after_subscribe_wf(s: StoreModel, user: u128, url: Seq<char>)
    requires
        s.wf(),
    ensures
        s.after_subscribe(user, url).wf(),
{
    let t = s.after_subscribe(user, url);
    if s.can_subscribe(user, url) {
        assert forall|k: u128| t.users.contains_key(k) implies #[trigger] t.user_ok(k) by {
            assert(s.user_ok(k));
            if k == user {
                let old_list = s.users[user].subscribed;
                let new_list = t.users[user].subscribed;
                lemma_add_once_no_duplicates(old_list, url);
                assert forall|i: int| 0 <= i < new_list.len() implies t.podcasts.contains_key(
                    #[trigger] new_list[i],
                ) by {}
            }
        }
        assert forall|u: Seq<char>| t.podcasts.contains_key(u) implies #[trigger] t.podcast_ok(
            u,
        ) by {
            assert(s.podcast_ok(u));
        }
    }
}

} // verus!
