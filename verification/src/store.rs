//! The storage contract, and the store that keeps everything in memory.

use crate::model::{
    lemma_add_once_no_duplicates, lemma_after_subscribe_wf, lemma_with_podcast_wf,
    lemma_with_user_wf, new_podcast, new_user, StoreModel,
};
use crate::records::{
    clone_strings, texts, Error, PodcastChannel, PodcastView, User, UserView,
};
use std::collections::{HashMap, HashSet};
use vstd::hash_map::StringHashMap;
use vstd::prelude::*;

verus! {

/// The view of the outcome of an operation that yields a user.
pub open spec fn user_outcome(r: Result<User, Error>) -> Result<UserView, Error> {
    match r {
        Ok(u) => Ok(u@),
        Err(e) => Err(e),
    }
}

/// The view of the outcome of an operation that yields a podcast.
pub open spec fn podcast_outcome(r: Result<PodcastChannel, Error>) -> Result<PodcastView, Error> {
    match r {
        Ok(p) => Ok(p@),
        Err(e) => Err(e),
    }
}

/// The view of the outcome of an operation that yields a subscription list.
pub open spec fn list_outcome(r: Result<Vec<String>, Error>) -> Result<Seq<Seq<char>>, Error> {
    match r {
        Ok(l) => Ok(texts(l@)),
        Err(e) => Err(e),
    }
}

/// The data-access contract. A backend keeps users by id and podcasts by
/// feed URL; `model` says what it holds. Every operation either does what
/// the model says or, where the backend itself fails, reports
/// `Error::DbError` and leaves the store as it was.
///
/// A new backend is a type that implements this trait: a lookup answers from
/// what `model` holds, and an operation that changes the store changes
/// `model` as its contract says. The session and the resolver work on any
/// such type.
pub trait DB {
    /// What the store holds.
    spec fn model(&self) -> StoreModel;

    /// Whether lookups and subscriptions of this backend never fail on the
    /// backend's own account. Creating a record may report `Error::DbError`
    /// even then: no fresh id may be at hand.
    spec fn reliable() -> bool;

    /// Looks a user up by id.
    fn get_user(&self, id: u128) -> (r: Result<User, Error>)
        ensures
            ({
                ||| user_outcome(r) == self.model().lookup_user(id)
                ||| !Self::reliable() && r matches Err(Error::DbError)
            }),
    ;

    /// Creates a user with the given name, no subscriptions, and an id that
    /// this store never handed out before.
    fn create_user(&mut self, name: String) -> (r: Result<User, Error>)
        ensures
            match r {
                Ok(u) => {
                    &&& !old(self).model().issued.contains(u.id)
                    &&& u@ == new_user(u.id, name@)
                    &&& final(self).model() == old(self).model().with_user(u.id, name@)
                },
                Err(e) => e == Error::DbError && final(self).model() == old(self).model(),
            },
            old(self).model().wf() ==> final(self).model().wf(),
    ;

    /// Looks a podcast up by its feed URL.
    fn get_podcast(&self, rss: String) -> (r: Result<PodcastChannel, Error>)
        ensures
            ({
                ||| podcast_outcome(r) == self.model().lookup_podcast(rss@)
                ||| !Self::reliable() && r matches Err(Error::DbError)
            }),
    ;

    /// Files a podcast under its feed URL, with an id that this store never
    /// handed out before. A record already filed under that URL is replaced.
    fn create_podcast(&mut self, rss: String, title: String, description: String) -> (r: Result<
        PodcastChannel,
        Error,
    >)
        ensures
            match r {
                Ok(p) => {
                    &&& !old(self).model().issued.contains(p.id)
                    &&& p@ == new_podcast(p.id, rss@, title@, description@)
                    &&& final(self).model() == old(self).model().with_podcast(p@)
                },
                Err(e) => e == Error::DbError && final(self).model() == old(self).model(),
            },
            old(self).model().wf() ==> final(self).model().wf(),
    ;

    /// Subscribes a user to a known podcast and returns the user's
    /// subscriptions. A feed the user is subscribed to already is not added
    /// again.
    fn subscribe(&mut self, user: u128, rss: String) -> (r: Result<Vec<String>, Error>)
        ensures
            ({
                ||| {
                    &&& final(self).model() == old(self).model().after_subscribe(user, rss@)
                    &&& list_outcome(r) == old(self).model().subscribe_result(user, rss@)
                }
                ||| {
                    &&& !Self::reliable()
                    &&& r matches Err(Error::DbError)
                    &&& final(self).model() == old(self).model()
                }
            }),
            old(self).model().wf() ==> final(self).model().wf(),
            old(self).model().wf() ==> (r matches Ok(list) ==> texts(list@).no_duplicates()
                && texts(list@).contains(rss@)),
    ;
}

/// Whether a list of strings holds a given string.
pub fn contains_string(list: &Vec<String>, s: &String) -> (r: bool)
    ensures
        r == texts(list@).contains(s@),
{
    let mut i: usize = 0;
    while i < list.len()
        invariant
            i <= list.len(),
            forall|j: int| 0 <= j < i ==> texts(list@)[j] != s@,
        decreases list.len() - i,
    {
        if list[i] == *s {
            assert(texts(list@)[i as int] == s@);
            return true;
        }
        i += 1;
    }
    false
}

/// Draws a random version-4 UUID with `uuid::Uuid::new_v4` and hands out its
/// 128 bits (`Uuid::as_u128`). Trusted, and nothing is claimed of the value:
/// two draws may even coincide. The call panics only where the operating
/// system cannot supply random bytes.
#[verifier::external_body]
fn random_id() -> u128 {
    uuid::Uuid::new_v4().as_u128()
}

/// The store that keeps users and podcasts in memory, for as long as the
/// process runs.
pub struct InMemoryStore {
    /// The users, by id.
    users: HashMap<u128, User>,
    /// The podcasts, by feed URL.
    podcasts: StringHashMap<PodcastChannel>,
    /// Every id that was given to a user or a podcast, so that none is given
    /// twice.
    issued: HashSet<u128>,
}

impl InMemoryStore {
    /// An empty store.
    pub fn new() -> (s: InMemoryStore)
        ensures
            s.model() == StoreModel::empty(),
            s.model().wf(),
    {
        let s = InMemoryStore {
            users: HashMap::new(),
            podcasts: StringHashMap::new(),
            issued: HashSet::new(),
        };
        assert(s.model().users =~= Map::<u128, UserView>::empty());
        assert(s.model().podcasts =~= Map::<Seq<char>, PodcastView>::empty());
        s
    }

    /// Creates a user under the given id. Fails with `Error::DbError`, and
    /// changes nothing, where the store has handed that id out before.
    pub fn create_user_with_id(&mut self, id: u128, name: String) -> (r: Result<User, Error>)
        ensures
            match r {
                Ok(u) => {
                    &&& !old(self).model().issued.contains(id)
                    &&& u@ == new_user(id, name@)
                    &&& final(self).model() == old(self).model().with_user(id, name@)
                },
                Err(e) => {
                    &&& old(self).model().issued.contains(id)
                    &&& e == Error::DbError
                    &&& final(self).model() == old(self).model()
                },
            },
            old(self).model().wf() ==> final(self).model().wf(),
    {
        if self.issued.contains(&id) {
            return Err(Error::DbError);
        }
        let u = User { name, id, subscribed: Vec::new() };
        let copy = u.clone();
        assert(texts(u.subscribed@) =~= Seq::<Seq<char>>::empty());
        self.issued.insert(id);
        self.users.insert(id, u);
        proof {
            let before = old(self).model();
            let after = self.model();
            assert(after.users =~= before.with_user(id, name@).users);
            if before.wf() {
                lemma_with_user_wf(before, id, name@);
            }
        }
        Ok(copy)
    }

    /// Files a podcast under its feed URL with the given id, in place of any
    /// record filed under that URL before. Fails with `Error::DbError`, and
    /// changes nothing, where the store has handed that id out before.
    pub fn create_podcast_with_id(
        &mut self,
        id: u128,
        rss: String,
        title: String,
        description: String,
    ) -> (r: Result<PodcastChannel, Error>)
        ensures
            match r {
                Ok(p) => {
                    &&& !old(self).model().issued.contains(id)
                    &&& p@ == new_podcast(id, rss@, title@, description@)
                    &&& final(self).model() == old(self).model().with_podcast(p@)
                },
                Err(e) => {
                    &&& old(self).model().issued.contains(id)
                    &&& e == Error::DbError
                    &&& final(self).model() == old(self).model()
                },
            },
            old(self).model().wf() ==> final(self).model().wf(),
    {
        if self.issued.contains(&id) {
            return Err(Error::DbError);
        }
        let p = PodcastChannel { rss: rss.clone(), name: title, description, id };
        let copy = p.clone();
        self.issued.insert(id);
        self.podcasts.insert(rss, p);
        proof {
            let before = old(self).model();
            let after = self.model();
            assert(after.podcasts =~= before.with_podcast(copy@).podcasts);
            if before.wf() {
                lemma_with_podcast_wf(before, copy@);
            }
        }
        Ok(copy)
    }
}

impl DB for InMemoryStore {
    closed spec fn model(&self) -> StoreModel {
        StoreModel {
            users: Map::new(|id: u128| self.users@.contains_key(id), |id: u128| self.users@[id]@),
            podcasts: Map::new(
                |url: Seq<char>| self.podcasts@.contains_key(url),
                |url: Seq<char>| self.podcasts@[url]@,
            ),
            issued: self.issued@,
        }
    }

    /// The store in memory has no failures of its own.
    open spec fn reliable() -> bool {
        true
    }

    fn get_user(&self, id: u128) -> (r: Result<User, Error>) {
        match self.users.get(&id) {
            Some(u) => Ok(u.clone()),
            None => Err(Error::NotFound),
        }
    }

    /// Draws a random id and creates the user under it. Reports
    /// `Error::DbError` only where the store has handed the drawn id out
    /// before, so never on a store that has handed out none.
    fn create_user(&mut self, name: String) -> (r: Result<User, Error>)
        ensures
            old(self).model().issued == Set::<u128>::empty() ==> r is Ok,
    {
        let id = random_id();
        self.create_user_with_id(id, name)
    }

    fn get_podcast(&self, rss: String) -> (r: Result<PodcastChannel, Error>) {
        match self.podcasts.get(rss.as_str()) {
            Some(p) => Ok(p.clone()),
            None => Err(Error::NotFound),
        }
    }

    /// Draws a random id and files the podcast under it. Reports
    /// `Error::DbError` only where the store has handed the drawn id out
    /// before, so never on a store that has handed out none.
    fn create_podcast(&mut self, rss: String, title: String, description: String) -> (r: Result<
        PodcastChannel,
        Error,
    >)
        ensures
            old(self).model().issued == Set::<u128>::empty() ==> r is Ok,
    {
        let id = random_id();
        self.create_podcast_with_id(id, rss, title, description)
    }

    fn subscribe(&mut self, user: u128, rss: String) -> (r: Result<Vec<String>, Error>) {
        if !self.podcasts.contains_key(rss.as_str()) {
            return Err(Error::NotFound);
        }
        let mut u = match self.users.get(&user) {
            Some(u) => u.clone(),
            None => { return Err(Error::NotFound); },
        };
        let ghost url = rss@;
        let ghost before_list = texts(u.subscribed@);
        if !contains_string(&u.subscribed, &rss) {
            u.subscribed.push(rss);
            assert(texts(u.subscribed@) =~= before_list.push(url));
        }
        let out = clone_strings(&u.subscribed);
        self.users.insert(user, u);
        proof {
            let before = old(self).model();
            let after = self.model();
            assert(after.users =~= before.after_subscribe(user, url).users);
            if before.wf() {
                lemma_after_subscribe_wf(before, user, url);
                assert(before.user_ok(user));
                lemma_add_once_no_duplicates(before.users[user].subscribed, url);
            }
        }
        Ok(out)
    }
}

} // verus!
