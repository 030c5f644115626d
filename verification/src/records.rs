//! The records the store keeps, the errors the library reports, and the
//! mathematical view of each.

use vstd::prelude::*;

verus! {

/// Why an operation did not succeed.
#[derive(Clone, Copy, Debug, PartialEq, Eq, Structural)]
pub enum Error {
    /// No user has the given id, or no podcast has the given feed URL.
    NotFound,
    /// The storage backend failed, or had no fresh id to hand out.
    DbError,
    /// The feed could not be fetched over the network.
    Transport,
    /// The fetched document is not well-formed XML, or lacks the channel's
    /// title or description.
    Parse,
    /// A subscription was attempted while nobody is logged in.
    Unauthorized,
    /// The feed URL is not a syntactically valid URI.
    InvalidUrl,
}

/// The view of a list of strings: the list of their character sequences.
pub open spec fn texts(v: Seq<String>) -> Seq<Seq<char>> {
    Seq::new(v.len(), |i: int| v[i]@)
}

/// A registered user.
#[derive(Debug, PartialEq, Eq)]
pub struct User {
    /// The display name; several users may share one.
    pub name: String,
    /// The user's id: the 128 bits of a UUID.
    pub id: u128,
    /// The feed URLs the user is subscribed to, oldest first.
    pub subscribed: Vec<String>,
}

/// What a `User` stands for in contracts.
pub struct UserView {
    pub name: Seq<char>,
    pub id: u128,
    pub subscribed: Seq<Seq<char>>,
}

impl View for User {
    type V = UserView;

    open spec fn view(&self) -> UserView {
        UserView { name: self.name@, id: self.id, subscribed: texts(self.subscribed@) }
    }
}

/// Copies a list of strings.
pub fn clone_strings(v: &Vec<String>) -> (r: Vec<String>)
    ensures
        texts(r@) == texts(v@),
{
    let mut out: Vec<String> = Vec::new();
    let mut i: usize = 0;
    while i < v.len()
        invariant
            i <= v.len(),
            out.len() == i,
            forall|j: int| 0 <= j < i ==> out[j]@ == v[j]@,
        decreases v.len() - i,
    {
        out.push(v[i].clone());
        i += 1;
    }
    out
}

impl Clone for User {
    fn clone(&self) -> (r: User)
        ensures
            r@ == self@,
    {
        User { name: self.name.clone(), id: self.id, subscribed: clone_strings(&self.subscribed) }
    }
}

/// A podcast channel, known to the store under its feed URL.
#[derive(Debug, PartialEq, Eq)]
pub struct PodcastChannel {
    /// The channel's title.
    pub name: String,
    pub description: String,
    /// The feed URL, which identifies the channel.
    pub rss: String,
    /// The id the channel was given when it was filed: the 128 bits of a
    /// UUID.
    pub id: u128,
}

/// What a `PodcastChannel` stands for in contracts.
pub struct PodcastView {
    pub name: Seq<char>,
    pub description: Seq<char>,
    pub rss: Seq<char>,
    pub id: u128,
}

impl View for PodcastChannel {
    type V = PodcastView;

    open spec fn view(&self) -> PodcastView {
        PodcastView {
            name: self.name@,
            description: self.description@,
            rss: self.rss@,
            id: self.id,
        }
    }
}

impl Clone for PodcastChannel {
    fn clone(&self) -> (r: PodcastChannel)
        ensures
            r@ == self@,
    {
        PodcastChannel {
            name: self.name.clone(),
            description: self.description.clone(),
            rss: self.rss.clone(),
            id: self.id,
        }
    }
}

} // verus!
