//! Reading a channel's title and description out of an RSS document.
//!
//! The XML itself is parsed by `roxmltree`. Its tree is handed over as a flat
//! list of nodes in document order, and the search for `rss > channel >
//! title / description` runs, verified, on that list.

use crate::records::Error;
use vstd::prelude::*;

verus! {

/// One node of a parsed XML document.
#[derive(Debug, PartialEq, Eq)]
pub struct XmlNode {
    /// The position of the parent node in the document's node list; `None`
    /// for the root.
    pub parent: Option<usize>,
    /// The local tag name of an element; empty for every other kind of node.
    pub name: String,
    /// The text of a text or comment node; for an element, the text of its
    /// first child where that child is a text node.
    pub text: Option<String>,
}

/// What an `XmlNode` stands for in contracts.
pub struct XmlNodeView {
    pub parent: Option<usize>,
    pub name: Seq<char>,
    pub text: Option<Seq<char>>,
}

impl View for XmlNode {
    type V = XmlNodeView;

    open spec fn view(&self) -> XmlNodeView {
        XmlNodeView {
            parent: self.parent,
            name: self.name@,
            text: match self.text {
                Some(t) => Some(t@),
                None => None,
            },
        }
    }
}

/// The position of the root node in a document's node list.
pub const ROOT: usize = 0;

/// The view of a node list: the list of the nodes' views.
pub open spec fn node_views(nodes: Seq<XmlNode>) -> Seq<XmlNodeView> {
    Seq::new(nodes.len(), |i: int| nodes[i]@)
}

/// The nodes that `roxmltree` makes of a document, in document order and
/// starting with the root node; `None` where it rejects the text.
pub uninterp spec fn document_nodes(text: Seq<char>) -> Option<Seq<XmlNodeView>>;

/// Parses `text` with `roxmltree::Document::parse` and lists the document's
/// nodes as `Document::descendants` yields them, each with its parent's id
/// (`Node::parent`, `NodeId::get_usize`), its local tag name
/// (`Node::tag_name`) and its text (`Node::text`). Trusted: the result is
/// only given the name `document_nodes`; that parsing depends on the text
/// alone is what the contract claims.
#[verifier::external_body]
fn parse_document(text: &str) -> (r: Option<Vec<XmlNode>>)
    ensures
        match r {
            Some(nodes) => document_nodes(text@) == Some(node_views(nodes@)),
            None => document_nodes(text@).is_none(),
        },
{
    match roxmltree::Document::parse(text) {
        Ok(doc) => Some(
            doc.descendants().map(
                |n| XmlNode {
                    parent: n.parent().map(|p| p.id().get_usize()),
                    name: n.tag_name().name().to_string(),
                    text: n.text().map(|t| t.to_string()),
                },
            ).collect(),
        ),
        Err(_) => None,
    }
}

/// Node `i` is a child of node `parent` and carries the tag name `name`.
pub open spec fn is_child_named(
    nodes: Seq<XmlNodeView>,
    i: int,
    parent: usize,
    name: Seq<char>,
) -> bool {
    0 <= i < nodes.len() && nodes[i].parent == Some(parent) && nodes[i].name == name
}

/// Node `i` is the first child of `parent`, in document order, with the tag
/// name `name`.
pub open spec fn is_first_child_named(
    nodes: Seq<XmlNodeView>,
    i: int,
    parent: usize,
    name: Seq<char>,
) -> bool {
    is_child_named(nodes, i, parent, name) && forall|j: int|
        0 <= j < i ==> !is_child_named(nodes, j, parent, name)
}

/// The position of the first child of `parent` with the tag name `name`.
pub open spec fn first_child_named(
    nodes: Seq<XmlNodeView>,
    parent: usize,
    name: Seq<char>,
) -> Option<usize> {
    if exists|i: int| is_first_child_named(nodes, i, parent, name) {
        Some((choose|i: int| is_first_child_named(nodes, i, parent, name)) as usize)
    } else {
        None
    }
}

/// At most one node is the first child of a given name.
pub proof fn lemma_first_child_unique(
    nodes: Seq<XmlNodeView>,
    i: int,
    parent: usize,
    name: Seq<char>,
)
    requires
        is_first_child_named(nodes, i, parent, name),
        nodes.len() <= usize::MAX,
    ensures
        first_child_named(nodes, parent, name) == Some(i as usize),
{
}

/// Finds the first child of node `parent` whose tag name is `name`.
pub fn find_child(nodes: &Vec<XmlNode>, parent: usize, name: &str) -> (r: Option<usize>)
    ensures
        r == first_child_named(node_views(nodes@), parent, name@),
        r matches Some(i) ==> is_first_child_named(node_views(nodes@), i as int, parent, name@),
{
    let target: String = name.to_owned();
    let ghost views = node_views(nodes@);
    let mut i: usize = 0;
    while i < nodes.len()
        invariant
            i <= nodes.len(),
            views == node_views(nodes@),
            target@ == name@,
            forall|j: int| 0 <= j < i ==> !is_child_named(views, j, parent, name@),
        decreases nodes.len() - i,
    {
        let node = &nodes[i];
        let under_parent = match node.parent {
            Some(p) => p == parent,
            None => false,
        };
        if under_parent && node.name == target {
            proof {
                lemma_first_child_unique(views, i as int, parent, name@);
            }
            return Some(i);
        }
        i += 1;
    }
    None
}

/// What a feed says of its channel.
#[derive(Debug, PartialEq, Eq)]
pub struct FeedInfo {
    pub title: String,
    pub description: String,
}

/// What a `FeedInfo` stands for in contracts.
pub struct FeedInfoView {
    pub title: Seq<char>,
    pub description: Seq<char>,
}

impl View for FeedInfo {
    type V = FeedInfoView;

    open spec fn view(&self) -> FeedInfoView {
        FeedInfoView { title: self.title@, description: self.description@ }
    }
}

/// The text of the first child of `parent` named `name`, where there is such
/// a child and it has text.
pub open spec fn child_text(nodes: Seq<XmlNodeView>, parent: usize, name: Seq<char>) -> Option<
    Seq<char>,
> {
    match first_child_named(nodes, parent, name) {
        Some(i) => nodes[i as int].text,
        None => None,
    }
}

/// The title and description of the channel of an RSS document: the root's
/// first `rss` child, that element's first `channel` child, and the text of
/// the channel's first `title` and first `description` children. `None`
/// where any of them is missing.
pub open spec fn channel_info(nodes: Seq<XmlNodeView>) -> Option<FeedInfoView> {
    match first_child_named(nodes, ROOT, "rss"@) {
        None => None,
        Some(rss) => match first_child_named(nodes, rss, "channel"@) {
            None => None,
            Some(channel) => match (
                child_text(nodes, channel, "title"@),
                child_text(nodes, channel, "description"@),
            ) {
                (Some(title), Some(description)) => Some(FeedInfoView { title, description }),
                _ => None,
            },
        },
    }
}

/// Reads the text of the first child of `parent` named `name`.
pub fn read_child_text(nodes: &Vec<XmlNode>, parent: usize, name: &str) -> (r: Option<String>)
    ensures
        match r {
            Some(t) => child_text(node_views(nodes@), parent, name@) == Some(t@),
            None => child_text(node_views(nodes@), parent, name@).is_none(),
        },
{
    match find_child(nodes, parent, name) {
        Some(i) => match &nodes[i].text {
            Some(t) => Some(t.clone()),
            None => None,
        },
        None => None,
    }
}

/// What `extract_channel` returns for a node list.
pub open spec fn channel_result(nodes: Seq<XmlNodeView>) -> Result<FeedInfoView, Error> {
    match channel_info(nodes) {
        Some(info) => Ok(info),
        None => Err(Error::Parse),
    }
}

/// The view of the outcome of reading a feed.
pub open spec fn feed_view(r: Result<FeedInfo, Error>) -> Result<FeedInfoView, Error> {
    match r {
        Ok(info) => Ok(info@),
        Err(e) => Err(e),
    }
}

/// Extracts the channel's title and description from the nodes of an RSS
/// document, or reports `Error::Parse` where the document lacks them.
pub fn extract_channel(nodes: &Vec<XmlNode>) -> (r: Result<FeedInfo, Error>)
    ensures
        feed_view(r) == channel_result(node_views(nodes@)),
{
    let rss = match find_child(nodes, ROOT, "rss") {
        Some(i) => i,
        None => { return Err(Error::Parse); },
    };
    let channel = match find_child(nodes, rss, "channel") {
        Some(i) => i,
        None => { return Err(Error::Parse); },
    };
    let title = read_child_text(nodes, channel, "title");
    let description = read_child_text(nodes, channel, "description");
    match (title, description) {
        (Some(title), Some(description)) => Ok(FeedInfo { title, description }),
        _ => Err(Error::Parse),
    }
}

/// What `parse_rss` returns for a document's text.
pub open spec fn feed_of(body: Seq<char>) -> Result<FeedInfoView, Error> {
    match document_nodes(body) {
        Some(nodes) => channel_result(nodes),
        None => Err(Error::Parse),
    }
}

/// Parses the body of a feed and extracts the channel's title and
/// description. Fails with `Error::Parse` where the body is not well-formed
/// XML or lacks the `rss > channel` structure with both elements.
pub fn parse_rss(body: &str) -> (r: Result<FeedInfo, Error>)
    ensures
        feed_view(r) == feed_of(body@),
{
    match parse_document(body) {
        Some(nodes) => extract_channel(&nodes),
        None => Err(Error::Parse),
    }
}

} // verus!
