//! Hypermedia links and the rules by which the service derives them.

use crate::text::{join, text_of};
use vstd::prelude::*;
use vstd::string::StringExecFns;

verus! {

/// Relation type of a link to the document itself.
pub const REL_SELF: &'static str = "self";

/// Relation type of a link to the items of a collection.
pub const REL_ITEMS: &'static str = "items";

/// Relation type of a link to the collections of a dataset.
pub const REL_DATA: &'static str = "data";

/// Media type of collection and collection-list documents.
pub const MEDIA_JSON: &'static str = "application/json";

/// Media type of feature (item-set) documents.
pub const MEDIA_GEO_JSON: &'static str = "application/geo+json";

/// A hypermedia link embedded in a response.
#[derive(Debug, Clone, PartialEq, Eq)]
pub struct Link {
    /// The target of the link.
    pub href: String,
    /// The relation type.
    pub rel: String,
    /// The media type of the target, if advertised.
    pub media_type: Option<String>,
    /// A human-readable title, if any.
    pub title: Option<String>,
}

/// The mathematical value of a [`Link`].
pub ghost struct LinkView {
    pub href: Seq<char>,
    pub rel: Seq<char>,
    pub media_type: Option<Seq<char>>,
    pub title: Option<Seq<char>>,
}

impl View for Link {
    type V = LinkView;

    open spec fn view(&self) -> LinkView {
        LinkView {
            href: self.href@,
            rel: self.rel@,
            media_type: text_of(self.media_type),
            title: text_of(self.title),
        }
    }
}

/// The values of a sequence of links, in order.
pub open spec fn links_of(links: Seq<Link>) -> Seq<LinkView> {
    links.map_values(|l: Link| l@)
}

impl Link {
    /// A link to `href` with relation `rel`, without media type or title.
    pub fn new(href: String, rel: &str) -> (link: Link)
        ensures
            link@ == (LinkView { href: href@, rel: rel@, media_type: None, title: None }),
    {
        Link { href, rel: String::from_str(rel), media_type: None, title: None }
    }

    /// The same link, advertising `media_type`.
    pub fn mime(self, media_type: &str) -> (link: Link)
        ensures
            link@ == (LinkView { media_type: Some(media_type@), ..self@ }),
    {
        Link {
            href: self.href,
            rel: self.rel,
            media_type: Some(String::from_str(media_type)),
            title: self.title,
        }
    }

    /// The same link, titled `title`.
    pub fn title(self, title: String) -> (link: Link)
        ensures
            link@ == (LinkView { title: Some(title@), ..self@ }),
    {
        Link { href: self.href, rel: self.rel, media_type: self.media_type, title: Some(title) }
    }
}

/// The title of a collection where it has one, else its identifier.
pub open spec fn title_or_id(title: Option<Seq<char>>, id: Seq<char>) -> Seq<char> {
    match title {
        Some(t) => t,
        None => id,
    }
}

/// The title of the link to a collection's items.
pub open spec fn items_title(title: Option<Seq<char>>, id: Seq<char>) -> Seq<char> {
    "Items of "@ + title_or_id(title, id)
}

/// The address of the collection `id` below the collection list at `base`.
pub open spec fn resource_href(base: Seq<char>, id: Seq<char>) -> Seq<char> {
    base + "/"@ + id
}

/// The address of the items of the collection at `resource`.
pub open spec fn items_href(resource: Seq<char>) -> Seq<char> {
    resource + "/items"@
}

/// The `self` link of a collection list served at `url`.
pub open spec fn document_link(url: Seq<char>) -> LinkView {
    LinkView {
        href: url,
        rel: REL_SELF@,
        media_type: Some(MEDIA_JSON@),
        title: Some("this document"@),
    }
}

/// The `self` link of the collection `id` in a list served at `base`.
pub open spec fn resource_link(base: Seq<char>, id: Seq<char>) -> LinkView {
    LinkView { href: resource_href(base, id), rel: REL_SELF@, media_type: None, title: None }
}

/// The `items` link of the collection `id`, titled `title`, served at `resource`.
pub open spec fn items_link(
    resource: Seq<char>,
    title: Option<Seq<char>>,
    id: Seq<char>,
) -> LinkView {
    LinkView {
        href: items_href(resource),
        rel: REL_ITEMS@,
        media_type: Some(MEDIA_GEO_JSON@),
        title: Some(items_title(title, id)),
    }
}

/// The `data` link that advertises the collection list of the service at `remote`.
pub open spec fn data_link(remote: Seq<char>) -> LinkView {
    LinkView {
        href: remote + "/collections"@,
        rel: REL_DATA@,
        media_type: Some(MEDIA_JSON@),
        title: Some("Metadata about the resource collections"@),
    }
}

impl Link {
    /// The `self` link of a collection list served at `url`.
    pub fn document(url: &str) -> (link: Link)
        ensures
            link@ == document_link(url@),
    {
        Link::new(String::from_str(url), REL_SELF).mime(MEDIA_JSON).title(
            String::from_str("this document"),
        )
    }

    /// The `self` link of the collection `id` in a list served at `base`.
    pub fn resource(base: &str, id: &str) -> (link: Link)
        ensures
            link@ == resource_link(base@, id@),
    {
        let mut href = join(base, "/");
        href.append(id);
        Link::new(href, REL_SELF)
    }

    /// The `items` link of the collection `id`, titled `title`, served at `resource`.
    pub fn items(resource: &str, title: &Option<String>, id: &str) -> (link: Link)
        ensures
            link@ == items_link(resource@, text_of(*title), id@),
    {
        let name = match title {
            Some(t) => join("Items of ", t.as_str()),
            None => join("Items of ", id),
        };
        Link::new(join(resource, "/items"), REL_ITEMS).mime(MEDIA_GEO_JSON).title(name)
    }

    /// The `data` link that advertises the collection list of the service at `remote`.
    pub fn data(remote: &str) -> (link: Link)
        ensures
            link@ == data_link(remote@),
    {
        Link::new(join(remote, "/collections"), REL_DATA).title(
            String::from_str("Metadata about the resource collections"),
        ).mime(MEDIA_JSON)
    }
}

} // verus!
