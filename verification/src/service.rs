//! The collection resource service: what is served for each operation on
//! collections, given what the store answered.

use crate::collection::{collections_of, Collection, CollectionView, Collections, CollectionsView};
use crate::link::{document_link, items_link, resource_href, resource_link, Link, REL_SELF};
use crate::request_url::BaseUrl;
use crate::status::{CONFLICT, CREATED, INTERNAL_SERVER_ERROR, NOT_FOUND, NO_CONTENT};
use crate::text::text_of;
use chrono::Utc;
use vstd::prelude::*;
use vstd::string::StringExecFns;

verus! {

/// The coordinate reference system that every collection is served in.
pub const DEFAULT_CRS: &'static str = "http://www.opengis.net/def/crs/OGC/1.3/CRS84";

/// WGS 84 with axes in the order of the EPSG registry.
pub const EPSG_4326: &'static str = "http://www.opengis.net/def/crs/EPSG/0/4326";

/// Why an operation on collections failed.
#[derive(Debug, Clone, Copy, PartialEq, Eq, Structural)]
pub enum Error {
    /// The store holds no collection with the identifier asked for.
    NotFound,
    /// The store already holds a collection with the identifier offered.
    Conflict,
    /// The store failed for any other reason.
    StoreError,
}

/// The status with which a failure is answered.
pub open spec fn status_of(error: Error) -> u16 {
    match error {
        Error::NotFound => NOT_FOUND,
        Error::Conflict => CONFLICT,
        Error::StoreError => INTERNAL_SERVER_ERROR,
    }
}

/// The reason that the answer to a failure gives: the name of its status,
/// and nothing of what went wrong inside.
pub open spec fn reason_of(error: Error) -> Seq<char> {
    match error {
        Error::NotFound => "Not Found"@,
        Error::Conflict => "Conflict"@,
        Error::StoreError => "Internal Server Error"@,
    }
}

impl Error {
    /// The status with which the failure is answered.
    pub fn status(&self) -> (status: u16)
        ensures
            status == status_of(*self),
    {
        match self {
            Error::NotFound => NOT_FOUND,
            Error::Conflict => CONFLICT,
            Error::StoreError => INTERNAL_SERVER_ERROR,
        }
    }

    /// The reason that the answer to the failure gives.
    pub fn reason(&self) -> (reason: String)
        ensures
            reason@ == reason_of(*self),
    {
        match self {
            Error::NotFound => String::from_str("Not Found"),
            Error::Conflict => String::from_str("Conflict"),
            Error::StoreError => String::from_str("Internal Server Error"),
        }
    }
}

/// A stored collection as an entry of the list served at `base`: the stored
/// fields, and after the stored links a `self` link and an `items` link.
pub open spec fn listed(base: Seq<char>, row: CollectionView) -> CollectionView {
    CollectionView {
        links: row.links.push(resource_link(base, row.id)).push(
            items_link(resource_href(base, row.id), row.title, row.id),
        ),
        ..row
    }
}

/// A stored collection as the document served at `base`: the stored fields,
/// and after the stored links an `items` link.
pub open spec fn fetched(base: Seq<char>, row: CollectionView) -> CollectionView {
    CollectionView { links: row.links.push(items_link(base, row.title, row.id)), ..row }
}

/// The coordinate reference systems that every list advertises.
pub open spec fn advertised_crs() -> Seq<Seq<char>> {
    seq![DEFAULT_CRS@, EPSG_4326@]
}

/// The list of the stored collections `rows` as served at `base`.
pub open spec fn envelope(
    base: Seq<char>,
    rows: Seq<CollectionView>,
    time_stamp: Option<Seq<char>>,
) -> CollectionsView {
    CollectionsView {
        links: seq![document_link(base)],
        time_stamp,
        number_matched: None,
        number_returned: None,
        crs: advertised_crs(),
        collections: rows.map_values(|row: CollectionView| listed(base, row)),
    }
}

/// Adds to a stored collection the links of an entry of the list at `base`.
pub fn list_entry(base: &BaseUrl, row: Collection) -> (entry: Collection)
    ensures
        entry@ == listed(base@, row@),
{
    let mut entry = row;
    let resource = Link::resource(base.as_str(), entry.id.as_str());
    let items = Link::items(resource.href.as_str(), &entry.title, entry.id.as_str());
    entry.links.push(resource);
    entry.links.push(items);
    assert(entry@.links =~= listed(base@, row@).links);
    entry
}

/// Adds to a stored collection the link of the document served at `base`.
pub fn document(base: &BaseUrl, row: Collection) -> (served: Collection)
    ensures
        served@ == fetched(base@, row@),
{
    let mut served = row;
    let items = Link::items(base.as_str(), &served.title, served.id.as_str());
    served.links.push(items);
    assert(served@.links =~= fetched(base@, row@).links);
    served
}

/// The list of the stored collections `rows` as served at `base`, marked as
/// made at `time_stamp`.
pub fn assemble(base: &BaseUrl, rows: Vec<Collection>, time_stamp: Option<String>) -> (list:
    Collections)
    ensures
        list@ == envelope(base@, collections_of(rows@), text_of(time_stamp)),
{
    let ghost stored = rows@;
    let mut entries: Vec<Collection> = Vec::new();
    for row in it: rows.into_iter()
        invariant
            it.seq() == stored,
            entries@.len() == it.index(),
            forall|i: int|
                0 <= i < entries@.len() ==> (#[trigger] entries@[i])@ == listed(base@, stored[i]@),
    {
        let entry = list_entry(base, row);
        entries.push(entry);
    }
    let mut crs: Vec<String> = Vec::new();
    crs.push(String::from_str(DEFAULT_CRS));
    crs.push(String::from_str(EPSG_4326));
    let mut links: Vec<Link> = Vec::new();
    links.push(Link::document(base.as_str()));
    let list = Collections {
        links,
        time_stamp,
        number_matched: None,
        number_returned: None,
        crs,
        collections: entries,
    };
    proof {
        let model = envelope(base@, collections_of(stored), text_of(time_stamp));
        assert(list@.links =~= model.links);
        assert(list@.crs =~= model.crs);
        assert(list@.collections =~= model.collections);
    }
    list
}

/// Calls `chrono::Utc::now` and writes the instant it returns with
/// `DateTime::to_rfc3339`. The text depends on the clock, so the contract
/// claims nothing of it. `Utc::now` panics where the clock of the machine
/// stands before 1970.
#[verifier::external_body]
fn now_rfc3339() -> String {
    Utc::now().to_rfc3339()
}

/// The list of collections served at `base`, given what the store answered
/// when asked for all of them: the envelope of the rows, marked with the
/// current time, or the failure of the store.
pub fn collections(base: &BaseUrl, stored: Result<Vec<Collection>, Error>) -> (served: Result<
    Collections,
    Error,
>)
    ensures
        match stored {
            Ok(rows) => served is Ok && served->Ok_0@.time_stamp is Some && served->Ok_0@
                == envelope(base@, collections_of(rows@), served->Ok_0@.time_stamp),
            Err(failure) => served == Err::<Collections, Error>(failure),
        },
{
    match stored {
        Ok(rows) => Ok(assemble(base, rows, Some(now_rfc3339()))),
        Err(failure) => Err(failure),
    }
}

/// The answer to a creation, given what the store answered when handed the
/// new collection: 201 and the address the store gave the collection, or the
/// failure of the store.
pub fn insert(stored: Result<String, Error>) -> (served: Result<(u16, String), Error>)
    ensures
        match stored {
            Ok(location) => served == Ok::<(u16, String), Error>((CREATED, location)),
            Err(failure) => served == Err::<(u16, String), Error>(failure),
        },
{
    match stored {
        Ok(location) => Ok((CREATED, location)),
        Err(failure) => Err(failure),
    }
}

/// The collection served at `base`, given what the store answered when asked
/// for it: the row with its `items` link added, or the failure of the store.
pub fn read(base: &BaseUrl, stored: Result<Collection, Error>) -> (served: Result<
    Collection,
    Error,
>)
    ensures
        match stored {
            Ok(row) => served is Ok && served->Ok_0@ == fetched(base@, row@),
            Err(failure) => served == Err::<Collection, Error>(failure),
        },
{
    match stored {
        Ok(row) => Ok(document(base, row)),
        Err(failure) => Err(failure),
    }
}

/// The row that replaces the collection addressed as `collection_id`: the
/// collection of the request, under the identifier of the address whatever
/// identifier the request gave it.
pub fn update(collection_id: String, collection: Collection) -> (row: Collection)
    ensures
        row@ == (CollectionView { id: collection_id@, ..collection@ }),
{
    let mut row = collection;
    row.id = collection_id;
    row
}

/// The answer to a replacement, given what the store answered when handed the
/// row of [`update`]: 204, or the failure of the store.
pub fn updated(stored: Result<(), Error>) -> (served: Result<u16, Error>)
    ensures
        match stored {
            Ok(_) => served == Ok::<u16, Error>(NO_CONTENT),
            Err(failure) => served == Err::<u16, Error>(failure),
        },
{
    match stored {
        Ok(_) => Ok(NO_CONTENT),
        Err(failure) => Err(failure),
    }
}

/// The answer to a removal, given what the store answered when asked to
/// delete the collection: 204, or the failure of the store.
pub fn remove(stored: Result<(), Error>) -> (served: Result<u16, Error>)
    ensures
        match stored {
            Ok(_) => served == Ok::<u16, Error>(NO_CONTENT),
            Err(failure) => served == Err::<u16, Error>(failure),
        },
{
    match stored {
        Ok(_) => Ok(NO_CONTENT),
        Err(failure) => Err(failure),
    }
}

/// Serving a stored collection adds links and changes nothing else: every
/// stored field is served as it was stored, the stored links come first and
/// in their order, and the generated links follow them. This holds of the
/// document of one collection and of each entry of a list.
pub proof fn lemma_stored_fields_served(base: Seq<char>, row: CollectionView)
    ensures
        fetched(base, row) == (CollectionView { links: fetched(base, row).links, ..row }),
        row.links.is_prefix_of(fetched(base, row).links),
        fetched(base, row).links.len() == row.links.len() + 1,
        fetched(base, row).links.last() == items_link(base, row.title, row.id),
        listed(base, row) == (CollectionView { links: listed(base, row).links, ..row }),
        row.links.is_prefix_of(listed(base, row).links),
        listed(base, row).links.len() == row.links.len() + 2,
        listed(base, row).links[row.links.len() as int] == resource_link(base, row.id),
        listed(base, row).links.last() == items_link(
            resource_href(base, row.id),
            row.title,
            row.id,
        ),
{
}

/// The list of no collections is an envelope without entries that carries
/// its `self` link.
pub proof fn lemma_empty_list(base: Seq<char>, time_stamp: Option<Seq<char>>)
    ensures
        envelope(base, Seq::empty(), time_stamp).collections == Seq::<CollectionView>::empty(),
        envelope(base, Seq::empty(), time_stamp).links == seq![document_link(base)],
{
    assert(envelope(base, Seq::empty(), time_stamp).collections =~= Seq::empty());
}

/// Every list carries one link, its `self` link at the address it is served
/// at, and one entry for each stored collection, in the order of the store;
/// each entry carries a `self` link at its own address.
pub proof fn lemma_list_links(
    base: Seq<char>,
    rows: Seq<CollectionView>,
    time_stamp: Option<Seq<char>>,
)
    ensures
        envelope(base, rows, time_stamp).links.len() == 1,
        envelope(base, rows, time_stamp).links[0].rel == REL_SELF@,
        envelope(base, rows, time_stamp).links[0].href == base,
        envelope(base, rows, time_stamp).collections.len() == rows.len(),
        forall|i: int|
            0 <= i < rows.len() ==> (#[trigger] envelope(base, rows, time_stamp).collections[i])
                == listed(base, rows[i]),
        forall|i: int|
            0 <= i < rows.len() ==> (#[trigger] envelope(
                base,
                rows,
                time_stamp,
            ).collections[i]).links[rows[i].links.len() as int] == resource_link(base, rows[i].id),
{
}

} // verus!
