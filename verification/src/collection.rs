//! Collections of resources, their extents, and the envelope in which a list
//! of collections is served.

use crate::link::{links_of, Link, LinkView};
use crate::text::{text_of, texts_of};
use vstd::prelude::*;

verus! {

/// The temporal extent of a collection.
#[derive(Debug, Clone, PartialEq, Eq)]
pub struct TemporalExtent {
    /// Time intervals, each a pair of instants in text form.
    pub interval: Option<Vec<Vec<String>>>,
    /// The temporal reference system of the intervals.
    pub trs: Option<String>,
}

/// The mathematical value of a [`TemporalExtent`].
pub ghost struct TemporalExtentView {
    pub interval: Option<Seq<Seq<Seq<char>>>>,
    pub trs: Option<Seq<char>>,
}

impl View for TemporalExtent {
    type V = TemporalExtentView;

    open spec fn view(&self) -> TemporalExtentView {
        TemporalExtentView {
            interval: match self.interval {
                Some(rows) => Some(rows@.map_values(|row: Vec<String>| texts_of(row@))),
                None => None,
            },
            trs: text_of(self.trs),
        }
    }
}

/// The spatial extent of a collection.
#[derive(Debug, Clone, PartialEq, Eq)]
pub struct SpatialExtent {
    /// Bounding boxes, each a sequence of coordinates. A coordinate is held as
    /// the 64 bits of its IEEE 754 binary encoding: the service carries
    /// coordinates through and never computes on them.
    pub bbox: Option<Vec<Vec<u64>>>,
    /// The coordinate reference system of the boxes.
    pub crs: Option<String>,
}

/// The mathematical value of a [`SpatialExtent`].
pub ghost struct SpatialExtentView {
    pub bbox: Option<Seq<Seq<u64>>>,
    pub crs: Option<Seq<char>>,
}

impl View for SpatialExtent {
    type V = SpatialExtentView;

    open spec fn view(&self) -> SpatialExtentView {
        SpatialExtentView {
            bbox: match self.bbox {
                Some(boxes) => Some(boxes@.map_values(|b: Vec<u64>| b@)),
                None => None,
            },
            crs: text_of(self.crs),
        }
    }
}

/// The extent of a collection in space and time.
#[derive(Debug, Clone, PartialEq, Eq)]
pub struct Extent {
    pub spatial: Option<SpatialExtent>,
    pub temporal: Option<TemporalExtent>,
}

/// The mathematical value of an [`Extent`].
pub ghost struct ExtentView {
    pub spatial: Option<SpatialExtentView>,
    pub temporal: Option<TemporalExtentView>,
}

impl View for Extent {
    type V = ExtentView;

    open spec fn view(&self) -> ExtentView {
        ExtentView {
            spatial: match self.spatial {
                Some(s) => Some(s@),
                None => None,
            },
            temporal: match self.temporal {
                Some(t) => Some(t@),
                None => None,
            },
        }
    }
}

/// A body of resources that belong or are used together.
#[derive(Debug, Clone, PartialEq, Eq)]
pub struct Collection {
    /// The identifier under which the collection is stored and addressed.
    pub id: String,
    pub title: Option<String>,
    pub description: Option<String>,
    pub links: Vec<Link>,
    pub extent: Option<Extent>,
    pub item_type: Option<String>,
    /// The coordinate reference systems in which the items can be had.
    pub crs: Option<Vec<String>>,
    pub storage_crs: Option<String>,
    /// The epoch of the storage reference system, held as the 32 bits of its
    /// IEEE 754 binary encoding.
    pub storage_crs_coordinate_epoch: Option<u32>,
}

/// The mathematical value of a [`Collection`].
pub ghost struct CollectionView {
    pub id: Seq<char>,
    pub title: Option<Seq<char>>,
    pub description: Option<Seq<char>>,
    pub links: Seq<LinkView>,
    pub extent: Option<ExtentView>,
    pub item_type: Option<Seq<char>>,
    pub crs: Option<Seq<Seq<char>>>,
    pub storage_crs: Option<Seq<char>>,
    pub storage_crs_coordinate_epoch: Option<u32>,
}

impl View for Collection {
    type V = CollectionView;

    open spec fn view(&self) -> CollectionView {
        CollectionView {
            id: self.id@,
            title: text_of(self.title),
            description: text_of(self.description),
            links: links_of(self.links@),
            extent: match self.extent {
                Some(e) => Some(e@),
                None => None,
            },
            item_type: text_of(self.item_type),
            crs: match self.crs {
                Some(c) => Some(texts_of(c@)),
                None => None,
            },
            storage_crs: text_of(self.storage_crs),
            storage_crs_coordinate_epoch: self.storage_crs_coordinate_epoch,
        }
    }
}

/// The values of a sequence of collections, in order.
pub open spec fn collections_of(rows: Seq<Collection>) -> Seq<CollectionView> {
    rows.map_values(|c: Collection| c@)
}

impl Default for Collection {
    /// The collection with an empty identifier and nothing else.
    fn default() -> (collection: Collection)
        ensures
            collection@ == (CollectionView {
                id: Seq::empty(),
                title: None,
                description: None,
                links: Seq::empty(),
                extent: None,
                item_type: None,
                crs: None,
                storage_crs: None,
                storage_crs_coordinate_epoch: None,
            }),
    {
        let collection = Collection {
            id: String::new(),
            title: None,
            description: None,
            links: Vec::new(),
            extent: None,
            item_type: None,
            crs: None,
            storage_crs: None,
            storage_crs_coordinate_epoch: None,
        };
        assert(collection@.links =~= Seq::empty());
        collection
    }
}

/// The envelope in which a list of collections is served.
#[derive(Debug, Clone, PartialEq, Eq)]
pub struct Collections {
    /// Links that describe the envelope itself.
    pub links: Vec<Link>,
    /// When the envelope was made.
    pub time_stamp: Option<String>,
    pub number_matched: Option<usize>,
    pub number_returned: Option<usize>,
    /// The coordinate reference systems that the service supports.
    pub crs: Vec<String>,
    pub collections: Vec<Collection>,
}

/// The mathematical value of a [`Collections`] envelope.
pub ghost struct CollectionsView {
    pub links: Seq<LinkView>,
    pub time_stamp: Option<Seq<char>>,
    pub number_matched: Option<usize>,
    pub number_returned: Option<usize>,
    pub crs: Seq<Seq<char>>,
    pub collections: Seq<CollectionView>,
}

impl View for Collections {
    type V = CollectionsView;

    open spec fn view(&self) -> CollectionsView {
        CollectionsView {
            links: links_of(self.links@),
            time_stamp: text_of(self.time_stamp),
            number_matched: self.number_matched,
            number_returned: self.number_returned,
            crs: texts_of(self.crs@),
            collections: collections_of(self.collections@),
        }
    }
}

impl Default for Collections {
    /// The envelope that holds nothing.
    fn default() -> (envelope: Collections)
        ensures
            envelope@ == (CollectionsView {
                links: Seq::empty(),
                time_stamp: None,
                number_matched: None,
                number_returned: None,
                crs: Seq::empty(),
                collections: Seq::empty(),
            }),
    {
        let envelope = Collections {
            links: Vec::new(),
            time_stamp: None,
            number_matched: None,
            number_returned: None,
            crs: Vec::new(),
            collections: Vec::new(),
        };
        assert(envelope@.links =~= Seq::empty());
        assert(envelope@.crs =~= Seq::empty());
        assert(envelope@.collections =~= Seq::empty());
        envelope
    }
}

} // verus!
