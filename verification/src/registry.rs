//! The capability registry: the landing page and the declaration of
//! conformance, to which each resource module adds its part at startup.

use crate::link::{data_link, links_of, Link, LinkView};
use crate::text::texts_of;
use vstd::prelude::*;
use vstd::string::StringExecFns;

verus! {

/// Conformance class of the core of the common standard.
pub const CONFORMANCE_CORE: &'static str =
    "http://www.opengis.net/spec/ogcapi-common-1/1.0/req/core";

/// Conformance class of collections.
pub const CONFORMANCE_COLLECTIONS: &'static str =
    "http://www.opengis.net/spec/ogcapi-common-2/1.0/req/collections";

/// Conformance class of the JSON encoding.
pub const CONFORMANCE_JSON: &'static str =
    "http://www.opengis.net/spec/ogcapi_common-2/1.0/req/json";

/// The landing page: links to what the service offers.
#[derive(Debug, Clone, PartialEq, Eq)]
pub struct LandingPage {
    pub links: Vec<Link>,
}

/// The declaration of the conformance classes that the service meets.
#[derive(Debug, Clone, PartialEq, Eq)]
pub struct Conformance {
    pub conforms_to: Vec<String>,
}

/// The documents that describe what the service can do.
#[derive(Debug, Clone, PartialEq, Eq)]
pub struct Registry {
    pub root: LandingPage,
    pub conformance: Conformance,
}

/// The mathematical value of a [`Registry`].
pub ghost struct RegistryView {
    /// The links of the landing page.
    pub links: Seq<LinkView>,
    /// The conformance classes declared.
    pub conforms_to: Seq<Seq<char>>,
}

impl View for Registry {
    type V = RegistryView;

    open spec fn view(&self) -> RegistryView {
        RegistryView {
            links: links_of(self.root.links@),
            conforms_to: texts_of(self.conformance.conforms_to@),
        }
    }
}

/// The conformance classes that the collections module declares.
pub open spec fn collection_classes() -> Seq<Seq<char>> {
    seq![CONFORMANCE_CORE@, CONFORMANCE_COLLECTIONS@, CONFORMANCE_JSON@]
}

/// A registry once the collections module of the service at `remote` has
/// registered: the landing page gains the `data` link, the declaration gains
/// the classes of the module, both after what was there.
pub open spec fn registered(registry: RegistryView, remote: Seq<char>) -> RegistryView {
    RegistryView {
        links: registry.links.push(data_link(remote)),
        conforms_to: registry.conforms_to + collection_classes(),
    }
}

impl Registry {
    /// A registry in which nothing is registered.
    pub fn new() -> (registry: Registry)
        ensures
            registry@ == (RegistryView { links: Seq::empty(), conforms_to: Seq::empty() }),
    {
        let registry = Registry {
            root: LandingPage { links: Vec::new() },
            conformance: Conformance { conforms_to: Vec::new() },
        };
        assert(registry@.links =~= Seq::empty());
        assert(registry@.conforms_to =~= Seq::empty());
        registry
    }

    /// Registers the collections module of the service at `remote`.
    pub fn register(&mut self, remote: &str)
        ensures
            final(self)@ == registered(old(self)@, remote@),
            old(self)@.links.is_prefix_of(final(self)@.links),
            old(self)@.conforms_to.is_prefix_of(final(self)@.conforms_to),
    {
        self.root.links.push(Link::data(remote));
        self.conformance.conforms_to.push(String::from_str(CONFORMANCE_CORE));
        self.conformance.conforms_to.push(String::from_str(CONFORMANCE_COLLECTIONS));
        self.conformance.conforms_to.push(String::from_str(CONFORMANCE_JSON));
        proof {
            let model = registered(old(self)@, remote@);
            assert(self@.links =~= model.links);
            assert(self@.conforms_to =~= model.conforms_to);
        }
    }
}

/// Registration only adds: what a registry held stays, in place and in order,
/// at the front of what it holds afterwards.
pub proof fn lemma_registration_grows(registry: RegistryView, remote: Seq<char>)
    ensures
        registry.links.is_prefix_of(registered(registry, remote).links),
        registry.conforms_to.is_prefix_of(registered(registry, remote).conforms_to),
        registered(registry, remote).links.len() == registry.links.len() + 1,
        registered(registry, remote).conforms_to.len() == registry.conforms_to.len() + 3,
{
}

} // verus!
