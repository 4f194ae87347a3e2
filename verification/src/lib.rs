//! A verified core for CalDAV and CardDAV clients.
//!
//! The crate models WebDAV multistatus responses, percent-encoded hrefs,
//! request construction and the RFC 6764 discovery sequence as plain data,
//! and proves the parsing and decision logic against those models.
use vstd::prelude::*;
use vstd::string::StringExecFns;

pub mod auth;
pub mod caldav;
pub mod carddav;
pub mod codec;
pub mod common;
pub mod dav;
pub mod names;
pub mod planner;
pub mod sd;
pub mod text;
pub mod xml;

pub use caldav::service_for_url as caldav_service_for_url;
pub use carddav::service_for_url as carddav_service_for_url;
pub use auth::{Auth, Password};
pub use sd::DiscoverableService;

verus! {

/// A WebDAV property identified by a namespace URI and a local name.
#[derive(Debug)]
pub struct PropertyName {
    pub ns: String,
    pub name: String,
}

impl PropertyName {
    /// Builds a property name from a namespace URI and a local name.
    pub fn new(ns: &str, name: &str) -> (r: PropertyName)
        ensures
            r.ns@ == ns@,
            r.name@ == name@,
    {
        PropertyName { ns: String::from_str(ns), name: String::from_str(name) }
    }

    /// A copy of this property name.
    pub fn duplicate(&self) -> (r: PropertyName)
        ensures
            r.ns@ == self.ns@,
            r.name@ == self.name@,
    {
        PropertyName { ns: self.ns.clone(), name: self.name.clone() }
    }
}

/// What kind of resource an entry is, read out of its resourcetype
/// property.
#[derive(Debug, PartialEq, Eq, Structural, Clone, Copy)]
pub struct ResourceType {
    pub is_collection: bool,
    pub is_calendar: bool,
    pub is_address_book: bool,
}

impl ResourceType {
    /// A resource with no known type: every flag is off.
    pub fn none() -> (r: ResourceType)
        ensures
            !r.is_collection && !r.is_calendar && !r.is_address_book,
    {
        ResourceType { is_collection: false, is_calendar: false, is_address_book: false }
    }
}

impl Default for ResourceType {
    /// A resource with no known type: every flag is off.
    fn default() -> (r: ResourceType)
        ensures
            !r.is_collection && !r.is_calendar && !r.is_address_book,
    {
        ResourceType { is_collection: false, is_calendar: false, is_address_book: false }
    }
}

/// Metadata of a single listed resource, without its data.
#[derive(Debug, PartialEq, Eq)]
pub struct ItemDetails {
    pub content_type: Option<String>,
    pub etag: Option<String>,
    pub resource_type: ResourceType,
}

/// The mathematical value of an `ItemDetails`.
pub struct ItemDetailsV {
    pub content_type: Option<Seq<char>>,
    pub etag: Option<Seq<char>>,
    pub resource_type: ResourceType,
}

impl View for ItemDetails {
    type V = ItemDetailsV;

    open spec fn view(&self) -> ItemDetailsV {
        ItemDetailsV {
            content_type: match self.content_type {
                Some(t) => Some(t@),
                None => None,
            },
            etag: match self.etag {
                Some(t) => Some(t@),
                None => None,
            },
            resource_type: self.resource_type,
        }
    }
}

/// One resource found by listing a collection. The href is not
/// percent-encoded.
#[derive(Debug, PartialEq, Eq)]
pub struct ListedResource {
    pub details: ItemDetails,
    pub href: String,
}

/// The mathematical value of a `ListedResource`.
pub struct ListedResourceV {
    pub details: ItemDetailsV,
    pub href: Seq<char>,
}

impl View for ListedResource {
    type V = ListedResourceV;

    open spec fn view(&self) -> ListedResourceV {
        ListedResourceV { details: self.details@, href: self.href@ }
    }
}

/// One collection found while searching a home set. The href is not
/// percent-encoded.
#[derive(Debug, PartialEq, Eq)]
pub struct FoundCollection {
    pub href: String,
    pub etag: Option<String>,
    pub supports_sync: bool,
}

/// The mathematical value of a `FoundCollection`.
pub struct FoundCollectionV {
    pub href: Seq<char>,
    pub etag: Option<Seq<char>>,
    pub supports_sync: bool,
}

impl View for FoundCollection {
    type V = FoundCollectionV;

    open spec fn view(&self) -> FoundCollectionV {
        FoundCollectionV {
            href: self.href@,
            etag: match self.etag {
                Some(t) => Some(t@),
                None => None,
            },
            supports_sync: self.supports_sync,
        }
    }
}

/// The data and version of one fetched resource.
#[derive(Debug, PartialEq, Eq)]
pub struct FetchedResourceContent {
    pub data: String,
    pub etag: String,
}

/// The mathematical value of a `FetchedResourceContent`.
pub struct FetchedResourceContentV {
    pub data: Seq<char>,
    pub etag: Seq<char>,
}

impl View for FetchedResourceContent {
    type V = FetchedResourceContentV;

    open spec fn view(&self) -> FetchedResourceContentV {
        FetchedResourceContentV { data: self.data@, etag: self.etag@ }
    }
}

/// One resource of a multi-get answer: its unescaped href, and either its
/// content or the status code with which fetching it failed.
#[derive(Debug, PartialEq, Eq)]
pub struct FetchedResource {
    pub href: String,
    pub content: Result<FetchedResourceContent, u16>,
}

/// The mathematical value of a `FetchedResource`.
pub struct FetchedResourceV {
    pub href: Seq<char>,
    pub content: Result<FetchedResourceContentV, u16>,
}

impl View for FetchedResource {
    type V = FetchedResourceV;

    open spec fn view(&self) -> FetchedResourceV {
        FetchedResourceV {
            href: self.href@,
            content: match self.content {
                Ok(c) => Ok(c@),
                Err(s) => Err(s),
            },
        }
    }
}

} // verus!
