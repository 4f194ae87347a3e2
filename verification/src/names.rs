//! Names of the WebDAV, CalDAV and CardDAV elements the engine reads and
//! writes.
use vstd::prelude::*;
use vstd::string::StringExecFns;
use crate::PropertyName;

verus! {

/// Namespace of the properties defined by WebDAV itself.
pub fn ns_dav() -> (r: String)
    ensures
        r@ == "DAV:"@,
{
    String::from_str("DAV:")
}

/// Namespace of the properties defined by CalDAV.
pub fn ns_caldav() -> (r: String)
    ensures
        r@ == "urn:ietf:params:xml:ns:caldav"@,
{
    String::from_str("urn:ietf:params:xml:ns:caldav")
}

/// Namespace of the properties defined by CardDAV.
pub fn ns_carddav() -> (r: String)
    ensures
        r@ == "urn:ietf:params:xml:ns:carddav"@,
{
    String::from_str("urn:ietf:params:xml:ns:carddav")
}

/// Namespace of the calendar properties defined by Apple.
pub fn ns_apple() -> (r: String)
    ensures
        r@ == "http://apple.com/ns/ical/"@,
{
    String::from_str("http://apple.com/ns/ical/")
}

/// The local name of the status element.
pub fn word_status() -> (r: String)
    ensures
        r@ == "status"@,
{
    String::from_str("status")
}

/// The local name of the response element.
pub fn word_response() -> (r: String)
    ensures
        r@ == "response"@,
{
    String::from_str("response")
}

/// The local name of the href element.
pub fn word_href() -> (r: String)
    ensures
        r@ == "href"@,
{
    String::from_str("href")
}

/// The local name of the propstat element.
pub fn word_propstat() -> (r: String)
    ensures
        r@ == "propstat"@,
{
    String::from_str("propstat")
}

pub fn collection() -> (r: PropertyName)
    ensures
        r.ns@ == "DAV:"@ && r.name@ == "collection"@,
{
    PropertyName::new("DAV:", "collection")
}

pub fn display_name() -> (r: PropertyName)
    ensures
        r.ns@ == "DAV:"@ && r.name@ == "displayname"@,
{
    PropertyName::new("DAV:", "displayname")
}

pub fn getcontenttype() -> (r: PropertyName)
    ensures
        r.ns@ == "DAV:"@ && r.name@ == "getcontenttype"@,
{
    PropertyName::new("DAV:", "getcontenttype")
}

pub fn getetag() -> (r: PropertyName)
    ensures
        r.ns@ == "DAV:"@ && r.name@ == "getetag"@,
{
    PropertyName::new("DAV:", "getetag")
}

pub fn href() -> (r: PropertyName)
    ensures
        r.ns@ == "DAV:"@ && r.name@ == "href"@,
{
    PropertyName::new("DAV:", "href")
}

pub fn resourcetype() -> (r: PropertyName)
    ensures
        r.ns@ == "DAV:"@ && r.name@ == "resourcetype"@,
{
    PropertyName::new("DAV:", "resourcetype")
}

pub fn response() -> (r: PropertyName)
    ensures
        r.ns@ == "DAV:"@ && r.name@ == "response"@,
{
    PropertyName::new("DAV:", "response")
}

pub fn status() -> (r: PropertyName)
    ensures
        r.ns@ == "DAV:"@ && r.name@ == "status"@,
{
    PropertyName::new("DAV:", "status")
}

pub fn propstat() -> (r: PropertyName)
    ensures
        r.ns@ == "DAV:"@ && r.name@ == "propstat"@,
{
    PropertyName::new("DAV:", "propstat")
}

pub fn supported_report_set() -> (r: PropertyName)
    ensures
        r.ns@ == "DAV:"@ && r.name@ == "supported-report-set"@,
{
    PropertyName::new("DAV:", "supported-report-set")
}

pub fn sync_collection() -> (r: PropertyName)
    ensures
        r.ns@ == "DAV:"@ && r.name@ == "sync-collection"@,
{
    PropertyName::new("DAV:", "sync-collection")
}

pub fn current_user_principal() -> (r: PropertyName)
    ensures
        r.ns@ == "DAV:"@ && r.name@ == "current-user-principal"@,
{
    PropertyName::new("DAV:", "current-user-principal")
}

pub fn calendar() -> (r: PropertyName)
    ensures
        r.ns@ == "urn:ietf:params:xml:ns:caldav"@ && r.name@ == "calendar"@,
{
    PropertyName::new("urn:ietf:params:xml:ns:caldav", "calendar")
}

pub fn calendar_description() -> (r: PropertyName)
    ensures
        r.ns@ == "urn:ietf:params:xml:ns:caldav"@ && r.name@ == "calendar-description"@,
{
    PropertyName::new("urn:ietf:params:xml:ns:caldav", "calendar-description")
}

pub fn calendar_home_set() -> (r: PropertyName)
    ensures
        r.ns@ == "urn:ietf:params:xml:ns:caldav"@ && r.name@ == "calendar-home-set"@,
{
    PropertyName::new("urn:ietf:params:xml:ns:caldav", "calendar-home-set")
}

pub fn calendar_colour() -> (r: PropertyName)
    ensures
        r.ns@ == "http://apple.com/ns/ical/"@ && r.name@ == "calendar-color"@,
{
    PropertyName::new("http://apple.com/ns/ical/", "calendar-color")
}

pub fn calendar_data() -> (r: PropertyName)
    ensures
        r.ns@ == "urn:ietf:params:xml:ns:caldav"@ && r.name@ == "calendar-data"@,
{
    PropertyName::new("urn:ietf:params:xml:ns:caldav", "calendar-data")
}

pub fn calendar_order() -> (r: PropertyName)
    ensures
        r.ns@ == "http://apple.com/ns/ical/"@ && r.name@ == "calendar-order"@,
{
    PropertyName::new("http://apple.com/ns/ical/", "calendar-order")
}

pub fn addressbook() -> (r: PropertyName)
    ensures
        r.ns@ == "urn:ietf:params:xml:ns:carddav"@ && r.name@ == "addressbook"@,
{
    PropertyName::new("urn:ietf:params:xml:ns:carddav", "addressbook")
}

pub fn addressbook_description() -> (r: PropertyName)
    ensures
        r.ns@ == "urn:ietf:params:xml:ns:carddav"@ && r.name@ == "addressbook-description"@,
{
    PropertyName::new("urn:ietf:params:xml:ns:carddav", "addressbook-description")
}

pub fn addressbook_home_set() -> (r: PropertyName)
    ensures
        r.ns@ == "urn:ietf:params:xml:ns:carddav"@ && r.name@ == "addressbook-home-set"@,
{
    PropertyName::new("urn:ietf:params:xml:ns:carddav", "addressbook-home-set")
}

pub fn address_data() -> (r: PropertyName)
    ensures
        r.ns@ == "urn:ietf:params:xml:ns:carddav"@ && r.name@ == "address-data"@,
{
    PropertyName::new("urn:ietf:params:xml:ns:carddav", "address-data")
}

} // verus!
