//! The CardDAV protocol adapter: the names, request bodies and
//! capability token that CardDAV adds on top of the generic engine.
use vstd::prelude::*;
use vstd::string::StringExecFns;
use crate::caldav::{lemma_home_search_props, render_hrefs_block, spec_hrefs_block};
use crate::codec::spec_quote;
use crate::common::CheckSupportError;
use crate::dav::{mg_result_good, multi_get_parse, HttpRequest, Url, WebDavClient};
use crate::names;
use crate::{FetchedResource, FoundCollection, PropertyName};

verus! {

/// The body of a CardDAV multi-get REPORT: it asks for the etag and the
/// address data of each listed href, every href percent-escaped.
pub open spec fn spec_addressbook_multiget_body(hrefs: Seq<String>) -> Seq<char> {
    "<C:addressbook-multiget xmlns:D=\"DAV:\" xmlns:C=\"urn:ietf:params:xml:ns:carddav\"><D:prop><D:getetag/><C:address-data/></D:prop>"@
        + spec_hrefs_block(hrefs, "<D:href>"@, "</D:href>"@) + "</C:addressbook-multiget>"@
}

/// The media type of address book resources.
pub fn mime_addressbook() -> (r: &'static str)
    ensures
        r@ == "text/vcard"@,
{
    "text/vcard"
}

/// A client for a CardDAV server, wrapping the generic WebDAV engine.
pub struct CardDavClient {
    pub webdav_client: WebDavClient,
}

impl CardDavClient {
    /// Wraps a WebDAV client as a CardDAV client.
    pub fn new(webdav_client: WebDavClient) -> (r: CardDavClient)
        ensures
            r.webdav_client == webdav_client,
    {
        CardDavClient { webdav_client }
    }

    /// The property under which a principal's address book home set
    /// lives.
    pub fn home_set_property(&self) -> (r: PropertyName)
        ensures
            r.ns@ == "urn:ietf:params:xml:ns:carddav"@,
            r.name@ == "addressbook-home-set"@,
    {
        names::addressbook_home_set()
    }

    /// Builds the depth-1 PROPFIND with which address books are
    /// searched for under a home set.
    pub fn find_addressbooks_request(&self, address_book_home_set: &Url) -> (r: HttpRequest)
        ensures
            r.method@ == "PROPFIND"@,
            r.url@ == address_book_home_set@,
            crate::dav::headers_of(r.headers@) == seq![
                ("content-type"@, "application/xml; charset=utf-8"@),
                ("depth"@, "1"@),
            ],
            r.body@ == vstd::utf8::encode_utf8(crate::common::spec_home_search_propfind_body()),
    {
        let mut props: Vec<PropertyName> = Vec::new();
        props.push(names::resourcetype());
        props.push(names::getetag());
        props.push(names::supported_report_set());
        proof {
            lemma_home_search_props(props@);
        }
        self.webdav_client.propfind_request(address_book_home_set, &props, 1)
    }

    /// Reads the address books out of a home-set search answer.
    pub fn find_addressbooks_parse(&self, body: &[u8]) -> (r: Result<
        Vec<FoundCollection>,
        crate::dav::WebDavError,
    >)
        ensures
            match crate::xml::xml_tree_of(body@) {
                Some(t) => crate::dav::find_collections_result_good(
                    t,
                    "urn:ietf:params:xml:ns:carddav"@,
                    "addressbook"@,
                    r,
                ),
                None => r matches Err(e) && crate::dav::doc_fault_good(body@, e),
            },
    {
        crate::dav::parse_find_multiple_collections(body, &names::addressbook())
    }

    /// The body of the multi-get REPORT that fetches the given hrefs'
    /// address data.
    pub fn addressbook_multiget_body(&self, hrefs: &Vec<String>) -> (r: String)
        ensures
            r@ == spec_addressbook_multiget_body(hrefs@),
    {
        let mut body = String::from_str(
            "<C:addressbook-multiget xmlns:D=\"DAV:\" xmlns:C=\"urn:ietf:params:xml:ns:carddav\"><D:prop><D:getetag/><C:address-data/></D:prop>",
        );
        let block = render_hrefs_block(hrefs, "<D:href>", "</D:href>");
        body.append(block.as_str());
        body.append("</C:addressbook-multiget>");
        proof {
            assert(body@ =~= spec_addressbook_multiget_body(hrefs@));
        }
        body
    }

    /// Reads the fetched address book resources out of a multi-get
    /// answer.
    pub fn get_address_book_resources_parse(&self, body: &[u8]) -> (r: Result<
        Vec<FetchedResource>,
        crate::dav::WebDavError,
    >)
        ensures
            match crate::xml::xml_tree_of(body@) {
                Some(t) => mg_result_good(
                    t,
                    "urn:ietf:params:xml:ns:carddav"@,
                    "address-data"@,
                    r,
                ),
                None => r matches Err(e) && crate::dav::doc_fault_good(body@, e),
            },
    {
        multi_get_parse(body, &names::address_data())
    }

    /// Reads the answer of a CardDAV capability probe: the generic
    /// capability check with the CardDAV token `addressbook`.
    pub fn check_support_response(&self, status: u16, headers: &Vec<(String, String)>) -> (r:
        Result<(), CheckSupportError>)
        ensures
            match r {
                Ok(()) => crate::dav::spec_is_success(status) && (match
                    crate::dav::spec_header_value(crate::dav::headers_of(headers@), "dav"@) {
                    Some(h) => crate::common::spec_advertises(h, "addressbook"@),
                    None => false,
                }),
                Err(e) => match e {
                    CheckSupportError::BadStatusCode(c) => c == status
                        && !crate::dav::spec_is_success(status),
                    CheckSupportError::MissingHeader => crate::dav::spec_is_success(status)
                        && crate::dav::spec_header_value(
                        crate::dav::headers_of(headers@),
                        "dav"@,
                    ) is None,
                    CheckSupportError::NotAdvertised => crate::dav::spec_is_success(status) && (
                    match crate::dav::spec_header_value(
                        crate::dav::headers_of(headers@),
                        "dav"@,
                    ) {
                        Some(h) => !crate::common::spec_advertises(h, "addressbook"@),
                        None => false,
                    }),
                    CheckSupportError::Request(_) => false,
                },
            },
    {
        crate::common::check_support_response(status, headers, "addressbook")
    }

    /// Builds the extended MKCOL that creates an address book
    /// collection at `href`.
    pub fn create_addressbook_request(&self, href: &str) -> (r: HttpRequest)
        ensures
            r.method@ == "MKCOL"@,
            r.url@.scheme == self.webdav_client.base_url@.scheme,
            r.url@.authority == self.webdav_client.base_url@.authority,
            r.url@.path == spec_quote(href@),
            r.body@ == vstd::utf8::encode_utf8(
                "<mkcol xmlns=\"DAV:\"><set><prop><resourcetype><collection/>"@
                    + crate::xml::spec_render_xml(
                    "urn:ietf:params:xml:ns:carddav"@,
                    "addressbook"@,
                ) + "</resourcetype></prop></set></mkcol>"@,
            ),
    {
        let mut resourcetypes: Vec<PropertyName> = Vec::new();
        resourcetypes.push(names::addressbook());
        proof {
            let p = resourcetypes@;
            assert(p.drop_first().len() == 0);
            assert(crate::dav::spec_rendered_props(p.drop_first()) == Seq::<char>::empty());
            assert(crate::dav::spec_rendered_props(p) =~= crate::xml::spec_render_xml(
                p[0].ns@,
                p[0].name@,
            ));
            assert(crate::dav::spec_mkcol_body(p) =~= "<mkcol xmlns=\"DAV:\"><set><prop><resourcetype><collection/>"@
                + crate::xml::spec_render_xml(
                "urn:ietf:params:xml:ns:carddav"@,
                "addressbook"@,
            ) + "</resourcetype></prop></set></mkcol>"@);
        }
        self.webdav_client.create_collection_request(href, &resourcetypes)
    }
}

/// The service that a CardDAV URL's scheme names.
pub fn service_for_url(url: &Url) -> (r: Result<
    crate::sd::DiscoverableService,
    crate::sd::InvalidUrl,
>)
    ensures
        match r {
            Ok(s) => (url@.scheme == "https"@ || url@.scheme == "carddavs"@) && s
                == crate::sd::DiscoverableService::CardDavs || (url@.scheme == "http"@
                || url@.scheme == "carddav"@) && s == crate::sd::DiscoverableService::CardDav,
            Err(e) => match e {
                crate::sd::InvalidUrl::MissingScheme => url@.scheme.len() == 0,
                crate::sd::InvalidUrl::InvalidScheme => url@.scheme.len() > 0 && url@.scheme
                    != "https"@ && url@.scheme != "carddavs"@ && url@.scheme != "http"@
                    && url@.scheme != "carddav"@,
                _ => false,
            },
        },
{
    crate::sd::carddav_service_for_url(url)
}

} // verus!
