//! The CalDAV protocol adapter: the names, request bodies and capability
//! token that CalDAV adds on top of the generic engine.
use vstd::prelude::*;
use vstd::string::StringExecFns;
use crate::codec::{quote_href, spec_quote};
use crate::common::CheckSupportError;
use crate::dav::{mg_result_good, multi_get_parse, HttpRequest, Url, WebDavClient};
use crate::names;
use crate::{FetchedResource, FoundCollection, PropertyName};

verus! {

/// The hrefs of a multi-get request, each percent-escaped and wrapped in
/// an href element with the given opening and closing tags.
pub open spec fn spec_hrefs_block(
    hrefs: Seq<String>,
    open_tag: Seq<char>,
    close_tag: Seq<char>,
) -> Seq<char>
    decreases hrefs.len(),
{
    if hrefs.len() == 0 {
        Seq::empty()
    } else {
        open_tag + spec_quote(hrefs[0]@) + close_tag + spec_hrefs_block(
            hrefs.drop_first(),
            open_tag,
            close_tag,
        )
    }
}

/// The body of a CalDAV multi-get REPORT: it asks for the etag and the
/// calendar data of each listed href, every href percent-escaped.
pub open spec fn spec_calendar_multiget_body(hrefs: Seq<String>) -> Seq<char> {
    "<C:calendar-multiget xmlns=\"DAV:\" xmlns:C=\"urn:ietf:params:xml:ns:caldav\"><prop><getetag/><C:calendar-data/></prop>"@
        + spec_hrefs_block(hrefs, "<href>"@, "</href>"@) + "</C:calendar-multiget>"@
}

/// Renders the block of escaped href elements of a multi-get body.
pub fn render_hrefs_block(hrefs: &Vec<String>, open_tag: &str, close_tag: &str) -> (r: String)
    ensures
        r@ == spec_hrefs_block(hrefs@, open_tag@, close_tag@),
{
    let mut out = String::new();
    proof {
        assert(hrefs@.skip(0) =~= hrefs@);
    }
    let mut i: usize = 0;
    while i < hrefs.len()
        invariant
            i <= hrefs.len(),
            spec_hrefs_block(hrefs@, open_tag@, close_tag@) == out@ + spec_hrefs_block(
                hrefs@.skip(i as int),
                open_tag@,
                close_tag@,
            ),
        decreases hrefs.len() - i,
    {
        proof {
            assert(hrefs@.skip(i as int)[0] == hrefs@[i as int]);
            assert(hrefs@.skip(i as int).drop_first() =~= hrefs@.skip(i + 1));
        }
        out.append(open_tag);
        let quoted = quote_href(hrefs[i].as_str());
        out.append(quoted.as_str());
        out.append(close_tag);
        i = i + 1;
    }
    proof {
        assert(hrefs@.skip(hrefs@.len() as int).len() == 0);
        assert(out@ =~= spec_hrefs_block(hrefs@, open_tag@, close_tag@));
    }
    out
}

/// The media type of calendar resources.
pub fn mime_calendar() -> (r: &'static str)
    ensures
        r@ == "text/calendar"@,
{
    "text/calendar"
}

/// A client for a CalDAV server, wrapping the generic WebDAV engine.
pub struct CalDavClient {
    pub webdav_client: WebDavClient,
}

impl CalDavClient {
    /// Wraps a WebDAV client as a CalDAV client.
    pub fn new(webdav_client: WebDavClient) -> (r: CalDavClient)
        ensures
            r.webdav_client == webdav_client,
    {
        CalDavClient { webdav_client }
    }

    /// The property under which a principal's calendar home set lives.
    pub fn home_set_property(&self) -> (r: PropertyName)
        ensures
            r.ns@ == "urn:ietf:params:xml:ns:caldav"@,
            r.name@ == "calendar-home-set"@,
    {
        names::calendar_home_set()
    }

    /// Builds the depth-1 PROPFIND with which calendars are searched
    /// for under a home set: resource type, etag and supported reports.
    pub fn find_calendars_request(&self, calendar_home_set: &Url) -> (r: HttpRequest)
        ensures
            r.method@ == "PROPFIND"@,
            r.url@ == calendar_home_set@,
            crate::dav::headers_of(r.headers@) == seq![
                ("content-type"@, "application/xml; charset=utf-8"@),
                ("depth"@, "1"@),
            ],
            r.body@ == vstd::utf8::encode_utf8(crate::common::spec_home_search_propfind_body()),
    {
        let mut props: Vec<PropertyName> = Vec::new();
        props.push(names::resourcetype());
        props.push(names::getetag());
        props.push(names::supported_report_set());
        proof {
            lemma_home_search_props(props@);
        }
        self.webdav_client.propfind_request(calendar_home_set, &props, 1)
    }

    /// Reads the calendars out of a home-set search answer.
    pub fn find_calendars_parse(&self, body: &[u8]) -> (r: Result<
        Vec<FoundCollection>,
        crate::dav::WebDavError,
    >)
        ensures
            match crate::xml::xml_tree_of(body@) {
                Some(t) => crate::dav::find_collections_result_good(
                    t,
                    "urn:ietf:params:xml:ns:caldav"@,
                    "calendar"@,
                    r,
                ),
                None => r matches Err(e) && crate::dav::doc_fault_good(body@, e),
            },
    {
        crate::dav::parse_find_multiple_collections(body, &names::calendar())
    }

    /// The body of the multi-get REPORT that fetches the given hrefs'
    /// calendar data.
    pub fn calendar_multiget_body(&self, hrefs: &Vec<String>) -> (r: String)
        ensures
            r@ == spec_calendar_multiget_body(hrefs@),
    {
        let mut body = String::from_str(
            "<C:calendar-multiget xmlns=\"DAV:\" xmlns:C=\"urn:ietf:params:xml:ns:caldav\"><prop><getetag/><C:calendar-data/></prop>",
        );
        let block = render_hrefs_block(hrefs, "<href>", "</href>");
        body.append(block.as_str());
        body.append("</C:calendar-multiget>");
        proof {
            assert(body@ =~= spec_calendar_multiget_body(hrefs@));
        }
        body
    }

    /// Reads the fetched calendar resources out of a multi-get answer.
    pub fn get_calendar_resources_parse(&self, body: &[u8]) -> (r: Result<
        Vec<FetchedResource>,
        crate::dav::WebDavError,
    >)
        ensures
            match crate::xml::xml_tree_of(body@) {
                Some(t) => mg_result_good(
                    t,
                    "urn:ietf:params:xml:ns:caldav"@,
                    "calendar-data"@,
                    r,
                ),
                None => r matches Err(e) && crate::dav::doc_fault_good(body@, e),
            },
    {
        multi_get_parse(body, &names::calendar_data())
    }

    /// Reads the answer of a CalDAV capability probe: the generic
    /// capability check with the CalDAV token `calendar-access`.
    pub fn check_support_response(&self, status: u16, headers: &Vec<(String, String)>) -> (r:
        Result<(), CheckSupportError>)
        ensures
            match r {
                Ok(()) => crate::dav::spec_is_success(status) && (match
                    crate::dav::spec_header_value(crate::dav::headers_of(headers@), "dav"@) {
                    Some(h) => crate::common::spec_advertises(h, "calendar-access"@),
                    None => false,
                }),
                Err(e) => match e {
                    CheckSupportError::BadStatusCode(c) => c == status
                        && !crate::dav::spec_is_success(status),
                    CheckSupportError::MissingHeader => crate::dav::spec_is_success(status)
                        && crate::dav::spec_header_value(
                        crate::dav::headers_of(headers@),
                        "dav"@,
                    ) is None,
                    CheckSupportError::NotAdvertised => crate::dav::spec_is_success(status) && (
                    match crate::dav::spec_header_value(
                        crate::dav::headers_of(headers@),
                        "dav"@,
                    ) {
                        Some(h) => !crate::common::spec_advertises(h, "calendar-access"@),
                        None => false,
                    }),
                    CheckSupportError::Request(_) => false,
                },
            },
    {
        crate::common::check_support_response(status, headers, "calendar-access")
    }

    /// Builds the extended MKCOL that creates a calendar collection at
    /// `href`.
    pub fn create_calendar_request(&self, href: &str) -> (r: HttpRequest)
        ensures
            r.method@ == "MKCOL"@,
            r.url@.scheme == self.webdav_client.base_url@.scheme,
            r.url@.authority == self.webdav_client.base_url@.authority,
            r.url@.path == spec_quote(href@),
            r.body@ == vstd::utf8::encode_utf8(
                "<mkcol xmlns=\"DAV:\"><set><prop><resourcetype><collection/>"@
                    + crate::xml::spec_render_xml(
                    "urn:ietf:params:xml:ns:caldav"@,
                    "calendar"@,
                ) + "</resourcetype></prop></set></mkcol>"@,
            ),
    {
        let mut resourcetypes: Vec<PropertyName> = Vec::new();
        resourcetypes.push(names::calendar());
        proof {
            let p = resourcetypes@;
            assert(p.drop_first().len() == 0);
            assert(crate::dav::spec_rendered_props(p.drop_first()) == Seq::<char>::empty());
            assert(crate::dav::spec_rendered_props(p) =~= crate::xml::spec_render_xml(
                p[0].ns@,
                p[0].name@,
            ));
            assert(crate::dav::spec_mkcol_body(p) =~= "<mkcol xmlns=\"DAV:\"><set><prop><resourcetype><collection/>"@
                + crate::xml::spec_render_xml("urn:ietf:params:xml:ns:caldav"@, "calendar"@)
                + "</resourcetype></prop></set></mkcol>"@);
        }
        self.webdav_client.create_collection_request(href, &resourcetypes)
    }
}

/// The rendered property list of the home-set search: resource type,
/// etag and supported report set, in that order.
pub proof fn lemma_home_search_props(p: Seq<PropertyName>)
    requires
        p.len() == 3,
        p[0].ns@ == "DAV:"@ && p[0].name@ == "resourcetype"@,
        p[1].ns@ == "DAV:"@ && p[1].name@ == "getetag"@,
        p[2].ns@ == "DAV:"@ && p[2].name@ == "supported-report-set"@,
    ensures
        crate::dav::spec_propfind_body(p) == crate::common::spec_home_search_propfind_body(),
{
    let p1 = p.drop_first();
    let p2 = p1.drop_first();
    let p3 = p2.drop_first();
    assert(p1[0] == p[1] && p2[0] == p[2]);
    assert(p3.len() == 0);
    assert(crate::dav::spec_rendered_props(p3) == Seq::<char>::empty());
    assert(crate::dav::spec_rendered_props(p2) =~= crate::xml::spec_render_xml(
        p[2].ns@,
        p[2].name@,
    ));
    assert(crate::dav::spec_rendered_props(p1) =~= crate::xml::spec_render_xml(
        p[1].ns@,
        p[1].name@,
    ) + crate::dav::spec_rendered_props(p2));
    assert(crate::dav::spec_rendered_props(p) =~= crate::xml::spec_render_xml(
        p[0].ns@,
        p[0].name@,
    ) + crate::dav::spec_rendered_props(p1));
    assert(crate::dav::spec_propfind_body(p) =~= crate::common::spec_home_search_propfind_body());
}

/// The service that a CalDAV URL's scheme names.
pub fn service_for_url(url: &Url) -> (r: Result<
    crate::sd::DiscoverableService,
    crate::sd::InvalidUrl,
>)
    ensures
        match r {
            Ok(s) => (url@.scheme == "https"@ || url@.scheme == "caldavs"@) && s
                == crate::sd::DiscoverableService::CalDavs || (url@.scheme == "http"@
                || url@.scheme == "caldav"@) && s == crate::sd::DiscoverableService::CalDav,
            Err(e) => match e {
                crate::sd::InvalidUrl::MissingScheme => url@.scheme.len() == 0,
                crate::sd::InvalidUrl::InvalidScheme => url@.scheme.len() > 0 && url@.scheme
                    != "https"@ && url@.scheme != "caldavs"@ && url@.scheme != "http"@
                    && url@.scheme != "caldav"@,
                _ => false,
            },
        },
{
    crate::sd::caldav_service_for_url(url)
}

} // verus!
