//! The generic WebDAV engine.
//!
//! Requests are described as plain data and responses are interpreted from
//! plain data; the transport that carries them is outside this crate.
use vstd::prelude::*;
use vstd::string::StringExecFns;
use crate::codec::spec_unquote;
use crate::names;
use crate::text::{chars_of, crlf_restore, crlf_restore_chars, string_from_chars};
use crate::xml::{
    all_named, check_multistatus, deref_nodes, find_local, find_named, scan_statuses, spec_text,
    status_nodes, statusline_code, StatusScan, XmlFault, XmlNode,
};
use crate::{
    FetchedResource, FetchedResourceContent, FetchedResourceContentV, FetchedResourceV,
    FoundCollection, FoundCollectionV, ItemDetails, ItemDetailsV, ListedResource, ListedResourceV,
    PropertyName, ResourceType,
};

verus! {

/// Why a WebDAV operation failed.
///
/// `Http` and `BadAuth` are produced by the caller that drives the
/// transport; everything else is produced here.
#[derive(Debug)]
pub enum WebDavError {
    /// The transport failed; the payload describes the failure.
    Http(String),
    /// Applying the authentication step failed.
    BadAuth(String),
    /// A named piece of the response is absent.
    MissingData(String),
    /// A status element did not carry a valid HTTP status line.
    InvalidStatusCode,
    /// The response body is not a well-formed XML document.
    Xml,
    /// The response body is not UTF-8.
    NotUtf8,
    /// The server answered with a non-success status.
    BadStatusCode(u16),
    /// The response is well-formed but violates the protocol; the payload
    /// says how.
    InvalidResponse(String),
    /// The caller's input could not be turned into a request; the payload
    /// says why.
    InvalidInput(String),
}

/// Whether an HTTP status code reports success.
pub open spec fn spec_is_success(code: u16) -> bool {
    200 <= code < 300
}

/// Whether an HTTP status code is a redirection.
pub open spec fn spec_is_redirection(code: u16) -> bool {
    300 <= code < 400
}

/// Accepts a success status and turns any other into the error carrying it.
pub fn check_status(status: u16) -> (r: Result<(), u16>)
    ensures
        r is Ok <==> spec_is_success(status),
        r matches Err(c) ==> c == status,
{
    if 200 <= status && status < 300 {
        Ok(())
    } else {
        Err(status)
    }
}

/// A URL split into its three parts. The path is kept percent-encoded, as
/// it stands on the wire.
#[derive(Debug, PartialEq, Eq)]
pub struct Url {
    pub scheme: String,
    pub authority: String,
    pub path: String,
}

/// The mathematical value of a `Url`.
pub struct UrlV {
    pub scheme: Seq<char>,
    pub authority: Seq<char>,
    pub path: Seq<char>,
}

impl View for Url {
    type V = UrlV;

    open spec fn view(&self) -> UrlV {
        UrlV { scheme: self.scheme@, authority: self.authority@, path: self.path@ }
    }
}

impl Url {
    /// A copy of this URL.
    pub fn duplicate(&self) -> (r: Url)
        ensures
            r@ == self@,
    {
        let r = Url {
            scheme: self.scheme.clone(),
            authority: self.authority.clone(),
            path: self.path.clone(),
        };
        proof {
            assert(r@ =~= self@);
        }
        r
    }

    /// The same URL with another path.
    pub fn with_path(&self, path: String) -> (r: Url)
        ensures
            r@.scheme == self@.scheme,
            r@.authority == self@.authority,
            r@.path == path@,
    {
        Url { scheme: self.scheme.clone(), authority: self.authority.clone(), path }
    }
}

/// What looking for a response's href can find: no href element, an href
/// without text, one whose percent-decoded bytes are not UTF-8, or the
/// decoded href.
pub enum HrefLookup {
    Missing,
    NoText,
    BadEncoding,
    Found(Seq<char>),
}

/// The unescaped href carried by the first href element under `n`.
pub open spec fn response_href(n: XmlNode) -> HrefLookup {
    match find_named(n, "DAV:"@, "href"@) {
        None => HrefLookup::Missing,
        Some(h) => match spec_text(h) {
            None => HrefLookup::NoText,
            Some(t) => match spec_unquote(t) {
                None => HrefLookup::BadEncoding,
                Some(u) => HrefLookup::Found(u),
            },
        },
    }
}

/// Finds the first href element under `node` and returns its unescaped
/// text value.
pub fn get_unquoted_href(node: &XmlNode) -> (r: Result<String, WebDavError>)
    ensures
        match r {
            Ok(h) => response_href(*node) == HrefLookup::Found(h@),
            Err(e) => match e {
                WebDavError::InvalidResponse(m) => response_href(*node) == HrefLookup::Missing
                    && m@ == "missing href in response"@ || response_href(*node)
                    == HrefLookup::NoText && m@ == "missing text in href"@,
                WebDavError::NotUtf8 => response_href(*node) == HrefLookup::BadEncoding,
                _ => false,
            },
        },
{
    let ns = names::ns_dav();
    let name = names::word_href();
    match node.find(&ns, &name) {
        None => Err(
            WebDavError::InvalidResponse(String::from_str("missing href in response")),
        ),
        Some(h) => match h.text() {
            None => Err(WebDavError::InvalidResponse(String::from_str("missing text in href"))),
            Some(t) => match crate::codec::unquote_href(t.as_str()) {
                None => Err(WebDavError::NotUtf8),
                Some(u) => Ok(u),
            },
        },
    }
}

/// The element a property lookup settles on: the first element with the
/// requested expanded name, or, failing that, the first element with the
/// requested local name in any namespace.
///
/// The fallback tolerates servers that answer a property in the wrong
/// namespace; it applies only when the exact lookup found nothing.
pub open spec fn prop_lookup(t: XmlNode, ns: Seq<char>, name: Seq<char>) -> Option<XmlNode> {
    match find_named(t, ns, name) {
        Some(p) => Some(p),
        None => find_local(t, name),
    }
}

/// What a correct single-property read returns on the tree `t`: the
/// looked-up element's text when the lookup succeeds, and otherwise the
/// error that the statuses of the tree dictate; a tree with no failing
/// status and no property is itself invalid.
pub open spec fn prop_result_good(
    t: XmlNode,
    pns: Seq<char>,
    pname: Seq<char>,
    r: Result<Option<String>, WebDavError>,
) -> bool {
    match prop_lookup(t, pns, pname) {
        Some(p) => match r {
            Ok(o) => match o {
                Some(s) => spec_text(p) == Some(s@),
                None => spec_text(p) is None,
            },
            Err(_) => false,
        },
        None => match r {
            Ok(_) => false,
            Err(e) => no_prop_error_good(t, e),
        },
    }
}

/// Whether `e` is a right error for a tree in which a looked-up property
/// is absent: the first failing status of the tree when there is one,
/// and an invalid-response error when there is none.
pub open spec fn no_prop_error_good(t: XmlNode, e: WebDavError) -> bool {
    match e {
        WebDavError::BadStatusCode(c) => scan_statuses(status_nodes(t)) == StatusScan::Fail(c),
        WebDavError::InvalidStatusCode => scan_statuses(status_nodes(t)) is Unparsable,
        WebDavError::InvalidResponse(_) => scan_statuses(status_nodes(t)) is MissingText
            || scan_statuses(status_nodes(t)) is AllSuccess,
        _ => false,
    }
}

/// Reads one property out of a parsed multistatus tree.
///
/// Returns the property element's text (or nothing when the element is
/// empty). When the property is absent altogether, every status in the
/// tree is checked so that the server's own error surfaces.
pub fn parse_prop_tree(t: &XmlNode, property: &PropertyName) -> (r: Result<
    Option<String>,
    WebDavError,
>)
    ensures
        prop_result_good(*t, property.ns@, property.name@, r),
{
    let found = match t.find(&property.ns, &property.name) {
        Some(p) => Some(p),
        None => t.find_by_local_name(&property.name),
    };
    match found {
        Some(p) => match p.text() {
            Some(s) => Ok(Some(s.clone())),
            None => Ok(None),
        },
        None => {
            match check_multistatus(t) {
                Err(e) => Err(e),
                Ok(()) => Err(
                    WebDavError::InvalidResponse(
                        String::from_str(
                            "property is missing from response, but response is non-error",
                        ),
                    ),
                ),
            }
        },
    }
}

/// Whether `e` is the right error for a body that is not a well-formed
/// XML document: not-UTF-8 bytes and malformed XML are told apart.
pub open spec fn doc_fault_good(bytes: Seq<u8>, e: WebDavError) -> bool {
    match e {
        WebDavError::NotUtf8 => !vstd::utf8::valid_utf8(bytes),
        WebDavError::Xml => vstd::utf8::valid_utf8(bytes),
        _ => false,
    }
}

/// Turns a response body into a tree, telling apart non-UTF-8 bytes and
/// malformed XML.
pub fn parse_document(body: &[u8]) -> (r: Result<XmlNode, WebDavError>)
    ensures
        match r {
            Ok(t) => crate::xml::xml_tree_of(body@) == Some(t),
            Err(e) => crate::xml::xml_tree_of(body@) is None && doc_fault_good(body@, e),
        },
{
    match crate::xml::parse_xml(body) {
        Ok(t) => Ok(t),
        Err(XmlFault::NotUtf8) => Err(WebDavError::NotUtf8),
        Err(XmlFault::Malformed) => Err(WebDavError::Xml),
    }
}

/// What a correct single-href property read returns on the tree `t`:
/// when exactly one property element is present and carries an href
/// child, the href's decoded text resolved against `base` (or nothing
/// when the href element is empty); otherwise the error that the
/// statuses of the tree dictate.
pub open spec fn href_prop_result_good(
    t: XmlNode,
    base: UrlV,
    pns: Seq<char>,
    pname: Seq<char>,
    r: Result<Option<Url>, WebDavError>,
) -> bool {
    let props = all_named(t, pns, pname);
    if props.len() == 1 && crate::xml::direct_named(props[0].spec_kids(), "DAV:"@, "href"@).len()
        > 0 {
        let h = crate::xml::direct_named(props[0].spec_kids(), "DAV:"@, "href"@)[0];
        match spec_text(h) {
            None => r matches Ok(o) && o is None,
            Some(raw) => match spec_unquote(raw) {
                None => r matches Err(e) && e is NotUtf8,
                Some(p) => match r {
                    Ok(o) => match o {
                        Some(u) => u@.scheme == base.scheme && u@.authority == base.authority
                            && u@.path == p,
                        None => false,
                    },
                    Err(_) => false,
                },
            },
        }
    } else {
        match r {
            Ok(_) => false,
            Err(e) => no_prop_error_good(t, e),
        }
    }
}

/// Reads a property that carries a single href out of a parsed
/// multistatus tree, and resolves the decoded href against `base`:
/// same scheme and authority, the href as the path.
pub fn parse_prop_href_tree(t: &XmlNode, base: &Url, property: &PropertyName) -> (r: Result<
    Option<Url>,
    WebDavError,
>)
    ensures
        href_prop_result_good(*t, base@, property.ns@, property.name@, r),
{
    let props = t.collect(&property.ns, &property.name);
    let ghost all = all_named(*t, property.ns@, property.name@);
    if props.len() == 1 {
        let ns = names::ns_dav();
        let name = names::word_href();
        let hrefs = props[0].children_named(&ns, &name);
        proof {
            assert(all[0] == *props@[0]);
        }
        if hrefs.len() > 0 {
            let ghost hs = crate::xml::direct_named(all[0].spec_kids(), "DAV:"@, "href"@);
            proof {
                assert(hs[0] == *hrefs@[0]);
            }
            match hrefs[0].text() {
                None => {
                    return Ok(None);
                },
                Some(raw) => match crate::codec::unquote_href(raw.as_str()) {
                    None => {
                        return Err(WebDavError::NotUtf8);
                    },
                    Some(p) => {
                        return Ok(Some(base.with_path(p)));
                    },
                },
            }
        }
    }
    match check_multistatus(t) {
        Err(e) => Err(e),
        Ok(()) => Err(
            WebDavError::InvalidResponse(
                String::from_str("missing property in response but no error"),
            ),
        ),
    }
}

/// Reads a property that carries a single href out of a multistatus
/// response body.
pub fn parse_prop_href(body: &[u8], base: &Url, property: &PropertyName) -> (r: Result<
    Option<Url>,
    WebDavError,
>)
    ensures
        match crate::xml::xml_tree_of(body@) {
            Some(t) => href_prop_result_good(t, base@, property.ns@, property.name@, r),
            None => r matches Err(e) && doc_fault_good(body@, e),
        },
{
    match parse_document(body) {
        Err(e) => Err(e),
        Ok(t) => parse_prop_href_tree(&t, base, property),
    }
}

/// The mathematical values of a vector of URLs.
pub open spec fn urls_of(v: Seq<Url>) -> Seq<UrlV> {
    v.map_values(|u: Url| u@)
}

/// The URLs that a list of href elements resolves to against `base`, in
/// document order: an empty href element is skipped, and one whose
/// decoded bytes are not UTF-8 fails the whole read.
pub open spec fn spec_multi_hrefs(hs: Seq<XmlNode>, base: UrlV) -> Result<Seq<UrlV>, ()>
    decreases hs.len(),
{
    if hs.len() == 0 {
        Ok(Seq::empty())
    } else {
        match spec_text(hs[0]) {
            None => spec_multi_hrefs(hs.drop_first(), base),
            Some(raw) => match spec_unquote(raw) {
                None => Err(()),
                Some(p) => match spec_multi_hrefs(hs.drop_first(), base) {
                    Ok(us) => Ok(
                        seq![UrlV { scheme: base.scheme, authority: base.authority, path: p }]
                            + us,
                    ),
                    Err(x) => Err(x),
                },
            },
        }
    }
}

/// What a correct many-href property read returns on the tree `t`: when
/// exactly one property element is present, its direct href children
/// resolved against `base`; otherwise the error that the statuses of the
/// tree dictate.
pub open spec fn hrefs_prop_result_good(
    t: XmlNode,
    base: UrlV,
    pns: Seq<char>,
    pname: Seq<char>,
    r: Result<Vec<Url>, WebDavError>,
) -> bool {
    let props = all_named(t, pns, pname);
    if props.len() == 1 {
        match spec_multi_hrefs(
            crate::xml::direct_named(props[0].spec_kids(), "DAV:"@, "href"@),
            base,
        ) {
            Ok(us) => r matches Ok(v) && urls_of(v@) == us,
            Err(_) => r matches Err(e) && e is NotUtf8,
        }
    } else {
        match r {
            Ok(_) => false,
            Err(e) => no_prop_error_good(t, e),
        }
    }
}

/// Reads a property that may carry many hrefs out of a parsed
/// multistatus tree, resolving each against `base` in document order.
pub fn parse_multiple_href_properties_tree(
    t: &XmlNode,
    base: &Url,
    property: &PropertyName,
) -> (r: Result<Vec<Url>, WebDavError>)
    ensures
        hrefs_prop_result_good(*t, base@, property.ns@, property.name@, r),
{
    let props = t.collect(&property.ns, &property.name);
    let ghost all = all_named(*t, property.ns@, property.name@);
    if props.len() == 1 {
        let ns = names::ns_dav();
        let name = names::word_href();
        proof {
            assert(all[0] == *props@[0]);
        }
        let hrefs = props[0].children_named(&ns, &name);
        let ghost hs = crate::xml::direct_named(all[0].spec_kids(), "DAV:"@, "href"@);
        let mut out: Vec<Url> = Vec::new();
        proof {
            assert(hs.skip(0) =~= hs);
            assert(urls_of(out@) =~= Seq::<UrlV>::empty());
        }
        let mut i: usize = 0;
        while i < hrefs.len()
            invariant
                all == all_named(*t, property.ns@, property.name@),
                all.len() == 1,
                hs == crate::xml::direct_named(all[0].spec_kids(), "DAV:"@, "href"@),
                deref_nodes(hrefs@) == hs,
                i <= hrefs.len(),
                spec_multi_hrefs(hs, base@) == match spec_multi_hrefs(
                    hs.skip(i as int),
                    base@,
                ) {
                    Ok(us) => Ok::<Seq<UrlV>, ()>(urls_of(out@) + us),
                    Err(x) => Err(x),
                },
            decreases hrefs.len() - i,
        {
            proof {
                assert(hs[i as int] == *hrefs@[i as int]);
                assert(hs.skip(i as int)[0] == hs[i as int]);
                assert(hs.skip(i as int).drop_first() =~= hs.skip(i + 1));
            }
            match hrefs[i].text() {
                None => {},
                Some(raw) => match crate::codec::unquote_href(raw.as_str()) {
                    None => {
                        return Err(WebDavError::NotUtf8);
                    },
                    Some(p) => {
                        let ghost prev = out@;
                        out.push(base.with_path(p));
                        proof {
                            assert(urls_of(out@) =~= urls_of(prev).push(out@[out@.len() - 1]@));
                            assert forall|us: Seq<UrlV>|
                                urls_of(prev) + (seq![
                                    UrlV {
                                        scheme: base@.scheme,
                                        authority: base@.authority,
                                        path: p@,
                                    },
                                ] + us) =~= urls_of(out@) + us by {}
                        }
                    },
                },
            }
            i = i + 1;
        }
        proof {
            assert(hs.skip(hs.len() as int).len() == 0);
            assert(urls_of(out@) + Seq::<UrlV>::empty() =~= urls_of(out@));
        }
        Ok(out)
    } else {
        match check_multistatus(t) {
            Err(e) => Err(e),
            Ok(()) => Err(
                WebDavError::InvalidResponse(
                    String::from_str("missing property in response but no error"),
                ),
            ),
        }
    }
}

/// Reads a property that may carry many hrefs out of a multistatus
/// response body.
pub fn parse_multiple_href_properties(body: &[u8], base: &Url, property: &PropertyName) -> (r:
    Result<Vec<Url>, WebDavError>)
    ensures
        match crate::xml::xml_tree_of(body@) {
            Some(t) => hrefs_prop_result_good(t, base@, property.ns@, property.name@, r),
            None => r matches Err(e) && doc_fault_good(body@, e),
        },
{
    match parse_document(body) {
        Err(e) => Err(e),
        Ok(t) => parse_multiple_href_properties_tree(&t, base, property),
    }
}

/// The text of the first element named (`ns`, `name`) under `n`, when
/// both the element and its text are present.
pub open spec fn found_text(n: XmlNode, ns: Seq<char>, name: Seq<char>) -> Option<Seq<char>> {
    match find_named(n, ns, name) {
        Some(p) => spec_text(p),
        None => None,
    }
}

/// Looks up the first element named by `property` under `n` and copies
/// its text, when both are present.
pub fn found_text_exec(n: &XmlNode, property: &PropertyName) -> (r: Option<String>)
    ensures
        match r {
            Some(s) => found_text(*n, property.ns@, property.name@) == Some(s@),
            None => found_text(*n, property.ns@, property.name@) is None,
        },
{
    match n.find(&property.ns, &property.name) {
        Some(p) => match p.text() {
            Some(t) => Some(t.clone()),
            None => None,
        },
        None => None,
    }
}

/// The resource-type flags of a response entry: all off when no
/// resourcetype element is present, else one flag per recognised token
/// inside it.
pub open spec fn spec_resource_type(resp: XmlNode) -> ResourceType {
    match find_named(resp, "DAV:"@, "resourcetype"@) {
        None => ResourceType { is_collection: false, is_calendar: false, is_address_book: false },
        Some(rt) => ResourceType {
            is_collection: find_named(rt, "DAV:"@, "collection"@) is Some,
            is_calendar: find_named(rt, "urn:ietf:params:xml:ns:caldav"@, "calendar"@) is Some,
            is_address_book: find_named(rt, "urn:ietf:params:xml:ns:carddav"@, "addressbook"@)
                is Some,
        },
    }
}

/// Reads the resource-type flags of one response entry.
pub fn resource_type_of(resp: &XmlNode) -> (r: ResourceType)
    ensures
        r == spec_resource_type(*resp),
{
    let rt_name = names::resourcetype();
    match resp.find(&rt_name.ns, &rt_name.name) {
        None => ResourceType::none(),
        Some(rt) => {
            let cal = names::calendar();
            let coll = names::collection();
            let abook = names::addressbook();
            ResourceType {
                is_collection: rt.find(&coll.ns, &coll.name).is_some(),
                is_calendar: rt.find(&cal.ns, &cal.name).is_some(),
                is_address_book: rt.find(&abook.ns, &abook.name).is_some(),
            }
        },
    }
}

/// The listed form of one response entry whose unescaped href is `h`.
pub open spec fn spec_listed_item(resp: XmlNode, h: Seq<char>) -> ListedResourceV {
    ListedResourceV {
        href: h,
        details: ItemDetailsV {
            content_type: found_text(resp, "DAV:"@, "getcontenttype"@),
            etag: found_text(resp, "DAV:"@, "getetag"@),
            resource_type: spec_resource_type(resp),
        },
    }
}

/// The mathematical values of a vector of listed resources.
pub open spec fn listed_of(v: Seq<ListedResource>) -> Seq<ListedResourceV> {
    v.map_values(|x: ListedResource| x@)
}

/// What listing a collection turns a list of response entries into: one
/// listed resource per entry in document order, the entry whose
/// unescaped href equals `chref` (the collection describing itself)
/// left out; an entry without a usable href fails the whole read.
pub open spec fn spec_list_resources(rs: Seq<XmlNode>, chref: Seq<char>) -> Result<
    Seq<ListedResourceV>,
    HrefLookup,
>
    decreases rs.len(),
{
    if rs.len() == 0 {
        Ok(Seq::empty())
    } else {
        match response_href(rs[0]) {
            HrefLookup::Found(h) => match spec_list_resources(rs.drop_first(), chref) {
                Ok(items) => Ok(
                    (if h == chref {
                        Seq::empty()
                    } else {
                        seq![spec_listed_item(rs[0], h)]
                    }) + items,
                ),
                Err(x) => Err(x),
            },
            HrefLookup::Missing => Err(HrefLookup::Missing),
            HrefLookup::NoText => Err(HrefLookup::NoText),
            HrefLookup::BadEncoding => Err(HrefLookup::BadEncoding),
        }
    }
}

/// Whether `e` is the right error for the failed href lookup `x`.
pub open spec fn href_fail_good(x: HrefLookup, e: WebDavError) -> bool {
    match x {
        HrefLookup::Missing => e matches WebDavError::InvalidResponse(m) && m@
            == "missing href in response"@,
        HrefLookup::NoText => e matches WebDavError::InvalidResponse(m) && m@
            == "missing text in href"@,
        HrefLookup::BadEncoding => e is NotUtf8,
        HrefLookup::Found(_) => false,
    }
}

/// Whether `r` is what a correct href-failure error looks like for the
/// lookup outcome `x`.
pub open spec fn href_error_good<T>(x: HrefLookup, r: Result<T, WebDavError>) -> bool {
    r matches Err(e) && href_fail_good(x, e)
}

/// What a correct collection listing returns on the tree `t`.
pub open spec fn list_result_good(
    t: XmlNode,
    chref: Seq<char>,
    r: Result<Vec<ListedResource>, WebDavError>,
) -> bool {
    match spec_list_resources(all_named(t, "DAV:"@, "response"@), chref) {
        Ok(items) => r matches Ok(v) && listed_of(v@) == items,
        Err(x) => href_error_good(x, r),
    }
}

/// Turns a parsed depth-1 multistatus tree into the resources of a
/// collection, leaving out the entry that describes the collection
/// itself. `collection_href` must not be percent-encoded.
pub fn list_resources_parse_tree(t: &XmlNode, collection_href: &str) -> (r: Result<
    Vec<ListedResource>,
    WebDavError,
>)
    ensures
        list_result_good(*t, collection_href@, r),
{
    let dav = names::ns_dav();
    let resp_word = names::word_response();
    let responses = t.collect(&dav, &resp_word);
    let ghost rs = all_named(*t, "DAV:"@, "response"@);
    let chref = String::from_str(collection_href);
    let mut out: Vec<ListedResource> = Vec::new();
    proof {
        assert(rs.skip(0) =~= rs);
        assert(listed_of(out@) =~= Seq::<ListedResourceV>::empty());
    }
    let mut i: usize = 0;
    while i < responses.len()
        invariant
            rs == all_named(*t, "DAV:"@, "response"@),
            deref_nodes(responses@) == rs,
            chref@ == collection_href@,
            i <= responses.len(),
            spec_list_resources(rs, chref@) == match spec_list_resources(
                rs.skip(i as int),
                chref@,
            ) {
                Ok(items) => Ok::<Seq<ListedResourceV>, HrefLookup>(listed_of(out@) + items),
                Err(x) => Err(x),
            },
        decreases responses.len() - i,
    {
        proof {
            assert(rs[i as int] == *responses@[i as int]);
            assert(rs.skip(i as int)[0] == rs[i as int]);
            assert(rs.skip(i as int).drop_first() =~= rs.skip(i + 1));
        }
        let href = match get_unquoted_href(responses[i]) {
            Ok(h) => h,
            Err(e) => {
                return Err(e);
            },
        };
        if !(href == chref) {
            let etag = found_text_exec(responses[i], &names::getetag());
            let content_type = found_text_exec(responses[i], &names::getcontenttype());
            let resource_type = resource_type_of(responses[i]);
            let ghost prev = out@;
            out.push(
                ListedResource {
                    details: ItemDetails { content_type, etag, resource_type },
                    href,
                },
            );
            proof {
                assert(listed_of(out@) =~= listed_of(prev).push(out@[out@.len() - 1]@));
                assert forall|items: Seq<ListedResourceV>|
                    listed_of(prev) + (seq![spec_listed_item(rs[i as int], out@[out@.len() - 1]@
                        .href)] + items) =~= listed_of(out@) + items by {}
            }
        }
        i = i + 1;
    }
    proof {
        assert(rs.skip(rs.len() as int).len() == 0);
        assert(listed_of(out@) + Seq::<ListedResourceV>::empty() =~= listed_of(out@));
    }
    Ok(out)
}

/// Turns a depth-1 multistatus response body into the resources of a
/// collection. `collection_href` must not be percent-encoded.
pub fn list_resources_parse(body: &[u8], collection_href: &str) -> (r: Result<
    Vec<ListedResource>,
    WebDavError,
>)
    ensures
        match crate::xml::xml_tree_of(body@) {
            Some(t) => list_result_good(t, collection_href@, r),
            None => r matches Err(e) && doc_fault_good(body@, e),
        },
{
    match parse_document(body) {
        Err(e) => Err(e),
        Ok(t) => list_resources_parse_tree(&t, collection_href),
    }
}

/// Why a multi-get answer could not be interpreted.
pub enum MgFail {
    /// A status element has no text.
    StatusMissingText,
    /// A status element does not parse as an HTTP status line.
    StatusUnparsable,
    /// An href element is missing, empty, or badly encoded.
    Href(HrefLookup),
    /// A successful propstat entry has no etag element.
    MissingEtag,
    /// The etag element has no text.
    NoTextEtag,
    /// The requested data property is absent from a successful entry.
    MissingProp,
    /// The data property has no text.
    NoTextProp,
    /// An error-only entry lists hrefs but no failing status.
    NoStatus,
}

/// The fetched entries that a list of href elements of an error-only
/// response entry stands for: one failure per href, all carrying the
/// entry's status.
pub open spec fn spec_mg_hrefs(hs: Seq<XmlNode>, status: Option<u16>) -> Result<
    Seq<FetchedResourceV>,
    MgFail,
>
    decreases hs.len(),
{
    if hs.len() == 0 {
        Ok(Seq::empty())
    } else {
        match spec_text(hs[0]) {
            None => Err(MgFail::Href(HrefLookup::NoText)),
            Some(raw) => match spec_unquote(raw) {
                None => Err(MgFail::Href(HrefLookup::BadEncoding)),
                Some(h) => match status {
                    None => Err(MgFail::NoStatus),
                    Some(c) => match spec_mg_hrefs(hs.drop_first(), status) {
                        Ok(more) => Ok(
                            seq![FetchedResourceV { href: h, content: Err(c) }] + more,
                        ),
                        Err(f) => Err(f),
                    },
                },
            },
        }
    }
}

/// The fetched entries that one response entry stands for.
///
/// An entry with a propstat yields one result: the resource's data and
/// etag on success (with CR-LF restored in the data), or its failing
/// status. A successful propstat entry without an etag or without the
/// data property is a hard error, not a partial result. An entry without
/// a propstat yields one failure per href it lists.
pub open spec fn spec_mg_entry(resp: XmlNode, pns: Seq<char>, pname: Seq<char>) -> Result<
    Seq<FetchedResourceV>,
    MgFail,
> {
    match scan_statuses(status_nodes(resp)) {
        StatusScan::MissingText => Err(MgFail::StatusMissingText),
        StatusScan::Unparsable => Err(MgFail::StatusUnparsable),
        scan => {
            let status = match scan {
                StatusScan::Fail(c) => Some(c),
                _ => None,
            };
            if all_named(resp, "DAV:"@, "propstat"@).len() > 0 {
                match response_href(resp) {
                    HrefLookup::Found(h) => match status {
                        Some(c) => Ok(seq![FetchedResourceV { href: h, content: Err(c) }]),
                        None => match find_named(resp, "DAV:"@, "getetag"@) {
                            None => Err(MgFail::MissingEtag),
                            Some(en) => match spec_text(en) {
                                None => Err(MgFail::NoTextEtag),
                                Some(etag) => match find_named(resp, pns, pname) {
                                    None => Err(MgFail::MissingProp),
                                    Some(pn) => match spec_text(pn) {
                                        None => Err(MgFail::NoTextProp),
                                        Some(d) => Ok(
                                            seq![
                                                FetchedResourceV {
                                                    href: h,
                                                    content: Ok(
                                                        FetchedResourceContentV {
                                                            data: crlf_restore(d),
                                                            etag: etag,
                                                        },
                                                    ),
                                                },
                                            ],
                                        ),
                                    },
                                },
                            },
                        },
                    },
                    x => Err(MgFail::Href(x)),
                }
            } else {
                spec_mg_hrefs(all_named(resp, "DAV:"@, "href"@), status)
            }
        },
    }
}

/// The fetched entries of a whole multi-get answer, in document order.
pub open spec fn spec_multi_get(rs: Seq<XmlNode>, pns: Seq<char>, pname: Seq<char>) -> Result<
    Seq<FetchedResourceV>,
    MgFail,
>
    decreases rs.len(),
{
    if rs.len() == 0 {
        Ok(Seq::empty())
    } else {
        match spec_mg_entry(rs[0], pns, pname) {
            Err(f) => Err(f),
            Ok(es) => match spec_multi_get(rs.drop_first(), pns, pname) {
                Ok(more) => Ok(es + more),
                Err(f) => Err(f),
            },
        }
    }
}

/// Whether `e` is the right error for the multi-get failure `f`.
pub open spec fn mg_fail_good(f: MgFail, e: WebDavError) -> bool {
    match f {
        MgFail::StatusMissingText => e matches WebDavError::InvalidResponse(m) && m@
            == "missing text inside status element"@,
        MgFail::StatusUnparsable => e is InvalidStatusCode,
        MgFail::Href(x) => href_fail_good(x, e),
        MgFail::MissingEtag => e matches WebDavError::InvalidResponse(m) && m@
            == "missing etag in response"@,
        MgFail::NoTextEtag => e matches WebDavError::InvalidResponse(m) && m@
            == "missing text in etag"@,
        MgFail::MissingProp => e matches WebDavError::InvalidResponse(_),
        MgFail::NoTextProp => e matches WebDavError::InvalidResponse(m) && m@
            == "missing text in property"@,
        MgFail::NoStatus => e matches WebDavError::InvalidResponse(m) && m@
            == "missing props but no error status code"@,
    }
}

/// The mathematical values of a vector of fetched resources.
pub open spec fn fetched_of(v: Seq<FetchedResource>) -> Seq<FetchedResourceV> {
    v.map_values(|x: FetchedResource| x@)
}

/// What a correct multi-get read returns on the tree `t`.
pub open spec fn mg_result_good(
    t: XmlNode,
    pns: Seq<char>,
    pname: Seq<char>,
    r: Result<Vec<FetchedResource>, WebDavError>,
) -> bool {
    match spec_multi_get(all_named(t, "DAV:"@, "response"@), pns, pname) {
        Ok(items) => r matches Ok(v) && fetched_of(v@) == items,
        Err(f) => r matches Err(e) && mg_fail_good(f, e),
    }
}

/// Interprets one response entry of a multi-get answer.
pub fn multi_get_entry(resp: &XmlNode, property: &PropertyName) -> (r: Result<
    Vec<FetchedResource>,
    WebDavError,
>)
    ensures
        match r {
            Ok(v) => spec_mg_entry(*resp, property.ns@, property.name@) == Ok::<
                Seq<FetchedResourceV>,
                MgFail,
            >(fetched_of(v@)),
            Err(e) => spec_mg_entry(*resp, property.ns@, property.name@) matches Err(f)
                && mg_fail_good(f, e),
        },
{
    let status: Option<u16> = match check_multistatus(resp) {
        Ok(()) => None,
        Err(WebDavError::BadStatusCode(c)) => Some(c),
        Err(e) => {
            return Err(e);
        },
    };
    let dav = names::ns_dav();
    let propstat_word = names::word_propstat();
    let has_propstat = resp.find(&dav, &propstat_word).is_some();
    proof {
        crate::xml::lemma_find_all_named(*resp, "DAV:"@, "propstat"@);
    }
    if has_propstat {
        let href = match get_unquoted_href(resp) {
            Ok(h) => h,
            Err(e) => {
                return Err(e);
            },
        };
        match status {
            Some(c) => {
                let mut out: Vec<FetchedResource> = Vec::new();
                out.push(FetchedResource { href, content: Err(c) });
                proof {
                    assert(fetched_of(out@) =~= seq![out@[0]@]);
                }
                Ok(out)
            },
            None => {
                let etag_name = names::getetag();
                let etag_node = match resp.find(&etag_name.ns, &etag_name.name) {
                    Some(n) => n,
                    None => {
                        return Err(
                            WebDavError::InvalidResponse(
                                String::from_str("missing etag in response"),
                            ),
                        );
                    },
                };
                let etag = match etag_node.text() {
                    Some(t) => t.clone(),
                    None => {
                        return Err(
                            WebDavError::InvalidResponse(
                                String::from_str("missing text in etag"),
                            ),
                        );
                    },
                };
                let prop_node = match resp.find(&property.ns, &property.name) {
                    Some(n) => n,
                    None => {
                        let mut msg = String::from_str("missing ");
                        msg.append(property.name.as_str());
                        msg.append(" in response");
                        return Err(WebDavError::InvalidResponse(msg));
                    },
                };
                let raw = match prop_node.text() {
                    Some(t) => t,
                    None => {
                        return Err(
                            WebDavError::InvalidResponse(
                                String::from_str("missing text in property"),
                            ),
                        );
                    },
                };
                let data_chars = crlf_restore_chars(&chars_of(raw.as_str()));
                let data = string_from_chars(&data_chars);
                let mut out: Vec<FetchedResource> = Vec::new();
                out.push(
                    FetchedResource {
                        href,
                        content: Ok(FetchedResourceContent { data, etag }),
                    },
                );
                proof {
                    assert(fetched_of(out@) =~= seq![out@[0]@]);
                }
                Ok(out)
            },
        }
    } else {
        let href_word = names::word_href();
        let hrefs = resp.collect(&dav, &href_word);
        let ghost hs = all_named(*resp, "DAV:"@, "href"@);
        let mut out: Vec<FetchedResource> = Vec::new();
        proof {
            assert(hs.skip(0) =~= hs);
            assert(fetched_of(out@) =~= Seq::<FetchedResourceV>::empty());
        }
        let mut i: usize = 0;
        while i < hrefs.len()
            invariant
                hs == all_named(*resp, "DAV:"@, "href"@),
                all_named(*resp, "DAV:"@, "propstat"@).len() == 0,
                match scan_statuses(status_nodes(*resp)) {
                    StatusScan::Fail(c) => status == Some(c),
                    StatusScan::AllSuccess => status is None,
                    _ => false,
                },
                deref_nodes(hrefs@) == hs,
                i <= hrefs.len(),
                spec_mg_hrefs(hs, status) == match spec_mg_hrefs(hs.skip(i as int), status) {
                    Ok(more) => Ok::<Seq<FetchedResourceV>, MgFail>(fetched_of(out@) + more),
                    Err(f) => Err(f),
                },
            decreases hrefs.len() - i,
        {
            proof {
                assert(hs[i as int] == *hrefs@[i as int]);
                assert(hs.skip(i as int)[0] == hs[i as int]);
                assert(hs.skip(i as int).drop_first() =~= hs.skip(i + 1));
            }
            let raw = match hrefs[i].text() {
                Some(t) => t,
                None => {
                    return Err(
                        WebDavError::InvalidResponse(String::from_str("missing text in href")),
                    );
                },
            };
            let href = match crate::codec::unquote_href(raw.as_str()) {
                Some(h) => h,
                None => {
                    return Err(WebDavError::NotUtf8);
                },
            };
            let c = match status {
                Some(c) => c,
                None => {
                    return Err(
                        WebDavError::InvalidResponse(
                            String::from_str("missing props but no error status code"),
                        ),
                    );
                },
            };
            let ghost prev = out@;
            out.push(FetchedResource { href, content: Err(c) });
            proof {
                assert(fetched_of(out@) =~= fetched_of(prev).push(out@[out@.len() - 1]@));
                assert forall|more: Seq<FetchedResourceV>|
                    fetched_of(prev) + (seq![out@[out@.len() - 1]@] + more) =~= fetched_of(out@)
                        + more by {}
            }
            i = i + 1;
        }
        proof {
            assert(hs.skip(hs.len() as int).len() == 0);
            assert(fetched_of(out@) + Seq::<FetchedResourceV>::empty() =~= fetched_of(out@));
        }
        Ok(out)
    }
}

/// Turns a parsed multi-get (REPORT) answer into one fetched resource
/// per addressed href: data and etag where the entry succeeded, the
/// failing status where it did not.
pub fn multi_get_parse_tree(t: &XmlNode, property: &PropertyName) -> (r: Result<
    Vec<FetchedResource>,
    WebDavError,
>)
    ensures
        mg_result_good(*t, property.ns@, property.name@, r),
{
    let dav = names::ns_dav();
    let resp_word = names::word_response();
    let responses = t.collect(&dav, &resp_word);
    let ghost rs = all_named(*t, "DAV:"@, "response"@);
    let mut out: Vec<FetchedResource> = Vec::new();
    proof {
        assert(rs.skip(0) =~= rs);
        assert(fetched_of(out@) =~= Seq::<FetchedResourceV>::empty());
    }
    let mut i: usize = 0;
    while i < responses.len()
        invariant
            rs == all_named(*t, "DAV:"@, "response"@),
            deref_nodes(responses@) == rs,
            i <= responses.len(),
            spec_multi_get(rs, property.ns@, property.name@) == match spec_multi_get(
                rs.skip(i as int),
                property.ns@,
                property.name@,
            ) {
                Ok(more) => Ok::<Seq<FetchedResourceV>, MgFail>(fetched_of(out@) + more),
                Err(f) => Err(f),
            },
        decreases responses.len() - i,
    {
        proof {
            assert(rs[i as int] == *responses@[i as int]);
            assert(rs.skip(i as int)[0] == rs[i as int]);
            assert(rs.skip(i as int).drop_first() =~= rs.skip(i + 1));
        }
        let mut entries = match multi_get_entry(responses[i], property) {
            Ok(v) => v,
            Err(e) => {
                return Err(e);
            },
        };
        let ghost prev = out@;
        let ghost es = entries@;
        out.append(&mut entries);
        proof {
            assert(fetched_of(out@) =~= fetched_of(prev) + fetched_of(es));
            assert forall|more: Seq<FetchedResourceV>|
                fetched_of(prev) + (fetched_of(es) + more) =~= fetched_of(out@) + more by {}
        }
        i = i + 1;
    }
    proof {
        assert(rs.skip(rs.len() as int).len() == 0);
        assert(fetched_of(out@) + Seq::<FetchedResourceV>::empty() =~= fetched_of(out@));
    }
    Ok(out)
}

/// Turns a multi-get (REPORT) response body into one fetched resource per
/// addressed href.
pub fn multi_get_parse(body: &[u8], property: &PropertyName) -> (r: Result<
    Vec<FetchedResource>,
    WebDavError,
>)
    ensures
        match crate::xml::xml_tree_of(body@) {
            Some(t) => mg_result_good(t, property.ns@, property.name@, r),
            None => r matches Err(e) && doc_fault_good(body@, e),
        },
{
    match parse_document(body) {
        Err(e) => Err(e),
        Ok(t) => multi_get_parse_tree(&t, property),
    }
}

/// Whether a response entry's resourcetype property contains the element
/// named (`ons`, `oname`).
pub open spec fn spec_has_rtype(resp: XmlNode, ons: Seq<char>, oname: Seq<char>) -> bool {
    match find_named(resp, "DAV:"@, "resourcetype"@) {
        Some(rt) => find_named(rt, ons, oname) is Some,
        None => false,
    }
}

/// Whether a response entry advertises the sync-collection report inside
/// its supported-report-set property.
pub open spec fn spec_supports_sync(resp: XmlNode) -> bool {
    match find_named(resp, "DAV:"@, "supported-report-set"@) {
        Some(n) => find_named(n, "DAV:"@, "sync-collection"@) is Some,
        None => false,
    }
}

/// The found form of one matching response entry whose unescaped href is
/// `h`.
pub open spec fn spec_found_collection(resp: XmlNode, h: Seq<char>) -> FoundCollectionV {
    FoundCollectionV {
        href: h,
        etag: found_text(resp, "DAV:"@, "getetag"@),
        supports_sync: spec_supports_sync(resp),
    }
}

/// The mathematical values of a vector of found collections.
pub open spec fn found_of(v: Seq<FoundCollection>) -> Seq<FoundCollectionV> {
    v.map_values(|x: FoundCollection| x@)
}

/// The collections of the given resource type among a list of response
/// entries, in document order; a kept entry without a usable href fails
/// the whole read.
pub open spec fn spec_find_collections(rs: Seq<XmlNode>, ons: Seq<char>, oname: Seq<char>) -> Result<
    Seq<FoundCollectionV>,
    HrefLookup,
>
    decreases rs.len(),
{
    if rs.len() == 0 {
        Ok(Seq::empty())
    } else if !spec_has_rtype(rs[0], ons, oname) {
        spec_find_collections(rs.drop_first(), ons, oname)
    } else {
        match response_href(rs[0]) {
            HrefLookup::Found(h) => match spec_find_collections(rs.drop_first(), ons, oname) {
                Ok(items) => Ok(seq![spec_found_collection(rs[0], h)] + items),
                Err(x) => Err(x),
            },
            HrefLookup::Missing => Err(HrefLookup::Missing),
            HrefLookup::NoText => Err(HrefLookup::NoText),
            HrefLookup::BadEncoding => Err(HrefLookup::BadEncoding),
        }
    }
}

/// What a correct home-set search returns on the tree `t`.
pub open spec fn find_collections_result_good(
    t: XmlNode,
    ons: Seq<char>,
    oname: Seq<char>,
    r: Result<Vec<FoundCollection>, WebDavError>,
) -> bool {
    match spec_find_collections(all_named(t, "DAV:"@, "response"@), ons, oname) {
        Ok(items) => r matches Ok(v) && found_of(v@) == items,
        Err(x) => href_error_good(x, r),
    }
}

/// Keeps the response entries whose resourcetype property contains the
/// element named by `only`, and reads each kept entry's unescaped href,
/// optional etag and sync capability.
pub fn parse_find_multiple_collections_tree(t: &XmlNode, only: &PropertyName) -> (r: Result<
    Vec<FoundCollection>,
    WebDavError,
>)
    ensures
        find_collections_result_good(*t, only.ns@, only.name@, r),
{
    let dav = names::ns_dav();
    let resp_word = names::word_response();
    let responses = t.collect(&dav, &resp_word);
    let ghost rs = all_named(*t, "DAV:"@, "response"@);
    let mut out: Vec<FoundCollection> = Vec::new();
    proof {
        assert(rs.skip(0) =~= rs);
        assert(found_of(out@) =~= Seq::<FoundCollectionV>::empty());
    }
    let mut i: usize = 0;
    while i < responses.len()
        invariant
            rs == all_named(*t, "DAV:"@, "response"@),
            deref_nodes(responses@) == rs,
            i <= responses.len(),
            spec_find_collections(rs, only.ns@, only.name@) == match spec_find_collections(
                rs.skip(i as int),
                only.ns@,
                only.name@,
            ) {
                Ok(items) => Ok::<Seq<FoundCollectionV>, HrefLookup>(found_of(out@) + items),
                Err(x) => Err(x),
            },
        decreases responses.len() - i,
    {
        proof {
            assert(rs[i as int] == *responses@[i as int]);
            assert(rs.skip(i as int)[0] == rs[i as int]);
            assert(rs.skip(i as int).drop_first() =~= rs.skip(i + 1));
        }
        let rt_name = names::resourcetype();
        let keeps = match responses[i].find(&rt_name.ns, &rt_name.name) {
            Some(rt) => rt.find(&only.ns, &only.name).is_some(),
            None => false,
        };
        if keeps {
            let href = match get_unquoted_href(responses[i]) {
                Ok(h) => h,
                Err(e) => {
                    return Err(e);
                },
            };
            let etag = found_text_exec(responses[i], &names::getetag());
            let srs = names::supported_report_set();
            let sync = names::sync_collection();
            let supports_sync = match responses[i].find(&srs.ns, &srs.name) {
                Some(n) => n.find(&sync.ns, &sync.name).is_some(),
                None => false,
            };
            let ghost prev = out@;
            out.push(FoundCollection { href, etag, supports_sync });
            proof {
                assert(found_of(out@) =~= found_of(prev).push(out@[out@.len() - 1]@));
                assert forall|items: Seq<FoundCollectionV>|
                    found_of(prev) + (seq![out@[out@.len() - 1]@] + items) =~= found_of(out@)
                        + items by {}
            }
        }
        i = i + 1;
    }
    proof {
        assert(rs.skip(rs.len() as int).len() == 0);
        assert(found_of(out@) + Seq::<FoundCollectionV>::empty() =~= found_of(out@));
    }
    Ok(out)
}

/// Keeps the collections of one resource type out of a multistatus
/// response body.
pub fn parse_find_multiple_collections(body: &[u8], only: &PropertyName) -> (r: Result<
    Vec<FoundCollection>,
    WebDavError,
>)
    ensures
        match crate::xml::xml_tree_of(body@) {
            Some(t) => find_collections_result_good(t, only.ns@, only.name@, r),
            None => r matches Err(e) && doc_fault_good(body@, e),
        },
{
    match parse_document(body) {
        Err(e) => Err(e),
        Ok(t) => parse_find_multiple_collections_tree(&t, only),
    }
}

/// Reads one property out of a multistatus response body.
///
/// The property is first looked up by its exact expanded name and then,
/// as a documented workaround for servers that answer in the wrong
/// namespace, by its local name alone.
pub fn parse_prop(body: &[u8], property: &PropertyName) -> (r: Result<Option<String>, WebDavError>)
    ensures
        match crate::xml::xml_tree_of(body@) {
            Some(t) => prop_result_good(t, property.ns@, property.name@, r),
            None => r matches Err(e) && doc_fault_good(body@, e),
        },
{
    match parse_document(body) {
        Err(e) => Err(e),
        Ok(t) => parse_prop_tree(&t, property),
    }
}

/// The decimal digits of a number, most significant first.
pub open spec fn spec_dec(n: nat) -> Seq<char>
    decreases n,
{
    if n < 10 {
        seq![((48 + n) as u8) as char]
    } else {
        spec_dec(n / 10) + seq![((48 + n % 10) as u8) as char]
    }
}

/// Writes a number in decimal.
pub fn dec_chars(n: u16) -> (r: Vec<char>)
    ensures
        r@ == spec_dec(n as nat),
    decreases n,
{
    if n < 10 {
        let mut v: Vec<char> = Vec::new();
        v.push((48 + n as u8) as char);
        proof {
            assert(v@ =~= spec_dec(n as nat));
        }
        v
    } else {
        let mut v = dec_chars(n / 10);
        v.push((48 + (n % 10) as u8) as char);
        proof {
            assert(v@ =~= spec_dec((n / 10) as nat) + seq![((48 + n % 10) as u8) as char]);
        }
        v
    }
}

/// One HTTP request, described as plain data. The caller that owns the
/// transport turns it into a real request, sends it, and hands the
/// response back as plain data.
pub struct HttpRequest {
    pub method: String,
    pub url: Url,
    pub headers: Vec<(String, String)>,
    pub body: Vec<u8>,
}

/// One HTTP response, as plain data. Header names are expected in lower
/// case, as HTTP libraries normalise them.
pub struct HttpResponse {
    pub status: u16,
    pub headers: Vec<(String, String)>,
    pub body: Vec<u8>,
}

/// The mathematical values of a header list.
pub open spec fn headers_of(hs: Seq<(String, String)>) -> Seq<(Seq<char>, Seq<char>)> {
    hs.map_values(|h: (String, String)| (h.0@, h.1@))
}

/// The value of the first header with the given name.
pub open spec fn spec_header_value(
    hs: Seq<(Seq<char>, Seq<char>)>,
    name: Seq<char>,
) -> Option<Seq<char>>
    decreases hs.len(),
{
    if hs.len() == 0 {
        None
    } else if hs[0].0 == name {
        Some(hs[0].1)
    } else {
        spec_header_value(hs.drop_first(), name)
    }
}

/// Finds the value of the first header with the given name.
pub fn find_header<'a>(headers: &'a Vec<(String, String)>, name: &str) -> (r: Option<&'a String>)
    ensures
        match r {
            Some(v) => spec_header_value(headers_of(headers@), name@) == Some(v@),
            None => spec_header_value(headers_of(headers@), name@) is None,
        },
{
    let name_s = String::from_str(name);
    let ghost hs = headers_of(headers@);
    proof {
        assert(hs.skip(0) =~= hs);
    }
    let mut i: usize = 0;
    while i < headers.len()
        invariant
            hs == headers_of(headers@),
            name_s@ == name@,
            i <= headers.len(),
            spec_header_value(hs, name@) == spec_header_value(hs.skip(i as int), name@),
        decreases headers.len() - i,
    {
        proof {
            assert(hs.skip(i as int)[0] == hs[i as int]);
            assert(hs.skip(i as int).drop_first() =~= hs.skip(i + 1));
        }
        if headers[i].0 == name_s {
            return Some(&headers[i].1);
        }
        i = i + 1;
    }
    proof {
        assert(hs.skip(hs.len() as int).len() == 0);
    }
    None
}

/// The rendered empty elements of a list of property names, concatenated.
pub open spec fn spec_rendered_props(props: Seq<PropertyName>) -> Seq<char>
    decreases props.len(),
{
    if props.len() == 0 {
        Seq::empty()
    } else {
        crate::xml::spec_render_xml(props[0].ns@, props[0].name@) + spec_rendered_props(
            props.drop_first(),
        )
    }
}

/// Renders each property as an empty element and concatenates them.
pub fn render_props(props: &Vec<PropertyName>) -> (r: String)
    ensures
        r@ == spec_rendered_props(props@),
{
    let mut out = String::new();
    proof {
        assert(props@.skip(0) =~= props@);
    }
    let mut i: usize = 0;
    while i < props.len()
        invariant
            i <= props.len(),
            spec_rendered_props(props@) == out@ + spec_rendered_props(props@.skip(i as int)),
        decreases props.len() - i,
    {
        proof {
            assert(props@.skip(i as int)[0] == props@[i as int]);
            assert(props@.skip(i as int).drop_first() =~= props@.skip(i + 1));
        }
        let rendered = crate::xml::render_xml(&props[i]);
        out.append(rendered.as_str());
        i = i + 1;
    }
    proof {
        assert(props@.skip(props@.len() as int).len() == 0);
        assert(out@ =~= spec_rendered_props(props@));
    }
    out
}

/// The body of a PROPFIND request for the given properties.
pub open spec fn spec_propfind_body(props: Seq<PropertyName>) -> Seq<char> {
    "<propfind xmlns=\"DAV:\"><prop>"@ + spec_rendered_props(props) + "</prop></propfind>"@
}

/// The body of a PROPPATCH request: a set of the rendered property when
/// a value is given, a remove of it otherwise.
pub open spec fn spec_proppatch_body(
    pns: Seq<char>,
    pname: Seq<char>,
    value: Option<Seq<char>>,
) -> Seq<char> {
    let action: Seq<char> = if value is Some {
        "set"@
    } else {
        "remove"@
    };
    "<propertyupdate xmlns=\"DAV:\"><"@ + action + "><prop>"@ + crate::xml::spec_render_xml_with_text(
        pns,
        pname,
        value,
    ) + "</prop></"@ + action + "></propertyupdate>"@
}

/// The body of an extended MKCOL request: the implied collection
/// resource type followed by the extra ones asked for.
pub open spec fn spec_mkcol_body(resourcetypes: Seq<PropertyName>) -> Seq<char> {
    "<mkcol xmlns=\"DAV:\"><set><prop><resourcetype><collection/>"@ + spec_rendered_props(
        resourcetypes,
    ) + "</resourcetype></prop></set></mkcol>"@
}

/// The PROPFIND body with which a collection's resources are listed:
/// resource type, content type and etag.
pub open spec fn spec_list_propfind_body() -> Seq<char> {
    "<propfind xmlns=\"DAV:\"><prop>"@ + crate::xml::spec_render_xml("DAV:"@, "resourcetype"@)
        + crate::xml::spec_render_xml("DAV:"@, "getcontenttype"@) + crate::xml::spec_render_xml(
        "DAV:"@,
        "getetag"@,
    ) + "</prop></propfind>"@
}

/// The rendered property list of a collection listing: resource type,
/// content type and etag, in that order.
pub proof fn lemma_list_props(p: Seq<PropertyName>)
    requires
        p.len() == 3,
        p[0].ns@ == "DAV:"@ && p[0].name@ == "resourcetype"@,
        p[1].ns@ == "DAV:"@ && p[1].name@ == "getcontenttype"@,
        p[2].ns@ == "DAV:"@ && p[2].name@ == "getetag"@,
    ensures
        spec_propfind_body(p) == spec_list_propfind_body(),
{
    let p1 = p.drop_first();
    let p2 = p1.drop_first();
    let p3 = p2.drop_first();
    assert(p1[0] == p[1] && p2[0] == p[2]);
    assert(p3.len() == 0);
    assert(spec_rendered_props(p3) == Seq::<char>::empty());
    assert(spec_rendered_props(p2) =~= crate::xml::spec_render_xml(p[2].ns@, p[2].name@));
    assert(spec_rendered_props(p1) =~= crate::xml::spec_render_xml(p[1].ns@, p[1].name@)
        + spec_rendered_props(p2));
    assert(spec_rendered_props(p) =~= crate::xml::spec_render_xml(p[0].ns@, p[0].name@)
        + spec_rendered_props(p1));
    assert(spec_propfind_body(p) =~= spec_list_propfind_body());
}

/// A WebDAV client: the server's base URL (scheme, authority and context
/// path) and the authentication scheme applied to every request.
pub struct WebDavClient {
    pub base_url: Url,
    pub auth: crate::auth::Auth,
}

impl WebDavClient {
    /// Builds a new WebDAV client.
    pub fn new(base_url: Url, auth: crate::auth::Auth) -> (r: WebDavClient)
        ensures
            r.base_url@ == base_url@,
            r.auth == auth,
    {
        WebDavClient { base_url, auth }
    }

    /// Returns the URL of the server's context path.
    pub fn base_url(&self) -> (r: &Url)
        ensures
            r@ == self.base_url@,
    {
        &self.base_url
    }

    /// A URL under the server's root with the given unescaped path:
    /// the path is percent-escaped here, so it must not be escaped
    /// already.
    pub fn relative_uri(&self, path: &str) -> (r: Url)
        ensures
            r@.scheme == self.base_url@.scheme,
            r@.authority == self.base_url@.authority,
            r@.path == crate::codec::spec_quote(path@),
    {
        self.base_url.with_path(crate::codec::quote_href(path))
    }

    /// Appends this client's authentication header, if any, to a
    /// request. The header's value is sensitive and must not be logged.
    pub fn authorize(&self, req: &mut HttpRequest)
        ensures
            final (req).method == old(req).method,
            final (req).url == old(req).url,
            final (req).body == old(req).body,
            headers_of(final (req).headers@) == match self.auth.spec_header() {
                None => headers_of(old(req).headers@),
                Some(h) => headers_of(old(req).headers@).push(h),
            },
    {
        match self.auth.header() {
            None => {
                proof {
                    assert(headers_of(req.headers@) =~= headers_of(old(req).headers@));
                }
            },
            Some(h) => {
                let ghost prev = req.headers@;
                req.headers.push(h);
                proof {
                    assert(headers_of(req.headers@) =~= headers_of(prev).push(
                        (req.headers@[req.headers@.len() - 1].0@, req.headers@[req.headers@.len()
                            - 1].1@),
                    ));
                }
            },
        }
    }

    /// Builds a PROPFIND request for the given properties at `url`.
    ///
    /// Depth 0 asks about the target alone, depth 1 about the target and
    /// its immediate children.
    pub fn propfind_request(&self, url: &Url, properties: &Vec<PropertyName>, depth: u8) -> (r:
        HttpRequest)
        requires
            depth <= 1,
        ensures
            r.method@ == "PROPFIND"@,
            r.url@ == url@,
            headers_of(r.headers@) == seq![
                ("content-type"@, "application/xml; charset=utf-8"@),
                ("depth"@, if depth == 0 { "0"@ } else { "1"@ }),
            ],
            r.body@ == vstd::utf8::encode_utf8(spec_propfind_body(properties@)),
    {
        let mut body = String::from_str("<propfind xmlns=\"DAV:\"><prop>");
        let rendered = render_props(properties);
        body.append(rendered.as_str());
        body.append("</prop></propfind>");
        proof {
            assert(body@ =~= spec_propfind_body(properties@));
        }
        let mut headers: Vec<(String, String)> = Vec::new();
        headers.push(
            (
                String::from_str("content-type"),
                String::from_str("application/xml; charset=utf-8"),
            ),
        );
        if depth == 0 {
            headers.push((String::from_str("depth"), String::from_str("0")));
        } else {
            headers.push((String::from_str("depth"), String::from_str("1")));
        }
        let r = HttpRequest {
            method: String::from_str("PROPFIND"),
            url: url.duplicate(),
            headers,
            body: body.as_str().as_bytes_vec(),
        };
        proof {
            assert(headers_of(r.headers@) =~= seq![
                ("content-type"@, "application/xml; charset=utf-8"@),
                ("depth"@, if depth == 0 { "0"@ } else { "1"@ }),
            ]);
        }
        r
    }

    /// Builds a PROPPATCH request at the resource with the unescaped
    /// href `href`: it sets the property to `value`, or removes it when
    /// no value is given.
    pub fn set_property_request(
        &self,
        href: &str,
        property: &PropertyName,
        value: Option<&str>,
    ) -> (r: HttpRequest)
        ensures
            r.method@ == "PROPPATCH"@,
            r.url@.scheme == self.base_url@.scheme,
            r.url@.authority == self.base_url@.authority,
            r.url@.path == crate::codec::spec_quote(href@),
            headers_of(r.headers@) == seq![
                ("content-type"@, "application/xml; charset=utf-8"@),
            ],
            r.body@ == vstd::utf8::encode_utf8(
                spec_proppatch_body(
                    property.ns@,
                    property.name@,
                    match value {
                        Some(v) => Some(v@),
                        None => None,
                    },
                ),
            ),
    {
        let inner = crate::xml::render_xml_with_text(property, value);
        let mut body = String::from_str("<propertyupdate xmlns=\"DAV:\"><");
        let action: &str = match value {
            Some(_) => "set",
            None => "remove",
        };
        body.append(action);
        body.append("><prop>");
        body.append(inner.as_str());
        body.append("</prop></");
        body.append(action);
        body.append("></propertyupdate>");
        proof {
            assert(body@ =~= spec_proppatch_body(
                property.ns@,
                property.name@,
                match value {
                    Some(v) => Some(v@),
                    None => None,
                },
            ));
        }
        let mut headers: Vec<(String, String)> = Vec::new();
        headers.push(
            (
                String::from_str("content-type"),
                String::from_str("application/xml; charset=utf-8"),
            ),
        );
        let r = HttpRequest {
            method: String::from_str("PROPPATCH"),
            url: self.relative_uri(href),
            headers,
            body: body.as_str().as_bytes_vec(),
        };
        proof {
            assert(headers_of(r.headers@) =~= seq![
                ("content-type"@, "application/xml; charset=utf-8"@),
            ]);
        }
        r
    }

    /// Builds the depth-1 PROPFIND that lists a collection's resources:
    /// resource type, content type and etag of the target and its
    /// immediate children. `collection_href` must not be percent-encoded.
    pub fn list_resources_request(&self, collection_href: &str) -> (r: HttpRequest)
        ensures
            r.method@ == "PROPFIND"@,
            r.url@.scheme == self.base_url@.scheme,
            r.url@.authority == self.base_url@.authority,
            r.url@.path == crate::codec::spec_quote(collection_href@),
            headers_of(r.headers@) == seq![
                ("content-type"@, "application/xml; charset=utf-8"@),
                ("depth"@, "1"@),
            ],
            r.body@ == vstd::utf8::encode_utf8(spec_list_propfind_body()),
    {
        let mut props: Vec<PropertyName> = Vec::new();
        props.push(crate::names::resourcetype());
        props.push(crate::names::getcontenttype());
        props.push(crate::names::getetag());
        proof {
            lemma_list_props(props@);
        }
        let url = self.relative_uri(collection_href);
        self.propfind_request(&url, &props, 1)
    }

    /// Builds the PUT request shared by create and update: a write
    /// conditioned on `etag` when one is given (the update case), and on
    /// the resource's absence when none is (the create case).
    pub fn put_request(&self, href: &str, data: Vec<u8>, etag: Option<&str>, mime_type: &str) -> (r:
        HttpRequest)
        ensures
            r.method@ == "PUT"@,
            r.url@.scheme == self.base_url@.scheme,
            r.url@.authority == self.base_url@.authority,
            r.url@.path == crate::codec::spec_quote(href@),
            r.body@ == data@,
            headers_of(r.headers@) == match etag {
                Some(e) => seq![
                    ("content-type"@, mime_type@),
                    ("if-match"@, e@),
                ],
                None => seq![
                    ("content-type"@, mime_type@),
                    ("if-none-match"@, "*"@),
                ],
            },
    {
        let mut headers: Vec<(String, String)> = Vec::new();
        headers.push((String::from_str("content-type"), String::from_str(mime_type)));
        match etag {
            Some(e) => headers.push((String::from_str("if-match"), String::from_str(e))),
            None => headers.push((String::from_str("if-none-match"), String::from_str("*"))),
        }
        let r = HttpRequest {
            method: String::from_str("PUT"),
            url: self.relative_uri(href),
            headers,
            body: data,
        };
        proof {
            match etag {
                Some(e) => assert(headers_of(r.headers@) =~= seq![
                    ("content-type"@, mime_type@),
                    ("if-match"@, e@),
                ]),
                None => assert(headers_of(r.headers@) =~= seq![
                    ("content-type"@, mime_type@),
                    ("if-none-match"@, "*"@),
                ]),
            }
        }
        r
    }

    /// Builds the request that creates a new resource at `href`: a PUT
    /// conditioned on the resource's absence, so that it fails when a
    /// resource already exists there.
    pub fn create_resource_request(&self, href: &str, data: Vec<u8>, mime_type: &str) -> (r:
        HttpRequest)
        ensures
            r.method@ == "PUT"@,
            r.url@.scheme == self.base_url@.scheme,
            r.url@.authority == self.base_url@.authority,
            r.url@.path == crate::codec::spec_quote(href@),
            r.body@ == data@,
            headers_of(r.headers@) == seq![
                ("content-type"@, mime_type@),
                ("if-none-match"@, "*"@),
            ],
    {
        self.put_request(href, data, None, mime_type)
    }

    /// Builds the request that updates the resource at `href`: a PUT
    /// conditioned on `etag`, so that it fails with a precondition
    /// failure when the resource changed since it was read.
    pub fn update_resource_request(
        &self,
        href: &str,
        data: Vec<u8>,
        etag: &str,
        mime_type: &str,
    ) -> (r: HttpRequest)
        ensures
            r.method@ == "PUT"@,
            r.url@.scheme == self.base_url@.scheme,
            r.url@.authority == self.base_url@.authority,
            r.url@.path == crate::codec::spec_quote(href@),
            r.body@ == data@,
            headers_of(r.headers@) == seq![
                ("content-type"@, mime_type@),
                ("if-match"@, etag@),
            ],
    {
        self.put_request(href, data, Some(etag), mime_type)
    }

    /// Builds an extended MKCOL request that creates a collection at
    /// `href`. The collection resource type is implied and must not be
    /// among `resourcetypes`.
    pub fn create_collection_request(&self, href: &str, resourcetypes: &Vec<PropertyName>) -> (r:
        HttpRequest)
        ensures
            r.method@ == "MKCOL"@,
            r.url@.scheme == self.base_url@.scheme,
            r.url@.authority == self.base_url@.authority,
            r.url@.path == crate::codec::spec_quote(href@),
            headers_of(r.headers@) == seq![
                ("content-type"@, "application/xml; charset=utf-8"@),
            ],
            r.body@ == vstd::utf8::encode_utf8(spec_mkcol_body(resourcetypes@)),
    {
        let mut body = String::from_str("<mkcol xmlns=\"DAV:\"><set><prop><resourcetype><collection/>");
        let rendered = render_props(resourcetypes);
        body.append(rendered.as_str());
        body.append("</resourcetype></prop></set></mkcol>");
        proof {
            assert(body@ =~= spec_mkcol_body(resourcetypes@));
        }
        let mut headers: Vec<(String, String)> = Vec::new();
        headers.push(
            (
                String::from_str("content-type"),
                String::from_str("application/xml; charset=utf-8"),
            ),
        );
        let r = HttpRequest {
            method: String::from_str("MKCOL"),
            url: self.relative_uri(href),
            headers,
            body: body.as_str().as_bytes_vec(),
        };
        proof {
            assert(headers_of(r.headers@) =~= seq![
                ("content-type"@, "application/xml; charset=utf-8"@),
            ]);
        }
        r
    }

    /// Builds the request that deletes the resource or collection at
    /// `href`, conditioned on `etag`: it fails when the resource
    /// changed since it was read.
    pub fn delete_request(&self, href: &str, etag: &str) -> (r: HttpRequest)
        ensures
            r.method@ == "DELETE"@,
            r.url@.scheme == self.base_url@.scheme,
            r.url@.authority == self.base_url@.authority,
            r.url@.path == crate::codec::spec_quote(href@),
            headers_of(r.headers@) == seq![
                ("content-type"@, "application/xml; charset=utf-8"@),
                ("if-match"@, etag@),
            ],
            r.body@ == Seq::<u8>::empty(),
    {
        let mut headers: Vec<(String, String)> = Vec::new();
        headers.push(
            (
                String::from_str("content-type"),
                String::from_str("application/xml; charset=utf-8"),
            ),
        );
        headers.push((String::from_str("if-match"), String::from_str(etag)));
        let r = HttpRequest {
            method: String::from_str("DELETE"),
            url: self.relative_uri(href),
            headers,
            body: Vec::new(),
        };
        proof {
            assert(headers_of(r.headers@) =~= seq![
                ("content-type"@, "application/xml; charset=utf-8"@),
                ("if-match"@, etag@),
            ]);
        }
        r
    }

    /// Builds the request that deletes the resource or collection at
    /// `href` unconditionally. Unsafe with respect to concurrent
    /// modification: a change made since the resource was last read is
    /// lost without notice.
    pub fn force_delete_request(&self, href: &str) -> (r: HttpRequest)
        ensures
            r.method@ == "DELETE"@,
            r.url@.scheme == self.base_url@.scheme,
            r.url@.authority == self.base_url@.authority,
            r.url@.path == crate::codec::spec_quote(href@),
            headers_of(r.headers@) == seq![
                ("content-type"@, "application/xml; charset=utf-8"@),
            ],
            r.body@ == Seq::<u8>::empty(),
    {
        let mut headers: Vec<(String, String)> = Vec::new();
        headers.push(
            (
                String::from_str("content-type"),
                String::from_str("application/xml; charset=utf-8"),
            ),
        );
        let r = HttpRequest {
            method: String::from_str("DELETE"),
            url: self.relative_uri(href),
            headers,
            body: Vec::new(),
        };
        proof {
            assert(headers_of(r.headers@) =~= seq![
                ("content-type"@, "application/xml; charset=utf-8"@),
            ]);
        }
        r
    }

    /// Builds the REPORT request of a multi-get, with the body the
    /// protocol adapter built.
    pub fn report_request(&self, collection_href: &str, body: &str) -> (r: HttpRequest)
        ensures
            r.method@ == "REPORT"@,
            r.url@.scheme == self.base_url@.scheme,
            r.url@.authority == self.base_url@.authority,
            r.url@.path == crate::codec::spec_quote(collection_href@),
            headers_of(r.headers@) == seq![
                ("content-type"@, "application/xml; charset=utf-8"@),
            ],
            r.body@ == vstd::utf8::encode_utf8(body@),
    {
        let mut headers: Vec<(String, String)> = Vec::new();
        headers.push(
            (
                String::from_str("content-type"),
                String::from_str("application/xml; charset=utf-8"),
            ),
        );
        let r = HttpRequest {
            method: String::from_str("REPORT"),
            url: self.relative_uri(collection_href),
            headers,
            body: body.as_bytes_vec(),
        };
        proof {
            assert(headers_of(r.headers@) =~= seq![
                ("content-type"@, "application/xml; charset=utf-8"@),
            ]);
        }
        r
    }

    /// Builds the OPTIONS request with which support for a protocol is
    /// checked at `url`.
    pub fn options_request(&self, url: &Url) -> (r: HttpRequest)
        ensures
            r.method@ == "OPTIONS"@,
            r.url@ == url@,
            headers_of(r.headers@) == Seq::<(Seq<char>, Seq<char>)>::empty(),
            r.body@ == Seq::<u8>::empty(),
    {
        let r = HttpRequest {
            method: String::from_str("OPTIONS"),
            url: url.duplicate(),
            headers: Vec::new(),
            body: Vec::new(),
        };
        proof {
            assert(headers_of(r.headers@) =~= Seq::<(Seq<char>, Seq<char>)>::empty());
        }
        r
    }
}

/// Reads the outcome of a conditional PUT: on success the new etag when
/// the server supplied one. Without an etag in the answer the new
/// version cannot be learnt race-free and must be fetched again.
pub fn put_response(status: u16, headers: &Vec<(String, String)>) -> (r: Result<
    Option<String>,
    WebDavError,
>)
    ensures
        match r {
            Ok(o) => spec_is_success(status) && (match o {
                Some(e) => spec_header_value(headers_of(headers@), "etag"@) == Some(e@),
                None => spec_header_value(headers_of(headers@), "etag"@) is None,
            }),
            Err(e) => !spec_is_success(status) && e == WebDavError::BadStatusCode(status),
        },
{
    if !(200 <= status && status < 300) {
        return Err(WebDavError::BadStatusCode(status));
    }
    match find_header(headers, "etag") {
        Some(v) => Ok(Some(v.clone())),
        None => Ok(None),
    }
}

/// The value of one property of a multi-property read: the text of the
/// element the lookup settles on, or nothing when the element is empty.
pub open spec fn spec_prop_value(t: XmlNode, pns: Seq<char>, pname: Seq<char>) -> Option<
    Seq<char>,
> {
    match prop_lookup(t, pns, pname) {
        Some(p) => spec_text(p),
        None => None,
    }
}

/// Whether every requested property is found in the tree, by its exact
/// expanded name or by the local-name fallback.
pub open spec fn all_props_found(t: XmlNode, props: Seq<PropertyName>) -> bool {
    forall|i: int|
        #![trigger props[i]]
        0 <= i < props.len() ==> prop_lookup(t, props[i].ns@, props[i].name@) is Some
}

/// Reads several properties out of a parsed multistatus tree, in the
/// order they were asked for. Each property is looked up with the same
/// namespace fallback as the single-property read; a property absent
/// altogether fails the whole read with the status-derived error, just
/// as the single-property read does.
pub fn parse_props_tree(t: &XmlNode, properties: &Vec<PropertyName>) -> (r: Result<
    Vec<(PropertyName, Option<String>)>,
    WebDavError,
>)
    ensures
        r is Ok <==> all_props_found(*t, properties@),
        r matches Ok(v) ==> v@.len() == properties@.len() && (forall|i: int|
            #![trigger v@[i]]
            0 <= i < v@.len() ==> v@[i].0.ns@ == properties@[i].ns@ && v@[i].0.name@
                == properties@[i].name@ && (match v@[i].1 {
                Some(s) => spec_prop_value(*t, properties@[i].ns@, properties@[i].name@)
                    == Some(s@),
                None => spec_prop_value(*t, properties@[i].ns@, properties@[i].name@) is None,
            })),
        r matches Err(e) ==> no_prop_error_good(*t, e),
{
    let mut out: Vec<(PropertyName, Option<String>)> = Vec::new();
    let mut i: usize = 0;
    while i < properties.len()
        invariant
            i <= properties.len(),
            out@.len() == i,
            forall|k: int|
                #![trigger properties@[k]]
                0 <= k < i ==> prop_lookup(*t, properties@[k].ns@, properties@[k].name@)
                    is Some,
            forall|k: int|
                #![trigger out@[k]]
                0 <= k < i ==> out@[k].0.ns@ == properties@[k].ns@ && out@[k].0.name@
                    == properties@[k].name@ && (match out@[k].1 {
                    Some(s) => spec_prop_value(*t, properties@[k].ns@, properties@[k].name@)
                        == Some(s@),
                    None => spec_prop_value(*t, properties@[k].ns@, properties@[k].name@)
                        is None,
                }),
        decreases properties.len() - i,
    {
        let property = &properties[i];
        let found = match t.find(&property.ns, &property.name) {
            Some(p) => Some(p),
            None => t.find_by_local_name(&property.name),
        };
        match found {
            None => {
                proof {
                    assert(prop_lookup(*t, properties@[i as int].ns@, properties@[i as int].name@)
                        is None);
                    assert(!all_props_found(*t, properties@));
                }
                match check_multistatus(t) {
                    Err(e) => {
                        return Err(e);
                    },
                    Ok(()) => {
                        return Err(
                            WebDavError::InvalidResponse(
                                String::from_str(
                                    "property is missing from response, but response is non-error",
                                ),
                            ),
                        );
                    },
                }
            },
            Some(p) => {
                let value = match p.text() {
                    Some(s) => Some(s.clone()),
                    None => None,
                };
                out.push((property.duplicate(), value));
            },
        }
        i = i + 1;
    }
    Ok(out)
}

/// Reads several properties out of a multistatus response body, in the
/// order they were asked for. A property absent from the response is an
/// error, exactly as with the single-property read.
pub fn parse_props(body: &[u8], properties: &Vec<PropertyName>) -> (r: Result<
    Vec<(PropertyName, Option<String>)>,
    WebDavError,
>)
    ensures
        match crate::xml::xml_tree_of(body@) {
            Some(t) => {
                &&& r is Ok <==> all_props_found(t, properties@)
                &&& r matches Ok(v) ==> v@.len() == properties@.len() && (forall|i: int|
                    #![trigger v@[i]]
                    0 <= i < v@.len() ==> v@[i].0.ns@ == properties@[i].ns@ && v@[i].0.name@
                        == properties@[i].name@ && (match v@[i].1 {
                        Some(s) => spec_prop_value(t, properties@[i].ns@, properties@[i].name@)
                            == Some(s@),
                        None => spec_prop_value(t, properties@[i].ns@, properties@[i].name@)
                            is None,
                    }))
                &&& r matches Err(e) ==> no_prop_error_good(t, e)
            },
            None => r matches Err(e) && doc_fault_good(body@, e),
        },
{
    match parse_document(body) {
        Err(e) => Err(e),
        Ok(t) => parse_props_tree(&t, properties),
    }
}

/// Reading back a property that the server echoed returns the written
/// value: on any tree in which the looked-up property element carries
/// the text `v`, a correct single-property read returns exactly `v`.
pub proof fn lemma_set_then_get_returns_value(
    t: XmlNode,
    pns: Seq<char>,
    pname: Seq<char>,
    v: Seq<char>,
    r: Result<Option<String>, WebDavError>,
)
    requires
        prop_lookup(t, pns, pname) matches Some(p) && spec_text(p) == Some(v),
        prop_result_good(t, pns, pname, r),
    ensures
        r matches Ok(o) && o matches Some(s) && s@ == v,
{
}

/// A removed property reads as missing: on any non-error tree in which
/// the lookup finds nothing, a correct single-property read fails with
/// the missing-property error, never with a value.
pub proof fn lemma_removed_property_reads_as_missing(
    t: XmlNode,
    pns: Seq<char>,
    pname: Seq<char>,
    r: Result<Option<String>, WebDavError>,
)
    requires
        prop_lookup(t, pns, pname) is None,
        scan_statuses(status_nodes(t)) is AllSuccess,
        prop_result_good(t, pns, pname, r),
    ensures
        r matches Err(e) && e is InvalidResponse,
{
}

/// The namespace fallback: when no element carries the requested
/// expanded name but some element carries the requested local name, a
/// correct single-property read settles on that element and returns its
/// text.
pub proof fn lemma_namespace_fallback(
    t: XmlNode,
    pns: Seq<char>,
    pname: Seq<char>,
    r: Result<Option<String>, WebDavError>,
)
    requires
        find_named(t, pns, pname) is None,
        find_local(t, pname) is Some,
        prop_result_good(t, pns, pname, r),
    ensures
        r matches Ok(o) && (match o {
            Some(s) => spec_text(find_local(t, pname)->0) == Some(s@),
            None => spec_text(find_local(t, pname)->0) is None,
        }),
{
}

/// A multi-get answer with one successful propstat entry and one
/// error-only entry for a single href yields exactly two fetched
/// resources: the first carries data, the second carries the failing
/// status.
pub proof fn lemma_multi_get_partial_failure(rs: Seq<XmlNode>, pns: Seq<char>, pname: Seq<char>)
    requires
        rs.len() == 2,
        spec_mg_entry(rs[0], pns, pname) matches Ok(es) && es.len() == 1 && es[0].content is Ok,
        spec_mg_entry(rs[1], pns, pname) matches Ok(es) && es.len() == 1 && es[0].content
            is Err,
    ensures
        spec_multi_get(rs, pns, pname) matches Ok(items) && items.len() == 2
            && items[0].content is Ok && items[1].content is Err,
{
    let rest = rs.drop_first();
    assert(rest[0] == rs[1]);
    assert(rest.drop_first().len() == 0);
    assert(spec_multi_get(rest.drop_first(), pns, pname) == Ok::<Seq<FetchedResourceV>, MgFail>(
        Seq::empty(),
    ));
    let e0 = spec_mg_entry(rs[0], pns, pname)->Ok_0;
    let e1 = spec_mg_entry(rs[1], pns, pname)->Ok_0;
    assert(spec_multi_get(rest, pns, pname) == Ok::<Seq<FetchedResourceV>, MgFail>(
        e1 + Seq::empty(),
    ));
    assert(spec_multi_get(rs, pns, pname) == Ok::<Seq<FetchedResourceV>, MgFail>(
        e0 + (e1 + Seq::empty()),
    ));
    assert((e0 + (e1 + Seq::empty()))[0] == e0[0]);
    assert((e0 + (e1 + Seq::empty()))[1] == e1[0]);
    assert((e0 + (e1 + Seq::empty())).len() == 2);
}

/// The resource-type flags law: an entry without a resourcetype element
/// keeps every flag off; with one, each flag is on exactly when the
/// element of the corresponding name stands inside it; and the listed
/// form of any entry carries exactly these flags.
pub proof fn lemma_resource_type_flags(resp: XmlNode, h: Seq<char>)
    ensures
        find_named(resp, "DAV:"@, "resourcetype"@) is None ==> spec_resource_type(resp) == (ResourceType {
            is_collection: false,
            is_calendar: false,
            is_address_book: false,
        }),
        find_named(resp, "DAV:"@, "resourcetype"@) matches Some(rt) ==> spec_resource_type(resp)
            == (ResourceType {
            is_collection: find_named(rt, "DAV:"@, "collection"@) is Some,
            is_calendar: find_named(rt, "urn:ietf:params:xml:ns:caldav"@, "calendar"@) is Some,
            is_address_book: find_named(rt, "urn:ietf:params:xml:ns:carddav"@, "addressbook"@)
                is Some,
        }),
        spec_listed_item(resp, h).details.resource_type == spec_resource_type(resp),
{
}

/// An escaped href read back out of a response entry is the unescaped
/// path it stands for: a fetched href round-trips unescaped.
pub proof fn lemma_response_href_round_trip(resp: XmlNode, path: Seq<char>)
    requires
        find_named(resp, "DAV:"@, "href"@) matches Some(h) && spec_text(h) == Some(
            crate::codec::spec_quote(path),
        ),
    ensures
        response_href(resp) == HrefLookup::Found(path),
{
    crate::codec::lemma_unquote_quote(path);
}

/// Every entry of an error-only response whose href elements carry the
/// escaped forms of paths comes back as one failure per path, each under
/// its unescaped path, in order.
pub proof fn lemma_mg_hrefs_round_trip(hs: Seq<XmlNode>, c: u16, paths: Seq<Seq<char>>)
    requires
        hs.len() == paths.len(),
        forall|i: int|
            #![trigger hs[i]]
            0 <= i < hs.len() ==> spec_text(hs[i]) == Some(crate::codec::spec_quote(paths[i])),
    ensures
        spec_mg_hrefs(hs, Some(c)) matches Ok(es) && es.len() == hs.len() && (forall|i: int|
            #![trigger es[i]]
            0 <= i < es.len() ==> es[i].href == paths[i] && es[i].content == Err::<
                FetchedResourceContentV,
                u16,
            >(c)),
    decreases hs.len(),
{
    if hs.len() > 0 {
        assert(spec_text(hs[0]) == Some(crate::codec::spec_quote(paths[0])));
        crate::codec::lemma_unquote_quote(paths[0]);
        let tl = hs.drop_first();
        let pl = paths.drop_first();
        assert forall|i: int| 0 <= i < tl.len() implies spec_text(#[trigger] tl[i]) == Some(
            crate::codec::spec_quote(pl[i]),
        ) by {
            assert(tl[i] == hs[i + 1]);
            assert(pl[i] == paths[i + 1]);
        }
        lemma_mg_hrefs_round_trip(tl, c, pl);
        let es0 = FetchedResourceV { href: paths[0], content: Err(c) };
        match spec_mg_hrefs(tl, Some(c)) {
            Ok(est) => {
                assert(spec_mg_hrefs(hs, Some(c)) == Ok::<Seq<FetchedResourceV>, MgFail>(
                    seq![es0] + est,
                ));
                let es = seq![es0] + est;
                assert forall|i: int| 0 <= i < es.len() implies #[trigger] es[i].href == paths[i]
                    && es[i].content == Err::<FetchedResourceContentV, u16>(c) by {
                    if i == 0 {
                        assert(es[0] == es0);
                    } else {
                        assert(es[i] == est[i - 1]);
                        assert(pl[i - 1] == paths[i]);
                    }
                }
            },
            Err(_) => {
                assert(false);
            },
        }
    }
}

/// Whether the three characters at `i` are the `://` separator.
pub open spec fn sep_at(s: Seq<char>, i: int) -> bool {
    i + 3 <= s.len() && s[i] == ':' && s[i + 1] == '/' && s[i + 2] == '/'
}

/// The position of the first `://` separator at or after `i`, or -1.
pub open spec fn first_sep_from(s: Seq<char>, i: int) -> int
    decreases s.len() - i,
{
    if i < 0 || i + 3 > s.len() {
        -1
    } else if sep_at(s, i) {
        i
    } else {
        first_sep_from(s, i + 1)
    }
}

/// The position of the first slash at or after `from`, or the length of
/// `s` when there is none.
pub open spec fn slash_after(s: Seq<char>, from: int) -> int
    decreases s.len() - from,
{
    if from < 0 || from >= s.len() {
        s.len() as int
    } else if s[from] == '/' {
        from
    } else {
        slash_after(s, from + 1)
    }
}

/// The authority `host:port`.
pub open spec fn spec_hostport(host: Seq<char>, port: u16) -> Seq<char> {
    host + ":"@ + spec_dec(port as nat)
}

/// The URL that a Location header resolves to. An absolute location
/// (with a `scheme://` or a leading `//`) supplies its own authority; a
/// relative one is resolved against the given scheme, host and port. An
/// absolute location without a path gets the root path.
pub open spec fn spec_parse_location(
    loc: Seq<char>,
    scheme: Seq<char>,
    hostport: Seq<char>,
) -> UrlV {
    let k = first_sep_from(loc, 0);
    if k >= 0 {
        let rest = loc.skip(k + 3);
        let e = slash_after(rest, 0);
        UrlV {
            scheme: loc.take(k),
            authority: rest.take(e),
            path: if e == rest.len() {
                "/"@
            } else {
                rest.skip(e)
            },
        }
    } else if loc.len() >= 2 && loc[0] == '/' && loc[1] == '/' {
        let rest = loc.skip(2);
        let e = slash_after(rest, 0);
        UrlV {
            scheme: scheme,
            authority: rest.take(e),
            path: if e == rest.len() {
                "/"@
            } else {
                rest.skip(e)
            },
        }
    } else {
        UrlV { scheme: scheme, authority: hostport, path: loc }
    }
}

/// Splits the part of `s` from `from` on into an authority (up to the
/// first slash) and a path (from that slash on, or the root path).
fn split_authority(s: &Vec<char>, from: usize) -> (r: (String, String))
    requires
        from <= s@.len(),
    ensures
        ({
            let rest = s@.skip(from as int);
            let e = slash_after(rest, 0);
            r.0@ == rest.take(e) && r.1@ == (if e == rest.len() {
                "/"@
            } else {
                rest.skip(e)
            })
        }),
{
    let ghost rest = s@.skip(from as int);
    let mut j: usize = from;
    while j < s.len() && s[j] != '/'
        invariant
            rest == s@.skip(from as int),
            from <= j <= s@.len(),
            slash_after(rest, 0) == slash_after(rest, j - from),
            forall|m: int| from <= m < j ==> s@[m] != '/',
        decreases s.len() - j,
    {
        proof {
            assert(rest[j - from] == s@[j as int]);
        }
        j = j + 1;
    }
    proof {
        if j < s.len() {
            assert(rest[j - from] == s@[j as int]);
        }
        assert(slash_after(rest, j - from) == j - from || j == s@.len());
    }
    let authority = crate::text::string_from_chars(&crate::text::copy_range(s, from, j));
    proof {
        assert(s@.subrange(from as int, j as int) =~= rest.take(slash_after(rest, 0)));
    }
    if j == s.len() {
        (authority, String::from_str("/"))
    } else {
        let path = crate::text::string_from_chars(&crate::text::copy_range(s, j, s.len()));
        proof {
            assert(s@.subrange(j as int, s@.len() as int) =~= rest.skip(slash_after(rest, 0)));
        }
        (authority, path)
    }
}

/// Resolves a Location header against the scheme, host and port the
/// request was made with.
pub fn parse_location(loc: &str, scheme: &str, host: &str, port: u16) -> (r: Url)
    ensures
        r@ == spec_parse_location(loc@, scheme@, spec_hostport(host@, port)),
{
    let s = chars_of(loc);
    let mut i: usize = 0;
    while s.len() - i >= 3 && !(s[i] == ':' && s[i + 1] == '/' && s[i + 2] == '/')
        invariant
            s@ == loc@,
            0 <= i <= s@.len(),
            first_sep_from(s@, 0) == first_sep_from(s@, i as int),
        decreases s.len() - i,
    {
        i = i + 1;
    }
    let sep: Option<usize> = if s.len() - i >= 3 {
        Some(i)
    } else {
        None
    };
    proof {
        match sep {
            Some(p) => assert(first_sep_from(s@, 0) == p),
            None => assert(first_sep_from(s@, 0) == -1),
        }
    }
    match sep {
        Some(p) => {
            let scheme_part = crate::text::string_from_chars(
                &crate::text::copy_range(&s, 0, p),
            );
            proof {
                assert(s@.subrange(0, p as int) =~= s@.take(p as int));
            }
            let (authority, path) = split_authority(&s, p + 3);
            let r = Url { scheme: scheme_part, authority, path };
            proof {
                assert(r@ =~= spec_parse_location(loc@, scheme@, spec_hostport(host@, port)));
            }
            r
        },
        None => {
            if s.len() >= 2 && s[0] == '/' && s[1] == '/' {
                let (authority, path) = split_authority(&s, 2);
                let r = Url { scheme: String::from_str(scheme), authority, path };
                proof {
                    assert(r@ =~= spec_parse_location(
                        loc@,
                        scheme@,
                        spec_hostport(host@, port),
                    ));
                }
                r
            } else {
                let mut authority = String::from_str(host);
                authority.append(":");
                let digits = crate::text::string_from_chars(&dec_chars(port));
                authority.append(digits.as_str());
                let r = Url {
                    scheme: String::from_str(scheme),
                    authority,
                    path: String::from_str(loc),
                };
                proof {
                    assert(r@.authority =~= spec_hostport(host@, port));
                    assert(r@ =~= spec_parse_location(
                        loc@,
                        scheme@,
                        spec_hostport(host@, port),
                    ));
                }
                r
            }
        },
    }
}

/// Why resolving a context path through the well-known URI failed.
#[derive(Debug)]
pub enum ResolveContextPathError {
    /// The transport failed; the payload describes the failure.
    Request(String),
    /// The answer was a redirection without a Location header.
    MissingLocation,
}

/// Reads the answer of a well-known-URI probe: no redirection means no
/// context path to take over; a redirection's Location header names it,
/// resolved against the probed scheme, host and port.
pub fn find_context_path_response(
    scheme: &str,
    host: &str,
    port: u16,
    status: u16,
    headers: &Vec<(String, String)>,
) -> (r: Result<Option<Url>, ResolveContextPathError>)
    ensures
        !spec_is_redirection(status) ==> (r matches Ok(o) && o is None),
        spec_is_redirection(status) ==> match spec_header_value(
            headers_of(headers@),
            "location"@,
        ) {
            None => r matches Err(e) && e is MissingLocation,
            Some(loc) => r matches Ok(o) && (o matches Some(u) && u@ == spec_parse_location(
                loc,
                scheme@,
                spec_hostport(host@, port),
            )),
        },
{
    if !(300 <= status && status < 400) {
        return Ok(None);
    }
    match find_header(headers, "location") {
        None => Err(ResolveContextPathError::MissingLocation),
        Some(loc) => Ok(Some(parse_location(loc.as_str(), scheme, host, port))),
    }
}

/// What to do after the first attempt at finding the current user's
/// principal.
#[derive(Debug)]
pub enum PrincipalStep {
    /// The attempt settled the matter: hand this result back.
    Done(Result<Option<Url>, WebDavError>),
    /// The base URL answered 404 or carried no principal: ask again at
    /// the server's root path.
    RetryAtRoot,
}

/// The follow-up that the first principal answer calls for: a missing
/// principal or a 404 leads to a second attempt at the root path, any
/// other answer stands.
pub open spec fn spec_principal_followup(first: Result<Option<Url>, WebDavError>) -> PrincipalStep {
    match first {
        Ok(o) => match o {
            None => PrincipalStep::RetryAtRoot,
            Some(p) => PrincipalStep::Done(Ok(Some(p))),
        },
        Err(e) => match e {
            WebDavError::BadStatusCode(c) => if c == 404 {
                PrincipalStep::RetryAtRoot
            } else {
                PrincipalStep::Done(Err(WebDavError::BadStatusCode(c)))
            },
            e => PrincipalStep::Done(Err(e)),
        },
    }
}

/// Decides the follow-up after the first attempt at finding the current
/// user's principal against the base URL.
pub fn principal_followup(first: Result<Option<Url>, WebDavError>) -> (r: PrincipalStep)
    ensures
        r == spec_principal_followup(first),
{
    match first {
        Ok(None) => PrincipalStep::RetryAtRoot,
        Err(WebDavError::BadStatusCode(c)) => {
            if c == 404 {
                PrincipalStep::RetryAtRoot
            } else {
                PrincipalStep::Done(Err(WebDavError::BadStatusCode(c)))
            }
        },
        Ok(Some(p)) => PrincipalStep::Done(Ok(Some(p))),
        Err(e) => PrincipalStep::Done(Err(e)),
    }
}

} // verus!
