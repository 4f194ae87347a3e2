//! Tests of the request builders, response readers and authentication.
use libdav::auth::{Auth, Password};
use libdav::caldav::CalDavClient;
use libdav::carddav::CardDavClient;
use libdav::common::{check_support_response, dav_header_advertises, CheckSupportError};
use libdav::dav::{
    find_context_path_response, principal_followup, put_response, PrincipalStep,
    ResolveContextPathError, Url, WebDavClient, WebDavError,
};
use libdav::names;

fn url(scheme: &str, authority: &str, path: &str) -> Url {
    Url {
        scheme: String::from(scheme),
        authority: String::from(authority),
        path: String::from(path),
    }
}

fn client() -> WebDavClient {
    WebDavClient::new(url("https", "example.com:443", "/dav/"), Auth::Unauthenticated)
}

fn body_text(body: &[u8]) -> &str {
    std::str::from_utf8(body).unwrap()
}

#[test]
fn basic_auth_header_is_base64_of_credentials() {
    let auth = Auth::Basic {
        username: String::from("user"),
        password: Some(Password::new(String::from("pass"))),
    };
    let header = auth.header().unwrap();
    assert_eq!(header.0, "authorization");
    assert_eq!(header.1, "Basic dXNlcjpwYXNz");

    let no_pass = Auth::Basic {
        username: String::from("user"),
        password: None,
    };
    assert_eq!(no_pass.header().unwrap().1, "Basic dXNlcjo=");
    assert!(Auth::Unauthenticated.header().is_none());
}

#[test]
fn password_reads_back() {
    let p = Password::new(String::from("secret"));
    assert_eq!(p.as_str(), "secret");
    assert_eq!(p.into_string(), "secret");
}

#[test]
fn propfind_request_renders_properties_in_order() {
    let c = client();
    let mut props = Vec::new();
    props.push(names::resourcetype());
    props.push(names::getetag());
    let req = c.propfind_request(&url("https", "example.com:443", "/x/"), &props, 1);
    assert_eq!(req.method, "PROPFIND");
    assert_eq!(
        body_text(&req.body),
        "<propfind xmlns=\"DAV:\"><prop><resourcetype xmlns=\"DAV:\"/><getetag xmlns=\"DAV:\"/></prop></propfind>"
    );
    assert_eq!(req.headers[1], (String::from("depth"), String::from("1")));
}

#[test]
fn set_property_request_escapes_and_removes() {
    let c = client();
    let set = c.set_property_request("/x", &names::display_name(), Some("A <& B"));
    assert_eq!(set.method, "PROPPATCH");
    assert_eq!(
        body_text(&set.body),
        "<propertyupdate xmlns=\"DAV:\"><set><prop><displayname xmlns=\"DAV:\">A &lt;&amp; B</displayname></prop></set></propertyupdate>"
    );
    let remove = c.set_property_request("/x", &names::display_name(), None);
    assert_eq!(
        body_text(&remove.body),
        "<propertyupdate xmlns=\"DAV:\"><remove><prop><displayname xmlns=\"DAV:\"/></prop></remove></propertyupdate>"
    );
}

#[test]
fn create_is_guarded_against_existing_resources() {
    let c = client();
    let req = c.create_resource_request("/cal/new.ics", b"DATA".to_vec(), "text/calendar");
    assert_eq!(req.method, "PUT");
    assert_eq!(
        req.headers,
        vec![
            (String::from("content-type"), String::from("text/calendar")),
            (String::from("if-none-match"), String::from("*")),
        ]
    );
    assert_eq!(req.body, b"DATA".to_vec());
}

#[test]
fn update_is_guarded_by_the_etag() {
    let c = client();
    let req = c.update_resource_request("/cal/old.ics", b"DATA".to_vec(), "\"e1\"", "text/calendar");
    assert_eq!(
        req.headers,
        vec![
            (String::from("content-type"), String::from("text/calendar")),
            (String::from("if-match"), String::from("\"e1\"")),
        ]
    );
}

#[test]
fn delete_is_guarded_and_force_delete_is_not() {
    let c = client();
    let del = c.delete_request("/cal/x.ics", "\"e1\"");
    assert_eq!(del.method, "DELETE");
    assert_eq!(
        del.headers[1],
        (String::from("if-match"), String::from("\"e1\""))
    );
    let force = c.force_delete_request("/cal/x.ics");
    assert_eq!(force.headers.len(), 1);
}

#[test]
fn stale_etag_write_fails_with_precondition_failed() {
    let r = put_response(412, &Vec::new());
    assert!(matches!(r, Err(WebDavError::BadStatusCode(412))));
}

#[test]
fn successful_put_returns_the_new_etag() {
    let mut headers = Vec::new();
    headers.push((String::from("etag"), String::from("\"e2\"")));
    assert_eq!(put_response(201, &headers).unwrap(), Some(String::from("\"e2\"")));
    assert_eq!(put_response(204, &Vec::new()).unwrap(), None);
}

#[test]
fn hrefs_in_requests_are_percent_encoded() {
    let c = client();
    let req = c.put_request("/cal/a b.ics", Vec::new(), None, "text/calendar");
    assert_eq!(req.url.path, "/cal/a%20b.ics");
}

#[test]
fn create_collection_implies_the_collection_type() {
    let c = client();
    let req = c.create_collection_request("/new/", &Vec::new());
    assert_eq!(req.method, "MKCOL");
    assert_eq!(
        body_text(&req.body),
        "<mkcol xmlns=\"DAV:\"><set><prop><resourcetype><collection/></resourcetype></prop></set></mkcol>"
    );
}

#[test]
fn authorize_appends_the_auth_header() {
    let c = WebDavClient::new(
        url("https", "example.com:443", "/"),
        Auth::Basic {
            username: String::from("user"),
            password: Some(Password::new(String::from("pass"))),
        },
    );
    let mut req = c.options_request(&url("https", "example.com:443", "/"));
    c.authorize(&mut req);
    assert_eq!(
        req.headers,
        vec![(String::from("authorization"), String::from("Basic dXNlcjpwYXNz"))]
    );
}

#[test]
fn dav_header_token_matching_is_exact_after_trim() {
    assert!(dav_header_advertises("1, 3, calendar-access", "calendar-access"));
    assert!(dav_header_advertises("calendar-access", "calendar-access"));
    assert!(dav_header_advertises(" addressbook ,2", "addressbook"));
    assert!(!dav_header_advertises("calendar-access-x", "calendar-access"));
    assert!(!dav_header_advertises("1, 2", "calendar-access"));
    assert!(!dav_header_advertises("", "calendar-access"));
}

#[test]
fn check_support_tells_failures_apart() {
    let no_headers: Vec<(String, String)> = Vec::new();
    assert!(matches!(
        check_support_response(200, &no_headers, "addressbook"),
        Err(CheckSupportError::MissingHeader)
    ));
    let mut headers = Vec::new();
    headers.push((String::from("dav"), String::from("1, 2")));
    assert!(matches!(
        check_support_response(200, &headers, "addressbook"),
        Err(CheckSupportError::NotAdvertised)
    ));
    assert!(matches!(
        check_support_response(500, &headers, "addressbook"),
        Err(CheckSupportError::BadStatusCode(500))
    ));
    let mut good = Vec::new();
    good.push((String::from("dav"), String::from("1, 2, addressbook")));
    assert!(check_support_response(200, &good, "addressbook").is_ok());
}

#[test]
fn redirects_resolve_the_context_path() {
    let no_headers: Vec<(String, String)> = Vec::new();
    assert_eq!(
        find_context_path_response("https", "example.com", 443, 200, &no_headers).unwrap(),
        None
    );
    assert!(matches!(
        find_context_path_response("https", "example.com", 443, 301, &no_headers),
        Err(ResolveContextPathError::MissingLocation)
    ));

    let mut absolute = Vec::new();
    absolute.push((String::from("location"), String::from("https://dav.example.com:8443/dav/")));
    assert_eq!(
        find_context_path_response("https", "example.com", 443, 301, &absolute).unwrap(),
        Some(url("https", "dav.example.com:8443", "/dav/"))
    );

    let mut relative = Vec::new();
    relative.push((String::from("location"), String::from("/dav/")));
    assert_eq!(
        find_context_path_response("https", "example.com", 443, 302, &relative).unwrap(),
        Some(url("https", "example.com:443", "/dav/"))
    );

    let mut bare = Vec::new();
    bare.push((String::from("location"), String::from("https://dav.example.com")));
    assert_eq!(
        find_context_path_response("https", "example.com", 443, 301, &bare).unwrap(),
        Some(url("https", "dav.example.com", "/"))
    );
}

#[test]
fn principal_lookup_retries_at_the_root() {
    assert!(matches!(
        principal_followup(Ok(None)),
        PrincipalStep::RetryAtRoot
    ));
    assert!(matches!(
        principal_followup(Err(WebDavError::BadStatusCode(404))),
        PrincipalStep::RetryAtRoot
    ));
    let done = principal_followup(Ok(Some(url("https", "h", "/p/"))));
    assert!(matches!(done, PrincipalStep::Done(Ok(Some(_)))));
    let failed = principal_followup(Err(WebDavError::BadStatusCode(500)));
    assert!(matches!(
        failed,
        PrincipalStep::Done(Err(WebDavError::BadStatusCode(500)))
    ));
}

#[test]
fn multiget_bodies_embed_escaped_hrefs() {
    let cal = CalDavClient::new(client());
    let mut hrefs = Vec::new();
    hrefs.push(String::from("/cal/a b.ics"));
    let body = cal.calendar_multiget_body(&hrefs);
    assert_eq!(
        body,
        "<C:calendar-multiget xmlns=\"DAV:\" xmlns:C=\"urn:ietf:params:xml:ns:caldav\"><prop><getetag/><C:calendar-data/></prop><href>/cal/a%20b.ics</href></C:calendar-multiget>"
    );

    let card = CardDavClient::new(client());
    let body = card.addressbook_multiget_body(&hrefs);
    assert_eq!(
        body,
        "<C:addressbook-multiget xmlns:D=\"DAV:\" xmlns:C=\"urn:ietf:params:xml:ns:carddav\"><D:prop><D:getetag/><C:address-data/></D:prop><D:href>/cal/a%20b.ics</D:href></C:addressbook-multiget>"
    );
}

#[test]
fn set_then_get_round_trips_via_server_echo() {
    let c = client();
    // Setting a value embeds it, escaped, in the PROPPATCH body.
    let req = c.set_property_request("/cal/", &names::display_name(), Some("My Calendar"));
    assert!(body_text(&req.body).contains("<displayname xmlns=\"DAV:\">My Calendar</displayname>"));

    // A server that echoes the stored value back answers the re-read
    // with exactly the value that was set.
    let echoed = "<multistatus xmlns=\"DAV:\"><response><href>/cal/</href><propstat><prop><displayname>My Calendar</displayname></prop><status>HTTP/1.1 200 OK</status></propstat></response></multistatus>";
    assert_eq!(
        libdav::dav::parse_prop(echoed.as_bytes(), &names::display_name()).unwrap(),
        Some(String::from("My Calendar"))
    );

    // Setting no value asks for removal, and a later read of a response
    // without the property fails with a missing-property error.
    let removal = c.set_property_request("/cal/", &names::display_name(), None);
    assert!(body_text(&removal.body).contains("<remove>"));
    let gone = "<multistatus xmlns=\"DAV:\"><response><href>/cal/</href><propstat><prop/><status>HTTP/1.1 200 OK</status></propstat></response></multistatus>";
    let err = libdav::dav::parse_prop(gone.as_bytes(), &names::display_name()).unwrap_err();
    assert!(matches!(err, WebDavError::InvalidResponse(_)));
}

#[test]
fn multi_property_read_preserves_order_and_rejects_absence() {
    let body = "<multistatus xmlns=\"DAV:\"><response><href>/cal/</href><propstat><prop><displayname>My Calendar</displayname><calendar-color xmlns=\"http://apple.com/ns/ical/\">#FF2968</calendar-color></prop><status>HTTP/1.1 200 OK</status></propstat></response></multistatus>";
    let mut props = Vec::new();
    props.push(names::calendar_colour());
    props.push(names::display_name());
    let values = libdav::dav::parse_props(body.as_bytes(), &props).unwrap();
    assert_eq!(values.len(), 2);
    assert_eq!(values[0].0.name, "calendar-color");
    assert_eq!(values[0].1, Some(String::from("#FF2968")));
    assert_eq!(values[1].0.name, "displayname");
    assert_eq!(values[1].1, Some(String::from("My Calendar")));

    // A property absent from a non-error response is an error, not a
    // silent empty slot.
    let mut missing = Vec::new();
    missing.push(names::display_name());
    missing.push(names::getetag());
    let err = libdav::dav::parse_props(body.as_bytes(), &missing).unwrap_err();
    assert!(matches!(err, WebDavError::InvalidResponse(_)));

    // With a failing status, the status is the error.
    let failed = "<multistatus xmlns=\"DAV:\"><response><href>/cal/</href><propstat><prop/><status>HTTP/1.1 403 Forbidden</status></propstat></response></multistatus>";
    let err = libdav::dav::parse_props(failed.as_bytes(), &missing).unwrap_err();
    assert!(matches!(err, WebDavError::BadStatusCode(403)));
}

#[test]
fn adapter_capability_checks_equal_the_generic_check() {
    let cal = CalDavClient::new(client());
    let card = CardDavClient::new(client());
    let mut headers = Vec::new();
    headers.push((String::from("dav"), String::from("1, 2, calendar-access")));
    assert!(cal.check_support_response(200, &headers).is_ok());
    assert!(matches!(
        card.check_support_response(200, &headers),
        Err(CheckSupportError::NotAdvertised)
    ));
    assert!(matches!(
        cal.check_support_response(500, &headers),
        Err(CheckSupportError::BadStatusCode(500))
    ));
    let no_headers: Vec<(String, String)> = Vec::new();
    assert!(matches!(
        card.check_support_response(204, &no_headers),
        Err(CheckSupportError::MissingHeader)
    ));
    let mut card_headers = Vec::new();
    card_headers.push((String::from("dav"), String::from("addressbook")));
    assert!(card.check_support_response(200, &card_headers).is_ok());
}

#[test]
fn list_resources_request_asks_for_the_listing_properties() {
    let c = client();
    let req = c.list_resources_request("/cal dir/");
    assert_eq!(req.method, "PROPFIND");
    assert_eq!(req.url.path, "/cal%20dir/");
    assert_eq!(req.headers[1], (String::from("depth"), String::from("1")));
    assert_eq!(
        body_text(&req.body),
        "<propfind xmlns=\"DAV:\"><prop><resourcetype xmlns=\"DAV:\"/><getcontenttype xmlns=\"DAV:\"/><getetag xmlns=\"DAV:\"/></prop></propfind>"
    );
}
