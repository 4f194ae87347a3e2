//! Tests of the multistatus response parsing.
use libdav::dav::{
    list_resources_parse, multi_get_parse, parse_prop, parse_prop_href, Url, WebDavError,
};
use libdav::names;
use libdav::xml::{get_newline_corrected_text, parse_xml};
use libdav::{FetchedResource, FetchedResourceContent, ItemDetails, ListedResource, ResourceType};

fn url(scheme: &str, authority: &str, path: &str) -> Url {
    Url {
        scheme: String::from(scheme),
        authority: String::from(authority),
        path: String::from(path),
    }
}

#[test]
fn test_multi_get_parse() {
    let raw = br#"
<multistatus xmlns="DAV:" xmlns:C="urn:ietf:params:xml:ns:caldav" xmlns:CS="http://calendarserver.org/ns/">
  <response>
    <href>/dav/calendars/user/vdirsyncer@fastmail.com/cc396171-0227-4e1c-b5ee-d42b5e17d533/</href>
    <propstat>
      <prop>
        <resourcetype>
          <collection/>
          <C:calendar/>
        </resourcetype>
        <getcontenttype>text/calendar; charset=utf-8</getcontenttype>
        <getetag>"1591712486-1-1"</getetag>
      </prop>
      <status>HTTP/1.1 200 OK</status>
    </propstat>
  </response>
  <response>
    <href>/dav/calendars/user/vdirsyncer@fastmail.com/cc396171-0227-4e1c-b5ee-d42b5e17d533/395b00a0-eebc-40fd-a98e-176a06367c82.ics</href>
    <propstat>
      <prop>
        <resourcetype/>
        <getcontenttype>text/calendar; charset=utf-8; component=VEVENT</getcontenttype>
        <getetag>"e7577ff2b0924fe8e9a91d3fb2eb9072598bf9fb"</getetag>
      </prop>
      <status>HTTP/1.1 200 OK</status>
    </propstat>
  </response>
</multistatus>"#;

    let results = list_resources_parse(
        raw,
        "/dav/calendars/user/vdirsyncer@fastmail.com/cc396171-0227-4e1c-b5ee-d42b5e17d533/",
    )
    .unwrap();

    assert_eq!(results, vec![ListedResource {
        details: ItemDetails {
            content_type: Some("text/calendar; charset=utf-8; component=VEVENT".into()),
            etag: Some("\"e7577ff2b0924fe8e9a91d3fb2eb9072598bf9fb\"".into()),
            resource_type: ResourceType {
                is_collection: false,
                is_calendar: false,
                is_address_book: false
            },
        },
        href: "/dav/calendars/user/vdirsyncer@fastmail.com/cc396171-0227-4e1c-b5ee-d42b5e17d533/395b00a0-eebc-40fd-a98e-176a06367c82.ics".into()
    }]);
}

#[test]
fn test_multi_get_parse_with_err() {
    let raw = br#"
<ns0:multistatus xmlns:ns0="DAV:" xmlns:ns1="urn:ietf:params:xml:ns:caldav">
  <ns0:response>
    <ns0:href>/user/calendars/Q208cKvMGjAdJFUw/qJJ9Li5DPJYr.ics</ns0:href>
    <ns0:propstat>
      <ns0:status>HTTP/1.1 200 OK</ns0:status>
      <ns0:prop>
        <ns0:getetag>"adb2da8d3cb1280a932ed8f8a2e8b4ecf66d6a02"</ns0:getetag>
        <ns1:calendar-data>CALENDAR-DATA-HERE</ns1:calendar-data>
      </ns0:prop>
    </ns0:propstat>
  </ns0:response>
  <ns0:response>
    <ns0:href>/user/calendars/Q208cKvMGjAdJFUw/rKbu4uUn.ics</ns0:href>
    <ns0:status>HTTP/1.1 404 Not Found</ns0:status>
  </ns0:response>
</ns0:multistatus>
"#;

    let results = multi_get_parse(raw, &names::calendar_data()).unwrap();

    assert_eq!(
        results,
        vec![
            FetchedResource {
                href: "/user/calendars/Q208cKvMGjAdJFUw/qJJ9Li5DPJYr.ics".into(),
                content: Ok(FetchedResourceContent {
                    data: "CALENDAR-DATA-HERE".into(),
                    etag: "\"adb2da8d3cb1280a932ed8f8a2e8b4ecf66d6a02\"".into(),
                })
            },
            FetchedResource {
                href: "/user/calendars/Q208cKvMGjAdJFUw/rKbu4uUn.ics".into(),
                content: Err(404)
            }
        ]
    );
}

#[test]
fn test_multi_get_parse_mixed() {
    let raw = br#"
<d:multistatus xmlns:d="DAV:" xmlns:cal="urn:ietf:params:xml:ns:caldav">
    <d:response>
        <d:href>/remote.php/dav/calendars/vdirsyncer/1678996875/</d:href>
        <d:propstat>
            <d:prop>
                <d:resourcetype>
                    <d:collection/>
                    <cal:calendar/>
                </d:resourcetype>
            </d:prop>
            <d:status>HTTP/1.1 200 OK</d:status>
        </d:propstat>
        <d:propstat>
            <d:prop>
                <d:getetag/>
            </d:prop>
            <d:status>HTTP/1.1 404 Not Found</d:status>
        </d:propstat>
    </d:response>
</d:multistatus>"#;

    let results = multi_get_parse(raw, &names::calendar_data()).unwrap();

    assert_eq!(
        results,
        vec![FetchedResource {
            href: "/remote.php/dav/calendars/vdirsyncer/1678996875/".into(),
            content: Err(404)
        }]
    );
}

#[test]
fn test_multi_get_parse_encoding() {
    let b = r#"<?xml version="1.0" encoding="utf-8"?>
<multistatus xmlns="DAV:" xmlns:C="urn:ietf:params:xml:ns:caldav">
  <response>
    <href>/dav/calendars/user/hugo@whynothugo.nl/2100F960-2655-4E75-870F-CAA793466105/0F276A13-FBF3-49A1-8369-65EEA9C6F891.ics</href>
    <propstat>
      <prop>
        <getetag>"4219b87012f42ce7c4db55599aa3b579c70d8795"</getetag>
        <C:calendar-data><![CDATA[BEGIN:VCALENDAR
CALSCALE:GREGORIAN
PRODID:-//Apple Inc.//iOS 17.0//EN
VERSION:2.0
BEGIN:VTODO
COMPLETED:20230425T155913Z
CREATED:20210622T182718Z
DTSTAMP:20230915T132714Z
LAST-MODIFIED:20230425T155913Z
PERCENT-COMPLETE:100
SEQUENCE:1
STATUS:COMPLETED
SUMMARY:Comidas: ñoquis, 西红柿
UID:0F276A13-FBF3-49A1-8369-65EEA9C6F891
X-APPLE-SORT-ORDER:28
END:VTODO
END:VCALENDAR
]]></C:calendar-data>
      </prop>
      <status>HTTP/1.1 200 OK</status>
    </propstat>
  </response>
</multistatus>"#;

    let resources = multi_get_parse(b.as_bytes(), &names::calendar_data()).unwrap();
    let content = resources.into_iter().next().unwrap().content.unwrap();
    assert!(content.data.contains("ñoquis"));
    assert!(content.data.contains("西红柿"));
}

#[test]
fn test_multi_get_parse_encoding_another() {
    let b = "<?xml version=\"1.0\" encoding=\"utf-8\"?>\n<multistatus xmlns=\"DAV:\" xmlns:C=\"urn:ietf:params:xml:ns:caldav\">\n  <response>\n    <href>/dav/calendars/user/hugo@whynothugo.nl/2100F960-2655-4E75-870F-CAA793466105/0F276A13-FBF3-49A1-8369-65EEA9C6F891.ics</href>\n    <propstat>\n      <prop>\n        <getetag>\"4219b87012f42ce7c4db55599aa3b579c70d8795\"</getetag>\n        <C:calendar-data><![CDATA[BEGIN(baño)END\r\n]]></C:calendar-data>\n      </prop>\n      <status>HTTP/1.1 200 OK</status>\n    </propstat>\n  </response>\n</multistatus>\n";
    let resources = multi_get_parse(b.as_bytes(), &names::calendar_data()).unwrap();
    let content = resources.into_iter().next().unwrap().content.unwrap();
    assert!(content.data.contains("baño"));
}

#[test]
fn test_parse_prop_href() {
    let raw = br#"
<multistatus xmlns="DAV:">
  <response>
    <href>/dav/calendars</href>
    <propstat>
      <prop>
        <current-user-principal>
          <href>/dav/principals/user/vdirsyncer@example.com/</href>
        </current-user-principal>
      </prop>
      <status>HTTP/1.1 200 OK</status>
    </propstat>
  </response>
</multistatus>"#;

    let results = parse_prop_href(
        raw,
        &url("https", "example.com", "/"),
        &names::current_user_principal(),
    )
    .unwrap();

    assert_eq!(
        results,
        Some(url(
            "https",
            "example.com",
            "/dav/principals/user/vdirsyncer@example.com/"
        ))
    );
}

#[test]
fn test_parse_prop_cdata() {
    let raw = br#"
            <multistatus xmlns="DAV:">
                <response>
                    <href>/path</href>
                    <propstat>
                        <prop>
                            <displayname><![CDATA[test calendar]]></displayname>
                        </prop>
                        <status>HTTP/1.1 200 OK</status>
                    </propstat>
                </response>
            </multistatus>
            "#;

    let results = parse_prop(raw, &names::display_name()).unwrap();

    assert_eq!(results, Some("test calendar".into()));
}

#[test]
fn test_parse_prop_text() {
    let raw = br#"
<ns0:multistatus xmlns:ns0="DAV:" xmlns:ns1="http://apple.com/ns/ical/">
  <ns0:response>
    <ns0:href>/user/calendars/pxE4Wt4twPqcWPbS/</ns0:href>
    <ns0:propstat>
      <ns0:status>HTTP/1.1 200 OK</ns0:status>
      <ns0:prop>
        <ns1:calendar-color>#ff00ff</ns1:calendar-color>
      </ns0:prop>
    </ns0:propstat>
  </ns0:response>
</ns0:multistatus>"#;

    let results = parse_prop(raw, &names::calendar_colour()).unwrap();
    assert_eq!(results, Some("#ff00ff".into()));

    parse_prop(raw, &names::display_name()).unwrap_err();
}

#[test]
fn test_parse_prop() {
    let body = "<?xml version=\"1.0\" encoding=\"utf-8\"?><multistatus xmlns=\"DAV:\"><response><href>/dav/calendars/user/hugo@whynothugo.nl/37c044e7-4b3d-4910-ba31-55038b413c7d/</href><propstat><prop><calendar-color><![CDATA[#FF2968]]></calendar-color></prop><status>HTTP/1.1 200 OK</status></propstat></response></multistatus>";
    let parsed = parse_prop(body.as_bytes(), &names::calendar_colour()).unwrap();
    assert_eq!(parsed, Some(String::from("#FF2968")));
}

#[test]
fn test_get_newline_corrected_text_without_returns() {
    let without_returns = "<ns0:multistatus xmlns:ns0=\"DAV:\" xmlns:ns1=\"urn:ietf:params:xml:ns:caldav\"><ns0:response><ns0:href>/user/calendars/qdBEnN9jwjQFLry4/1ehsci7nhH31.ics</ns0:href><ns0:propstat><ns0:status>HTTP/1.1 200 OK</ns0:status><ns0:prop><ns0:getetag>\"2d2c827debd802fb3844309b53254b90dd7fd900\"</ns0:getetag><ns1:calendar-data>BEGIN:VCALENDAR\nVERSION:2.0\nPRODID:-//hacksw/handcal//NONSGML v1.0//EN\nBEGIN:VEVENT\nSUMMARY:hello\\, testing\nDTSTART:19970714T170000Z\nDTSTAMP:19970610T172345Z\nUID:92gDWceCowpO\nEND:VEVENT\nEND:VCALENDAR\n</ns1:calendar-data></ns0:prop></ns0:propstat></ns0:response></ns0:multistatus>";
    let expected = "BEGIN:VCALENDAR\r\nVERSION:2.0\r\nPRODID:-//hacksw/handcal//NONSGML v1.0//EN\r\nBEGIN:VEVENT\r\nSUMMARY:hello\\, testing\r\nDTSTART:19970714T170000Z\r\nDTSTAMP:19970610T172345Z\r\nUID:92gDWceCowpO\r\nEND:VEVENT\r\nEND:VCALENDAR\r\n";

    let doc = parse_xml(without_returns.as_bytes()).unwrap();
    let response = doc
        .find(&String::from("DAV:"), &String::from("response"))
        .unwrap();
    assert_eq!(
        get_newline_corrected_text(response, &names::calendar_data()).unwrap(),
        expected
    );
}

#[test]
fn test_get_newline_corrected_text_with_returns() {
    let with_returns = "<?xml version=\"1.0\" encoding=\"utf-8\"?>\n<multistatus xmlns=\"DAV:\" xmlns:C=\"urn:ietf:params:xml:ns:caldav\">\n  <response>\n    <href>/dav/calendars/user/vdirsyncer@fastmail.com/UvrlExcG9Jp0gEzQ/2H8kQfNQj8GP.ics</href>\n    <propstat>\n      <prop>\n        <getetag>\"4d92fc1c8bdc18bbf83caf34eeab7e7167eb292e\"</getetag>\n        <C:calendar-data><![CDATA[BEGIN:VCALENDAR\r\nVERSION:2.0\r\nPRODID:-//hacksw/handcal//NONSGML v1.0//EN\r\nBEGIN:VEVENT\r\nUID:jSayX7OSdp3V\r\nDTSTAMP:19970610T172345Z\r\nDTSTART:19970714T170000Z\r\nSUMMARY:hello\\, testing\r\nEND:VEVENT\r\nEND:VCALENDAR\r\n]]></C:calendar-data>\n      </prop>\n      <status>HTTP/1.1 200 OK</status>\n    </propstat>\n  </response>\n</multistatus>\n";
    let expected = "BEGIN:VCALENDAR\r\nVERSION:2.0\r\nPRODID:-//hacksw/handcal//NONSGML v1.0//EN\r\nBEGIN:VEVENT\r\nUID:jSayX7OSdp3V\r\nDTSTAMP:19970610T172345Z\r\nDTSTART:19970714T170000Z\r\nSUMMARY:hello\\, testing\r\nEND:VEVENT\r\nEND:VCALENDAR\r\n";

    let doc = parse_xml(with_returns.as_bytes()).unwrap();
    let response = doc
        .find(&String::from("DAV:"), &String::from("response"))
        .unwrap();
    assert_eq!(
        get_newline_corrected_text(response, &names::calendar_data()).unwrap(),
        expected
    );
}

#[test]
fn listing_skips_the_collection_itself() {
    let raw = br#"
<multistatus xmlns="DAV:">
  <response>
    <href>/cal/</href>
    <propstat>
      <prop>
        <resourcetype><collection/></resourcetype>
      </prop>
      <status>HTTP/1.1 200 OK</status>
    </propstat>
  </response>
  <response>
    <href>/cal/one.ics</href>
    <propstat>
      <prop>
        <getcontenttype>text/calendar</getcontenttype>
        <getetag>"abc"</getetag>
      </prop>
      <status>HTTP/1.1 200 OK</status>
    </propstat>
  </response>
</multistatus>"#;
    let results = list_resources_parse(raw, "/cal/").unwrap();
    assert_eq!(results.len(), 1);
    assert_eq!(results[0].href, "/cal/one.ics");
    assert_eq!(results[0].details.content_type, Some("text/calendar".into()));
    assert_eq!(results[0].details.etag, Some("\"abc\"".into()));
    assert!(!results[0].details.resource_type.is_collection);
    assert!(!results[0].details.resource_type.is_calendar);
    assert!(!results[0].details.resource_type.is_address_book);
}

#[test]
fn namespace_fallback_finds_property() {
    let raw = br#"
<multistatus xmlns="DAV:">
  <response>
    <href>/cal/</href>
    <propstat>
      <prop>
        <calendar-color xmlns="http://wrong.example/">#123456</calendar-color>
      </prop>
      <status>HTTP/1.1 200 OK</status>
    </propstat>
  </response>
</multistatus>"#;
    let parsed = parse_prop(raw, &names::calendar_colour()).unwrap();
    assert_eq!(parsed, Some("#123456".into()));
}

#[test]
fn bad_status_surfaces_from_multistatus() {
    let raw = br#"
<multistatus xmlns="DAV:">
  <response>
    <href>/x</href>
    <propstat>
      <prop><displayname>n</displayname></prop>
      <status>HTTP/1.1 403 Forbidden</status>
    </propstat>
  </response>
</multistatus>"#;
    let err = parse_prop(raw, &names::calendar_colour()).unwrap_err();
    assert!(matches!(err, WebDavError::BadStatusCode(403)));
}

#[test]
fn malformed_and_non_utf8_bodies_are_told_apart() {
    let err = parse_prop(b"<unclosed", &names::display_name()).unwrap_err();
    assert!(matches!(err, WebDavError::Xml));
    let err = parse_prop(&[0xffu8, 0xfe, 0x00], &names::display_name()).unwrap_err();
    assert!(matches!(err, WebDavError::NotUtf8));
}

#[test]
fn multi_get_missing_etag_is_a_hard_error() {
    let raw = br#"
<multistatus xmlns="DAV:" xmlns:C="urn:ietf:params:xml:ns:caldav">
  <response>
    <href>/cal/one.ics</href>
    <propstat>
      <prop><C:calendar-data>DATA</C:calendar-data></prop>
      <status>HTTP/1.1 200 OK</status>
    </propstat>
  </response>
</multistatus>"#;
    let err = multi_get_parse(raw, &names::calendar_data()).unwrap_err();
    assert!(matches!(err, WebDavError::InvalidResponse(_)));
}

#[test]
fn multi_get_restores_crlf_line_endings() {
    let raw = "<multistatus xmlns=\"DAV:\" xmlns:C=\"urn:ietf:params:xml:ns:caldav\"><response><href>/c/x.ics</href><propstat><prop><getetag>\"e\"</getetag><C:calendar-data>A\nB\n</C:calendar-data></prop><status>HTTP/1.1 200 OK</status></propstat></response></multistatus>";
    let results = multi_get_parse(raw.as_bytes(), &names::calendar_data()).unwrap();
    assert_eq!(results[0].content.as_ref().unwrap().data, "A\r\nB\r\n");
}

#[test]
fn listing_requires_an_href_per_entry() {
    let raw = br#"
<multistatus xmlns="DAV:">
  <response>
    <propstat>
      <prop><getetag>"e"</getetag></prop>
      <status>HTTP/1.1 200 OK</status>
    </propstat>
  </response>
</multistatus>"#;
    let err = list_resources_parse(raw, "/cal/").unwrap_err();
    assert!(matches!(err, WebDavError::InvalidResponse(_)));
}

#[test]
fn error_only_entry_without_status_is_invalid() {
    let raw = br#"
<multistatus xmlns="DAV:">
  <response>
    <href>/cal/x.ics</href>
  </response>
</multistatus>"#;
    let err = multi_get_parse(raw, &names::calendar_data()).unwrap_err();
    assert!(matches!(err, WebDavError::InvalidResponse(_)));
}

#[test]
fn garbled_status_lines_are_rejected() {
    let raw = br#"
<multistatus xmlns="DAV:">
  <response>
    <href>/x</href>
    <propstat>
      <prop><displayname>n</displayname></prop>
      <status>no status here</status>
    </propstat>
  </response>
</multistatus>"#;
    let err = parse_prop(raw, &names::calendar_colour()).unwrap_err();
    assert!(matches!(err, WebDavError::InvalidStatusCode));
}
