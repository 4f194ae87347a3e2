//! Tests of service discovery: SRV and TXT interpretation and the
//! bootstrap step function.
use libdav::caldav_service_for_url;
use libdav::carddav_service_for_url;
use libdav::common::CheckSupportError;
use libdav::dav::Url;
use libdav::sd::{
    bootstrap_step, candidate_url, interpret_srv_records, parse_txt_path, BootstrapError,
    BootstrapState, DiscoverableService, DiscoveryEvent, InvalidUrl,
};

fn url(scheme: &str, authority: &str, path: &str) -> Url {
    Url {
        scheme: String::from(scheme),
        authority: String::from(authority),
        path: String::from(path),
    }
}

#[test]
fn service_is_derived_from_the_scheme() {
    assert_eq!(
        caldav_service_for_url(&url("https", "h", "/")).unwrap(),
        DiscoverableService::CalDavs
    );
    assert_eq!(
        caldav_service_for_url(&url("caldav", "h", "/")).unwrap(),
        DiscoverableService::CalDav
    );
    assert_eq!(
        carddav_service_for_url(&url("carddavs", "h", "/")).unwrap(),
        DiscoverableService::CardDavs
    );
    assert!(matches!(
        caldav_service_for_url(&url("", "h", "/")),
        Err(InvalidUrl::MissingScheme)
    ));
    assert!(matches!(
        caldav_service_for_url(&url("ftp", "h", "/")),
        Err(InvalidUrl::InvalidScheme)
    ));
}

#[test]
fn service_constants_are_fixed() {
    assert_eq!(DiscoverableService::CalDavs.well_known_path(), "/.well-known/caldav");
    assert_eq!(DiscoverableService::CardDav.well_known_path(), "/.well-known/carddav");
    assert_eq!(DiscoverableService::CalDavs.default_port(), 443);
    assert_eq!(DiscoverableService::CalDav.default_port(), 80);
    assert_eq!(DiscoverableService::CalDav.access_field(), "calendar-access");
    assert_eq!(DiscoverableService::CardDavs.access_field(), "addressbook");
    assert_eq!(DiscoverableService::CalDavs.scheme(), "https");
    assert_eq!(DiscoverableService::CardDav.scheme(), "http");
    assert_eq!(DiscoverableService::CalDavs.relative_domain(), "_caldavs._tcp");
    assert_eq!(DiscoverableService::CardDavs.relative_domain(), "_carddavs._tcp");
}

#[test]
fn root_srv_target_means_unavailable_not_unresolved() {
    // A single SRV record with the root target declares the service
    // decidedly unavailable.
    let records = vec![(String::from("."), 0u16)];
    assert!(interpret_srv_records(records, "example.com", 443).is_none());

    // The same answer makes the bootstrap fail with the dedicated error.
    let next = bootstrap_step(
        DiscoverableService::CalDavs,
        "example.com",
        443,
        BootstrapState::ResolvingSrv,
        DiscoveryEvent::SrvResolved(vec![(String::from("."), 0u16)]),
    );
    assert!(matches!(
        next,
        BootstrapState::Failed { error: BootstrapError::NotAvailable }
    ));
}

#[test]
fn missing_srv_records_fall_back_to_the_host() {
    let r = interpret_srv_records(Vec::new(), "example.com", 8443).unwrap();
    assert_eq!(r, vec![(String::from("example.com"), 8443u16)]);
}

#[test]
fn srv_records_keep_the_resolver_order() {
    let records = vec![
        (String::from("a.example.com"), 443u16),
        (String::from("b.example.com"), 8443u16),
    ];
    let r = interpret_srv_records(records.clone(), "example.com", 443).unwrap();
    assert_eq!(r, records);
}

#[test]
fn txt_path_prefix_is_required() {
    assert_eq!(parse_txt_path("path=/foo"), Some(String::from("/foo")));
    assert_eq!(parse_txt_path("path="), Some(String::from("")));
    assert_eq!(parse_txt_path("paths=/foo"), None);
    assert_eq!(parse_txt_path("something else"), None);
    assert_eq!(parse_txt_path(""), None);
}

#[test]
fn txt_path_is_used_verbatim_in_candidate_urls() {
    let u = candidate_url(DiscoverableService::CalDavs, "dav.example.com", 8443, "/foo");
    assert_eq!(u, url("https", "dav.example.com:8443", "/foo"));
}

#[test]
fn bootstrap_accepts_not_advertised_candidates() {
    let service = DiscoverableService::CalDavs;
    let state = BootstrapState::ResolvingSrv;
    let state = bootstrap_step(
        service,
        "example.com",
        443,
        state,
        DiscoveryEvent::SrvResolved(vec![(String::from("dav.example.com"), 8443u16)]),
    );
    let state = bootstrap_step(
        service,
        "example.com",
        443,
        state,
        DiscoveryEvent::TxtResolved(Some(String::from("path=/foo"))),
    );
    assert!(matches!(state, BootstrapState::CheckingCandidates { .. }));
    let state = bootstrap_step(
        service,
        "example.com",
        443,
        state,
        DiscoveryEvent::SupportChecked(Err(CheckSupportError::NotAdvertised)),
    );
    match state {
        BootstrapState::Settled { found: Some(u) } => {
            assert_eq!(u, url("https", "dav.example.com:8443", "/foo"));
        },
        _ => panic!("expected a settled bootstrap"),
    }
}

#[test]
fn bootstrap_moves_to_well_known_after_rejections() {
    let service = DiscoverableService::CalDav;
    let state = BootstrapState::ResolvingTxt {
        candidates: vec![
            (String::from("a.example.com"), 80u16),
            (String::from("b.example.com"), 80u16),
        ],
    };
    let state = bootstrap_step(
        service,
        "example.com",
        80,
        state,
        DiscoveryEvent::TxtResolved(Some(String::from("path=/dav"))),
    );
    let state = bootstrap_step(
        service,
        "example.com",
        80,
        state,
        DiscoveryEvent::SupportChecked(Err(CheckSupportError::BadStatusCode(500))),
    );
    assert!(matches!(
        state,
        BootstrapState::CheckingCandidates { next: 1, .. }
    ));
    let state = bootstrap_step(
        service,
        "example.com",
        80,
        state,
        DiscoveryEvent::SupportChecked(Err(CheckSupportError::MissingHeader)),
    );
    assert!(matches!(
        state,
        BootstrapState::ProbingWellKnown { next: 0, .. }
    ));
    let state = bootstrap_step(
        service,
        "example.com",
        80,
        state,
        DiscoveryEvent::WellKnownProbed(None),
    );
    assert!(matches!(
        state,
        BootstrapState::ProbingWellKnown { next: 1, .. }
    ));
    // No candidate resolved: the caller keeps its original URL, which
    // is the documented fallback, not an error.
    let state = bootstrap_step(
        service,
        "example.com",
        80,
        state,
        DiscoveryEvent::WellKnownProbed(None),
    );
    assert!(matches!(state, BootstrapState::Settled { found: None }));
}

#[test]
fn bootstrap_takes_the_first_well_known_redirect() {
    let service = DiscoverableService::CalDavs;
    let state = BootstrapState::ProbingWellKnown {
        candidates: vec![(String::from("a.example.com"), 443u16)],
        next: 0,
    };
    let state = bootstrap_step(
        service,
        "example.com",
        443,
        state,
        DiscoveryEvent::WellKnownProbed(Some(url("https", "a.example.com:443", "/real/"))),
    );
    match state {
        BootstrapState::Settled { found: Some(u) } => {
            assert_eq!(u.path, "/real/");
        },
        _ => panic!("expected a settled bootstrap"),
    }
}

#[test]
fn bootstrap_fails_on_dns_errors() {
    let next = bootstrap_step(
        DiscoverableService::CalDavs,
        "example.com",
        443,
        BootstrapState::ResolvingSrv,
        DiscoveryEvent::SrvFailed(String::from("timed out")),
    );
    assert!(matches!(
        next,
        BootstrapState::Failed { error: BootstrapError::DnsError(_) }
    ));
    let next = bootstrap_step(
        DiscoverableService::CalDavs,
        "example.com",
        443,
        BootstrapState::ResolvingTxt { candidates: vec![(String::from("h"), 443u16)] },
        DiscoveryEvent::TxtFailed(String::from("timed out")),
    );
    assert!(matches!(
        next,
        BootstrapState::Failed { error: BootstrapError::TxtError(_) }
    ));
}
