//! Service discovery: resolving a user-supplied host into the server's
//! real context path, as RFC 6764 describes.
//!
//! The decisions of the bootstrap sequence live here as a step function
//! over plain states and events; the caller performs the DNS and HTTP
//! work between steps and feeds the answers back in.
use vstd::prelude::*;
use vstd::string::StringExecFns;
use crate::common::CheckSupportError;
use crate::dav::{spec_hostport, Url, UrlV};
use crate::text::chars_of;

verus! {

/// A supplied URL was not usable for discovery.
#[derive(Debug)]
pub enum InvalidUrl {
    MissingScheme,
    InvalidScheme,
    MissingHost,
    /// The host is not a valid domain name; the payload says why.
    InvalidDomain(String),
}

/// The services that can be discovered automatically.
#[derive(Debug, Clone, Copy, PartialEq, Eq, Structural)]
pub enum DiscoverableService {
    /// CalDAV over TLS.
    CalDavs,
    /// CalDAV over plain-text HTTP.
    CalDav,
    /// CardDAV over TLS.
    CardDavs,
    /// CardDAV over plain-text HTTP.
    CardDav,
}

impl DiscoverableService {
    /// The DNS label prefix under which this service's SRV and TXT
    /// records live.
    pub fn relative_domain(self) -> (r: &'static str)
        ensures
            r@ == match self {
                DiscoverableService::CalDavs => "_caldavs._tcp"@,
                DiscoverableService::CalDav => "_caldav._tcp"@,
                DiscoverableService::CardDavs => "_carddavs._tcp"@,
                DiscoverableService::CardDav => "_carddav._tcp"@,
            },
    {
        match self {
            DiscoverableService::CalDavs => "_caldavs._tcp",
            DiscoverableService::CalDav => "_caldav._tcp",
            DiscoverableService::CardDavs => "_carddavs._tcp",
            DiscoverableService::CardDav => "_carddav._tcp",
        }
    }

    /// The URI scheme this service is reached over.
    pub fn scheme(self) -> (r: &'static str)
        ensures
            r@ == self.spec_scheme(),
    {
        match self {
            DiscoverableService::CalDavs | DiscoverableService::CardDavs => "https",
            DiscoverableService::CalDav | DiscoverableService::CardDav => "http",
        }
    }

    /// The URI scheme this service is reached over.
    pub open spec fn spec_scheme(self) -> Seq<char> {
        match self {
            DiscoverableService::CalDavs | DiscoverableService::CardDavs => "https"@,
            DiscoverableService::CalDav | DiscoverableService::CardDav => "http"@,
        }
    }

    /// The well-known path probed for a redirect to the context path.
    pub fn well_known_path(self) -> (r: &'static str)
        ensures
            r@ == match self {
                DiscoverableService::CalDavs | DiscoverableService::CalDav =>
                    "/.well-known/caldav"@,
                DiscoverableService::CardDavs | DiscoverableService::CardDav =>
                    "/.well-known/carddav"@,
            },
    {
        match self {
            DiscoverableService::CalDavs | DiscoverableService::CalDav => "/.well-known/caldav",
            DiscoverableService::CardDavs | DiscoverableService::CardDav =>
                "/.well-known/carddav",
        }
    }

    /// The port used when the URL names none.
    pub fn default_port(self) -> (r: u16)
        ensures
            r == match self {
                DiscoverableService::CalDavs | DiscoverableService::CardDavs => 443u16,
                DiscoverableService::CalDav | DiscoverableService::CardDav => 80u16,
            },
    {
        match self {
            DiscoverableService::CalDavs | DiscoverableService::CardDavs => 443,
            DiscoverableService::CalDav | DiscoverableService::CardDav => 80,
        }
    }

    /// The capability token that the DAV header must list for this
    /// service.
    pub fn access_field(self) -> (r: &'static str)
        ensures
            r@ == match self {
                DiscoverableService::CalDavs | DiscoverableService::CalDav =>
                    "calendar-access"@,
                DiscoverableService::CardDavs | DiscoverableService::CardDav => "addressbook"@,
            },
    {
        match self {
            DiscoverableService::CalDavs | DiscoverableService::CalDav => "calendar-access",
            DiscoverableService::CardDavs | DiscoverableService::CardDav => "addressbook",
        }
    }
}

/// The service that a CalDAV URL's scheme names.
pub fn caldav_service_for_url(url: &Url) -> (r: Result<DiscoverableService, InvalidUrl>)
    ensures
        match r {
            Ok(s) => (url@.scheme == "https"@ || url@.scheme == "caldavs"@) && s
                == DiscoverableService::CalDavs || (url@.scheme == "http"@ || url@.scheme
                == "caldav"@) && s == DiscoverableService::CalDav,
            Err(e) => match e {
                InvalidUrl::MissingScheme => url@.scheme.len() == 0,
                InvalidUrl::InvalidScheme => url@.scheme.len() > 0 && url@.scheme != "https"@
                    && url@.scheme != "caldavs"@ && url@.scheme != "http"@ && url@.scheme
                    != "caldav"@,
                _ => false,
            },
        },
{
    if url.scheme.as_str().is_empty() {
        Err(InvalidUrl::MissingScheme)
    } else if url.scheme == String::from_str("https") || url.scheme == String::from_str(
        "caldavs",
    ) {
        Ok(DiscoverableService::CalDavs)
    } else if url.scheme == String::from_str("http") || url.scheme == String::from_str("caldav") {
        Ok(DiscoverableService::CalDav)
    } else {
        Err(InvalidUrl::InvalidScheme)
    }
}

/// The service that a CardDAV URL's scheme names.
pub fn carddav_service_for_url(url: &Url) -> (r: Result<DiscoverableService, InvalidUrl>)
    ensures
        match r {
            Ok(s) => (url@.scheme == "https"@ || url@.scheme == "carddavs"@) && s
                == DiscoverableService::CardDavs || (url@.scheme == "http"@ || url@.scheme
                == "carddav"@) && s == DiscoverableService::CardDav,
            Err(e) => match e {
                InvalidUrl::MissingScheme => url@.scheme.len() == 0,
                InvalidUrl::InvalidScheme => url@.scheme.len() > 0 && url@.scheme != "https"@
                    && url@.scheme != "carddavs"@ && url@.scheme != "http"@ && url@.scheme
                    != "carddav"@,
                _ => false,
            },
        },
{
    if url.scheme.as_str().is_empty() {
        Err(InvalidUrl::MissingScheme)
    } else if url.scheme == String::from_str("https") || url.scheme == String::from_str(
        "carddavs",
    ) {
        Ok(DiscoverableService::CardDavs)
    } else if url.scheme == String::from_str("http") || url.scheme == String::from_str(
        "carddav",
    ) {
        Ok(DiscoverableService::CardDav)
    } else {
        Err(InvalidUrl::InvalidScheme)
    }
}

/// The mathematical values of a list of host/port candidates.
pub open spec fn pairs_of(s: Seq<(String, u16)>) -> Seq<(Seq<char>, u16)> {
    s.map_values(|p: (String, u16)| (p.0@, p.1))
}

/// Whether a list of SRV records declares the service decidedly not
/// available: a single record whose target is the root label.
pub open spec fn spec_srv_unavailable(records: Seq<(Seq<char>, u16)>) -> bool {
    records.len() == 1 && records[0].0 == "."@
}

/// Reads the answer of an SRV lookup: the service may be declared
/// decidedly unavailable; no records at all fall back to the queried
/// host and the fallback port; otherwise the records stand as returned,
/// in the resolver's order.
pub fn interpret_srv_records(records: Vec<(String, u16)>, host: &str, fallback_port: u16) -> (r:
    Option<Vec<(String, u16)>>)
    ensures
        spec_srv_unavailable(pairs_of(records@)) <==> r is None,
        !spec_srv_unavailable(pairs_of(records@)) && records@.len() == 0 ==> (r matches Some(v)
            && pairs_of(v@) == seq![(host@, fallback_port)]),
        !spec_srv_unavailable(pairs_of(records@)) && records@.len() > 0 ==> (r matches Some(v)
            && pairs_of(v@) == pairs_of(records@)),
{
    if records.len() == 1 && records[0].0 == String::from_str(".") {
        proof {
            assert(pairs_of(records@)[0].0 == records@[0].0@);
        }
        return None;
    }
    proof {
        if pairs_of(records@).len() == 1 {
            assert(pairs_of(records@)[0].0 == records@[0].0@);
        }
    }
    if records.len() == 0 {
        let mut v: Vec<(String, u16)> = Vec::new();
        v.push((String::from_str(host), fallback_port));
        proof {
            assert(pairs_of(v@) =~= seq![(host@, fallback_port)]);
        }
        Some(v)
    } else {
        Some(records)
    }
}

/// The context path that a TXT answer carries: the text after a
/// `path=` prefix. Any other content, like the absence of a record,
/// yields no override.
pub open spec fn spec_txt_path(txt: Seq<char>) -> Option<Seq<char>> {
    if txt.len() >= 5 && txt.take(5) == "path="@ {
        Some(txt.skip(5))
    } else {
        None
    }
}

/// Reads a context-path override out of the text of a TXT record.
pub fn parse_txt_path(txt: &str) -> (r: Option<String>)
    ensures
        match r {
            Some(p) => spec_txt_path(txt@) == Some(p@),
            None => spec_txt_path(txt@) is None,
        },
{
    let s = chars_of(txt);
    proof {
        reveal_strlit("path=");
    }
    if s.len() >= 5 && s[0] == 'p' && s[1] == 'a' && s[2] == 't' && s[3] == 'h' && s[4] == '=' {
        proof {
            assert(s@.take(5) =~= "path="@);
        }
        let rest = crate::text::copy_range(&s, 5, s.len());
        proof {
            assert(rest@ =~= s@.skip(5));
        }
        Some(crate::text::string_from_chars(&rest))
    } else {
        proof {
            if s@.len() >= 5 && s@.take(5) == "path="@ {
                assert(s@.take(5)[0] == 'p' && s@.take(5)[1] == 'a' && s@.take(5)[2] == 't'
                    && s@.take(5)[3] == 'h' && s@.take(5)[4] == '=');
                assert(s@[0] == s@.take(5)[0] && s@[1] == s@.take(5)[1] && s@[2] == s@.take(5)[2]
                    && s@[3] == s@.take(5)[3] && s@[4] == s@.take(5)[4]);
                assert(false);
            }
        }
        None
    }
}

/// Builds the URL of one discovery candidate: the service's scheme, the
/// candidate's host and port, and exactly the context path found in the
/// TXT record.
pub fn candidate_url(service: DiscoverableService, host: &str, port: u16, path: &str) -> (r: Url)
    ensures
        r@.scheme == service.spec_scheme(),
        r@.authority == spec_hostport(host@, port),
        r@.path == path@,
{
    let mut authority = String::from_str(host);
    authority.append(":");
    let digits = crate::text::string_from_chars(&crate::dav::dec_chars(port));
    authority.append(digits.as_str());
    proof {
        assert(authority@ =~= spec_hostport(host@, port));
    }
    Url {
        scheme: String::from_str(service.scheme()),
        authority,
        path: String::from_str(path),
    }
}

/// Whether a capability answer lets a discovery candidate stand.
///
/// A candidate that confirms support is accepted; so is one that merely
/// fails to advertise it, because at least one widely used server
/// implements the protocols without advertising them. Any other failure
/// moves discovery on to the next candidate. This tolerance is a
/// deliberate quirk of discovery alone; ordinary capability checks stay
/// strict.
pub fn candidate_acceptable(outcome: &Result<(), CheckSupportError>) -> (r: bool)
    ensures
        r == match outcome {
            Ok(()) => true,
            Err(e) => e is NotAdvertised,
        },
{
    match outcome {
        Ok(()) => true,
        Err(CheckSupportError::NotAdvertised) => true,
        Err(_) => false,
    }
}

/// An error of the bootstrap sequence.
#[derive(Debug)]
pub enum BootstrapError {
    /// The input URL is not usable for discovery.
    InvalidUrl(InvalidUrl),
    /// The SRV lookup failed; the payload describes the failure.
    DnsError(String),
    /// The TXT lookup failed; the payload describes the failure.
    TxtError(String),
    /// The service is decidedly not available at this domain.
    NotAvailable,
}

/// Where the bootstrap sequence stands.
#[derive(Debug)]
pub enum BootstrapState {
    /// The SRV records have been asked for.
    ResolvingSrv,
    /// The host candidates are known; the TXT records have been asked
    /// for.
    ResolvingTxt { candidates: Vec<(String, u16)> },
    /// A TXT context path was found; the candidate at `next` is being
    /// probed with a capability check.
    CheckingCandidates { candidates: Vec<(String, u16)>, path: String, next: usize },
    /// The candidate at `next` is being probed through its well-known
    /// URI.
    ProbingWellKnown { candidates: Vec<(String, u16)>, next: usize },
    /// Discovery ended: a context path URL was found, or none was and
    /// the caller keeps the URL it started with, which is no error.
    Settled { found: Option<Url> },
    /// Discovery failed.
    Failed { error: BootstrapError },
}

/// What the caller observed since the last step.
#[derive(Debug)]
pub enum DiscoveryEvent {
    /// The SRV answer, in the resolver's order; empty when there were
    /// no records.
    SrvResolved(Vec<(String, u16)>),
    /// The SRV lookup failed; the payload describes the failure.
    SrvFailed(String),
    /// The text of the first TXT record, when there was one.
    TxtResolved(Option<String>),
    /// The TXT lookup failed; the payload describes the failure.
    TxtFailed(String),
    /// The outcome of the capability check on the current candidate.
    SupportChecked(Result<(), CheckSupportError>),
    /// What probing the current candidate's well-known URI yielded; a
    /// transport failure counts as nothing found.
    WellKnownProbed(Option<Url>),
}

/// The states in which the machine still has work outstanding are well
/// formed: they never point past their candidate list.
pub open spec fn bootstrap_state_ok(s: BootstrapState) -> bool {
    match s {
        BootstrapState::ResolvingTxt { candidates } => candidates@.len() > 0,
        BootstrapState::CheckingCandidates { candidates, next, .. } => candidates@.len() > 0
            && next < candidates@.len(),
        BootstrapState::ProbingWellKnown { candidates, next } => candidates@.len() > 0 && next
            < candidates@.len(),
        _ => true,
    }
}

/// Drives the bootstrap sequence one step: from the state the caller
/// was in and the event it observed to the next state.
///
/// The order of the sequence: SRV candidates first, then a TXT context
/// path; with a TXT path each candidate is probed with a capability
/// check and the first acceptable one wins; without one, or when no
/// candidate was acceptable, each candidate's well-known URI is probed
/// and the first redirect wins; when everything came up empty the
/// machine settles on nothing found, and the caller keeps its original
/// URL.
pub fn bootstrap_step(
    service: DiscoverableService,
    host: &str,
    port: u16,
    state: BootstrapState,
    event: DiscoveryEvent,
) -> (r: BootstrapState)
    requires
        bootstrap_state_ok(state),
    ensures
        bootstrap_state_ok(r),
        match (state, event) {
            (BootstrapState::ResolvingSrv, DiscoveryEvent::SrvFailed(m)) => r matches
                BootstrapState::Failed { error: BootstrapError::DnsError(mm) } && mm@ == m@,
            (BootstrapState::ResolvingSrv, DiscoveryEvent::SrvResolved(records)) => {
                if spec_srv_unavailable(pairs_of(records@)) {
                    r matches BootstrapState::Failed { error: BootstrapError::NotAvailable }
                } else if records@.len() == 0 {
                    r matches BootstrapState::ResolvingTxt { candidates } && pairs_of(
                        candidates@,
                    ) == seq![(host@, port)]
                } else {
                    r matches BootstrapState::ResolvingTxt { candidates } && pairs_of(
                        candidates@,
                    ) == pairs_of(records@)
                }
            },
            (BootstrapState::ResolvingTxt { .. }, DiscoveryEvent::TxtFailed(m)) => r matches
                BootstrapState::Failed { error: BootstrapError::TxtError(mm) } && mm@ == m@,
            (BootstrapState::ResolvingTxt { candidates }, DiscoveryEvent::TxtResolved(txt)) => {
                let parsed = match txt {
                    Some(t) => spec_txt_path(t@),
                    None => None,
                };
                match parsed {
                    Some(p) => r matches BootstrapState::CheckingCandidates {
                        candidates: c,
                        path,
                        next,
                    } && c@ == candidates@ && path@ == p && next == 0,
                    None => r matches BootstrapState::ProbingWellKnown { candidates: c, next }
                        && c@ == candidates@ && next == 0,
                }
            },
            (
                BootstrapState::CheckingCandidates { candidates, path, next },
                DiscoveryEvent::SupportChecked(outcome),
            ) => {
                let acceptable = match outcome {
                    Ok(()) => true,
                    Err(e) => e is NotAdvertised,
                };
                let cand = candidates@[next as int];
                if acceptable {
                    r matches BootstrapState::Settled { found } && (found matches Some(u) && u@
                        == (UrlV {
                        scheme: service.spec_scheme(),
                        authority: spec_hostport(cand.0@, cand.1),
                        path: path@,
                    }))
                } else if next + 1 < candidates@.len() {
                    r matches BootstrapState::CheckingCandidates {
                        candidates: c,
                        path: p,
                        next: n,
                    } && c@ == candidates@ && p@ == path@ && n == next + 1
                } else {
                    r matches BootstrapState::ProbingWellKnown { candidates: c, next: n } && c@
                        == candidates@ && n == 0
                }
            },
            (
                BootstrapState::ProbingWellKnown { candidates, next },
                DiscoveryEvent::WellKnownProbed(found),
            ) => {
                match found {
                    Some(u) => r matches BootstrapState::Settled { found: f } && (f matches Some(
                        uu,
                    ) && uu@ == u@),
                    None => {
                        if next + 1 < candidates@.len() {
                            r matches BootstrapState::ProbingWellKnown {
                                candidates: c,
                                next: n,
                            } && c@ == candidates@ && n == next + 1
                        } else {
                            r matches BootstrapState::Settled { found: f } && f is None
                        }
                    },
                }
            },
            _ => true,
        },
{
    match (state, event) {
        (BootstrapState::ResolvingSrv, DiscoveryEvent::SrvFailed(m)) => BootstrapState::Failed {
            error: BootstrapError::DnsError(m),
        },
        (BootstrapState::ResolvingSrv, DiscoveryEvent::SrvResolved(records)) => {
            match interpret_srv_records(records, host, port) {
                None => BootstrapState::Failed { error: BootstrapError::NotAvailable },
                Some(candidates) => {
                    proof {
                        assert(pairs_of(candidates@).len() == candidates@.len());
                    }
                    BootstrapState::ResolvingTxt { candidates }
                },
            }
        },
        (BootstrapState::ResolvingTxt { .. }, DiscoveryEvent::TxtFailed(m)) =>
            BootstrapState::Failed { error: BootstrapError::TxtError(m) },
        (BootstrapState::ResolvingTxt { candidates }, DiscoveryEvent::TxtResolved(txt)) => {
            proof {
                assert(candidates@.len() > 0);
            }
            let parsed = match txt {
                Some(t) => parse_txt_path(t.as_str()),
                None => None,
            };
            match parsed {
                Some(path) => BootstrapState::CheckingCandidates { candidates, path, next: 0 },
                None => BootstrapState::ProbingWellKnown { candidates, next: 0 },
            }
        },
        (
            BootstrapState::CheckingCandidates { candidates, path, next },
            DiscoveryEvent::SupportChecked(outcome),
        ) => {
            let total = candidates.len();
            proof {
                assert(next < total);
            }
            if candidate_acceptable(&outcome) {
                let u = candidate_url(
                    service,
                    candidates[next].0.as_str(),
                    candidates[next].1,
                    path.as_str(),
                );
                BootstrapState::Settled { found: Some(u) }
            } else if next + 1 < total {
                BootstrapState::CheckingCandidates { candidates, path, next: next + 1 }
            } else {
                BootstrapState::ProbingWellKnown { candidates, next: 0 }
            }
        },
        (
            BootstrapState::ProbingWellKnown { candidates, next },
            DiscoveryEvent::WellKnownProbed(found),
        ) => {
            let total = candidates.len();
            proof {
                assert(next < total);
            }
            match found {
                Some(u) => BootstrapState::Settled { found: Some(u) },
                None => {
                    if next + 1 < total {
                        BootstrapState::ProbingWellKnown { candidates, next: next + 1 }
                    } else {
                        BootstrapState::Settled { found: None }
                    }
                },
            }
        },
        (s, _) => s,
    }
}

} // verus!
