//! Authentication of requests.
use vstd::prelude::*;
use vstd::string::{StrSliceExecFns, StringExecFns};

verus! {

/// A password. Kept in its own type so that it is never shown by
/// accident; read it out explicitly with `into_string` or `as_str`.
pub struct Password {
    secret: String,
}

impl Password {
    /// The password's view.
    pub closed spec fn spec_str(&self) -> Seq<char> {
        self.secret@
    }

    /// Wraps a string as a password.
    pub fn new(secret: String) -> (r: Password)
        ensures
            r.spec_str() == secret@,
    {
        Password { secret }
    }

    /// Returns the underlying string.
    pub fn into_string(self) -> (r: String)
        ensures
            r@ == self.spec_str(),
    {
        self.secret
    }

    /// Returns a reference to the underlying string.
    pub fn as_str(&self) -> (r: &str)
        ensures
            r@ == self.spec_str(),
    {
        self.secret.as_str()
    }
}

/// The authentication schemes a client can apply to its requests.
pub enum Auth {
    /// Requests are sent as they are.
    Unauthenticated,
    /// Each request gets a basic-authentication header built from the
    /// username and the optional password.
    Basic { username: String, password: Option<Password> },
}

impl Password {
    /// A copy of this password.
    pub fn duplicate(&self) -> (r: Password)
        ensures
            r.spec_str() == self.spec_str(),
    {
        Password { secret: self.secret.clone() }
    }
}

impl Auth {
    /// A copy of this scheme: it adds the same header.
    pub fn duplicate(&self) -> (r: Auth)
        ensures
            r.spec_header() == self.spec_header(),
    {
        match self {
            Auth::Unauthenticated => Auth::Unauthenticated,
            Auth::Basic { username, password } => Auth::Basic {
                username: username.clone(),
                password: match password {
                    Some(p) => Some(p.duplicate()),
                    None => None,
                },
            },
        }
    }
}

/// The standard-alphabet base64 encoding of a byte string. A function of
/// the bytes alone.
pub uninterp spec fn base64_of(bytes: Seq<u8>) -> Seq<char>;

/// Relies on base64's standard-alphabet `encode`: the encoding is a
/// function of the bytes alone.
#[verifier::external_body]
fn base64_standard(bytes: &Vec<u8>) -> (r: String)
    ensures
        r@ == base64_of(bytes@),
{
    base64::Engine::encode(&base64::engine::general_purpose::STANDARD, bytes.as_slice())
}

/// The credential pair `username:password` as one character string; an
/// absent password leaves the part after the colon empty.
pub open spec fn spec_credentials(username: Seq<char>, password: Option<Seq<char>>) -> Seq<char> {
    match password {
        Some(p) => username + ":"@ + p,
        None => username + ":"@,
    }
}

/// The value of the authorization header that basic authentication adds:
/// the marker `Basic ` followed by the base64 form of the credentials.
pub open spec fn spec_basic_header(username: Seq<char>, password: Option<Seq<char>>) -> Seq<char> {
    "Basic "@ + base64_of(vstd::utf8::encode_utf8(spec_credentials(username, password)))
}

impl Auth {
    /// The header that this scheme adds to a request, or nothing.
    pub open spec fn spec_header(&self) -> Option<(Seq<char>, Seq<char>)> {
        match self {
            Auth::Unauthenticated => None,
            Auth::Basic { username, password } => Some(
                (
                    "authorization"@,
                    spec_basic_header(
                        username@,
                        match password {
                            Some(p) => Some(p.spec_str()),
                            None => None,
                        },
                    ),
                ),
            ),
        }
    }

    /// The authorization header to add to a request under this scheme:
    /// nothing, or a basic-authentication header. The header's value is
    /// sensitive and must not be logged.
    pub fn header(&self) -> (r: Option<(String, String)>)
        ensures
            match r {
                None => self.spec_header() is None,
                Some(h) => self.spec_header() == Some((h.0@, h.1@)),
            },
    {
        match self {
            Auth::Unauthenticated => None,
            Auth::Basic { username, password } => {
                let mut creds = username.clone();
                creds.append(":");
                match password {
                    Some(p) => creds.append(p.as_str()),
                    None => (),
                }
                proof {
                    match password {
                        Some(p) => assert(creds@ =~= spec_credentials(
                            username@,
                            Some(p.spec_str()),
                        )),
                        None => assert(creds@ =~= spec_credentials(username@, None)),
                    }
                }
                let encoded = base64_standard(&creds.as_str().as_bytes_vec());
                let mut value = String::from_str("Basic ");
                value.append(encoded.as_str());
                Some((String::from_str("authorization"), value))
            },
        }
    }
}

} // verus!
