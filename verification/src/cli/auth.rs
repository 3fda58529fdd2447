//! Authorising access to a service.

use crate::text::{percent_encode, percent_encoded, str_eq};
use vstd::prelude::*;
use vstd::string::StringExecFns;

verus! {

/// A service that the program can be authorised for.
#[derive(Clone, Copy, Debug, PartialEq, Eq, Structural)]
pub enum ServiceKind {
    Gmail,
}

/// What the program asks to be allowed: to read and change mail, and to
/// read calendars and events.
pub const GOOGLE_SCOPE: &'static str =
    "https://www.googleapis.com/auth/gmail.modify https://www.googleapis.com/auth/calendar.calendars.readonly https://www.googleapis.com/auth/calendar.events.readonly";

/// Where the authorisation code is shown unless a redirect is configured.
pub const DEFAULT_REDIRECT_URI: &'static str = "urn:ietf:wg:oauth:2.0:oob";

impl ServiceKind {
    /// The name under which the service is stored.
    pub open spec fn name(self) -> Seq<char> {
        "gmail"@
    }

    /// The name under which the service is stored.
    pub fn to_str(&self) -> (r: &'static str)
        ensures
            r@ == self.name(),
    {
        match self {
            ServiceKind::Gmail => "gmail",
        }
    }

    /// The service with the given name.
    pub fn from_name(name: &str) -> (r: Option<ServiceKind>)
        ensures
            r == if name@ == "gmail"@ {
                Some(ServiceKind::Gmail)
            } else {
                None
            },
    {
        if str_eq(name, "gmail") {
            Some(ServiceKind::Gmail)
        } else {
            None
        }
    }
}

/// The address at which the user grants access, for values that are
/// already written for use in a query.
pub open spec fn authorization_url(client_id: Seq<char>, redirect_uri: Seq<char>, scope: Seq<char>) -> Seq<
    char,
> {
    "https://accounts.google.com/o/oauth2/v2/auth?client_id="@ + client_id + "&redirect_uri="@
        + redirect_uri + "&response_type=code&scope="@ + scope
        + "&access_type=offline&prompt=consent"@
}

/// Where the authorisation code is shown: at the configured redirect, or
/// else at [`DEFAULT_REDIRECT_URI`].
pub open spec fn redirect_or_default(redirect_uri: Option<&str>) -> Seq<char> {
    match redirect_uri {
        Some(uri) => uri@,
        None => DEFAULT_REDIRECT_URI@,
    }
}

/// The address at which the user grants the program what [`GOOGLE_SCOPE`]
/// lists. The client, the redirect and the scope are percent-encoded.
pub fn auth_url(client_id: &str, redirect_uri: Option<&str>) -> (r: String)
    ensures
        r@ == authorization_url(
            percent_encoded(client_id@),
            percent_encoded(redirect_or_default(redirect_uri)),
            percent_encoded(GOOGLE_SCOPE@),
        ),
{
    let redirect = match redirect_uri {
        Some(uri) => uri,
        None => DEFAULT_REDIRECT_URI,
    };
    let client = percent_encode(client_id);
    let redirect = percent_encode(redirect);
    let scope = percent_encode(GOOGLE_SCOPE);
    "https://accounts.google.com/o/oauth2/v2/auth?client_id=".to_owned().concat(
        client.as_str(),
    ).concat("&redirect_uri=").concat(redirect.as_str()).concat(
        "&response_type=code&scope=",
    ).concat(scope.as_str()).concat("&access_type=offline&prompt=consent")
}

/// The form that trades a refresh token for an access token, with its
/// three values percent-encoded.
pub open spec fn refresh_form(
    client_id: Seq<char>,
    client_secret: Seq<char>,
    refresh_token: Seq<char>,
) -> Seq<char> {
    "client_id="@ + percent_encoded(client_id) + "&client_secret="@ + percent_encoded(
        client_secret,
    ) + "&refresh_token="@ + percent_encoded(refresh_token) + "&grant_type=refresh_token"@
}

/// The form that trades a refresh token for an access token.
pub fn refresh_token_form(client_id: &str, client_secret: &str, refresh_token: &str) -> (r: String)
    ensures
        r@ == refresh_form(client_id@, client_secret@, refresh_token@),
{
    let id = percent_encode(client_id);
    let secret = percent_encode(client_secret);
    let token = percent_encode(refresh_token);
    "client_id=".to_owned().concat(id.as_str()).concat("&client_secret=").concat(
        secret.as_str(),
    ).concat("&refresh_token=").concat(token.as_str()).concat("&grant_type=refresh_token")
}

} // verus!
