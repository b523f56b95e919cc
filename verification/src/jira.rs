//! Issue-tracker client data: the server coordinates, the credentials, and
//! the issues the tracker hands back. The HTTP transport itself lives in the
//! application shell; what stands here is everything that can be decided
//! from plain values — building the request URL, validating the host, and
//! classifying the tracker's answer.

use vstd::prelude::*;

verus! {

#[verifier::external_type_specification]
#[verifier::external_body]
pub struct ExUrlParseError(url::ParseError);

#[verifier::external_type_specification]
#[verifier::external_body]
pub struct ExReqwestError(reqwest::Error);

/// Whether a string parses as a well-formed absolute URL.
pub uninterp spec fn spec_parses_as_url(s: Seq<char>) -> bool;

/// Relies on url::Url::parse: whether a string parses as a URL is a function
/// of the string alone. The parsed value itself is not kept; the library
/// works on the URL's text.
#[verifier::external_body]
pub(crate) fn validate_url(input: &str) -> (r: Result<(), url::ParseError>)
    ensures
        r is Ok <==> spec_parses_as_url(input@),
{
    url::Url::parse(input).map(|_| ())
}

/// The text of the given reference resolved against the given base URL, or
/// `None` where the base does not parse or the resolution fails.
pub uninterp spec fn spec_url_join(base: Seq<char>, reference: Seq<char>) -> Option<Seq<char>>;

/// Relies on url::Url::join, the base string parsed with url::Url::parse
/// first: the resolved URL's text is a function of the two strings alone.
#[verifier::external_body]
fn join_text(base: &str, reference: &str) -> (r: Result<String, url::ParseError>)
    ensures
        r matches Ok(joined) ==> spec_url_join(base@, reference@) == Some(joined@),
        r is Err ==> spec_url_join(base@, reference@) is None,
{
    let joined = url::Url::parse(base)?.join(reference)?;
    Ok(String::from(joined))
}

/// The account name used towards the tracker.
pub struct JiraUser(String);

/// The API token used towards the tracker.
pub struct JiraToken(String);

/// The pair of account name and token.
pub struct JiraCredentials {
    user: JiraUser,
    token: JiraToken,
}

impl View for JiraUser {
    type V = Seq<char>;

    closed spec fn view(&self) -> Seq<char> {
        self.0@
    }
}

impl JiraUser {
    pub fn new(name: String) -> (r: Self)
        ensures
            r@ == name@,
    {
        JiraUser(name)
    }

    /// The name itself, for rendering and for the transport's basic auth.
    pub fn as_str(&self) -> (r: &str)
        ensures
            r@ == self@,
    {
        self.0.as_str()
    }
}

impl View for JiraToken {
    type V = Seq<char>;

    closed spec fn view(&self) -> Seq<char> {
        self.0@
    }
}

impl JiraToken {
    pub fn new(token: String) -> (r: Self)
        ensures
            r@ == token@,
    {
        JiraToken(token)
    }

    /// The token itself, for rendering and for the transport's basic auth.
    pub fn as_str(&self) -> (r: &str)
        ensures
            r@ == self@,
    {
        self.0.as_str()
    }
}

impl JiraCredentials {
    /// The account name held.
    pub closed spec fn spec_user(&self) -> Seq<char> {
        self.user@
    }

    /// The token held.
    pub closed spec fn spec_token(&self) -> Seq<char> {
        self.token@
    }

    pub fn new(user: JiraUser, token: JiraToken) -> (r: Self)
        ensures
            r.spec_user() == user@,
            r.spec_token() == token@,
    {
        JiraCredentials { user, token }
    }

    pub fn user(&self) -> (r: &JiraUser)
        ensures
            r@ == self.spec_user(),
    {
        &self.user
    }

    pub fn token(&self) -> (r: &JiraToken)
        ensures
            r@ == self.spec_token(),
    {
        &self.token
    }
}

/// An issue as the workflow reads it.
pub struct JiraIssue {
    pub id: String,
    pub key: String,
    pub summary: String,
    pub status: JiraStatus,
}

/// An issue's workflow status.
pub struct JiraStatus {
    pub id: String,
    pub name: String,
}

/// Everything that can go wrong towards the tracker.
#[derive(Debug)]
pub enum JiraError {
    /// The transport failed or the tracker answered with an error status.
    RequestError(reqwest::Error),
    /// The configured host, or the URL built from it, is not well formed.
    InvalidUrl(url::ParseError),
    /// The tracker answered that no such issue exists.
    IssueNotFound(String),
}

/// The tracker's coordinates: the host, as its validated text, and the
/// credentials.
pub struct JiraServer {
    host: String,
    credentials: JiraCredentials,
}

/// The URL asking the tracker for the given issue: the issue endpoint
/// resolved against the host, then the key resolved against that.
pub open spec fn spec_issue_url(host: Seq<char>, key_or_id: Seq<char>) -> Option<Seq<char>> {
    match spec_url_join(host, "/rest/api/2/issue/"@) {
        Some(endpoint) => spec_url_join(endpoint, key_or_id),
        None => None,
    }
}

impl JiraServer {
    /// The configured host text.
    pub closed spec fn spec_host(&self) -> Seq<char> {
        self.host@
    }

    /// The account name of the credentials held.
    pub closed spec fn spec_user(&self) -> Seq<char> {
        self.credentials.spec_user()
    }

    /// The token of the credentials held.
    pub closed spec fn spec_token(&self) -> Seq<char> {
        self.credentials.spec_token()
    }

    /// Builds a server handle from the configured host, name and token.
    /// Succeeds exactly when the host parses as a URL, and keeps all three
    /// values as configured.
    pub fn from_config(config: &crate::config::JiraConfig) -> (r: Result<JiraServer, JiraError>)
        ensures
            r is Ok <==> spec_parses_as_url(config.host@),
            r matches Ok(s) ==> s.spec_host() == config.host@ && s.spec_user() == config.user@
                && s.spec_token() == config.token@,
            r matches Err(e) ==> e is InvalidUrl,
    {
        if let Err(e) = validate_url(config.host.as_str()) {
            return Err(JiraError::InvalidUrl(e));
        }
        let user = JiraUser::new(config.user.clone());
        let token = JiraToken::new(config.token.clone());
        Ok(JiraServer { host: config.host.clone(), credentials: JiraCredentials::new(user, token) })
    }

    /// The URL asking the tracker for the given issue: succeeds exactly when
    /// resolving the issue endpoint against the host and the key against
    /// that endpoint succeeds, and returns that resolved URL's text.
    pub fn issue_url(&self, key_or_id: &str) -> (r: Result<String, JiraError>)
        ensures
            r matches Ok(u) ==> spec_issue_url(self.spec_host(), key_or_id@) == Some(u@),
            r matches Err(e) ==> e is InvalidUrl && spec_issue_url(self.spec_host(), key_or_id@)
                is None,
    {
        let endpoint = match join_text(self.host.as_str(), "/rest/api/2/issue/") {
            Ok(u) => u,
            Err(e) => {
                return Err(JiraError::InvalidUrl(e));
            },
        };
        match join_text(endpoint.as_str(), key_or_id) {
            Ok(u) => Ok(u),
            Err(e) => Err(JiraError::InvalidUrl(e)),
        }
    }

    /// The credentials to authenticate the request with.
    pub fn credentials(&self) -> (r: &JiraCredentials)
        ensures
            r.spec_user() == self.spec_user(),
            r.spec_token() == self.spec_token(),
    {
        &self.credentials
    }
}

/// Classifies the tracker's HTTP status for an issue lookup: 404 is the
/// tracker saying that no such issue exists, and nothing else; every other
/// status leaves the response to be read.
pub fn issue_lookup_outcome(status: u16, key_or_id: &str) -> (r: Result<(), JiraError>)
    ensures
        r is Err <==> status == 404,
        r matches Err(e) ==> e matches JiraError::IssueNotFound(k) && k@ == key_or_id@,
{
    if status == 404 {
        Err(JiraError::IssueNotFound(key_or_id.to_owned()))
    } else {
        Ok(())
    }
}

} // verus!
