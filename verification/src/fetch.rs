//! What to ask of the network for an addon's archive, and how to read the
//! answer. The request itself is made by the caller, once, without retry.

use crate::error::ManagerError;
use vstd::prelude::*;

verus! {

/// The most redirects that a download may follow.
pub const MAX_REDIRECTS: usize = 10;

/// The address of the zip archive of the `main` branch of `repo`.
pub open spec fn url_of(repo: Seq<char>) -> Seq<char> {
    "https://github.com/"@ + repo + "/archive/refs/heads/main.zip"@
}

/// The header by which the manager identifies itself.
pub open spec fn user_agent() -> Seq<char> {
    "WoW-Addon-Manager"@
}

/// A download to make: one HTTP GET.
#[derive(Debug, Clone)]
pub struct FetchRequest {
    pub url: String,
    /// The value of the `User-Agent` header.
    pub user_agent: String,
    /// The cap on the redirects to follow.
    pub max_redirects: usize,
}

/// What a [`FetchRequest`] is in contracts.
pub struct FetchRequestView {
    pub url: Seq<char>,
    pub user_agent: Seq<char>,
    pub max_redirects: nat,
}

impl View for FetchRequest {
    type V = FetchRequestView;

    open spec fn view(&self) -> FetchRequestView {
        FetchRequestView {
            url: self.url@,
            user_agent: self.user_agent@,
            max_redirects: self.max_redirects as nat,
        }
    }
}

/// The request that downloads the archive of `repo`.
pub open spec fn request_of(repo: Seq<char>) -> FetchRequestView {
    FetchRequestView { url: url_of(repo), user_agent: user_agent(), max_redirects: 10 }
}

/// The answer to a download.
#[derive(Debug, Clone)]
pub struct HttpResponse {
    /// The status code.
    pub status: u16,
    /// The status as it is shown in messages, such as `404 Not Found`.
    pub status_text: String,
    /// The whole body.
    pub body: Vec<u8>,
}

/// What an [`HttpResponse`] is in contracts.
pub struct HttpResponseView {
    pub status: u16,
    pub status_text: Seq<char>,
    pub body: Seq<u8>,
}

impl View for HttpResponse {
    type V = HttpResponseView;

    open spec fn view(&self) -> HttpResponseView {
        HttpResponseView { status: self.status, status_text: self.status_text@, body: self.body@ }
    }
}

/// Whether a status code is one of success, 200 to 299.
pub open spec fn success(status: u16) -> bool {
    200 <= status < 300
}

/// The message for a response with another status than success.
pub open spec fn failed_download_text(status_text: Seq<char>) -> Seq<char> {
    "Failed to download: "@ + status_text
}

/// The address of the zip archive of the `main` branch of the repository
/// `repo`, given as `owner/name`.
pub fn archive_url(repo: &str) -> (url: String)
    ensures
        url@ == url_of(repo@),
{
    String::from_str("https://github.com/").concat(repo).concat("/archive/refs/heads/main.zip")
}

/// The request that downloads the archive of `repo`: a GET of
/// [`archive_url`] that names the manager and follows at most
/// [`MAX_REDIRECTS`] redirects.
pub fn fetch_request(repo: &str) -> (request: FetchRequest)
    ensures
        request@ == request_of(repo@),
{
    FetchRequest {
        url: archive_url(repo),
        user_agent: String::from_str("WoW-Addon-Manager"),
        max_redirects: MAX_REDIRECTS,
    }
}

/// Whether `status` is one of success. Only the body of such a response is
/// of use.
pub fn is_success(status: u16) -> (yes: bool)
    ensures
        yes == success(status),
{
    200 <= status && status < 300
}

/// The body of a response with a status of success; every other response is
/// a `Fetch` error that carries the status.
pub fn check_response(response: HttpResponse) -> (body: Result<Vec<u8>, ManagerError>)
    ensures
        success(response.status) ==> (body matches Ok(bytes) && bytes@ == response.body@),
        !success(response.status) ==> (body matches Err(ManagerError::Fetch { status, message })
            && status == Some(response.status) && message@ == failed_download_text(
            response.status_text@,
        )),
{
    if is_success(response.status) {
        Ok(response.body)
    } else {
        Err(
            ManagerError::Fetch {
                status: Some(response.status),
                message: String::from_str("Failed to download: ").concat(
                    response.status_text.as_str(),
                ),
            },
        )
    }
}

/// The error for a download that got no response: `detail` says what went
/// wrong on the way.
pub fn transport_error(detail: String) -> (failure: ManagerError)
    ensures
        failure matches ManagerError::Fetch { status, message } && status is None && message@
            == detail@,
{
    ManagerError::Fetch { status: None, message: detail }
}

} // verus!
