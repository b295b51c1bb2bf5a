//! Resolution of per-application compatibility tweaks, layered by the
//! detected graphics vendor, and the pure parts of the catalog client.
use vstd::prelude::*;
use vstd::string::StringExecFns;

pub mod app;
pub mod env;
pub mod laws;
pub mod system;

verus! {

/// The root of the catalog's API, where no other is given.
pub const DEFAULT_URL: &'static str = "https://api.protontweaks.com/v4";

/// The endpoint of the catalog's index.
pub const APPS_ENDPOINT: &'static str = "apps.json";

/// A client of the catalog at one base URL.
pub struct Protontweaks {
    url: String,
}

/// The catalog's index.
#[derive(Debug)]
pub struct AppsList {
    pub sha: String,
    pub short_sha: String,
    pub apps: Vec<MicroApp>,
}

/// One entry of the catalog's index.
#[derive(Debug)]
pub struct MicroApp {
    pub id: String,
    pub name: String,
}

/// The text of `endpoint` resolved against the URL `base`, as the `url` crate
/// parses and joins them; `None` where it refuses either.
pub uninterp spec fn joined_url(base: Seq<char>, endpoint: Seq<char>) -> Option<Seq<char>>;

/// Relies on `Url::parse` and `Url::join` of the `url` crate, which reqwest
/// re-exports as `reqwest::Url`, and on the text of the joined URL: the
/// result depends on the two strings alone.
#[verifier::external_body]
fn join_url(base: &str, endpoint: &str) -> (r: Option<String>)
    ensures
        joined_url(base@, endpoint@) == match r {
            Some(u) => Some(u@),
            None => None,
        },
{
    match reqwest::Url::parse(base) {
        Ok(u) => match u.join(endpoint) {
            Ok(j) => Some(j.to_string()),
            Err(_) => None,
        },
        Err(_) => None,
    }
}

impl Default for Protontweaks {
    fn default() -> (r: Self)
        ensures
            r.base_url() == DEFAULT_URL@,
    {
        Self { url: DEFAULT_URL.to_string() }
    }
}

impl Protontweaks {
    /// The base URL that endpoints are resolved against.
    pub closed spec fn base_url(&self) -> Seq<char> {
        self.url@
    }

    /// A client of the catalog at its usual root.
    pub fn new() -> (r: Self)
        ensures
            r.base_url() == DEFAULT_URL@,
    {
        Self::default()
    }

    /// A client of the catalog at `url`.
    pub fn new_with_url(url: &str) -> (r: Self)
        ensures
            r.base_url() == url@,
    {
        Self { url: url.to_string() }
    }

    /// The URL of `endpoint` under the base URL; `None` where the base URL
    /// does not parse or the endpoint cannot be joined to it.
    pub fn to_url(&self, endpoint: &str) -> (r: Option<String>)
        ensures
            joined_url(self.base_url(), endpoint@) == match r {
                Some(u) => Some(u@),
                None => None,
            },
    {
        join_url(self.url.as_str(), endpoint)
    }
}

/// The endpoint that holds the entry of the application `app_id`.
pub fn app_endpoint(app_id: &str) -> (r: String)
    ensures
        r@ == app_id@ + ".json"@,
{
    let mut r = app_id.to_string();
    r.append(".json");
    r
}

/// The identifiers of `apps`, in order.
pub fn app_ids_of(apps: &Vec<MicroApp>) -> (r: Vec<String>)
    ensures
        r@.len() == apps@.len(),
        forall|i: int| 0 <= i < apps@.len() ==> #[trigger] r@[i] == apps@[i].id,
{
    let mut r: Vec<String> = Vec::new();
    let mut i: usize = 0;
    while i < apps.len()
        invariant
            i <= apps@.len(),
            r@.len() == i,
            forall|j: int| 0 <= j < i ==> #[trigger] r@[j] == apps@[j].id,
        decreases apps@.len() - i,
    {
        r.push(apps[i].id.clone());
        i = i + 1;
    }
    r
}

impl AppsList {
    /// The identifiers of the listed applications, in order.
    pub fn app_ids(&self) -> (r: Vec<String>)
        ensures
            r@.len() == self.apps@.len(),
            forall|i: int| 0 <= i < self.apps@.len() ==> #[trigger] r@[i] == self.apps@[i].id,
    {
        app_ids_of(&self.apps)
    }
}

/// Why a request to the catalog failed.
#[derive(PartialEq, Eq, Debug)]
pub enum FetchError {
    /// The server has no file at `url`: an unknown application, or a missing
    /// index.
    NotFound { url: String },
    /// The body of a successful response did not have the expected shape.
    ParseError { url: String },
    /// The request did not reach the server, or no response came back.
    TransportError { detail: String },
    /// The server answered with another status that is not a success.
    OtherHttpError { status: u16, detail: String },
}

/// Whether an HTTP status is a success (200 to 299).
pub open spec fn is_success(status: u16) -> bool {
    200 <= status < 300
}

/// The status with which the server says that it has no such file.
pub const NOT_FOUND: u16 = 404;

/// The error that a response with `status` to a request for `url` stands
/// for; `None` for a success, whose body is then parsed. `detail` describes
/// the failure where the status is neither a success nor `NOT_FOUND`.
pub fn check_status(status: u16, url: String, detail: String) -> (r: Option<FetchError>)
    ensures
        r == if is_success(status) {
            None
        } else if status == NOT_FOUND {
            Some(FetchError::NotFound { url })
        } else {
            Some(FetchError::OtherHttpError { status, detail })
        },
{
    if 200 <= status && status < 300 {
        None
    } else if status == NOT_FOUND {
        Some(FetchError::NotFound { url })
    } else {
        Some(FetchError::OtherHttpError { status, detail })
    }
}

/// The text of the message that describes `e`.
pub open spec fn message_of(e: FetchError) -> Seq<char> {
    match e {
        FetchError::NotFound { url } => "Unable to locate file at '"@ + url@ + "'."@,
        FetchError::ParseError { url } => "Failed to parse '"@ + url@ + "'."@,
        FetchError::TransportError { detail } => detail@,
        FetchError::OtherHttpError { detail, .. } => detail@,
    }
}

impl FetchError {
    /// A message that describes the failure.
    pub fn message(&self) -> (r: String)
        ensures
            r@ == message_of(*self),
    {
        match self {
            FetchError::NotFound { url } => {
                let mut r = "Unable to locate file at '".to_string();
                r.append(url.as_str());
                r.append("'.");
                r
            },
            FetchError::ParseError { url } => {
                let mut r = "Failed to parse '".to_string();
                r.append(url.as_str());
                r.append("'.");
                r
            },
            FetchError::TransportError { detail } => detail.clone(),
            FetchError::OtherHttpError { detail, .. } => detail.clone(),
        }
    }
}

} // verus!
