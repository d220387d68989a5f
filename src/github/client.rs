use vstd::prelude::*;

use crate::github::status::{CombinedStatus, InvalidStatus};

verus! {

#[verifier::external_type_specification]
#[verifier::external_body]
pub struct ExUrlParseError(url::ParseError);

/// The serialization of the URL that a text parses to, if it parses.
pub uninterp spec fn url_serialization(text: Seq<char>) -> Option<Seq<char>>;

/// Relies on `url::Url::parse` and `String::from(Url)`: whether a text parses,
/// and the serialization it parses to, depend on the text alone.
#[verifier::external_body]
fn parse_url(text: &str) -> (r: Result<String, url::ParseError>)
    ensures
        match r {
            Ok(s) => url_serialization(text@) == Some(s@),
            Err(_) => url_serialization(text@).is_none(),
        },
{
    url::Url::parse(text).map(String::from)
}

/// The serialization of the URL that `base` parses to, with its path
/// replaced by `path`, if `base` parses.
pub uninterp spec fn url_with_path(base: Seq<char>, path: Seq<char>) -> Option<Seq<char>>;

/// The most characters that a base URL and a path may hold together. The url
/// crate keeps offsets as `u32` and panics when a serialization passes
/// `u32::MAX` bytes. A character grows to at most a few hundred bytes
/// (percent-encoding, and the mapping and punycode of a host), so texts
/// within this bound stay far below that.
pub const MAX_URL_CHARS: usize = 0x0010_0000;

/// Relies on `url::Url::parse`, `Url::set_path` and `String::from(Url)`: the
/// result depends on the two texts alone, and there is one exactly where
/// the base parses. `set_path` panics on a serialization past `u32::MAX`
/// bytes, which the bound on the texts rules out.
#[verifier::external_body]
fn set_url_path(base: &str, path: &str) -> (r: Option<String>)
    requires
        base@.len() + path@.len() <= MAX_URL_CHARS,
    ensures
        r.is_some() == url_serialization(base@).is_some(),
        match r {
            Some(s) => url_with_path(base@, path@) == Some(s@),
            None => url_with_path(base@, path@).is_none(),
        },
{
    match url::Url::parse(base) {
        Ok(mut url) => {
            url.set_path(path);
            Some(String::from(url))
        },
        Err(_) => None,
    }
}

/// The serialization of the URL that `base` parses to, with `segments`
/// appended to its path, each percent-encoded; `None` where `base` does not
/// parse or cannot take a path.
pub uninterp spec fn url_with_segments(base: Seq<char>, segments: Seq<Seq<char>>) -> Option<
    Seq<char>,
>;

/// The characters of a base URL and of path segments, with one for the
/// separator before each segment.
pub open spec fn url_input_len(base: Seq<char>, segments: Seq<Seq<char>>) -> nat
    decreases segments.len(),
{
    if segments.len() == 0 {
        base.len()
    } else {
        url_input_len(base, segments.drop_last()) + segments.last().len() + 1
    }
}

/// Relies on `url::Url::parse`, `Url::path_segments_mut`,
/// `PathSegmentsMut::extend` and `String::from(Url)`: the result depends on
/// the texts alone. Dropping the segment writer panics on a serialization
/// past `u32::MAX` bytes, which the bound on the texts rules out.
#[verifier::external_body]
fn append_url_segments(base: &str, segments: &Vec<String>) -> (r: Option<String>)
    requires
        url_input_len(base@, segments@.map_values(|s: String| s@)) <= MAX_URL_CHARS,
    ensures
        match r {
            Some(t) => url_with_segments(base@, segments@.map_values(|s: String| s@)) == Some(t@),
            None => url_with_segments(base@, segments@.map_values(|s: String| s@)).is_none(),
        },
{
    let mut url = match url::Url::parse(base) {
        Ok(url) => url,
        Err(_) => return None,
    };
    match url.path_segments_mut() {
        Ok(mut path) => {
            path.extend(segments.iter());
        },
        Err(_) => return None,
    }
    Some(String::from(url))
}

/// An error of a call to the source-hosting API.
#[derive(Clone, Debug, PartialEq)]
pub enum Error {
    /// A URL could not be parsed.
    InvalidUrl,
    /// The request could not be sent or its reply not received.
    Transport,
    /// A reply did not hold what was expected.
    Decode,
    /// A reply named an unknown combined status.
    Status(InvalidStatus),
}

impl Error {
    /// A copy of this error.
    pub fn duplicate(&self) -> (r: Error)
        ensures
            r == *self,
    {
        match self {
            Error::InvalidUrl => Error::InvalidUrl,
            Error::Transport => Error::Transport,
            Error::Decode => Error::Decode,
            Error::Status(e) => Error::Status(InvalidStatus(e.0.clone())),
        }
    }
}

/// The entry point of the API: a URL with no path or query, held as its
/// serialization.
#[derive(Clone, Debug, PartialEq)]
pub struct BaseUrl(pub String);

impl BaseUrl {
    /// Parses a base URL.
    pub fn parse(text: &str) -> (r: Result<BaseUrl, Error>)
        ensures
            match r {
                Ok(b) => url_serialization(text@) == Some(b.0@),
                Err(e) => url_serialization(text@).is_none() && e == Error::InvalidUrl,
            },
    {
        match parse_url(text) {
            Ok(s) => Ok(BaseUrl(s)),
            Err(_) => Err(Error::InvalidUrl),
        }
    }

    /// This URL with its path replaced by `path`; `None` only where the held
    /// text is no URL, which `parse` and `default` never give.
    pub fn with_path(&self, path: &str) -> (r: Option<String>)
        requires
            self.0@.len() + path@.len() <= MAX_URL_CHARS,
        ensures
            r.is_some() == url_serialization(self.0@).is_some(),
            match r {
                Some(s) => url_with_path(self.0@, path@) == Some(s@),
                None => url_with_path(self.0@, path@).is_none(),
            },
    {
        set_url_path(self.0.as_str(), path)
    }

    /// The serialization of the URL.
    pub fn as_str(&self) -> (r: &str)
        ensures
            r@ == self.0@,
    {
        self.0.as_str()
    }
}

impl Default for BaseUrl {
    /// The public API's entry point.
    fn default() -> (r: Self)
        ensures
            r.0@ == "https://api.github.com/"@,
    {
        BaseUrl(String::from_str("https://api.github.com/"))
    }
}

/// The user-agent string that every call carries.
#[derive(Clone, Debug, PartialEq)]
pub struct UserAgent(pub String);

impl Default for UserAgent {
    fn default() -> (r: Self)
        ensures
            r.0@ == "sonmbot"@,
    {
        UserAgent(String::from_str("sonmbot"))
    }
}

/// Where the API is and how to call it.
#[derive(Clone, Debug)]
pub struct Config {
    /// GitHub base URL.
    pub base_url: BaseUrl,
    pub user_agent: UserAgent,
    pub oauth_token: String,
}

impl Config {
    /// A copy of this configuration.
    pub fn duplicate(&self) -> (r: Config)
        ensures
            r == *self,
    {
        Config {
            base_url: BaseUrl(self.base_url.0.clone()),
            user_agent: UserAgent(self.user_agent.0.clone()),
            oauth_token: self.oauth_token.clone(),
        }
    }

    /// The media type that every call accepts.
    pub fn accept(&self) -> (r: &'static str)
        ensures
            r@ == "application/vnd.github.v3+json"@,
    {
        "application/vnd.github.v3+json"
    }

    /// The value of the `Authorization` header.
    pub fn authorization(&self) -> (r: String)
        ensures
            r@ == "token "@ + self.oauth_token@,
    {
        let r = String::from_str("token ");
        r.concat(self.oauth_token.as_str())
    }
}

/// The body of a merge call.
#[derive(Clone, Debug, PartialEq)]
pub struct MergeInput {
    pub base: String,
    pub head: String,
    pub commit_message: String,
}

/// A merge of `body.head` into `body.base` in one repository.
#[derive(Clone, Debug)]
pub struct MergeRequest {
    pub owner: String,
    pub repo: String,
    pub body: MergeInput,
}

/// The HTTP method of a call.
#[derive(Clone, Copy, Debug, PartialEq, Eq, Structural)]
pub enum Method {
    Get,
    Post,
}

/// One call to the API.
pub enum ApiRequest {
    /// The GraphQL query for the open pull requests of a repository.
    PullRequests { owner: String, repo: String },
    /// The combined status of a ref.
    Status { owner: String, repo: String, reference: String },
    /// The creation of a merge.
    Merge(MergeRequest),
}

impl ApiRequest {
    /// The HTTP method of the call.
    pub fn method(&self) -> (r: Method)
        ensures
            r == match self {
                ApiRequest::Status { .. } => Method::Get,
                _ => Method::Post,
            },
    {
        match self {
            ApiRequest::Status { .. } => Method::Get,
            _ => Method::Post,
        }
    }

    /// The segments of the call's path below the base URL, each to be
    /// percent-encoded on its own.
    pub fn path_segments(&self) -> (r: Vec<String>)
        ensures
            r@.map_values(|s: String| s@) == path_of(self),
    {
        let mut r: Vec<String> = Vec::new();
        match self {
            ApiRequest::PullRequests { .. } => {
                r.push(String::from_str("graphql"));
            },
            ApiRequest::Status { owner, repo, reference } => {
                r.push(String::from_str("repos"));
                r.push(owner.clone());
                r.push(repo.clone());
                r.push(String::from_str("commits"));
                r.push(reference.clone());
                r.push(String::from_str("status"));
            },
            ApiRequest::Merge(m) => {
                r.push(String::from_str("repos"));
                r.push(m.owner.clone());
                r.push(m.repo.clone());
                r.push(String::from_str("merges"));
            },
        }
        assert(r@.map_values(|s: String| s@) =~= path_of(self));
        r
    }
}

impl ApiRequest {
    /// The URL of the call below `base`. It is `InvalidUrl` where the base
    /// cannot take a path, or where the texts are too long for a URL.
    pub fn url(&self, base: &BaseUrl) -> (r: Result<String, Error>)
        ensures
            url_input_len(base.0@, path_of(self)) > MAX_URL_CHARS ==> r == Err::<String, Error>(
                Error::InvalidUrl,
            ),
            url_input_len(base.0@, path_of(self)) <= MAX_URL_CHARS ==> match url_with_segments(
                base.0@,
                path_of(self),
            ) {
                Some(t) => r matches Ok(s) && s@ == t,
                None => r == Err::<String, Error>(Error::InvalidUrl),
            },
    {
        let segments = self.path_segments();
        let ghost segs = segments@.map_values(|s: String| s@);
        let mut total: usize = base.0.as_str().unicode_len();
        if total > MAX_URL_CHARS {
            proof {
                lemma_url_input_len_grows(base.0@, segs, 0);
                assert(segs.take(0) =~= Seq::<Seq<char>>::empty());
            }
            return Err(Error::InvalidUrl);
        }
        let mut i: usize = 0;
        while i < segments.len()
            invariant
                i <= segments@.len(),
                segs == segments@.map_values(|s: String| s@),
                segs == path_of(self),
                total == url_input_len(base.0@, segs.take(i as int)),
                total <= MAX_URL_CHARS,
            decreases segments@.len() - i,
        {
            assert(segs.take(i + 1).drop_last() =~= segs.take(i as int));
            let n = segments[i].as_str().unicode_len();
            if n >= MAX_URL_CHARS - total {
                proof {
                    assert(segs[i as int] == segments@[i as int]@);
                    assert(segs.take(i + 1).last() == segs[i as int]);
                    assert(url_input_len(base.0@, segs.take(i + 1)) == total + n + 1);
                    lemma_url_input_len_grows(base.0@, segs, i as int + 1);
                }
                return Err(Error::InvalidUrl);
            }
            total = total + n + 1;
            i = i + 1;
        }
        assert(segs.take(segments@.len() as int) =~= segs);
        match append_url_segments(base.0.as_str(), &segments) {
            Some(t) => Ok(t),
            None => Err(Error::InvalidUrl),
        }
    }
}

proof fn lemma_url_input_len_grows(base: Seq<char>, segs: Seq<Seq<char>>, k: int)
    requires
        0 <= k <= segs.len(),
    ensures
        url_input_len(base, segs.take(k)) <= url_input_len(base, segs),
    decreases segs.len() - k,
{
    if k < segs.len() {
        lemma_url_input_len_grows(base, segs, k + 1);
        assert(segs.take(k + 1).drop_last() =~= segs.take(k));
    } else {
        assert(segs.take(k) =~= segs);
    }
}

/// The path of a call, as its segments.
pub open spec fn path_of(request: &ApiRequest) -> Seq<Seq<char>> {
    match request {
        ApiRequest::PullRequests { .. } => seq!["graphql"@],
        ApiRequest::Status { owner, repo, reference } => seq![
            "repos"@,
            owner@,
            repo@,
            "commits"@,
            reference@,
            "status"@,
        ],
        ApiRequest::Merge(m) => seq!["repos"@, m.owner@, m.repo@, "merges"@],
    }
}

/// Whether a merge call's reply status means that a merge was created; any
/// other status means that there was nothing to do.
pub fn merge_created(status_code: u16) -> (r: bool)
    ensures
        r == (status_code == 201),
{
    status_code == 201
}

/// The pull-request calls of one repository.
#[derive(Clone)]
pub struct PullRequestApi {
    pub cfg: Config,
    pub owner: String,
    pub repo: String,
}

impl PullRequestApi {
    /// The call that fetches the combined status of `reference`.
    pub fn state(&self, reference: String) -> (r: ApiRequest)
        ensures
            r == (ApiRequest::Status { owner: self.owner, repo: self.repo, reference }),
    {
        ApiRequest::Status { owner: self.owner.clone(), repo: self.repo.clone(), reference }
    }

    /// Reads the `state` field of a combined-status reply; a missing field or
    /// one that is not a string is a decoding error.
    pub fn state_from_reply(state: Option<&str>) -> (r: Result<CombinedStatus, Error>)
        ensures
            match state {
                None => r == Err::<CombinedStatus, Error>(Error::Decode),
                Some(s) => match crate::github::status::status_of(s@) {
                    Some(c) => r == Ok::<CombinedStatus, Error>(c),
                    None => r matches Err(Error::Status(e)) && e.0@ == s@,
                },
            },
    {
        match state {
            None => Err(Error::Decode),
            Some(s) => match CombinedStatus::try_from(s) {
                Ok(c) => Ok(c),
                Err(e) => Err(Error::Status(e)),
            },
        }
    }
}

/// A client of the API.
pub struct Client {
    pub cfg: Config,
}

impl Client {
    pub fn new(cfg: Config) -> (r: Self)
        ensures
            r.cfg == cfg,
    {
        Client { cfg }
    }

    /// The call that lists the open pull requests of a repository.
    pub fn pull_requests(&self, owner: &str, repo: &str) -> (r: ApiRequest)
        ensures
            r matches ApiRequest::PullRequests { owner: o, repo: p } && o@ == owner@ && p@ == repo@,
    {
        ApiRequest::PullRequests { owner: owner.to_owned(), repo: repo.to_owned() }
    }

    /// The pull-request calls of one repository.
    pub fn pull_request(&self, owner: &str, repo: &str) -> (r: PullRequestApi)
        ensures
            r.cfg == self.cfg,
            r.owner@ == owner@,
            r.repo@ == repo@,
    {
        PullRequestApi { cfg: self.cfg.duplicate(), owner: owner.to_owned(), repo: repo.to_owned() }
    }

    /// The call that creates the merge that `request` describes.
    pub fn merge(&self, request: MergeRequest) -> (r: ApiRequest)
        ensures
            r == ApiRequest::Merge(request),
    {
        ApiRequest::Merge(request)
    }
}

} // verus!
