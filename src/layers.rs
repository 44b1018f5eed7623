use vstd::prelude::*;

use crate::error::{Error, ErrorView, Kind};

verus! {

/// The parts of a URI that the transport reads and writes.
#[derive(Debug)]
pub struct Uri {
    pub scheme: Option<String>,
    pub authority: Option<String>,
    pub path_and_query: Option<String>,
}

/// What a [`Uri`] holds.
pub ghost struct UriView {
    pub scheme: Option<Seq<char>>,
    pub authority: Option<Seq<char>>,
    pub path_and_query: Option<Seq<char>>,
}

/// The view of an optional string.
pub open spec fn opt_view(s: Option<String>) -> Option<Seq<char>> {
    match s {
        Some(t) => Some(t@),
        None => None,
    }
}

fn copy_opt(s: &Option<String>) -> (r: Option<String>)
    ensures
        opt_view(r) == opt_view(*s),
{
    match s {
        Some(t) => Some(t.clone()),
        None => None,
    }
}

impl View for Uri {
    type V = UriView;

    open spec fn view(&self) -> UriView {
        UriView {
            scheme: opt_view(self.scheme),
            authority: opt_view(self.authority),
            path_and_query: opt_view(self.path_and_query),
        }
    }
}

impl Uri {
    /// A copy of this URI.
    pub fn duplicate(&self) -> (r: Uri)
        ensures
            r@ == self@,
    {
        Uri {
            scheme: copy_opt(&self.scheme),
            authority: copy_opt(&self.authority),
            path_and_query: copy_opt(&self.path_and_query),
        }
    }
}

/// An outgoing request, as far as the transport's layers touch it: its URI
/// and its user-agent header.
#[derive(Debug)]
pub struct Request {
    pub uri: Uri,
    pub user_agent: Option<String>,
}

/// What a [`Request`] holds.
pub ghost struct RequestView {
    pub uri: UriView,
    pub user_agent: Option<Seq<char>>,
}

impl View for Request {
    type V = RequestView;

    open spec fn view(&self) -> RequestView {
        RequestView { uri: self.uri@, user_agent: opt_view(self.user_agent) }
    }
}

/// Sets the scheme and authority of every request to those of a fixed origin.
#[derive(Debug)]
pub struct AddOrigin {
    scheme: Option<String>,
    authority: Option<String>,
}

impl AddOrigin {
    /// The scheme that requests are given.
    pub closed spec fn spec_scheme(&self) -> Option<Seq<char>> {
        opt_view(self.scheme)
    }

    /// The authority that requests are given.
    pub closed spec fn spec_authority(&self) -> Option<Seq<char>> {
        opt_view(self.authority)
    }

    /// A layer that sends requests to `origin`.
    pub fn new(origin: &Uri) -> (r: Self)
        ensures
            r.spec_scheme() == origin@.scheme,
            r.spec_authority() == origin@.authority,
    {
        AddOrigin { scheme: copy_opt(&origin.scheme), authority: copy_opt(&origin.authority) }
    }

    /// `req` with the origin's scheme and authority, the rest unchanged; an
    /// invalid-URI error if the origin lacks either of them.
    pub fn call(&self, req: Request) -> (r: Result<Request, Error>)
        ensures
            match r {
                Ok(out) => {
                    &&& self.spec_scheme() is Some
                    &&& self.spec_authority() is Some
                    &&& out@ == (RequestView {
                        uri: UriView {
                            scheme: self.spec_scheme(),
                            authority: self.spec_authority(),
                            ..req@.uri
                        },
                        ..req@
                    })
                },
                Err(e) => {
                    &&& (self.spec_scheme() is None || self.spec_authority() is None)
                    &&& e@ == ErrorView::of_kind(Kind::InvalidUri)
                },
            },
    {
        if self.scheme.is_none() || self.authority.is_none() {
            return Err(Error::new_invalid_uri());
        }
        let mut out = req;
        out.uri.scheme = copy_opt(&self.scheme);
        out.uri.authority = copy_opt(&self.authority);
        Ok(out)
    }
}

/// Whether `c` may stand in a header value: a visible character, a space or
/// a tab, and no control character.
pub open spec fn is_header_char(c: char) -> bool {
    (c as u32 >= 32 && c as u32 != 127) || c as u32 == 9
}

/// Whether every character of `s` may stand in a header value.
pub open spec fn is_header_value(s: Seq<char>) -> bool {
    forall|i: int| 0 <= i < s.len() ==> is_header_char(#[trigger] s[i])
}

/// Relies on `http::HeaderValue::from_str`, which accepts a string exactly
/// when each of its bytes is a tab or at least 32 and not 127; the bytes of a
/// character above 127 are all at least 128.
#[verifier::external_body]
fn header_value_accepts(s: &str) -> (r: bool)
    ensures
        r == is_header_value(s@),
{
    http::HeaderValue::from_str(s).is_ok()
}

/// Tags every request with a fixed user-agent value, if one is configured.
#[derive(Debug)]
pub struct UserAgent {
    value: Option<String>,
}

impl UserAgent {
    /// The value that requests are tagged with.
    pub closed spec fn spec_value(&self) -> Option<Seq<char>> {
        opt_view(self.value)
    }

    /// A layer that tags requests with `user_agent`; an invalid-user-agent
    /// error if it cannot be a header value.
    pub fn new(user_agent: Option<&str>) -> (r: Result<Self, Error>)
        ensures
            match user_agent {
                None => r matches Ok(u) && u.spec_value() == None::<Seq<char>>,
                Some(s) => match r {
                    Ok(u) => is_header_value(s@) && u.spec_value() == Some(s@),
                    Err(e) => !is_header_value(s@) && e@ == ErrorView::of_kind(Kind::InvalidUserAgent),
                },
            },
    {
        match user_agent {
            None => Ok(UserAgent { value: None }),
            Some(s) => {
                if header_value_accepts(s) {
                    Ok(UserAgent { value: Some(s.to_string()) })
                } else {
                    Err(Error::new_invalid_user_agent())
                }
            },
        }
    }

    /// `req` with its user-agent set to the configured value, if there is
    /// one; otherwise `req` unchanged.
    pub fn call(&self, req: Request) -> (r: Request)
        ensures
            r@ == (match self.spec_value() {
                Some(v) => RequestView { user_agent: Some(v), ..req@ },
                None => req@,
            }),
    {
        let mut out = req;
        match &self.value {
            Some(v) => {
                out.user_agent = Some(v.clone());
            },
            None => {},
        }
        out
    }
}

/// The deadline of a call started at `start` under `timeout`: none without a
/// timeout, else `start + timeout`, held at the largest `u64`.
pub open spec fn deadline_of(start: u64, timeout: Option<u64>) -> Option<u64> {
    match timeout {
        Some(t) => Some(
            if start + t > u64::MAX {
                u64::MAX
            } else {
                (start + t) as u64
            },
        ),
        None => None,
    }
}

/// The deadline of a call started at `start` under `timeout`.
pub fn deadline(start: u64, timeout: Option<u64>) -> (r: Option<u64>)
    ensures
        r == deadline_of(start, timeout),
{
    match timeout {
        Some(t) => Some(start.saturating_add(t)),
        None => None,
    }
}

/// The error of a call whose deadline passed before it completed.
pub open spec fn timeout_error() -> ErrorView {
    ErrorView::of_kind(Kind::Transport).with_source("Timeout expired"@)
}

/// Races a call against its deadline. `inner` is the call's outcome if it has
/// completed by `now`. A completed call gives its own outcome; one still
/// running at or after its deadline gives a transport error and is no longer
/// waited for; otherwise the race goes on (`None`).
pub fn poll_timeout<T>(inner: Option<Result<T, Error>>, now: u64, deadline: Option<u64>) -> (r:
    Option<Result<T, Error>>)
    ensures
        inner is Some ==> r == inner,
        inner is None ==> match deadline {
            Some(d) if now >= d => r matches Some(Err(e)) && e@ == timeout_error(),
            _ => r is None,
        },
{
    match inner {
        Some(out) => Some(out),
        None => match deadline {
            Some(d) => {
                if now >= d {
                    Some(Err(Error::from_source("Timeout expired".to_string())))
                } else {
                    None
                }
            },
            None => None,
        },
    }
}

} // verus!
