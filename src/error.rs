use vstd::prelude::*;

verus! {

/// Which of the transport's failures an [`Error`] stands for.
#[derive(Clone, Copy, Debug, PartialEq, Eq, Structural)]
pub enum Kind {
    Transport,
    InvalidUri,
    InvalidUserAgent,
    InvalidTlsConfigForUds,
}

/// The text that an error of kind `k` displays.
pub open spec fn description_of(k: Kind) -> Seq<char> {
    match k {
        Kind::Transport => "transport error"@,
        Kind::InvalidUri => "invalid URI"@,
        Kind::InvalidUserAgent => "user agent is not a valid header value"@,
        Kind::InvalidTlsConfigForUds => "cannot apply TLS config for unix domain socket"@,
    }
}

#[derive(Clone, Debug)]
struct ErrorImpl {
    kind: Kind,
    source: Option<String>,
}

/// Errors that originate from the client transport: a kind, and optionally
/// the display text of the failure that caused it.
#[derive(Clone, Debug)]
pub struct Error {
    inner: ErrorImpl,
}

/// What an [`Error`] holds: its kind, and the display text of its cause.
pub ghost struct ErrorView {
    pub kind: Kind,
    pub source: Option<Seq<char>>,
}

impl ErrorView {
    /// An error of kind `kind` with no cause.
    pub open spec fn of_kind(kind: Kind) -> ErrorView {
        ErrorView { kind, source: None }
    }

    /// This error with `source` as its cause.
    pub open spec fn with_source(self, source: Seq<char>) -> ErrorView {
        ErrorView { source: Some(source), ..self }
    }
}

impl View for Error {
    type V = ErrorView;

    closed spec fn view(&self) -> ErrorView {
        ErrorView {
            kind: self.inner.kind,
            source: match self.inner.source {
                Some(s) => Some(s@),
                None => None,
            },
        }
    }
}

impl Error {
    /// The kind of this error.
    pub open spec fn spec_kind(&self) -> Kind {
        self@.kind
    }

    /// The display text of the underlying cause, if one was attached.
    pub open spec fn spec_source(&self) -> Option<Seq<char>> {
        self@.source
    }

    /// An error of kind `kind` with no cause.
    pub fn new(kind: Kind) -> (r: Self)
        ensures
            r@ == ErrorView::of_kind(kind),
    {
        Error { inner: ErrorImpl { kind, source: None } }
    }

    /// Attaches `source` (the display text of the cause) to this error,
    /// replacing any earlier cause.
    pub fn with(self, source: String) -> (r: Self)
        ensures
            r@ == self@.with_source(source@),
    {
        let mut e = self;
        e.inner.source = Some(source);
        e
    }

    /// A transport error caused by `source`.
    pub fn from_source(source: String) -> (r: Self)
        ensures
            r@ == ErrorView::of_kind(Kind::Transport).with_source(source@),
    {
        Error::new(Kind::Transport).with(source)
    }

    /// The error for a URI that cannot be used.
    pub fn new_invalid_uri() -> (r: Self)
        ensures
            r@ == ErrorView::of_kind(Kind::InvalidUri),
    {
        Error::new(Kind::InvalidUri)
    }

    /// The error for a user agent that is not a valid header value.
    pub fn new_invalid_user_agent() -> (r: Self)
        ensures
            r@ == ErrorView::of_kind(Kind::InvalidUserAgent),
    {
        Error::new(Kind::InvalidUserAgent)
    }

    /// The error for a TLS configuration given for a unix domain socket.
    pub fn new_invalid_tls_config_for_uds() -> (r: Self)
        ensures
            r@ == ErrorView::of_kind(Kind::InvalidTlsConfigForUds),
    {
        Error::new(Kind::InvalidTlsConfigForUds)
    }

    /// A copy of this error, with the same kind and cause.
    pub fn duplicate(&self) -> (r: Self)
        ensures
            r@ == self@,
    {
        let source = match &self.inner.source {
            Some(s) => Some(s.clone()),
            None => None,
        };
        Error { inner: ErrorImpl { kind: self.inner.kind, source } }
    }

    /// The kind of this error.
    pub fn kind(&self) -> (r: Kind)
        ensures
            r == self.spec_kind(),
    {
        self.inner.kind
    }

    /// The text that this error displays, which depends on its kind alone.
    pub fn description(&self) -> (r: &'static str)
        ensures
            r@ == description_of(self.spec_kind()),
    {
        match self.inner.kind {
            Kind::Transport => "transport error",
            Kind::InvalidUri => "invalid URI",
            Kind::InvalidUserAgent => "user agent is not a valid header value",
            Kind::InvalidTlsConfigForUds => "cannot apply TLS config for unix domain socket",
        }
    }

    /// The display text of this error, as an owned string.
    pub fn to_string(&self) -> (r: String)
        ensures
            r@ == description_of(self.spec_kind()),
    {
        self.description().to_string()
    }

    /// The display text of the cause, if one was attached.
    pub fn source(&self) -> (r: Option<&String>)
        ensures
            match r {
                Some(s) => self.spec_source() == Some(s@),
                None => self.spec_source() == None::<Seq<char>>,
            },
    {
        self.inner.source.as_ref()
    }
}

/// Inspecting an error built from a kind and then given a cause gives back
/// that kind, the text that kind displays, and the cause's display text.
pub proof fn lemma_error_round_trip(kind: Kind, source: Seq<char>)
    ensures
        ErrorView::of_kind(kind).with_source(source).kind == kind,
        ErrorView::of_kind(kind).with_source(source).source == Some(source),
        description_of(ErrorView::of_kind(kind).with_source(source).kind) == description_of(kind),
{
}

} // verus!
