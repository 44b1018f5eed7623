use std::collections::HashMap;
use vstd::prelude::*;

verus! {

/// Used at the `violations` field of the [`QuotaFailure`] struct. Describes a
/// single quota violation.
#[derive(Clone, Debug)]
pub struct QuotaViolation {
    /// Subject on which the quota check failed.
    pub subject: String,
    /// Description of why the quota check failed.
    pub description: String,
    /// The API service from which the quota check originates.
    pub api_service: String,
    /// The quota check that was violated.
    pub quota_metric: String,
    /// The ID of the violated quota check.
    pub quota_id: String,
    /// The dimensions of the violated quota check.
    pub quota_dimensions: HashMap<String, String>,
    /// The quota check value at the time of violation.
    pub quota_value: i64,
    /// The future value of the quota check value when a quota check rollout is
    /// in progress.
    pub futura_quota_value: Option<i64>,
}

/// What a [`QuotaViolation`] holds, with its strings as character sequences.
pub ghost struct QuotaViolationView {
    pub subject: Seq<char>,
    pub description: Seq<char>,
    pub api_service: Seq<char>,
    pub quota_metric: Seq<char>,
    pub quota_id: Seq<char>,
    pub quota_dimensions: Map<String, String>,
    pub quota_value: i64,
    pub futura_quota_value: Option<i64>,
}

impl QuotaViolationView {
    /// A violation of `subject`, for the reason `description`, with every
    /// other field at its default (empty strings, no dimensions, zero, none).
    pub open spec fn basic(subject: Seq<char>, description: Seq<char>) -> QuotaViolationView {
        QuotaViolationView {
            subject,
            description,
            api_service: Seq::empty(),
            quota_metric: Seq::empty(),
            quota_id: Seq::empty(),
            quota_dimensions: Map::empty(),
            quota_value: 0,
            futura_quota_value: None,
        }
    }
}

impl View for QuotaViolation {
    type V = QuotaViolationView;

    open spec fn view(&self) -> QuotaViolationView {
        QuotaViolationView {
            subject: self.subject@,
            description: self.description@,
            api_service: self.api_service@,
            quota_metric: self.quota_metric@,
            quota_id: self.quota_id@,
            quota_dimensions: self.quota_dimensions@,
            quota_value: self.quota_value,
            futura_quota_value: self.futura_quota_value,
        }
    }
}

impl QuotaViolation {
    /// Creates a new [`QuotaViolation`] struct.
    pub fn new(subject: &str, description: &str) -> (r: Self)
        ensures
            r@ == QuotaViolationView::basic(subject@, description@),
    {
        QuotaViolation {
            subject: subject.to_string(),
            description: description.to_string(),
            api_service: String::new(),
            quota_metric: String::new(),
            quota_id: String::new(),
            quota_dimensions: HashMap::new(),
            quota_value: 0,
            futura_quota_value: None,
        }
    }
}

/// Describes how a quota check failed: the `QuotaFailure` standard error
/// message of the rich error model.
#[derive(Clone, Debug)]
pub struct QuotaFailure {
    /// Describes all quota violations.
    pub violations: Vec<QuotaViolation>,
}

impl View for QuotaFailure {
    type V = Seq<QuotaViolationView>;

    open spec fn view(&self) -> Seq<QuotaViolationView> {
        self.violations@.map_values(|v: QuotaViolation| v@)
    }
}

impl QuotaFailure {
    /// Type URL of the `QuotaFailure` standard error message type.
    pub const TYPE_URL: &'static str = "type.googleapis.com/google.rpc.QuotaFailure";

    /// Creates a new [`QuotaFailure`] struct.
    pub fn new(violations: Vec<QuotaViolation>) -> (r: Self)
        ensures
            r.violations@ == violations@,
    {
        QuotaFailure { violations }
    }

    /// Creates a new [`QuotaFailure`] struct with a single [`QuotaViolation`]
    /// in `violations`.
    pub fn with_violation(subject: &str, description: &str) -> (r: Self)
        ensures
            r@ == seq![QuotaViolationView::basic(subject@, description@)],
    {
        let r = QuotaFailure { violations: vec![QuotaViolation::new(subject, description)] };
        assert(r@ =~= seq![QuotaViolationView::basic(subject@, description@)]);
        r
    }

    /// Adds a [`QuotaViolation`] to [`QuotaFailure`]'s `violations`.
    pub fn add_violation(&mut self, subject: &str, description: &str)
        ensures
            final(self)@ == old(self)@.push(QuotaViolationView::basic(subject@, description@)),
    {
        self.violations.push(QuotaViolation::new(subject, description));
        assert(self@ =~= old(self)@.push(QuotaViolationView::basic(subject@, description@)));
    }

    /// Returns `true` if [`QuotaFailure`]'s `violations` vector is empty, and
    /// `false` if it is not.
    pub fn is_empty(&self) -> (r: bool)
        ensures
            r == (self@.len() == 0),
    {
        self.violations.len() == 0
    }
}

} // verus!
