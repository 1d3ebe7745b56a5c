//! Engine-level outcome and trace shapes, the user-view spec builder, and
//! the mapping from an evaluator's terminal edge to the user-facing
//! outcome.

use vstd::prelude::*;
use vstd::string::StringExecFns;

use crate::bytes::{lemma_bytes_lt_asym, lemma_bytes_lt_total, lemma_bytes_lt_trans};
use crate::cid::{cid_lt, Cid};
use crate::error::ErrorCode;
use crate::text::{has_prefix, str_eq, str_starts_with, substring};

verus! {

/// Options for creating a view by id; they carry no settings.
#[derive(Debug, Clone, Default, PartialEq, Eq)]
pub struct ViewCreateOptions;

/// Input-pattern selector of a user view.
#[derive(Debug, Clone, PartialEq, Eq)]
pub enum UserViewInputPattern {
    /// Match every change event whose Node carries the given label.
    Label(String),
    /// Match every change event whose anchor id starts with the prefix.
    AnchorPrefix(String),
}

/// Incremental view-maintenance strategy of a view.
#[derive(Debug, Clone, Copy, PartialEq, Eq, Structural)]
pub enum Strategy {
    /// Hand-written views (refused for user views at registration).
    A,
    /// The generalized algorithm; the default for user views.
    B,
    /// Reserved for a later phase (refused at registration).
    C,
}

/// A user-registered view spec.
#[derive(Debug, Clone, PartialEq, Eq)]
pub struct UserViewSpec {
    pub(crate) id: String,
    pub(crate) input_pattern: UserViewInputPattern,
    pub(crate) strategy: Strategy,
}

/// Builder for [`UserViewSpec`]: `id` and `input_pattern` are required,
/// `strategy` defaults to [`Strategy::B`].
#[derive(Debug, Default)]
pub struct UserViewSpecBuilder {
    id: Option<String>,
    input_pattern: Option<UserViewInputPattern>,
    strategy: Option<Strategy>,
}

impl UserViewSpec {
    /// A builder with no field set.
    pub fn builder() -> (b: UserViewSpecBuilder)
        ensures
            b.id_set() is None,
            b.input_pattern_set() is None,
            b.strategy_set() is None,
    {
        UserViewSpecBuilder { id: None, input_pattern: None, strategy: None }
    }

    /// The view id.
    pub closed spec fn spec_id(&self) -> Seq<char> {
        self.id@
    }

    /// The input pattern.
    pub closed spec fn spec_input_pattern(&self) -> UserViewInputPattern {
        self.input_pattern
    }

    /// The strategy.
    pub closed spec fn spec_strategy(&self) -> Strategy {
        self.strategy
    }

    /// View id.
    pub fn id(&self) -> (s: &str)
        ensures
            s@ == self.spec_id(),
    {
        self.id.as_str()
    }

    /// Input-pattern selector.
    pub fn input_pattern(&self) -> (p: &UserViewInputPattern)
        ensures
            *p == self.spec_input_pattern(),
    {
        &self.input_pattern
    }

    /// Resolved strategy.
    pub fn strategy(&self) -> (s: Strategy)
        ensures
            s == self.spec_strategy(),
    {
        self.strategy
    }
}

impl UserViewSpecBuilder {
    /// The id set so far.
    pub closed spec fn id_set(&self) -> Option<Seq<char>> {
        match self.id {
            Some(s) => Some(s@),
            None => None,
        }
    }

    /// The input pattern set so far.
    pub closed spec fn input_pattern_set(&self) -> Option<UserViewInputPattern> {
        self.input_pattern
    }

    /// The strategy set so far.
    pub closed spec fn strategy_set(&self) -> Option<Strategy> {
        self.strategy
    }

    /// Set the view id. Required.
    pub fn id(self, id: &str) -> (b: Self)
        ensures
            b.id_set() == Some(id@),
            b.input_pattern_set() == self.input_pattern_set(),
            b.strategy_set() == self.strategy_set(),
    {
        let mut b = self;
        b.id = Some(String::from_str(id));
        b
    }

    /// Set the input pattern. Required.
    pub fn input_pattern(self, pattern: UserViewInputPattern) -> (b: Self)
        ensures
            b.id_set() == self.id_set(),
            b.input_pattern_set() == Some(pattern),
            b.strategy_set() == self.strategy_set(),
    {
        let mut b = self;
        b.input_pattern = Some(pattern);
        b
    }

    /// Explicitly choose a strategy (checked at registration, not here).
    pub fn strategy(self, strategy: Strategy) -> (b: Self)
        ensures
            b.id_set() == self.id_set(),
            b.input_pattern_set() == self.input_pattern_set(),
            b.strategy_set() == Some(strategy),
    {
        let mut b = self;
        b.strategy = Some(strategy);
        b
    }

    /// Finalize the spec: the message naming the first missing required
    /// field (`id`, then `input_pattern`), or the spec with the strategy
    /// defaulting to [`Strategy::B`].
    pub fn build(self) -> (r: Result<UserViewSpec, String>)
        ensures
            self.id_set() is None ==> (r matches Err(m) && m@
                == "UserViewSpec.id is required"@),
            self.id_set() is Some && self.input_pattern_set() is None ==> (r matches Err(m)
                && m@ == "UserViewSpec.input_pattern is required"@),
            self.id_set() is Some && self.input_pattern_set() is Some ==> (r matches Ok(s)
                && s.spec_id() == self.id_set()->0 && s.spec_input_pattern()
                == self.input_pattern_set()->0 && s.spec_strategy() == match self.strategy_set() {
                Some(st) => st,
                None => Strategy::B,
            }),
    {
        let id = match self.id {
            Some(id) => id,
            None => {
                return Err(String::from_str("UserViewSpec.id is required"));
            },
        };
        let input_pattern = match self.input_pattern {
            Some(p) => p,
            None => {
                return Err(String::from_str("UserViewSpec.input_pattern is required"));
            },
        };
        let strategy = match self.strategy {
            Some(s) => s,
            None => Strategy::B,
        };
        Ok(UserViewSpec { id, input_pattern, strategy })
    }
}

/// Options for reading a view.
#[derive(Debug, Clone, Copy, PartialEq, Eq, Structural)]
pub struct ReadViewOptions {
    /// Return the latest materialised view even when it is stale (`false`:
    /// a stale view fails).
    pub allow_stale: bool,
}

impl ReadViewOptions {
    /// Strict mode: a stale view fails.
    pub fn strict() -> (o: Self)
        ensures
            !o.allow_stale,
    {
        ReadViewOptions { allow_stale: false }
    }

    /// Permissive mode: whatever has been materialised is returned.
    pub fn allow_stale() -> (o: Self)
        ensures
            o.allow_stale,
    {
        ReadViewOptions { allow_stale: true }
    }
}

/// The characters of an optional string.
pub open spec fn opt_chars(o: Option<String>) -> Option<Seq<char>> {
    match o {
        Some(s) => Some(s@),
        None => None,
    }
}

/// A copy of an optional string.
fn clone_opt(o: &Option<String>) -> (r: Option<String>)
    ensures
        opt_chars(r) == opt_chars(*o),
{
    match o {
        Some(s) => Some(s.clone()),
        None => None,
    }
}

/// The response of a call or a view read: the edge it routed through,
/// its typed error (code and message), the CID a successful write
/// created, the CIDs of the rows a list response carried, and iteration
/// and write counts.
#[derive(Debug, Clone)]
pub struct Outcome {
    pub(crate) edge: Option<String>,
    pub(crate) error_code: Option<String>,
    pub(crate) error_message: Option<String>,
    pub(crate) created_cid: Option<Cid>,
    pub(crate) list: Option<Vec<Cid>>,
    pub(crate) completed_iterations: Option<u32>,
    pub(crate) successful_write_count: u32,
}

/// The abstract contents of an [`Outcome`].
pub struct OutcomeView {
    /// The edge taken.
    pub edge: Option<Seq<char>>,
    /// The error code.
    pub error_code: Option<Seq<char>>,
    /// The error message.
    pub error_message: Option<Seq<char>>,
    /// The CID a write created.
    pub created_cid: Option<Cid>,
    /// The CIDs of the listed rows.
    pub list: Option<Seq<Cid>>,
    /// Completed iterations of an iterate primitive.
    pub completed_iterations: Option<u32>,
    /// Writes that committed.
    pub successful_write_count: u32,
}

impl View for Outcome {
    type V = OutcomeView;

    closed spec fn view(&self) -> OutcomeView {
        OutcomeView {
            edge: opt_chars(self.edge),
            error_code: opt_chars(self.error_code),
            error_message: opt_chars(self.error_message),
            created_cid: self.created_cid,
            list: match self.list {
                Some(v) => Some(v@),
                None => None,
            },
            completed_iterations: self.completed_iterations,
            successful_write_count: self.successful_write_count,
        }
    }
}

/// Whether `edge` is a success edge: none, `OK` or `ok`.
pub open spec fn is_ok_edge_chars(edge: Option<Seq<char>>) -> bool {
    match edge {
        None => true,
        Some(e) => e == "OK"@ || e == "ok"@,
    }
}

impl Outcome {
    /// Whether the outcome routed through `edge`.
    pub fn routed_through_edge(&self, edge: &str) -> (r: bool)
        ensures
            r == (self@.edge == Some(edge@)),
    {
        match &self.edge {
            Some(e) => str_eq(e.as_str(), edge),
            None => false,
        }
    }

    /// The edge label this outcome routed through.
    pub fn edge_taken(&self) -> (e: Option<String>)
        ensures
            opt_chars(e) == self@.edge,
    {
        clone_opt(&self.edge)
    }

    /// The stable error-code string of the outcome's typed error.
    pub fn error_code(&self) -> (c: Option<&str>)
        ensures
            match c {
                Some(s) => self@.error_code == Some(s@),
                None => self@.error_code is None,
            },
    {
        match &self.error_code {
            Some(s) => Some(s.as_str()),
            None => None,
        }
    }

    /// The message of the outcome's typed error.
    pub fn error_message(&self) -> (m: Option<String>)
        ensures
            opt_chars(m) == self@.error_message,
    {
        clone_opt(&self.error_message)
    }

    /// Whether this is a success: no error code, and the edge is `OK`,
    /// `ok` or absent.
    pub fn is_ok_edge(&self) -> (r: bool)
        ensures
            r == (is_ok_edge_chars(self@.edge) && self@.error_code is None),
    {
        let edge_ok = match &self.edge {
            None => true,
            Some(e) => str_eq(e.as_str(), "OK") || str_eq(e.as_str(), "ok"),
        };
        edge_ok && self.error_code.is_none()
    }

    /// The CIDs of the rows of a list response.
    pub fn as_list(&self) -> (l: Option<Vec<Cid>>)
        ensures
            match l {
                Some(v) => self@.list == Some(v@),
                None => self@.list is None,
            },
    {
        match &self.list {
            Some(v) => {
                let mut out: Vec<Cid> = Vec::new();
                let n = v.len();
                let mut i: usize = 0;
                while i < n
                    invariant
                        n == v@.len(),
                        i <= n,
                        out@ == v@.subrange(0, i as int),
                    decreases n - i,
                {
                    out.push(v[i]);
                    i += 1;
                }
                assert(v@.subrange(0, n as int) =~= v@);
                Some(out)
            },
            None => None,
        }
    }

    /// The CID of the Node a successful write created.
    pub fn created_cid(&self) -> (c: Option<Cid>)
        ensures
            c == self@.created_cid,
    {
        self.created_cid
    }

    /// Completed iterations of an iterate primitive.
    pub fn completed_iterations(&self) -> (n: Option<u32>)
        ensures
            n == self@.completed_iterations,
    {
        self.completed_iterations
    }

    /// Writes that committed.
    pub fn successful_write_count(&self) -> (n: u32)
        ensures
            n == self@.successful_write_count,
    {
        self.successful_write_count
    }

    /// The edge taken, or the empty string.
    pub fn taken_edge(&self) -> (s: &str)
        ensures
            s@ == match self@.edge {
                Some(e) => e,
                None => Seq::empty(),
            },
    {
        proof {
            reveal_strlit("");
        }
        match &self.edge {
            Some(e) => e.as_str(),
            None => "",
        }
    }
}

/// The user-facing edge and error code of an evaluator terminal edge:
/// `terminal` and `ok` become `OK`; the typed error edges keep their name
/// and gain their code; any other edge is kept without a code.
pub open spec fn terminal_mapping(edge: Seq<char>) -> (Seq<char>, Option<Seq<char>>) {
    if edge == "terminal"@ || edge == "ok"@ {
        ("OK"@, None)
    } else if edge == "ON_NOT_FOUND"@ {
        (edge, Some("E_NOT_FOUND"@))
    } else if edge == "ON_DENIED"@ {
        (edge, Some("E_CAP_DENIED_READ"@))
    } else if edge == "ON_CONFLICT"@ {
        (edge, Some("E_WRITE_CONFLICT"@))
    } else if edge == "ON_LIMIT"@ {
        (edge, Some("E_INPUT_LIMIT"@))
    } else if edge == "ON_ERROR"@ {
        (edge, Some("E_UNKNOWN"@))
    } else {
        (edge, None)
    }
}

/// Only the evaluator's success edges `terminal` and `ok` become the
/// user-facing `OK` edge: every other edge keeps its own name, and a
/// typed error edge carries its error code. In particular a write
/// conflict (`ON_CONFLICT`) is reported under its own edge with
/// `E_WRITE_CONFLICT`, so an outcome from it is never a success.
pub proof fn lemma_terminal_edges(edge: Seq<char>)
    ensures
        (edge == "terminal"@ || edge == "ok"@) ==> terminal_mapping(edge) == ("OK"@, None::<Seq<char>>),
        !(edge == "terminal"@ || edge == "ok"@) ==> terminal_mapping(edge).0 == edge,
        terminal_mapping(edge).1 is Some ==> !is_ok_edge_chars(Some(terminal_mapping(edge).0)),
        terminal_mapping("ON_NOT_FOUND"@) == ("ON_NOT_FOUND"@, Some("E_NOT_FOUND"@)),
        terminal_mapping("ON_DENIED"@) == ("ON_DENIED"@, Some("E_CAP_DENIED_READ"@)),
        terminal_mapping("ON_CONFLICT"@) == ("ON_CONFLICT"@, Some("E_WRITE_CONFLICT"@)),
        terminal_mapping("ON_LIMIT"@) == ("ON_LIMIT"@, Some("E_INPUT_LIMIT"@)),
        terminal_mapping("ON_ERROR"@) == ("ON_ERROR"@, Some("E_UNKNOWN"@)),
{
    reveal_strlit("terminal");
    reveal_strlit("ok");
    reveal_strlit("OK");
    reveal_strlit("ON_NOT_FOUND");
    reveal_strlit("ON_DENIED");
    reveal_strlit("ON_CONFLICT");
    reveal_strlit("ON_LIMIT");
    reveal_strlit("ON_ERROR");
    reveal_strlit("E_NOT_FOUND");
    reveal_strlit("E_CAP_DENIED_READ");
    reveal_strlit("E_WRITE_CONFLICT");
    reveal_strlit("E_INPUT_LIMIT");
    reveal_strlit("E_UNKNOWN");
    assert("terminal"@.len() == 8 && "ok"@.len() == 2 && "OK"@.len() == 2);
    assert("ON_NOT_FOUND"@.len() == 12 && "ON_DENIED"@.len() == 9 && "ON_CONFLICT"@.len() == 11);
    assert("ON_LIMIT"@.len() == 8 && "ON_ERROR"@.len() == 8);
    assert("ON_LIMIT"@[0] != "terminal"@[0]);
    assert("ON_ERROR"@[0] != "terminal"@[0]);
    assert("ON_LIMIT"@[3] != "ON_ERROR"@[3]);
    assert(terminal_mapping("ON_NOT_FOUND"@) == ("ON_NOT_FOUND"@, Some("E_NOT_FOUND"@)));
    assert(terminal_mapping("ON_DENIED"@) == ("ON_DENIED"@, Some("E_CAP_DENIED_READ"@)));
    assert(terminal_mapping("ON_CONFLICT"@) == ("ON_CONFLICT"@, Some("E_WRITE_CONFLICT"@)));
    assert(terminal_mapping("ON_LIMIT"@) == ("ON_LIMIT"@, Some("E_INPUT_LIMIT"@)));
    assert(terminal_mapping("ON_ERROR"@) == ("ON_ERROR"@, Some("E_UNKNOWN"@)));
    if terminal_mapping(edge).1 is Some {
        assert(edge.len() >= 8);
    }
}

/// Map the evaluator's terminal edge into the user-facing edge and error
/// code.
pub fn normalize_terminal_edge(edge: &str) -> (r: (String, Option<String>))
    ensures
        (r.0@, opt_chars(r.1)) == terminal_mapping(edge@),
{
    if str_eq(edge, "terminal") || str_eq(edge, "ok") {
        (String::from_str("OK"), None)
    } else if str_eq(edge, "ON_NOT_FOUND") {
        (String::from_str("ON_NOT_FOUND"), Some(String::from_str("E_NOT_FOUND")))
    } else if str_eq(edge, "ON_DENIED") {
        (String::from_str("ON_DENIED"), Some(String::from_str("E_CAP_DENIED_READ")))
    } else if str_eq(edge, "ON_CONFLICT") {
        (String::from_str("ON_CONFLICT"), Some(String::from_str("E_WRITE_CONFLICT")))
    } else if str_eq(edge, "ON_LIMIT") {
        (String::from_str("ON_LIMIT"), Some(String::from_str("E_INPUT_LIMIT")))
    } else if str_eq(edge, "ON_ERROR") {
        (String::from_str("ON_ERROR"), Some(String::from_str("E_UNKNOWN")))
    } else {
        (String::from_str(edge), None)
    }
}

/// The outcome of an evaluation that ended on `edge`: the normalized edge
/// and code, no message, the resolved list (if the call listed rows), the
/// created CID, and one successful write exactly when a CID was created.
pub fn outcome_from_terminal(edge: &str, list: Option<Vec<Cid>>, created_cid: Option<Cid>) -> (o:
    Outcome)
    ensures
        (o@.edge, o@.error_code) == ({
            let (e, c) = terminal_mapping(edge@);
            (Some(e), c)
        }),
        o@.error_message is None,
        o@.created_cid == created_cid,
        o@.list == match list {
            Some(v) => Some(v@),
            None => None,
        },
        o@.completed_iterations is None,
        o@.successful_write_count == if created_cid is Some {
            1u32
        } else {
            0u32
        },
{
    let (normalized, code) = normalize_terminal_edge(edge);
    let successful_write_count: u32 = if created_cid.is_some() {
        1
    } else {
        0
    };
    Outcome {
        edge: Some(normalized),
        error_code: code,
        error_message: None,
        created_cid,
        list,
        completed_iterations: None,
        successful_write_count,
    }
}

/// How a call asks for its list response to be resolved.
#[derive(Debug, Clone, PartialEq, Eq)]
pub enum ListHint {
    /// `get:<label>:<base32>`: the one Node with that label whose CID
    /// renders as that base32 text.
    Get {
        /// The label to scan.
        label: String,
        /// The base32 CID text.
        cid_base32: String,
    },
    /// `get:<rest>` where `<rest>` holds no `:`: nothing resolves.
    GetMalformed,
    /// Any other hint: every Node carrying that label.
    Label(String),
}

/// The index of the first `:` in `s`, if any.
pub open spec fn colon_index(s: Seq<char>) -> Option<int>
    decreases s.len(),
{
    if s.len() == 0 {
        None
    } else if s[0] == ':' {
        Some(0)
    } else {
        match colon_index(s.subrange(1, s.len() as int)) {
            Some(k) => Some(k + 1),
            None => None,
        }
    }
}

/// What a list hint asks for: after a `get:` prefix, the text up to the
/// first `:` is the label and the rest the base32 CID; any hint without
/// the prefix is a label.
pub open spec fn list_hint_matches(hint: Seq<char>, h: ListHint) -> bool {
    if has_prefix(hint, "get:"@) {
        let rest = hint.subrange(4, hint.len() as int);
        match colon_index(rest) {
            Some(k) => h matches ListHint::Get { label, cid_base32 } && label@ == rest.subrange(
                0,
                k,
            ) && cid_base32@ == rest.subrange(k + 1, rest.len() as int),
            None => h is GetMalformed,
        }
    } else {
        h matches ListHint::Label(l) && l@ == hint
    }
}

/// Parse a list hint.
pub fn parse_list_hint(hint: &str) -> (h: ListHint)
    ensures
        list_hint_matches(hint@, h),
{
    if !str_starts_with(hint, "get:") {
        return ListHint::Label(String::from_str(hint));
    }
    proof {
        reveal_strlit("get:");
    }
    let n = hint.unicode_len();
    let ghost rest = hint@.subrange(4, n as int);
    let mut i: usize = 4;
    assert(hint@.subrange(4, n as int) =~= rest);
    while i < n
        invariant
            has_prefix(hint@, "get:"@),
            4 <= i <= n,
            n == hint@.len(),
            rest == hint@.subrange(4, n as int),
            colon_index(rest) == match colon_index(hint@.subrange(i as int, n as int)) {
                Some(k) => Some(k + i - 4),
                None => None::<int>,
            },
        decreases n - i,
    {
        let ghost tail = hint@.subrange(i as int, n as int);
        assert(tail[0] == hint@[i as int]);
        assert(tail.subrange(1, tail.len() as int) =~= hint@.subrange(i + 1, n as int));
        if hint.get_char(i) == ':' {
            assert(colon_index(tail) == Some(0int));
            assert(colon_index(rest) == Some(i - 4));
            let label = substring(hint, 4, i);
            let cid_base32 = substring(hint, i + 1, n);
            assert(rest.subrange(0, i - 4) =~= hint@.subrange(4, i as int));
            assert(rest.subrange(i - 4 + 1, rest.len() as int) =~= hint@.subrange(
                i + 1,
                n as int,
            ));
            return ListHint::Get { label, cid_base32 };
        }
        i += 1;
    }
    assert(hint@.subrange(n as int, n as int).len() == 0);
    ListHint::GetMalformed
}

/// An error outcome routed through `edge` with `code` and `message`.
fn error_outcome(edge: &str, code: &str, message: &str) -> (o: Outcome)
    ensures
        o@.edge == Some(edge@),
        o@.error_code == Some(code@),
        o@.error_message == Some(message@),
        o@.created_cid is None,
        o@.list is None,
        o@.completed_iterations is None,
        o@.successful_write_count == 0,
{
    Outcome {
        edge: Some(String::from_str(edge)),
        error_code: Some(String::from_str(code)),
        error_message: Some(String::from_str(message)),
        created_cid: None,
        list: None,
        completed_iterations: None,
        successful_write_count: 0,
    }
}

/// Whether `o` is the error outcome with exactly this edge, code and
/// message.
pub open spec fn is_error_outcome(o: OutcomeView, edge: Seq<char>, code: Seq<char>, message: Seq<
    char,
>) -> bool {
    &&& o.edge == Some(edge)
    &&& o.error_code == Some(code)
    &&& o.error_message == Some(message)
    &&& o.created_cid is None
    &&& o.list is None
    &&& o.completed_iterations is None
    &&& o.successful_write_count == 0
}

/// The outcome of a capability refusal: a backend that does not
/// implement the check routes through `ON_ERROR` (an operator
/// configuration problem); every other refusal through `ON_DENIED`.
pub fn cap_error_to_outcome(not_implemented: bool, code: &str, message: &str) -> (o: Outcome)
    ensures
        is_error_outcome(
            o@,
            if not_implemented {
                "ON_ERROR"@
            } else {
                "ON_DENIED"@
            },
            code@,
            message@,
        ),
{
    let edge = if not_implemented {
        "ON_ERROR"
    } else {
        "ON_DENIED"
    };
    error_outcome(edge, code, message)
}

/// The outcome of a storage-layer system-zone write refusal.
pub fn system_zone_to_outcome() -> (o: Outcome)
    ensures
        is_error_outcome(o@, "ON_ERROR"@, "E_SYSTEM_ZONE_WRITE"@, "system zone write rejected"@),
{
    error_outcome("ON_ERROR", "E_SYSTEM_ZONE_WRITE", "system zone write rejected")
}

/// The outcome of an evaluator-raised system-zone invariant violation.
pub fn inv_system_zone_to_outcome() -> (o: Outcome)
    ensures
        is_error_outcome(
            o@,
            "ON_ERROR"@,
            "E_INV_SYSTEM_ZONE"@,
            "system-zone label not writable via user subgraph"@,
        ),
{
    error_outcome(
        "ON_ERROR",
        "E_INV_SYSTEM_ZONE",
        "system-zone label not writable via user subgraph",
    )
}

/// The rollback outcome of an injected failure.
pub fn tx_aborted_outcome() -> (o: Outcome)
    ensures
        is_error_outcome(
            o@,
            "ON_ERROR"@,
            "E_TX_ABORTED"@,
            "transaction aborted due to injected failure"@,
        ),
{
    error_outcome("ON_ERROR", "E_TX_ABORTED", "transaction aborted due to injected failure")
}

/// The trace-mode outcome of an exhausted iteration budget.
pub fn inv_iterate_budget_to_outcome() -> (o: Outcome)
    ensures
        is_error_outcome(
            o@,
            "ON_ERROR"@,
            "E_INV_ITERATE_BUDGET"@,
            "iteration step budget exhausted; trace carries terminal BudgetExhausted row"@,
        ),
{
    error_outcome(
        "ON_ERROR",
        "E_INV_ITERATE_BUDGET",
        "iteration step budget exhausted; trace carries terminal BudgetExhausted row",
    )
}

/// Trace of an evaluation: the recorded steps and the terminal outcome.
#[derive(Debug, Clone, Default)]
pub struct Trace {
    /// The recorded steps, in order.
    pub steps: Vec<TraceStep>,
    /// The terminal outcome of the traced evaluation.
    pub outcome: Option<Outcome>,
}

impl Trace {
    /// Every recorded step, in order.
    pub fn steps(&self) -> (r: &[TraceStep])
        ensures
            r@ == self.steps@,
    {
        self.steps.as_slice()
    }

    /// The terminal outcome of the traced evaluation.
    pub fn outcome(&self) -> (r: Option<&Outcome>)
        ensures
            match self.outcome {
                Some(o) => r == Some(&o),
                None => r is None,
            },
    {
        match &self.outcome {
            Some(o) => Some(o),
            None => None,
        }
    }
}

/// One row of an evaluation trace.
#[derive(Debug, Clone)]
pub enum TraceStep {
    /// One per-primitive execution row.
    Step {
        /// Duration in microseconds.
        duration_us: u64,
        /// Stable per-operation-node CID.
        node_cid: Cid,
        /// Primitive-kind label (e.g. `read`, `write`, `respond`).
        primitive: String,
        /// Operation-node id within the handler.
        node_id: String,
        /// Typed error code when the step routed to an error edge.
        error: Option<ErrorCode>,
    },
    /// A wait drove the evaluation to suspension.
    SuspendBoundary {
        /// CID of the persisted execution-state envelope.
        state_cid: Cid,
    },
    /// A resume re-entered a suspended execution.
    ResumeBoundary {
        /// CID of the resumed execution-state envelope.
        state_cid: Cid,
    },
    /// A budget ran out.
    BudgetExhausted {
        /// `inv_8_iteration` or `sandbox_fuel`.
        budget_type: &'static str,
        /// Budget consumed before firing.
        consumed: u64,
        /// Configured limit.
        limit: u64,
        /// Operation-node ids that produced the exhaustion.
        path: Vec<String>,
    },
}

/// Inspector of a [`TraceStep::BudgetExhausted`] row.
#[derive(Debug, Clone, Copy)]
pub struct BudgetExhaustedView<'a> {
    budget_type: &'static str,
    consumed: u64,
    limit: u64,
    path: &'a [String],
}

impl<'a> BudgetExhaustedView<'a> {
    /// The budget kind.
    pub closed spec fn spec_budget_type(&self) -> Seq<char> {
        self.budget_type@
    }

    /// The consumed amount.
    pub closed spec fn spec_consumed(&self) -> u64 {
        self.consumed
    }

    /// The limit.
    pub closed spec fn spec_limit(&self) -> u64 {
        self.limit
    }

    /// The path.
    pub closed spec fn spec_path(&self) -> Seq<String> {
        self.path@
    }

    /// `inv_8_iteration` or `sandbox_fuel`.
    pub fn budget_type(&self) -> (s: &'static str)
        ensures
            s@ == self.spec_budget_type(),
    {
        self.budget_type
    }

    /// Budget consumed before firing.
    pub fn consumed(&self) -> (n: u64)
        ensures
            n == self.spec_consumed(),
    {
        self.consumed
    }

    /// Configured limit.
    pub fn limit(&self) -> (n: u64)
        ensures
            n == self.spec_limit(),
    {
        self.limit
    }

    /// Operation-node ids that produced the exhaustion.
    pub fn path(&self) -> (p: &'a [String])
        ensures
            p@ == self.spec_path(),
    {
        self.path
    }
}

impl TraceStep {
    /// The step duration; `0` for boundary and budget rows.
    pub fn duration_us(&self) -> (d: u64)
        ensures
            d == match self {
                TraceStep::Step { duration_us, .. } => *duration_us,
                _ => 0,
            },
    {
        match self {
            TraceStep::Step { duration_us, .. } => *duration_us,
            _ => 0,
        }
    }

    /// The operation-node CID of a step row.
    pub fn node_cid(&self) -> (c: Option<&Cid>)
        ensures
            match self {
                TraceStep::Step { node_cid, .. } => c == Some(node_cid),
                _ => c is None,
            },
    {
        match self {
            TraceStep::Step { node_cid, .. } => Some(node_cid),
            _ => None,
        }
    }

    /// The primitive-kind label of a step row.
    pub fn primitive(&self) -> (p: Option<&str>)
        ensures
            match self {
                TraceStep::Step { primitive, .. } => p matches Some(s) && s@ == primitive@,
                _ => p is None,
            },
    {
        match self {
            TraceStep::Step { primitive, .. } => Some(primitive.as_str()),
            _ => None,
        }
    }

    /// The operation-node id of a step row.
    pub fn node_id(&self) -> (p: Option<&str>)
        ensures
            match self {
                TraceStep::Step { node_id, .. } => p matches Some(s) && s@ == node_id@,
                _ => p is None,
            },
    {
        match self {
            TraceStep::Step { node_id, .. } => Some(node_id.as_str()),
            _ => None,
        }
    }

    /// The typed error of a step row that routed to an error edge.
    pub fn error(&self) -> (e: Option<&ErrorCode>)
        ensures
            match self {
                TraceStep::Step { error, .. } => match error {
                    Some(x) => e == Some(x),
                    None => e is None,
                },
                _ => e is None,
            },
    {
        match self {
            TraceStep::Step { error, .. } => match error {
                Some(x) => Some(x),
                None => None,
            },
            _ => None,
        }
    }

    /// The state CID of a suspend boundary.
    pub fn as_suspend_boundary(&self) -> (c: Option<&Cid>)
        ensures
            match self {
                TraceStep::SuspendBoundary { state_cid } => c == Some(state_cid),
                _ => c is None,
            },
    {
        match self {
            TraceStep::SuspendBoundary { state_cid } => Some(state_cid),
            _ => None,
        }
    }

    /// The state CID of a resume boundary.
    pub fn as_resume_boundary(&self) -> (c: Option<&Cid>)
        ensures
            match self {
                TraceStep::ResumeBoundary { state_cid } => c == Some(state_cid),
                _ => c is None,
            },
    {
        match self {
            TraceStep::ResumeBoundary { state_cid } => Some(state_cid),
            _ => None,
        }
    }

    /// The fields of a budget-exhausted row.
    pub fn as_budget_exhausted(&self) -> (v: Option<BudgetExhaustedView<'_>>)
        ensures
            match self {
                TraceStep::BudgetExhausted { budget_type, consumed, limit, path } => v matches Some(
                    x,
                ) && x.spec_budget_type() == budget_type@ && x.spec_consumed() == *consumed
                    && x.spec_limit() == *limit && x.spec_path() == path@,
                _ => v is None,
            },
    {
        match self {
            TraceStep::BudgetExhausted { budget_type, consumed, limit, path } => Some(
                BudgetExhaustedView {
                    budget_type,
                    consumed: *consumed,
                    limit: *limit,
                    path: path.as_slice(),
                },
            ),
            _ => None,
        }
    }
}

/// Handle to an anchor (version-chain identity); it carries no data.
#[derive(Debug, Clone, Copy)]
pub struct AnchorHandle {
    pub(crate) _marker: (),
}

/// Nested-transaction handle; it carries no data (nested begin is
/// refused).
#[derive(Debug)]
pub struct NestedTx {
    pub(crate) _marker: (),
}

/// What a privileged read diagnosis reports about a CID.
#[derive(Debug, Clone, PartialEq, Eq)]
pub struct DiagnosticInfo {
    /// The CID asked about.
    pub cid: Cid,
    /// Whether the backend holds bytes for it.
    pub exists_in_backend: bool,
    /// The scope a policy refused, if any.
    pub denied_by_policy: Option<String>,
    /// Whether the backend holds no bytes for it.
    pub not_found: bool,
}

/// `cid_lt` is irreflexive, transitive and total on different ids.
pub proof fn lemma_cid_order(a: Cid, b: Cid, c: Cid)
    ensures
        !cid_lt(a, a),
        cid_lt(a, b) ==> !cid_lt(b, a),
        cid_lt(a, b) && cid_lt(b, c) ==> cid_lt(a, c),
        a != b ==> cid_lt(a, b) || cid_lt(b, a),
{
    lemma_bytes_lt_asym(a.digest@, a.digest@);
    lemma_bytes_lt_asym(a.digest@, b.digest@);
    if cid_lt(a, b) && cid_lt(b, c) {
        lemma_bytes_lt_trans(a.digest@, b.digest@, c.digest@);
    }
    if a != b {
        if a.digest@ == b.digest@ {
            assert(a.digest =~= b.digest);
        } else {
            lemma_bytes_lt_total(a.digest@, b.digest@);
        }
    }
}

/// The map that `(target, predecessors)` pairs collect into: a later pair
/// for a target replaces an earlier one.
pub open spec fn adjacency_map(pairs: Seq<(Cid, Vec<Cid>)>) -> Map<Cid, Seq<Cid>>
    decreases pairs.len(),
{
    if pairs.len() == 0 {
        Map::empty()
    } else {
        adjacency_map(pairs.drop_last()).insert(pairs.last().0, pairs.last().1@)
    }
}

/// Whether the targets of `s` ascend strictly.
pub open spec fn targets_ascending(s: Seq<(Cid, Vec<Cid>)>) -> bool {
    forall|i: int, j: int| 0 <= i < j < s.len() ==> cid_lt(#[trigger] s[i].0, #[trigger] s[j].0)
}

/// The index of a pair whose target is `k`.
pub open spec fn target_index(s: Seq<(Cid, Vec<Cid>)>, k: Cid) -> int {
    choose|i: int| 0 <= i < s.len() && s[i].0 == k
}

/// The map held by pairs with distinct targets.
pub open spec fn entries_map(s: Seq<(Cid, Vec<Cid>)>) -> Map<Cid, Seq<Cid>> {
    Map::new(
        |k: Cid| exists|i: int| 0 <= i < s.len() && s[i].0 == k,
        |k: Cid| s[target_index(s, k)].1@,
    )
}

/// Predecessor adjacency of a handler's operation nodes: for each target
/// node, the nodes that precede it.
///
/// vstd's `BTreeMap` specification holds only for key types whose order
/// it proves (the primitive integers), so the pairs are held in a `Vec`
/// in ascending target order.
#[derive(Debug)]
pub struct HandlerPredecessors {
    adjacency: Vec<(Cid, Vec<Cid>)>,
}

impl View for HandlerPredecessors {
    type V = Map<Cid, Seq<Cid>>;

    closed spec fn view(&self) -> Map<Cid, Seq<Cid>> {
        entries_map(self.adjacency@)
    }
}

proof fn lemma_ascending_index(s: Seq<(Cid, Vec<Cid>)>, i: int, j: int)
    requires
        targets_ascending(s),
        0 <= i < s.len(),
        0 <= j < s.len(),
        s[i].0 == s[j].0,
    ensures
        i == j,
{
    lemma_cid_order(s[i].0, s[j].0, s[i].0);
    if i < j {
        assert(cid_lt(s[i].0, s[j].0));
    } else if j < i {
        assert(cid_lt(s[j].0, s[i].0));
    }
}

proof fn lemma_entries_map_at(s: Seq<(Cid, Vec<Cid>)>, i: int)
    requires
        targets_ascending(s),
        0 <= i < s.len(),
    ensures
        entries_map(s).contains_key(s[i].0),
        entries_map(s)[s[i].0] == s[i].1@,
{
    let k = s[i].0;
    assert(exists|q: int| 0 <= q < s.len() && s[q].0 == k);
    let j = target_index(s, k);
    lemma_ascending_index(s, i, j);
}

impl HandlerPredecessors {
    /// The adjacency's targets ascend, so each target occurs once.
    #[verifier::type_invariant]
    spec fn wf(&self) -> bool {
        targets_ascending(self.adjacency@)
    }

    /// Collect `(target, predecessors)` pairs; a later pair for a target
    /// replaces an earlier one.
    pub fn from_adjacency(adjacency: Vec<(Cid, Vec<Cid>)>) -> (h: Self)
        ensures
            h@ == adjacency_map(adjacency@),
    {
        let ghost orig = adjacency@;
        let n0: usize = adjacency.len();
        assert(orig.len() == n0);
        let mut rest = adjacency;
        let mut out: Vec<(Cid, Vec<Cid>)> = Vec::new();
        let mut k: usize = 0;
        proof {
            assert(entries_map(out@) =~= adjacency_map(orig.take(0)));
        }
        while rest.len() > 0
            invariant
                k <= orig.len(),
                orig.len() <= usize::MAX,
                rest@ == orig.skip(k as int),
                targets_ascending(out@),
                entries_map(out@) == adjacency_map(orig.take(k as int)),
            decreases rest.len(),
        {
            let pair = rest.remove(0);
            let ghost before = out@;
            let mut pos: usize = 0;
            while pos < out.len() && out[pos].0.before(&pair.0)
                invariant
                    pos <= out.len(),
                    out@ == before,
                    forall|q: int| 0 <= q < pos ==> cid_lt(#[trigger] out@[q].0, pair.0),
                decreases out.len() - pos,
            {
                pos += 1;
            }
            let ghost key = pair.0;
            let ghost val = pair.1@;
            if pos < out.len() && out[pos].0.same_as(&pair.0) {
                out[pos] = pair;
                proof {
                    assert(out@ == before.update(pos as int, out@[pos as int]));
                    assert(targets_ascending(out@)) by {
                        assert forall|i: int, j: int| 0 <= i < j < out@.len() implies cid_lt(
                            #[trigger] out@[i].0,
                            #[trigger] out@[j].0,
                        ) by {
                            assert(before[i].0 == out@[i].0 && before[j].0 == out@[j].0);
                        }
                    }
                    assert forall|c: Cid| true implies entries_map(out@).contains_key(c) == entries_map(before).insert(key, val).contains_key(c) by {
                        if entries_map(before).contains_key(c) {
                            let i = choose|i: int| 0 <= i < before.len() && before[i].0 == c;
                            assert(out@[i].0 == c);
                        }
                        if entries_map(out@).contains_key(c) {
                            let i = choose|i: int| 0 <= i < out@.len() && out@[i].0 == c;
                            assert(before[i].0 == c);
                        }
                    }
                    assert(entries_map(out@) =~= entries_map(before).insert(key, val)) by {
                        assert forall|c: Cid| #[trigger] entries_map(out@).contains_key(c) implies entries_map(out@)[c] == entries_map(before).insert(key, val)[c] by {
                            let i = choose|i: int| 0 <= i < out@.len() && out@[i].0 == c;
                            lemma_ascending_index(out@, i, i);
                            if c == key {
                                lemma_ascending_index(out@, i, pos as int);
                            } else {
                                let b = choose|b: int| 0 <= b < before.len() && before[b].0 == c;
                                lemma_ascending_index(before, i, b);
                                assert(i != pos);
                            }
                        }
                    }
                }
            } else {
                proof {
                    if pos < out.len() {
                        lemma_cid_order(out@[pos as int].0, key, out@[pos as int].0);
                    }
                }
                out.insert(pos, pair);
                proof {
                    before.insert_ensures(pos as int, pair);
                    assert(targets_ascending(out@)) by {
                        assert forall|i: int, j: int| 0 <= i < j < out@.len() implies cid_lt(
                            #[trigger] out@[i].0,
                            #[trigger] out@[j].0,
                        ) by {
                            if j < pos {
                                assert(out@[i] == before[i] && out@[j] == before[j]);
                            } else if j == pos {
                                assert(out@[i] == before[i]);
                            } else if i < pos {
                                assert(out@[i] == before[i] && out@[j] == before[j - 1]);
                                lemma_cid_order(before[i].0, key, before[pos as int].0);
                                lemma_cid_order(key, before[pos as int].0, before[j - 1].0);
                                lemma_cid_order(before[i].0, before[pos as int].0, before[j - 1].0);
                                if j - 1 > pos {
                                    assert(cid_lt(before[pos as int].0, before[j - 1].0));
                                }
                            } else if i == pos {
                                assert(out@[j] == before[j - 1]);
                                lemma_cid_order(key, before[pos as int].0, before[j - 1].0);
                                if j - 1 > pos {
                                    assert(cid_lt(before[pos as int].0, before[j - 1].0));
                                }
                            } else {
                                assert(out@[i] == before[i - 1] && out@[j] == before[j - 1]);
                            }
                        }
                    }
                    assert forall|q: int| 0 <= q < before.len() implies before[q].0 != key by {
                        if q < pos {
                            lemma_cid_order(before[q].0, key, key);
                        } else if q > pos {
                            lemma_cid_order(key, before[pos as int].0, before[q].0);
                            assert(cid_lt(before[pos as int].0, before[q].0));
                            lemma_cid_order(key, before[q].0, key);
                        }
                    }
                    assert forall|c: Cid| true implies entries_map(out@).contains_key(c) == entries_map(before).insert(key, val).contains_key(c) by {
                        if entries_map(before).contains_key(c) {
                            let i = choose|i: int| 0 <= i < before.len() && before[i].0 == c;
                            if i < pos {
                                assert(out@[i] == before[i]);
                            } else {
                                assert(out@[i + 1] == before[i]);
                            }
                        }
                        if c == key {
                            assert(out@[pos as int].0 == key);
                        }
                        if entries_map(out@).contains_key(c) {
                            let i = choose|i: int| 0 <= i < out@.len() && out@[i].0 == c;
                            if i < pos {
                                assert(out@[i] == before[i]);
                            } else if i > pos {
                                assert(out@[i] == before[i - 1]);
                            }
                        }
                    }
                    assert(entries_map(out@) =~= entries_map(before).insert(key, val)) by {
                        assert forall|c: Cid| #[trigger] entries_map(out@).contains_key(c) implies entries_map(out@)[c] == entries_map(before).insert(key, val)[c] by {
                            let i = choose|i: int| 0 <= i < out@.len() && out@[i].0 == c;
                            lemma_ascending_index(out@, i, i);
                            if c == key {
                                lemma_ascending_index(out@, i, pos as int);
                            } else {
                                let b = choose|b: int| 0 <= b < before.len() && before[b].0 == c;
                                lemma_ascending_index(before, b, b);
                                if b < pos {
                                    assert(out@[b] == before[b]);
                                    lemma_ascending_index(out@, i, b);
                                } else {
                                    assert(out@[b + 1] == before[b]);
                                    lemma_ascending_index(out@, i, b + 1);
                                }
                            }
                        }
                    }
                }
            }
            proof {
                assert(orig.take(k + 1).drop_last() =~= orig.take(k as int));
                assert(orig.take(k + 1).last() == pair);
                assert(rest@ =~= orig.skip(k + 1));
            }
            k += 1;
        }
        proof {
            assert(orig.take(k as int) =~= orig);
        }
        HandlerPredecessors { adjacency: out }
    }

    /// The predecessors of `node_cid`; empty for a root or an unknown node.
    pub fn predecessors_of(&self, node_cid: &Cid) -> (r: &[Cid])
        ensures
            r@ == (if self@.contains_key(*node_cid) {
                self@[*node_cid]
            } else {
                Seq::empty()
            }),
    {
        proof {
            use_type_invariant(self);
        }
        let mut i: usize = 0;
        while i < self.adjacency.len()
            invariant
                targets_ascending(self.adjacency@),
                i <= self.adjacency.len(),
                forall|q: int| 0 <= q < i ==> self.adjacency@[q].0 != *node_cid,
            decreases self.adjacency.len() - i,
        {
            if self.adjacency[i].0.same_as(node_cid) {
                proof {
                    lemma_entries_map_at(self.adjacency@, i as int);
                }
                return self.adjacency[i].1.as_slice();
            }
            i += 1;
        }
        &[]
    }

    /// The targets that have predecessors, in ascending order.
    pub fn targets(&self) -> (r: Vec<Cid>)
        ensures
            forall|i: int, j: int| 0 <= i < j < r@.len() ==> cid_lt(#[trigger] r@[i], #[trigger] r@[j]),
            forall|c: Cid| r@.contains(c) <==> self@.contains_key(c),
    {
        proof {
            use_type_invariant(self);
        }
        let mut r: Vec<Cid> = Vec::new();
        let mut i: usize = 0;
        while i < self.adjacency.len()
            invariant
                i <= self.adjacency.len(),
                r@.len() == i,
                forall|q: int| 0 <= q < i ==> r@[q] == self.adjacency@[q].0,
                targets_ascending(self.adjacency@),
            decreases self.adjacency.len() - i,
        {
            r.push(self.adjacency[i].0);
            i += 1;
        }
        proof {
            assert forall|c: Cid| r@.contains(c) <==> self@.contains_key(c) by {
                if self@.contains_key(c) {
                    let q = choose|q: int| 0 <= q < self.adjacency@.len() && self.adjacency@[q].0 == c;
                    assert(r@[q] == c);
                }
                if r@.contains(c) {
                    let q = choose|q: int| 0 <= q < r@.len() && r@[q] == c;
                    assert(self.adjacency@[q].0 == c);
                }
            }
        }
        r
    }
}

impl Default for HandlerPredecessors {
    fn default() -> (h: Self)
        ensures
            h@ == Map::<Cid, Seq<Cid>>::empty(),
    {
        let h = HandlerPredecessors { adjacency: Vec::new() };
        assert(h@ =~= Map::<Cid, Seq<Cid>>::empty());
        h
    }
}

} // verus!
