//! Decision rules of view registration and view reads: which user views a
//! registration refuses and the definition it persists; how a read derives
//! its label hint and normalized id, and what it answers for each state of
//! the live view; and how a view's read result becomes the rows of the
//! outcome.

use vstd::prelude::*;
use vstd::string::StringExecFns;

use crate::cid::Cid;
use crate::error::EngineError;
use crate::outcome::{Strategy, UserViewInputPattern, UserViewSpec};
use crate::text::{has_prefix, str_eq, str_starts_with, substring};

verus! {

/// The label hint of a view id: what follows `content_listing_` or
/// `system:ivm:content_listing_`, empty for any other id.
pub open spec fn label_hint_spec(view_id: Seq<char>) -> Seq<char> {
    if has_prefix(view_id, "content_listing_"@) {
        view_id.subrange(16, view_id.len() as int)
    } else if has_prefix(view_id, "system:ivm:content_listing_"@) {
        view_id.subrange(27, view_id.len() as int)
    } else {
        Seq::empty()
    }
}

/// The view id without its `system:ivm:` namespace, if it has one.
pub open spec fn normalized_view_id_spec(view_id: Seq<char>) -> Seq<char> {
    if has_prefix(view_id, "system:ivm:"@) {
        view_id.subrange(11, view_id.len() as int)
    } else {
        view_id
    }
}

/// The label hint a read of `view_id` checks against the read policy.
pub fn view_label_hint(view_id: &str) -> (h: String)
    ensures
        h@ == label_hint_spec(view_id@),
{
    proof {
        reveal_strlit("content_listing_");
        reveal_strlit("system:ivm:content_listing_");
    }
    if str_starts_with(view_id, "content_listing_") {
        substring(view_id, 16, view_id.unicode_len())
    } else if str_starts_with(view_id, "system:ivm:content_listing_") {
        substring(view_id, 27, view_id.unicode_len())
    } else {
        String::new()
    }
}

/// The view id a read addresses the live views by.
pub fn normalize_view_id(view_id: &str) -> (n: String)
    ensures
        n@ == normalized_view_id_spec(view_id@),
{
    proof {
        reveal_strlit("system:ivm:");
    }
    if str_starts_with(view_id, "system:ivm:") {
        substring(view_id, 11, view_id.unicode_len())
    } else {
        String::from_str(view_id)
    }
}

/// What a view read does after its checks.
#[derive(Debug, Clone, PartialEq, Eq)]
pub enum ViewReadPlan {
    /// Answer with an empty row list.
    Empty,
    /// Query the live view under `view_id` (the normalized id), filtered
    /// by `label` when the hint is not empty; `relaxed` reads the last
    /// known good state of a stale view.
    Query {
        /// The normalized view id.
        view_id: String,
        /// The label filter.
        label: Option<String>,
        /// Whether a stale view answers with its last known good state.
        relaxed: bool,
    },
}

/// Plan a read of `view_id`.
///
/// `policy_denies_hint` is whether a configured read policy denied the
/// label hint (consulted only when the hint is not empty);
/// `live_view_stale` is the staleness of the live view registered under
/// the normalized id (`None`: no live view); `known_view_id` is whether
/// the id is one of the canonical view ids.
///
/// A disabled view subsystem refuses the read; a denied hint answers
/// empty; a stale live view is read relaxed or refused as stale; a fresh
/// live view is queried (relaxed when the caller allows stale reads);
/// without a live view, an unknown id is refused, and a canonical one is
/// answered empty (relaxed) or refused as stale (strict).
pub fn plan_view_read(
    ivm_enabled: bool,
    view_id: &str,
    policy_denies_hint: bool,
    live_view_stale: Option<bool>,
    known_view_id: bool,
    allow_stale: bool,
) -> (r: Result<ViewReadPlan, EngineError>)
    ensures
        !ivm_enabled ==> (r matches Err(EngineError::SubsystemDisabled { subsystem })
            && subsystem@ == "ivm"@),
        ivm_enabled && policy_denies_hint && label_hint_spec(view_id@).len() > 0 ==> r
            == Ok::<ViewReadPlan, EngineError>(ViewReadPlan::Empty),
        ivm_enabled && !(policy_denies_hint && label_hint_spec(view_id@).len() > 0) ==> match live_view_stale {
            Some(stale) => if stale && !allow_stale {
                r matches Err(EngineError::IvmViewStale { view_id: v }) && v@ == view_id@
            } else {
                r matches Ok(ViewReadPlan::Query { view_id: v, label, relaxed }) && v@
                    == normalized_view_id_spec(view_id@) && relaxed == allow_stale && match label {
                    Some(l) => l@ == label_hint_spec(view_id@) && l@.len() > 0,
                    None => label_hint_spec(view_id@).len() == 0,
                }
            },
            None => if !known_view_id {
                r matches Err(EngineError::UnknownView { view_id: v }) && v@ == view_id@
            } else if allow_stale {
                r == Ok::<ViewReadPlan, EngineError>(ViewReadPlan::Empty)
            } else {
                r matches Err(EngineError::IvmViewStale { view_id: v }) && v@ == view_id@
            },
        },
{
    if !ivm_enabled {
        proof {
            reveal_strlit("ivm");
        }
        return Err(EngineError::SubsystemDisabled { subsystem: "ivm" });
    }
    let hint = view_label_hint(view_id);
    let hint_empty = hint.unicode_len() == 0;
    if policy_denies_hint && !hint_empty {
        return Ok(ViewReadPlan::Empty);
    }
    match live_view_stale {
        Some(stale) => {
            if stale && !allow_stale {
                return Err(EngineError::IvmViewStale { view_id: String::from_str(view_id) });
            }
            let label = if hint_empty {
                None
            } else {
                Some(hint)
            };
            Ok(
                ViewReadPlan::Query {
                    view_id: normalize_view_id(view_id),
                    label,
                    relaxed: allow_stale,
                },
            )
        },
        None => {
            if !known_view_id {
                return Err(EngineError::UnknownView { view_id: String::from_str(view_id) });
            }
            if allow_stale {
                Ok(ViewReadPlan::Empty)
            } else {
                Err(EngineError::IvmViewStale { view_id: String::from_str(view_id) })
            }
        },
    }
}

/// What a live view answered a query.
#[derive(Debug, Clone, PartialEq, Eq)]
pub enum ViewReadResult {
    /// The CIDs of the matching rows, in the view's order.
    Cids(Vec<Cid>),
    /// The current row, if any.
    Current(Option<Cid>),
    /// A rules map (projected as one synthetic rules row).
    Rules,
    /// The view turned stale before the read.
    Stale,
    /// Any other view failure (pattern mismatch, budget).
    Failed,
}

/// The rows a view read yields.
#[derive(Debug, Clone, PartialEq, Eq)]
pub enum ViewRows {
    /// The rows with these CIDs, in order (rows that no longer resolve
    /// are skipped when they are loaded).
    Cids(Vec<Cid>),
    /// One synthetic row carrying the rules map.
    RulesRow,
}

/// Project a view read into rows: no live view, a failure, or a relaxed
/// stale read yield no rows; a strict stale read is refused; `Current`
/// yields its row if any; `Rules` one synthetic row.
pub fn project_view_read(result: Option<ViewReadResult>, view_id: &str, allow_stale: bool) -> (r:
    Result<ViewRows, EngineError>)
    ensures
        match result {
            None => r matches Ok(ViewRows::Cids(v)) && v@.len() == 0,
            Some(ViewReadResult::Cids(c)) => r matches Ok(ViewRows::Cids(v)) && v@ == c@,
            Some(ViewReadResult::Current(Some(c))) => r matches Ok(ViewRows::Cids(v)) && v@ == seq![c],
            Some(ViewReadResult::Current(None)) => r matches Ok(ViewRows::Cids(v)) && v@.len() == 0,
            Some(ViewReadResult::Rules) => r == Ok::<ViewRows, EngineError>(ViewRows::RulesRow),
            Some(ViewReadResult::Stale) => if allow_stale {
                r matches Ok(ViewRows::Cids(v)) && v@.len() == 0
            } else {
                r matches Err(EngineError::IvmViewStale { view_id: v }) && v@ == view_id@
            },
            Some(ViewReadResult::Failed) => r matches Ok(ViewRows::Cids(v)) && v@.len() == 0,
        },
{
    match result {
        None => Ok(ViewRows::Cids(Vec::new())),
        Some(ViewReadResult::Cids(c)) => Ok(ViewRows::Cids(c)),
        Some(ViewReadResult::Current(Some(c))) => {
            let mut v: Vec<Cid> = Vec::new();
            v.push(c);
            Ok(ViewRows::Cids(v))
        },
        Some(ViewReadResult::Current(None)) => Ok(ViewRows::Cids(Vec::new())),
        Some(ViewReadResult::Rules) => Ok(ViewRows::RulesRow),
        Some(ViewReadResult::Stale) => {
            if allow_stale {
                Ok(ViewRows::Cids(Vec::new()))
            } else {
                Err(EngineError::IvmViewStale { view_id: String::from_str(view_id) })
            }
        },
        Some(ViewReadResult::Failed) => Ok(ViewRows::Cids(Vec::new())),
    }
}

/// The definition record a user-view registration persists (label
/// `system:IVMView`).
#[derive(Debug, Clone, PartialEq, Eq)]
pub struct ViewDefinition {
    /// `view_id`.
    pub view_id: String,
    /// `input_pattern_label`: the pattern's label or prefix.
    pub input_pattern_label: String,
    /// `input_pattern_kind`: `label` or `anchor_prefix`.
    pub input_pattern_kind: String,
    /// `strategy`: always `B`.
    pub strategy: String,
}

/// The text of an input pattern.
pub open spec fn pattern_text(p: UserViewInputPattern) -> Seq<char> {
    match p {
        UserViewInputPattern::Label(l) => l@,
        UserViewInputPattern::AnchorPrefix(a) => a@,
    }
}

/// Check a user-view registration and build the definition it persists.
///
/// `canonical_label` is the fixed label of the view id when the id is a
/// canonical view id with a fixed label; `ivm_enabled` whether the view
/// subsystem runs. Strategy `A` is refused, then strategy `C`; a `Label`
/// pattern disagreeing with a canonical id's fixed label is refused; a
/// disabled view subsystem refuses; otherwise the definition records the
/// id, the pattern's text and kind, and strategy `B`.
pub fn check_user_view_registration(
    spec: &UserViewSpec,
    canonical_label: Option<&str>,
    ivm_enabled: bool,
) -> (r: Result<ViewDefinition, EngineError>)
    ensures
        spec.spec_strategy() == Strategy::A ==> (r matches Err(
            EngineError::ViewStrategyARefused { view_id },
        ) && view_id@ == spec.spec_id()),
        spec.spec_strategy() == Strategy::C ==> (r matches Err(
            EngineError::ViewStrategyCReserved { view_id },
        ) && view_id@ == spec.spec_id()),
        spec.spec_strategy() == Strategy::B ==> match (spec.spec_input_pattern(), canonical_label) {
            (UserViewInputPattern::Label(l), Some(c)) if l@ != c@ => r matches Err(
                EngineError::ViewLabelMismatch { view_id, expected_label, got_label },
            ) && view_id@ == spec.spec_id() && expected_label@ == c@ && got_label@ == l@,
            _ => if !ivm_enabled {
                r matches Err(EngineError::SubsystemDisabled { subsystem }) && subsystem@
                    == "ivm"@
            } else {
                r matches Ok(d) && d.view_id@ == spec.spec_id() && d.input_pattern_label@
                    == pattern_text(spec.spec_input_pattern()) && d.input_pattern_kind@ == (
                match spec.spec_input_pattern() {
                    UserViewInputPattern::Label(_) => "label"@,
                    UserViewInputPattern::AnchorPrefix(_) => "anchor_prefix"@,
                }) && d.strategy@ == "B"@
            },
        },
{
    match spec.strategy() {
        Strategy::A => {
            return Err(EngineError::ViewStrategyARefused { view_id: String::from_str(spec.id()) });
        },
        Strategy::C => {
            return Err(EngineError::ViewStrategyCReserved { view_id: String::from_str(spec.id()) });
        },
        Strategy::B => {},
    }
    if let UserViewInputPattern::Label(supplied) = spec.input_pattern() {
        if let Some(fixed) = canonical_label {
            if !str_eq(fixed, supplied.as_str()) {
                return Err(
                    EngineError::ViewLabelMismatch {
                        view_id: String::from_str(spec.id()),
                        expected_label: String::from_str(fixed),
                        got_label: supplied.clone(),
                    },
                );
            }
        }
    }
    if !ivm_enabled {
        proof {
            reveal_strlit("ivm");
        }
        return Err(EngineError::SubsystemDisabled { subsystem: "ivm" });
    }
    let (text, kind) = match spec.input_pattern() {
        UserViewInputPattern::Label(l) => (l.clone(), String::from_str("label")),
        UserViewInputPattern::AnchorPrefix(a) => (a.clone(), String::from_str("anchor_prefix")),
    };
    Ok(
        ViewDefinition {
            view_id: String::from_str(spec.id()),
            input_pattern_label: text,
            input_pattern_kind: kind,
            strategy: String::from_str("B"),
        },
    )
}

} // verus!
