//! Exact join of the two sides' facts, and the joint trace.
//!
//! Build, hand-off, symbol and argument roles, and registration generation are checked here;
//! path-condition compatibility is the judgement's part. No join by approximate names exists.

use vstd::prelude::*;

use std::collections::BTreeSet;

use crate::compatibility::{
    is_judgement, judge_hand_off, opt_text, opt_u32_eq, spec_joins_with, spec_is_hand_off_from_keys, CompatibilityVerdict,
    ForeignBehaviorFact, ForeignHandOffKey, ForeignRetention, HandOffId, RegistrationGeneration,
    RustContractFact, RustHandOffKey, LifetimeSubject,
};
use crate::slot::SlotId;

verus! {

/// Why a join was refused. Every kind is kept apart.
#[derive(Clone, Copy, Debug, PartialEq, Eq, PartialOrd, Ord, Hash)]
pub enum JoinRejection {
    BuildProfileMismatch,
    ForeignSymbolMismatch,
    CallbackRoleMismatch,
    UserDataRoleMismatch,
    RegistrationKeyMismatch,
    GenerationUnresolved,
    MissingSlotEvidence,
}

/// One joint trace: the full conclusion once both sides meet on the same identity.
#[derive(Clone, Debug)]
pub struct JointTrace {
    pub hand_off: HandOffId,
    pub slots: BTreeSet<SlotId>,
    pub verdicts: Vec<CompatibilityVerdict>,
}

/// Outcome of a join.
#[derive(Clone, Debug)]
pub enum JoinOutcome {
    Joined(Box<JointTrace>),
    Rejected {
        rust: Box<RustHandOffKey>,
        foreign: Box<ForeignHandOffKey>,
        reasons: Vec<JoinRejection>,
    },
}

/// Every mismatching layer, in the order build, symbol, callback role, user-data role,
/// registration key, generation, slot evidence.
pub open spec fn spec_join_rejections(
    rust: RustContractFact,
    foreign: ForeignBehaviorFact,
    slots_empty: bool,
) -> Seq<JoinRejection> {
    let r = rust.hand_off;
    let f = foreign.hand_off;
    let s0 = Seq::<JoinRejection>::empty();
    let s1 = if r.build_profile@ != f.build_profile@ {
        s0.push(JoinRejection::BuildProfileMismatch)
    } else {
        s0
    };
    let s2 = if r.foreign_symbol@ != f.foreign_symbol@ {
        s1.push(JoinRejection::ForeignSymbolMismatch)
    } else {
        s1
    };
    let s3 = if r.callback_arg_index != f.callback_arg_index {
        s2.push(JoinRejection::CallbackRoleMismatch)
    } else {
        s2
    };
    let s4 = if r.userdata_arg_index != f.userdata_arg_index {
        s3.push(JoinRejection::UserDataRoleMismatch)
    } else {
        s3
    };
    let s5 = if opt_text(r.registration_key) != opt_text(f.registration_key) {
        s4.push(JoinRejection::RegistrationKeyMismatch)
    } else {
        s4
    };
    let s6 = if r.registration_generation == RegistrationGeneration::Unresolved {
        s5.push(JoinRejection::GenerationUnresolved)
    } else {
        s5
    };
    if slots_empty && foreign.retention != ForeignRetention::NoRetain {
        s6.push(JoinRejection::MissingSlotEvidence)
    } else {
        s6
    }
}

fn opt_text_differs(a: &Option<String>, b: &Option<String>) -> (r: bool)
    ensures
        r == (opt_text(*a) != opt_text(*b)),
{
    match (a, b) {
        (Some(x), Some(y)) => !(*x == *y),
        (None, None) => false,
        _ => true,
    }
}

/// Joins the two sides of one hand-off by the layered identity. Any mismatch refuses the
/// join and lists every mismatching layer at once.
pub fn join_hand_off(
    rust: &RustContractFact,
    foreign: &ForeignBehaviorFact,
    slots: &BTreeSet<SlotId>,
) -> (outcome: JoinOutcome)
    ensures
        ({
            let reasons = spec_join_rejections(*rust, *foreign, slots@.is_empty());
            match outcome {
                JoinOutcome::Rejected { rust: r, foreign: f, reasons: got } => {
                    &&& reasons.len() > 0
                    &&& got@ == reasons
                    &&& *r == rust.hand_off
                    &&& *f == foreign.hand_off
                },
                JoinOutcome::Joined(trace) => {
                    &&& reasons.len() == 0
                    &&& spec_is_hand_off_from_keys(
                        trace.hand_off,
                        rust.hand_off,
                        Some(foreign.hand_off),
                    )
                    &&& trace.slots@ == slots@
                    &&& trace.verdicts@.len() == 2
                    &&& is_judgement(
                        trace.verdicts@[0],
                        *rust,
                        Some(*foreign),
                        LifetimeSubject::CapturedReferent,
                    )
                    &&& is_judgement(
                        trace.verdicts@[1],
                        *rust,
                        Some(*foreign),
                        LifetimeSubject::CallbackAllocation,
                    )
                },
            }
        }),
{
    let mut reasons: Vec<JoinRejection> = Vec::new();
    let rust_key = &rust.hand_off;
    let foreign_key = &foreign.hand_off;

    if !(rust_key.build_profile == foreign_key.build_profile) {
        reasons.push(JoinRejection::BuildProfileMismatch);
    }
    if !(rust_key.foreign_symbol == foreign_key.foreign_symbol) {
        reasons.push(JoinRejection::ForeignSymbolMismatch);
    }
    if rust_key.callback_arg_index != foreign_key.callback_arg_index {
        reasons.push(JoinRejection::CallbackRoleMismatch);
    }
    if !opt_u32_eq(rust_key.userdata_arg_index, foreign_key.userdata_arg_index) {
        reasons.push(JoinRejection::UserDataRoleMismatch);
    }
    if opt_text_differs(&rust_key.registration_key, &foreign_key.registration_key) {
        reasons.push(JoinRejection::RegistrationKeyMismatch);
    }
    match rust_key.registration_generation {
        RegistrationGeneration::UniqueStaticSite | RegistrationGeneration::MultipleStaticSites => {},
        RegistrationGeneration::Unresolved => {
            reasons.push(JoinRejection::GenerationUnresolved);
        },
    }
    if slots.is_empty() && !matches!(foreign.retention, ForeignRetention::NoRetain) {
        reasons.push(JoinRejection::MissingSlotEvidence);
    }
    assert(reasons@ =~= spec_join_rejections(*rust, *foreign, slots@.is_empty()));

    if reasons.len() > 0 {
        return JoinOutcome::Rejected {
            rust: Box::new(rust_key.clone()),
            foreign: Box::new(foreign_key.clone()),
            reasons,
        };
    }
    JoinOutcome::Joined(
        Box::new(
            JointTrace {
                hand_off: HandOffId::from_keys(rust_key, Some(foreign_key)),
                slots: slots.clone(),
                verdicts: judge_hand_off(rust, Some(foreign)),
            },
        ),
    )
}

/// A join succeeds exactly when the overlapping identity agrees, the generation is resolved
/// and the slot evidence is present or retention is disproved; a joined pair always passes the
/// judgement's own identity check.
pub proof fn law_join_accepts_exactly_matching_identities(
    rust: RustContractFact,
    foreign: ForeignBehaviorFact,
    slots_empty: bool,
)
    ensures
        spec_join_rejections(rust, foreign, slots_empty).len() == 0 <==> {
            &&& spec_joins_with(rust.hand_off, foreign.hand_off)
            &&& rust.hand_off.registration_generation != RegistrationGeneration::Unresolved
            &&& (!slots_empty || foreign.retention == ForeignRetention::NoRetain)
        },
{
}

} // verus!
