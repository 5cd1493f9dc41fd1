//! The schema versions of the records this model reads and writes.

use vstd::prelude::*;

use crate::error::ModelError;

verus! {

/// Runtime traces.
pub const TRACE_SCHEMA_V01: &'static str = "bw.trace/0.1";

/// Findings.
pub const FINDING_SCHEMA_V01: &'static str = "bw.finding/0.1";

/// Run manifests.
pub const RUN_SCHEMA_V01: &'static str = "bw.run/0.1";

/// Rust-side contract facts.
pub const RUST_CONTRACT_SCHEMA_V01: &'static str = "bw.rust-contract/0.1";

/// Foreign-side behaviour facts.
pub const FOREIGN_BEHAVIOR_SCHEMA_V01: &'static str = "bw.foreign-behavior/0.1";

/// Foreign symbol and argument role maps. They declare bindings, never behaviour.
pub const FOREIGN_ROLE_MAP_SCHEMA_V01: &'static str = "bw.foreign-role-map/0.1";

/// Three-valued verdicts after the two sides are joined.
pub const JOINT_VERDICT_SCHEMA_V01: &'static str = "bw.joint-verdict/0.1";

/// Accepts a record header whose schema version is exactly the expected one; any other is an
/// unsupported schema that names both.
pub fn require_schema_version(found: &str, expected: &'static str) -> (r: Result<(), ModelError>)
    ensures
        match r {
            Ok(()) => found@ == expected@,
            Err(e) => found@ != expected@ && (e matches ModelError::UnsupportedSchema {
                expected: x,
                found: f,
            } && x == expected && f@ == found@),
        },
{
    let f = found.to_owned();
    let x = expected.to_owned();
    if f == x {
        Ok(())
    } else {
        Err(ModelError::UnsupportedSchema { expected, found: f })
    }
}

/// The versions a static fact envelope may carry, as an unsupported schema names them.
pub const STATIC_SCHEMA_EXPECTED: &'static str = "bw.static/0.1 or bw.static/0.2";

/// Accepts a static fact header of either supported version; any other is an unsupported
/// schema that names both.
pub fn require_static_schema_version(found: &str) -> (r: Result<(), ModelError>)
    ensures
        match r {
            Ok(()) => found@ == crate::static_fact::STATIC_SCHEMA_V01@ || found@ == crate::static_fact::STATIC_SCHEMA_V02@,
            Err(e) => found@ != crate::static_fact::STATIC_SCHEMA_V01@ && found@ != crate::static_fact::STATIC_SCHEMA_V02@
                && (e matches ModelError::UnsupportedSchema { expected: x, found: f } && x == STATIC_SCHEMA_EXPECTED
                && f@ == found@),
        },
{
    let f = found.to_owned();
    if f == crate::static_fact::STATIC_SCHEMA_V01.to_owned() || f == crate::static_fact::STATIC_SCHEMA_V02.to_owned() {
        Ok(())
    } else {
        Err(ModelError::UnsupportedSchema { expected: STATIC_SCHEMA_EXPECTED, found: f })
    }
}

} // verus!
