//! Validation of V3.2.6 lifecycle contracts and witness plans.

use vstd::prelude::*;

use crate::checks::{is_relative_ref, relative_ref, require};
use crate::error::{is_error_at, Located, ModelError};
use crate::lifecycle_v326::{
    V326ContractRetention, V326LifecycleContractRecord, V326LifecycleContractSummary, V326WitnessAction,
    V326WitnessPlanRecord, V326WitnessPlanSummary,
};
use crate::record_checks::{
    all_records_valid, first_error_upto, lemma_first_error_stable, reports_first_error, validate_records,
    ValidatedRecord,
};
use crate::static_fact::present;
use crate::v326_checks::{check_field, check_public_list, check_v326_tokens, first_field_error, has_v326_token, public_list_clean};
use crate::v326_records::{exact_lifecycle_api_id, is_exact_lifecycle_api_id};

verus! {

impl ValidatedRecord for V326LifecycleContractRecord {
    open spec fn unique_key(&self) -> Seq<char> {
        self.contract_id@
    }

    open spec fn run_view(&self) -> Seq<char> {
        self.run_id@
    }

    open spec fn record_error(&self, first_run: Option<Seq<char>>, duplicate: bool) -> Option<Seq<char>> {
        let ids = seq![
            self.run_id@,
            self.contract_id@,
            self.component_id@,
            self.api_id@,
            self.scope@,
            self.source@,
        ];
        if first_field_error(ids, "BW-V326-CONTRACT-REQUIRED-EMPTY"@, "BW-V326-CONTRACT-PRIVATE-TOKEN"@) is Some {
            first_field_error(ids, "BW-V326-CONTRACT-REQUIRED-EMPTY"@, "BW-V326-CONTRACT-PRIVATE-TOKEN"@)
        } else if !is_exact_lifecycle_api_id(self.api_id@) {
            Some("BW-V326-CONTRACT-API-ID"@)
        } else if !public_list_clean(self.evidence_refs@) || !public_list_clean(self.notes@) {
            Some("BW-V326-CONTRACT-PRIVATE-TOKEN"@)
        } else if self.evidence_refs@.len() == 0 {
            Some("BW-V326-CONTRACT-EVIDENCE"@)
        } else if duplicate {
            Some("BW-V326-CONTRACT-ID-DUPLICATE"@)
        } else {
            None
        }
    }

    fn key_text(&self) -> (k: &String) {
        &self.contract_id
    }

    fn run_text(&self) -> (k: &String) {
        &self.run_id
    }

    fn check_record(located: &Located<Self>, first_run: &Option<String>, duplicate: bool) -> (r: Result<
        (),
        ModelError,
    >) {
        let c = &located.value;
        let req = "BW-V326-CONTRACT-REQUIRED-EMPTY";
        let tok = "BW-V326-CONTRACT-PRIVATE-TOKEN";
        let ghost ids = seq![c.run_id@, c.contract_id@, c.component_id@, c.api_id@, c.scope@, c.source@];
        proof {
            reveal_with_fuel(first_field_error, 7);
        }
        assert(ids.drop_first() =~= seq![c.contract_id@, c.component_id@, c.api_id@, c.scope@, c.source@]);
        assert(ids.drop_first().drop_first() =~= seq![c.component_id@, c.api_id@, c.scope@, c.source@]);
        assert(ids.drop_first().drop_first().drop_first() =~= seq![c.api_id@, c.scope@, c.source@]);
        assert(ids.drop_first().drop_first().drop_first().drop_first() =~= seq![c.scope@, c.source@]);
        assert(ids.drop_first().drop_first().drop_first().drop_first().drop_first() =~= seq![c.source@]);
        assert(ids.drop_first().drop_first().drop_first().drop_first().drop_first().drop_first()
            =~= Seq::<Seq<char>>::empty());
        check_field(located, req, tok, "run_id", c.run_id.as_str())?;
        check_field(located, req, tok, "contract_id", c.contract_id.as_str())?;
        check_field(located, req, tok, "component_id", c.component_id.as_str())?;
        check_field(located, req, tok, "api_id", c.api_id.as_str())?;
        check_field(located, req, tok, "scope", c.scope.as_str())?;
        check_field(located, req, tok, "source", c.source.as_str())?;
        require(
            located,
            exact_lifecycle_api_id(c.api_id.as_str()),
            "BW-V326-CONTRACT-API-ID",
            "contract.api_id 不是精确 API 身份",
        )?;
        check_public_list(located, tok, "evidence_refs", &c.evidence_refs)?;
        check_public_list(located, tok, "notes", &c.notes)?;
        require(located, c.evidence_refs.len() > 0, "BW-V326-CONTRACT-EVIDENCE", "contract.evidence_refs 不能为空")?;
        require(located, !duplicate, "BW-V326-CONTRACT-ID-DUPLICATE", "contract_id 重复")
    }
}

/// The number of contracts that say the callback may be retained.
pub open spec fn count_retaining(records: Seq<Located<V326LifecycleContractRecord>>) -> nat
    decreases records.len(),
{
    if records.len() == 0 {
        0
    } else {
        count_retaining(records.drop_last()) + if records.last().value.retention
            == V326ContractRetention::MayRetainCallback {
            1nat
        } else {
            0nat
        }
    }
}

proof fn lemma_count_retaining_bound(records: Seq<Located<V326LifecycleContractRecord>>)
    ensures
        count_retaining(records) <= records.len(),
    decreases records.len(),
{
    if records.len() > 0 {
        lemma_count_retaining_bound(records.drop_last());
    }
}

/// Validates lifecycle contracts: required texts free of forbidden tokens, an exact API id,
/// clean public lists, at least one evidence reference and unique contract ids. The first
/// failure is reported at its record; on success the number of contracts and of those that may
/// retain the callback.
pub fn validate_v3_2_6_lifecycle_contracts(records: Vec<Located<V326LifecycleContractRecord>>) -> (r: Result<
    V326LifecycleContractSummary,
    ModelError,
>)
    ensures
        match r {
            Ok(summary) => {
                &&& all_records_valid(records@)
                &&& summary.record_count == records@.len()
                &&& summary.retention_contract_count == count_retaining(records@)
            },
            Err(e) => reports_first_error(records@, e),
        },
{
    validate_records(&records)?;
    let mut retaining: u64 = 0;
    let mut i: usize = 0;
    while i < records.len()
        invariant
            0 <= i <= records@.len(),
            retaining == count_retaining(records@.take(i as int)),
        decreases records.len() - i,
    {
        let ghost prefix = records@.take(i as int);
        assert(records@.take(i + 1).drop_last() =~= prefix);
        proof {
            lemma_count_retaining_bound(prefix);
        }
        match records[i].value.retention {
            V326ContractRetention::MayRetainCallback => {
                retaining = retaining + 1;
            },
            _ => {},
        }
        i = i + 1;
    }
    assert(records@.take(records@.len() as int) =~= records@);
    Ok(V326LifecycleContractSummary { record_count: records.len() as u64, retention_contract_count: retaining })
}

/// The error of one witness action: a missing id, or a forbidden token in its texts.
pub open spec fn action_error(a: V326WitnessAction) -> Option<Seq<char>> {
    if !present(a.action_id@) {
        Some("BW-V326-WITNESS-ACTION-ID"@)
    } else if has_v326_token(a.action_id@) || !public_list_clean(a.graph_refs@) || !public_list_clean(
        a.notes@,
    ) {
        Some("BW-V326-WITNESS-PRIVATE-TOKEN"@)
    } else {
        None
    }
}

pub open spec fn action_checks(actions: Seq<V326WitnessAction>) -> spec_fn(int) -> Option<Seq<char>> {
    |i: int| action_error(actions[i])
}

fn check_actions(located: &Located<V326WitnessPlanRecord>, actions: &Vec<V326WitnessAction>) -> (r: Result<
    (),
    ModelError,
>)
    ensures
        match first_error_upto(action_checks(actions@), actions@.len() as int) {
            None => r is Ok,
            Some(code) => r matches Err(e) && is_error_at(e, *located, code),
        },
{
    let ghost f = action_checks(actions@);
    let mut i: usize = 0;
    while i < actions.len()
        invariant
            0 <= i <= actions@.len(),
            f == action_checks(actions@),
            first_error_upto(f, i as int) is None,
        decreases actions.len() - i,
    {
        proof {
            if f(i as int) is Some {
                lemma_first_error_stable(f, i + 1, actions@.len() as int);
            }
        }
        let a = &actions[i];
        crate::checks::check_required(located, "BW-V326-WITNESS-ACTION-ID", "actions.action_id", a.action_id.as_str())?;
        check_v326_tokens(located, "BW-V326-WITNESS-PRIVATE-TOKEN", "actions.action_id", a.action_id.as_str())?;
        check_public_list(located, "BW-V326-WITNESS-PRIVATE-TOKEN", "actions.graph_refs", &a.graph_refs)?;
        check_public_list(located, "BW-V326-WITNESS-PRIVATE-TOKEN", "actions.notes", &a.notes)?;
        i = i + 1;
    }
    Ok(())
}

impl ValidatedRecord for V326WitnessPlanRecord {
    open spec fn unique_key(&self) -> Seq<char> {
        self.plan_id@
    }

    open spec fn run_view(&self) -> Seq<char> {
        self.run_id@
    }

    open spec fn record_error(&self, first_run: Option<Seq<char>>, duplicate: bool) -> Option<Seq<char>> {
        let ids = seq![self.run_id@, self.plan_id@, self.candidate_id@, self.lifecycle_graph_ref@];
        let actions = self.actions@;
        if first_field_error(ids, "BW-V326-WITNESS-REQUIRED-EMPTY"@, "BW-V326-WITNESS-PRIVATE-TOKEN"@) is Some {
            first_field_error(ids, "BW-V326-WITNESS-REQUIRED-EMPTY"@, "BW-V326-WITNESS-PRIVATE-TOKEN"@)
        } else if !is_relative_ref(self.lifecycle_graph_ref@) {
            Some("BW-V326-WITNESS-GRAPH-PATH"@)
        } else if actions.len() == 0 {
            Some("BW-V326-WITNESS-ACTIONS-EMPTY"@)
        } else if first_error_upto(action_checks(actions), actions.len() as int) is Some {
            first_error_upto(action_checks(actions), actions.len() as int)
        } else if self.runtime_observers@.len() == 0 || self.oracle_assertions@.len() == 0 {
            Some("BW-V326-WITNESS-OBSERVERS"@)
        } else if !public_list_clean(self.runtime_observers@) || !public_list_clean(self.oracle_assertions@)
            || !public_list_clean(self.replay_evidence_refs@) || !public_list_clean(self.notes@) {
            Some("BW-V326-WITNESS-PRIVATE-TOKEN"@)
        } else if duplicate {
            Some("BW-V326-WITNESS-ID-DUPLICATE"@)
        } else {
            None
        }
    }

    fn key_text(&self) -> (k: &String) {
        &self.plan_id
    }

    fn run_text(&self) -> (k: &String) {
        &self.run_id
    }

    fn check_record(located: &Located<Self>, first_run: &Option<String>, duplicate: bool) -> (r: Result<
        (),
        ModelError,
    >) {
        let p = &located.value;
        let req = "BW-V326-WITNESS-REQUIRED-EMPTY";
        let tok = "BW-V326-WITNESS-PRIVATE-TOKEN";
        let ghost ids = seq![p.run_id@, p.plan_id@, p.candidate_id@, p.lifecycle_graph_ref@];
        proof {
            reveal_with_fuel(first_field_error, 5);
        }
        assert(ids.drop_first() =~= seq![p.plan_id@, p.candidate_id@, p.lifecycle_graph_ref@]);
        assert(ids.drop_first().drop_first() =~= seq![p.candidate_id@, p.lifecycle_graph_ref@]);
        assert(ids.drop_first().drop_first().drop_first() =~= seq![p.lifecycle_graph_ref@]);
        assert(ids.drop_first().drop_first().drop_first().drop_first() =~= Seq::<Seq<char>>::empty());
        check_field(located, req, tok, "run_id", p.run_id.as_str())?;
        check_field(located, req, tok, "plan_id", p.plan_id.as_str())?;
        check_field(located, req, tok, "candidate_id", p.candidate_id.as_str())?;
        check_field(located, req, tok, "lifecycle_graph_ref", p.lifecycle_graph_ref.as_str())?;
        require(
            located,
            relative_ref(p.lifecycle_graph_ref.as_str()),
            "BW-V326-WITNESS-GRAPH-PATH",
            "路径必须是相对路径，不能是绝对路径或包含 ..",
        )?;
        require(located, p.actions.len() > 0, "BW-V326-WITNESS-ACTIONS-EMPTY", "witness plan actions 不能为空")?;
        check_actions(located, &p.actions)?;
        require(
            located,
            p.runtime_observers.len() > 0 && p.oracle_assertions.len() > 0,
            "BW-V326-WITNESS-OBSERVERS",
            "witness plan 必须说明 runtime_observers 和 oracle_assertions",
        )?;
        check_public_list(located, tok, "runtime_observers", &p.runtime_observers)?;
        check_public_list(located, tok, "oracle_assertions", &p.oracle_assertions)?;
        check_public_list(located, tok, "replay_evidence_refs", &p.replay_evidence_refs)?;
        check_public_list(located, tok, "notes", &p.notes)?;
        require(located, !duplicate, "BW-V326-WITNESS-ID-DUPLICATE", "plan_id 重复")
    }
}

/// Validates witness plans: required texts free of forbidden tokens, a relative graph
/// reference, at least one action with an id and clean texts, observers and oracle assertions,
/// clean public lists and unique plan ids. The first failure is reported at its record; on
/// success the number of plans.
pub fn validate_v3_2_6_witness_plans(records: Vec<Located<V326WitnessPlanRecord>>) -> (r: Result<
    V326WitnessPlanSummary,
    ModelError,
>)
    ensures
        match r {
            Ok(summary) => all_records_valid(records@) && summary.record_count == records@.len(),
            Err(e) => reports_first_error(records@, e),
        },
{
    validate_records(&records)?;
    Ok(V326WitnessPlanSummary { record_count: records.len() as u64 })
}

} // verus!
