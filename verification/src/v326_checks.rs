//! Field checks of the V3.2.6 public artifacts.

use vstd::prelude::*;

use crate::checks::check_required;
use crate::error::{error_at, is_error_at, Located, ModelError};
use crate::lifecycle_v326::V326SourceRef;
use crate::public_tokens::{public_forbidden_token, spec_public_forbidden_token, PUBLIC_FORBIDDEN_TOKEN_COUNT};
use crate::static_fact::present;
use crate::text::{concat3, lower_contains, lowercase_contains};

verus! {

/// The text contains, in any letter case, one of the tokens that public artifacts must not
/// carry.
pub open spec fn has_v326_token(s: Seq<char>) -> bool {
    exists|i: int| 0 <= i < PUBLIC_FORBIDDEN_TOKEN_COUNT && lower_contains(s, #[trigger] spec_public_forbidden_token(i))
}

/// A public text free of the forbidden tokens, else the located error with `code`.
pub fn check_v326_tokens<T>(located: &Located<T>, code: &'static str, field: &str, value: &str) -> (r:
    Result<(), ModelError>)
    ensures
        r is Ok <==> !has_v326_token(value@),
        r matches Err(e) ==> is_error_at(e, *located, code@),
{
    let mut i: usize = 0;
    while i < PUBLIC_FORBIDDEN_TOKEN_COUNT
        invariant
            0 <= i <= PUBLIC_FORBIDDEN_TOKEN_COUNT,
            forall|k: int| 0 <= k < i ==> !lower_contains(value@, #[trigger] spec_public_forbidden_token(k)),
        decreases PUBLIC_FORBIDDEN_TOKEN_COUNT - i,
    {
        let token = public_forbidden_token(i);
        if lowercase_contains(value, token) {
            return Err(error_at(located, code, concat3(field, " 包含 V3.2.6 public artifact 禁止公开携带的身份线索 token ", token)));
        }
        i = i + 1;
    }
    Ok(())
}

/// An optional public text is absent or free of the forbidden tokens.
pub open spec fn opt_v326_clean(o: Option<String>) -> bool {
    match o {
        Some(v) => !has_v326_token(v@),
        None => true,
    }
}

pub fn check_v326_opt_tokens<T>(
    located: &Located<T>,
    code: &'static str,
    field: &str,
    value: &Option<String>,
) -> (r: Result<(), ModelError>)
    ensures
        r is Ok <==> opt_v326_clean(*value),
        r matches Err(e) ==> is_error_at(e, *located, code@),
{
    match value {
        Some(v) => check_v326_tokens(located, code, field, v.as_str()),
        None => Ok(()),
    }
}

/// Every text of a public list is present and free of the forbidden tokens.
pub open spec fn public_list_clean(values: Seq<String>) -> bool {
    forall|i: int| 0 <= i < values.len() ==> present(#[trigger] values[i]@) && !has_v326_token(values[i]@)
}

/// Checks a public list in order: no blank text and no forbidden token, else the located
/// error with `code`.
pub fn check_public_list<T>(located: &Located<T>, code: &'static str, field: &str, values: &Vec<String>) -> (r:
    Result<(), ModelError>)
    ensures
        r is Ok <==> public_list_clean(values@),
        r matches Err(e) ==> is_error_at(e, *located, code@),
{
    let mut i: usize = 0;
    while i < values.len()
        invariant
            0 <= i <= values@.len(),
            forall|k: int| 0 <= k < i ==> present(#[trigger] values@[k]@) && !has_v326_token(values@[k]@),
        decreases values.len() - i,
    {
        check_required(located, code, field, values[i].as_str())?;
        check_v326_tokens(located, code, field, values[i].as_str())?;
        i = i + 1;
    }
    Ok(())
}

/// The texts of a source reference are free of the forbidden tokens.
pub open spec fn source_ref_clean(s: V326SourceRef) -> bool {
    !has_v326_token(s.path@) && opt_v326_clean(s.symbol_path) && opt_v326_clean(s.text_sha256)
}

pub fn check_source_ref_tokens<T>(located: &Located<T>, code: &'static str, source_ref: &V326SourceRef) -> (r:
    Result<(), ModelError>)
    ensures
        r is Ok <==> source_ref_clean(*source_ref),
        r matches Err(e) ==> is_error_at(e, *located, code@),
{
    check_v326_tokens(located, code, "source_ref.path", source_ref.path.as_str())?;
    check_v326_opt_tokens(located, code, "source_ref.symbol_path", &source_ref.symbol_path)?;
    check_v326_opt_tokens(located, code, "source_ref.text_sha256", &source_ref.text_sha256)
}

} // verus!

verus! {

/// The error of one required public text: blank, or carrying a forbidden token.
pub open spec fn field_error(v: Seq<char>, required: Seq<char>, token: Seq<char>) -> Option<Seq<char>> {
    if !present(v) {
        Some(required)
    } else if has_v326_token(v) {
        Some(token)
    } else {
        None
    }
}

/// The first error among required public texts checked one after the other.
pub open spec fn first_field_error(vs: Seq<Seq<char>>, required: Seq<char>, token: Seq<char>) -> Option<
    Seq<char>,
>
    decreases vs.len(),
{
    if vs.len() == 0 {
        None
    } else if field_error(vs[0], required, token) is Some {
        field_error(vs[0], required, token)
    } else {
        first_field_error(vs.drop_first(), required, token)
    }
}

/// A required public text: present, then free of the forbidden tokens.
pub fn check_field<T>(
    located: &Located<T>,
    required: &'static str,
    token: &'static str,
    field: &str,
    value: &str,
) -> (r: Result<(), ModelError>)
    ensures
        match field_error(value@, required@, token@) {
            None => r is Ok,
            Some(code) => r matches Err(e) && is_error_at(e, *located, code),
        },
{
    check_required(located, required, field, value)?;
    check_v326_tokens(located, token, field, value)
}

} // verus!
