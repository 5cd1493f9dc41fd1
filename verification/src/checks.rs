//! Field checks shared by the validators of versioned records.

use vstd::prelude::*;

use crate::error::{error_at, is_error_at, Located, ModelError};
use crate::public_tokens::{has_forbidden_token, reject_public_forbidden_token};
use crate::static_fact::present;
use crate::text::{chars_of, concat2, str_is_blank};

verus! {

/// A `..` path component occurs in the text, with `/` as the separator.
pub open spec fn has_parent_dir_component(s: Seq<char>) -> bool {
    exists|i: int|
        0 <= i && i + 2 <= s.len() && #[trigger] s[i] == '.' && s[i + 1] == '.' && (i == 0 || s[i
            - 1] == '/') && (i + 2 == s.len() || s[i + 2] == '/')
}

/// A relative reference: not rooted at `/` and without a `..` component.
pub open spec fn is_relative_ref(s: Seq<char>) -> bool {
    !(s.len() > 0 && s[0] == '/') && !has_parent_dir_component(s)
}

pub fn relative_ref(value: &str) -> (b: bool)
    ensures
        b == is_relative_ref(value@),
{
    let cs = chars_of(value);
    if cs.len() > 0 && cs[0] == '/' {
        return false;
    }
    let mut i: usize = 0;
    while i < cs.len() && cs.len() - i >= 2
        invariant
            cs@ == value@,
            0 <= i <= cs.len(),
            forall|k: int|
                0 <= k < i ==> !(k + 2 <= cs@.len() && #[trigger] cs@[k] == '.' && cs@[k + 1] == '.'
                    && (k == 0 || cs@[k - 1] == '/') && (k + 2 == cs@.len() || cs@[k + 2] == '/')),
        decreases cs.len() - i,
    {
        if cs[i] == '.' && cs[i + 1] == '.' && (i == 0 || cs[i - 1] == '/') && (i + 2 == cs.len()
            || cs[i + 2] == '/') {
            return false;
        }
        i = i + 1;
    }
    assert forall|k: int| !(0 <= k && k + 2 <= cs@.len() && #[trigger] cs@[k] == '.' && cs@[k + 1] == '.' && (k == 0 || cs@[k - 1] == '/') && (k + 2 == cs@.len() || cs@[k + 2] == '/')) by {
        if 0 <= k < i {
        }
    }
    true
}

/// A required text field is present, else the located error with `code`.
pub fn check_required<T>(
    located: &Located<T>,
    code: &'static str,
    field: &str,
    value: &str,
) -> (r: Result<(), ModelError>)
    ensures
        r is Ok <==> present(value@),
        r matches Err(e) ==> is_error_at(e, *located, code@),
{
    if str_is_blank(value) {
        return Err(error_at(located, code, concat2(field, " 不能为空")));
    }
    Ok(())
}

/// A public text carries no forbidden identity token, else the located error with `code`.
pub fn check_tokens<T>(
    located: &Located<T>,
    code: &'static str,
    field: &str,
    value: &str,
) -> (r: Result<(), ModelError>)
    ensures
        r is Ok <==> !has_forbidden_token(value@),
        r matches Err(e) ==> is_error_at(e, *located, code@),
{
    match reject_public_forbidden_token(field, value) {
        Ok(()) => Ok(()),
        Err(message) => Err(error_at(located, code, message)),
    }
}

/// Every public text of a list carries no forbidden identity token.
pub open spec fn all_token_free(values: Seq<String>) -> bool {
    forall|i: int| 0 <= i < values.len() ==> !has_forbidden_token(#[trigger] values[i]@)
}

pub fn check_tokens_all<T>(
    located: &Located<T>,
    code: &'static str,
    field: &str,
    values: &Vec<String>,
) -> (r: Result<(), ModelError>)
    ensures
        r is Ok <==> all_token_free(values@),
        r matches Err(e) ==> is_error_at(e, *located, code@),
{
    let mut i: usize = 0;
    while i < values.len()
        invariant
            0 <= i <= values@.len(),
            forall|k: int| 0 <= k < i ==> !has_forbidden_token(#[trigger] values@[k]@),
        decreases values.len() - i,
    {
        check_tokens(located, code, field, values[i].as_str())?;
        i = i + 1;
    }
    Ok(())
}

/// A check that fails with a located error when `ok` is false.
pub fn require<T>(located: &Located<T>, ok: bool, code: &'static str, message: &str) -> (r: Result<
    (),
    ModelError,
>)
    ensures
        r is Ok <==> ok,
        r matches Err(e) ==> is_error_at(e, *located, code@),
{
    if ok {
        Ok(())
    } else {
        Err(error_at(located, code, crate::text::owned(message)))
    }
}

/// Whether the text occurs among the earlier texts.
pub fn contains_text(seen: &Vec<String>, value: &String) -> (b: bool)
    ensures
        b == exists|k: int| 0 <= k < seen@.len() && (#[trigger] seen@[k])@ == value@,
{
    let mut i: usize = 0;
    while i < seen.len()
        invariant
            0 <= i <= seen@.len(),
            forall|k: int| 0 <= k < i ==> (#[trigger] seen@[k])@ != value@,
        decreases seen.len() - i,
    {
        if seen[i] == *value {
            return true;
        }
        i = i + 1;
    }
    false
}

} // verus!
