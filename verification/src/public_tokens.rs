//! Words that must never appear as standalone tokens in public artifacts.

use vstd::prelude::*;

use crate::text::{
    ascii_lower, char_ascii_lower, char_is_ascii_alnum, chars_of, concat3, is_ascii_alnum,
};

verus! {

/// Number of forbidden public tokens.
pub const PUBLIC_FORBIDDEN_TOKEN_COUNT: usize = 9;

/// The forbidden public tokens, in the order in which they are looked for.
pub fn public_forbidden_token(i: usize) -> (t: &'static str)
    requires
        i < PUBLIC_FORBIDDEN_TOKEN_COUNT,
    ensures
        t@ == spec_public_forbidden_token(i as int),
{
    match i {
        0 => "vulnerable",
        1 => "fixed",
        2 => "cve",
        3 => "ghsa",
        4 => "expected",
        5 => "patch",
        6 => "advisory",
        7 => "poc",
        _ => "exploit",
    }
}

pub open spec fn spec_public_forbidden_token(i: int) -> Seq<char> {
    if i == 0 {
        "vulnerable"@
    } else if i == 1 {
        "fixed"@
    } else if i == 2 {
        "cve"@
    } else if i == 3 {
        "ghsa"@
    } else if i == 4 {
        "expected"@
    } else if i == 5 {
        "patch"@
    } else if i == 6 {
        "advisory"@
    } else if i == 7 {
        "poc"@
    } else {
        "exploit"@
    }
}

/// `token` occurs in `text` at `start`, compared after ASCII lower-casing, and is delimited on
/// both sides by the text's ends or by characters that are not ASCII letters or digits.
pub open spec fn bounded_token_at(text: Seq<char>, token: Seq<char>, start: int) -> bool {
    &&& 0 <= start
    &&& start + token.len() <= text.len()
    &&& forall|k: int| 0 <= k < token.len() ==> ascii_lower(#[trigger] text[start + k]) == token[k]
    &&& (start == 0 || !is_ascii_alnum(text[start - 1]))
    &&& (start + token.len() == text.len() || !is_ascii_alnum(text[start + token.len()]))
}

pub open spec fn has_bounded_token(text: Seq<char>, token: Seq<char>) -> bool {
    exists|start: int| bounded_token_at(text, token, start)
}

/// Index of the first forbidden token found in `text`, or `PUBLIC_FORBIDDEN_TOKEN_COUNT`.
pub open spec fn first_forbidden_token(text: Seq<char>, from: int) -> int
    decreases PUBLIC_FORBIDDEN_TOKEN_COUNT - from,
{
    if from >= PUBLIC_FORBIDDEN_TOKEN_COUNT || from < 0 {
        PUBLIC_FORBIDDEN_TOKEN_COUNT as int
    } else if has_bounded_token(text, spec_public_forbidden_token(from)) {
        from
    } else {
        first_forbidden_token(text, from + 1)
    }
}

pub open spec fn has_forbidden_token(text: Seq<char>) -> bool {
    first_forbidden_token(text, 0) < PUBLIC_FORBIDDEN_TOKEN_COUNT
}

pub open spec fn forbidden_token_message(field: Seq<char>, token: Seq<char>) -> Seq<char> {
    field + " 包含 V3.2 public artifact 禁止公开携带的身份线索 token `"@ + token + "`"@
}

fn bounded_token_at_exec(text: &Vec<char>, token: &Vec<char>, start: usize) -> (b: bool)
    requires
        start + token.len() <= text.len(),
    ensures
        b == bounded_token_at(text@, token@, start as int),
{
    let n = token.len();
    let mut k: usize = 0;
    while k < n
        invariant
            n == token.len(),
            start + n <= text.len(),
            0 <= k <= n,
            forall|j: int| 0 <= j < k ==> ascii_lower(#[trigger] text@[start + j]) == token@[j],
        decreases n - k,
    {
        if char_ascii_lower(text[start + k]) != token[k] {
            return false;
        }
        k = k + 1;
    }
    let before_ok = start == 0 || !char_is_ascii_alnum(text[start - 1]);
    let after_ok = start + n == text.len() || !char_is_ascii_alnum(text[start + n]);
    before_ok && after_ok
}

fn has_bounded_token_exec(text: &Vec<char>, token: &Vec<char>) -> (b: bool)
    ensures
        b == has_bounded_token(text@, token@),
{
    if token.len() > text.len() {
        assert forall|start: int| !bounded_token_at(text@, token@, start) by {}
        return false;
    }
    let last = text.len() - token.len();
    let mut start: usize = 0;
    loop
        invariant
            last == text.len() - token.len(),
            token.len() <= text.len(),
            start <= last,
            forall|s: int| 0 <= s < start ==> !bounded_token_at(text@, token@, s),
        ensures
            forall|s: int| 0 <= s <= last ==> !bounded_token_at(text@, token@, s),
        decreases last - start,
    {
        if bounded_token_at_exec(text, token, start) {
            return true;
        }
        if start == last {
            break;
        }
        start = start + 1;
    }
    assert forall|s: int| !bounded_token_at(text@, token@, s) by {
        if 0 <= s <= last {
        }
    }
    false
}

/// Rejects a public value that carries one of the identity tokens as a standalone word.
pub fn reject_public_forbidden_token(field: &str, value: &str) -> (r: Result<(), String>)
    ensures
        match r {
            Ok(()) => !has_forbidden_token(value@),
            Err(message) => {
                &&& has_forbidden_token(value@)
                &&& message@ == forbidden_token_message(
                    field@,
                    spec_public_forbidden_token(first_forbidden_token(value@, 0)),
                )
            },
        },
{
    let text = chars_of(value);
    let mut i: usize = 0;
    while i < PUBLIC_FORBIDDEN_TOKEN_COUNT
        invariant
            text@ == value@,
            0 <= i <= PUBLIC_FORBIDDEN_TOKEN_COUNT,
            first_forbidden_token(value@, 0) == first_forbidden_token(value@, i as int),
        decreases PUBLIC_FORBIDDEN_TOKEN_COUNT - i,
    {
        let token = public_forbidden_token(i);
        let token_chars = chars_of(token);
        if has_bounded_token_exec(&text, &token_chars) {
            let m = concat3(field, " 包含 V3.2 public artifact 禁止公开携带的身份线索 token `", token);
            let mut message = m;
            message.append("`");
            return Err(message);
        }
        i = i + 1;
    }
    Ok(())
}

} // verus!
