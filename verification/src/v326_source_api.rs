//! Source-API aliases of static facts: the module scope of a source path, the last symbol of a
//! symbol path, and the hashed alias that names an API by scope and symbol.

use vstd::prelude::*;

use crate::text::{
    ascii_lower, char_ascii_lower, chars_of, concat2, concat3, is_ascii_alnum, char_is_ascii_alnum, owned,
    skip_chars, starts_with, trim_text, trimmed,
};
use crate::v326_facts::has_prefix;
use crate::v326_static_fields::{first_occurrence, find_first, occurs_at, sha256_hex, sha256_lower_hex};

verus! {

/// The path with every backslash turned into a slash.
pub open spec fn normalized_path(path: Seq<char>) -> Seq<char> {
    path.map_values(|c: char| if c == '\\' { '/' } else { c })
}

/// Turns every backslash of the path into a slash.
pub fn normalize_static_path(path: &str) -> (r: String)
    ensures
        r@ == normalized_path(path@),
{
    let cs = chars_of(path);
    let mut r = String::new();
    let mut i: usize = 0;
    while i < cs.len()
        invariant
            cs@ == path@,
            0 <= i <= cs@.len(),
            r@ == normalized_path(path@.take(i as int)),
        decreases cs.len() - i,
    {
        let c = cs[i];
        if c == '\\' {
            proof {
                reveal_strlit("/");
            }
            r.append("/");
        } else {
            let piece = path.substring_char(i, i + 1);
            assert(piece@ =~= seq![c]);
            r.append(piece);
        }
        assert(normalized_path(path@.take(i + 1)) =~= normalized_path(path@.take(i as int)).push(
            if c == '\\' { '/' } else { c },
        ));
        i = i + 1;
    }
    assert(path@.take(path@.len() as int) =~= path@);
    r
}

/// The two texts are equal when ASCII letters are compared without case.
pub open spec fn eq_ignore_ascii_case(a: Seq<char>, b: Seq<char>) -> bool {
    a.len() == b.len() && forall|i: int| 0 <= i < a.len() ==> ascii_lower(#[trigger] a[i]) == ascii_lower(b[i])
}

/// Whether the texts are equal when ASCII letters are compared without case.
pub fn text_eq_ignore_ascii_case(a: &str, b: &str) -> (r: bool)
    ensures
        r == eq_ignore_ascii_case(a@, b@),
{
    let x = chars_of(a);
    let y = chars_of(b);
    if x.len() != y.len() {
        return false;
    }
    let mut i: usize = 0;
    while i < x.len()
        invariant
            x@ == a@,
            y@ == b@,
            x@.len() == y@.len(),
            0 <= i <= x@.len(),
            forall|k: int| 0 <= k < i ==> ascii_lower(#[trigger] x@[k]) == ascii_lower(y@[k]),
        decreases x.len() - i,
    {
        if char_ascii_lower(x[i]) != char_ascii_lower(y[i]) {
            return false;
        }
        i = i + 1;
    }
    true
}

/// The text with every trailing `.rs` removed.
pub open spec fn without_rs_suffixes(s: Seq<char>) -> Seq<char>
    decreases s.len(),
{
    if s.len() >= 3 && s.subrange(s.len() - 3, s.len() as int) == ".rs"@ {
        without_rs_suffixes(s.take(s.len() - 3))
    } else {
        s
    }
}

/// Splitting a text on a character, read from the left: the finished segments and the one
/// being read.
pub open spec fn split_state(s: Seq<char>, sep: char) -> (Seq<Seq<char>>, Seq<char>)
    decreases s.len(),
{
    if s.len() == 0 {
        (seq![], seq![])
    } else {
        let (done, cur) = split_state(s.drop_last(), sep);
        if s.last() == sep {
            (done.push(cur), seq![])
        } else {
            (done, cur.push(s.last()))
        }
    }
}

/// The segments of a text split on a character.
pub open spec fn split_on_char(s: Seq<char>, sep: char) -> Seq<Seq<char>> {
    split_state(s, sep).0.push(split_state(s, sep).1)
}

/// The segments that are neither empty nor `.`, in order.
pub open spec fn scope_segments(segs: Seq<Seq<char>>) -> Seq<Seq<char>>
    decreases segs.len(),
{
    if segs.len() == 0 {
        seq![]
    } else if segs.last().len() == 0 || segs.last() == "."@ {
        scope_segments(segs.drop_last())
    } else {
        scope_segments(segs.drop_last()).push(segs.last())
    }
}

/// The segments joined by `::`.
pub open spec fn join_path(segs: Seq<Seq<char>>) -> Seq<char>
    decreases segs.len(),
{
    if segs.len() == 0 {
        seq![]
    } else if segs.len() == 1 {
        segs[0]
    } else {
        join_path(segs.drop_last()) + "::"@ + segs.last()
    }
}

/// The part of a normalized path that names its module: without a leading `./`, from the `src/`
/// of its first `/src/` on, and without trailing `.rs`.
pub open spec fn scoped_path(path: Seq<char>) -> Seq<char> {
    let n = normalized_path(path);
    let a = if has_prefix(n, "./"@) { n.skip(2) } else { n };
    let b = match first_occurrence(a, "/src/"@) {
        Some(i) => a.skip(i + 1),
        None => a,
    };
    without_rs_suffixes(b)
}

/// The module scope of a source path: the segments of its scoped part that are neither empty
/// nor `.`, joined by `::`; none where no segment is left.
pub open spec fn source_scope(path: Seq<char>) -> Option<Seq<char>> {
    let segs = scope_segments(split_on_char(scoped_path(path), '/'));
    if segs.len() == 0 {
        None
    } else {
        Some(join_path(segs))
    }
}

fn strip_rs_suffixes(s: String) -> (r: String)
    ensures
        r@ == without_rs_suffixes(s@),
    decreases s@.len(),
{
    let n = s.unicode_len();
    if n >= 3 {
        let tail = s.as_str().substring_char(n - 3, n);
        let rs = ".rs";
        proof {
            reveal_strlit(".rs");
        }
        if owned(tail) == owned(rs) {
            let head = s.as_str().substring_char(0, n - 3);
            assert(head@ =~= s@.take(n - 3));
            return strip_rs_suffixes(owned(head));
        }
    }
    s
}

fn join_scope(segs: &Vec<String>) -> (r: String)
    ensures
        r@ == join_path(segs@.map_values(|s: String| s@)),
{
    let ghost views = segs@.map_values(|s: String| s@);
    let mut r = String::new();
    let mut i: usize = 0;
    while i < segs.len()
        invariant
            views == segs@.map_values(|s: String| s@),
            0 <= i <= segs@.len(),
            r@ == join_path(views.take(i as int)),
        decreases segs.len() - i,
    {
        assert(views.take(i + 1).drop_last() =~= views.take(i as int));
        if i == 0 {
            r = segs[0].clone();
            assert(views.take(1) =~= seq![views[0]]);
        } else {
            r = concat3(r.as_str(), "::", segs[i].as_str());
        }
        i = i + 1;
    }
    assert(views.take(views.len() as int) =~= views);
    r
}

/// The module scope of a source path, if any segment names one.
pub fn source_api_scope_from_path(path: &str) -> (r: Option<String>)
    ensures
        match r {
            Some(x) => source_scope(path@) == Some(x@),
            None => source_scope(path@) is None,
        },
{
    let n = normalize_static_path(path);
    let a = if starts_with(n.as_str(), "./") {
        proof {
            reveal_strlit("./");
        }
        skip_chars(n.as_str(), 2)
    } else {
        proof {
            reveal_strlit("./");
        }
        n
    };
    assert(a@ == (if has_prefix(n@, "./"@) { n@.skip(2) } else { n@ }));
    proof {
        reveal_strlit("/src/");
    }
    let a_len = a.unicode_len();
    let b = match find_first(a.as_str(), "/src/") {
        Some(i) => {
            assert(occurs_at(a@, "/src/"@, i as int));
            assert(i + 5 <= a_len);
            skip_chars(a.as_str(), i + 1)
        },
        None => a,
    };
    assert(without_rs_suffixes(b@) == scoped_path(path@));
    let c = strip_rs_suffixes(b);
    let cs = chars_of(c.as_str());
    let mut kept: Vec<String> = Vec::new();
    let mut start: usize = 0;
    let mut i: usize = 0;
    while i < cs.len()
        invariant
            cs@ == c@,
            0 <= start <= i <= cs@.len(),
            c@.subrange(start as int, i as int) == split_state(c@.take(i as int), '/').1,
            kept@.map_values(|s: String| s@) == scope_segments(split_state(c@.take(i as int), '/').0),
        decreases cs.len() - i,
    {
        assert(c@.take(i + 1).drop_last() =~= c@.take(i as int));
        let ghost before = kept@.map_values(|s: String| s@);
        let ghost st = split_state(c@.take(i as int), '/');
        assert(st.0.push(st.1).drop_last() =~= st.0);
        if cs[i] == '/' {
            let seg = owned(c.as_str().substring_char(start, i));
            proof {
                reveal_strlit(".");
            }
            if seg.unicode_len() > 0 && seg != owned(".") {
                kept.push(seg);
                assert(kept@.map_values(|s: String| s@) =~= before.push(c@.subrange(start as int, i as int)));
            }
            start = i + 1;
            assert(c@.subrange(start as int, i + 1) =~= Seq::<char>::empty());
        } else {
            assert(c@.subrange(start as int, i + 1) =~= c@.subrange(start as int, i as int).push(cs@[i as int]));
        }
        i = i + 1;
    }
    assert(c@.take(c@.len() as int) =~= c@);
    let seg = owned(c.as_str().substring_char(start, cs.len()));
    let ghost before = kept@.map_values(|s: String| s@);
    let ghost st = split_state(c@, '/');
    assert(st.0.push(st.1).drop_last() =~= st.0);
    assert(seg@ == st.1);
    proof {
        reveal_strlit(".");
    }
    if seg.unicode_len() > 0 && seg != owned(".") {
        kept.push(seg);
        assert(kept@.map_values(|s: String| s@) =~= before.push(c@.subrange(start as int, cs@.len() as int)));
    }
    if kept.len() == 0 {
        None
    } else {
        Some(join_scope(&kept))
    }
}

} // verus!

verus! {

/// A character of an identifier: an ASCII letter or digit, or `_`.
pub open spec fn is_ident_char(c: char) -> bool {
    is_ascii_alnum(c) || c == '_'
}

/// The longest prefix of the text made of identifier characters.
pub open spec fn ident_prefix(s: Seq<char>) -> Seq<char>
    decreases s.len(),
{
    if s.len() > 0 && is_ident_char(s[0]) {
        seq![s[0]] + ident_prefix(s.drop_first())
    } else {
        seq![]
    }
}

/// The text before its first `<`, or the whole text.
pub open spec fn before_angle(s: Seq<char>) -> Seq<char> {
    match first_occurrence(s, "<"@) {
        Some(i) => s.take(i),
        None => s,
    }
}

/// The symbol a path segment names: the identifier at the start of its part before any `<`,
/// trimmed; none where that is empty or starts with a digit.
pub open spec fn segment_symbol(segment: Seq<char>) -> Option<Seq<char>> {
    let symbol = ident_prefix(trimmed(before_angle(segment)));
    if symbol.len() == 0 || ('0' <= symbol[0] && symbol[0] <= '9') {
        None
    } else {
        Some(symbol)
    }
}

/// The parts of a text split on `::`, from the left.
pub open spec fn split_colons(s: Seq<char>) -> Seq<Seq<char>>
    decreases s.len(),
{
    match first_occurrence(s, "::"@) {
        Some(i) => if 0 <= i && i + 2 <= s.len() {
            seq![s.take(i)] + split_colons(s.skip(i + 2))
        } else {
            seq![s]
        },
        None => seq![s],
    }
}

/// The trimmed parts that are not empty, in order.
pub open spec fn symbol_segments(parts: Seq<Seq<char>>) -> Seq<Seq<char>>
    decreases parts.len(),
{
    if parts.len() == 0 {
        seq![]
    } else if trimmed(parts.last()).len() == 0 {
        symbol_segments(parts.drop_last())
    } else {
        symbol_segments(parts.drop_last()).push(trimmed(parts.last()))
    }
}

/// The symbol of the last segment that names one, passing over closure segments.
pub open spec fn last_symbol(segs: Seq<Seq<char>>) -> Option<Seq<char>>
    decreases segs.len(),
{
    if segs.len() == 0 {
        None
    } else if has_prefix(segs.last(), "{closure"@) {
        last_symbol(segs.drop_last())
    } else {
        match segment_symbol(segs.last()) {
            Some(x) => Some(x),
            None => last_symbol(segs.drop_last()),
        }
    }
}

/// The symbol that a symbol path ends in, if any.
pub open spec fn symbol_tail(symbol_path: Seq<char>) -> Option<Seq<char>> {
    last_symbol(symbol_segments(split_colons(symbol_path)))
}

/// The source-API alias of a symbol in a module scope: `source_api::` and the lower-case hex
/// SHA-256 of the scope, `::` and the symbol.
pub open spec fn source_alias(scope: Seq<char>, symbol: Seq<char>) -> Seq<char> {
    "source_api::"@ + sha256_lower_hex(scope + "::"@ + symbol)
}

fn ident_prefix_of(s: &str) -> (r: String)
    ensures
        r@ == ident_prefix(s@),
{
    let cs = chars_of(s);
    let mut i: usize = 0;
    while i < cs.len() && (char_is_ascii_alnum(cs[i]) || cs[i] == '_')
        invariant
            cs@ == s@,
            0 <= i <= cs@.len(),
            forall|k: int| 0 <= k < i ==> is_ident_char(#[trigger] s@[k]),
        decreases cs.len() - i,
    {
        i = i + 1;
    }
    proof {
        lemma_ident_prefix_stops(s@, i as int);
    }
    owned(s.substring_char(0, i))
}

proof fn lemma_ident_prefix_stops(s: Seq<char>, i: int)
    requires
        0 <= i <= s.len(),
        forall|k: int| 0 <= k < i ==> is_ident_char(#[trigger] s[k]),
        i == s.len() || !is_ident_char(s[i]),
    ensures
        ident_prefix(s) == s.take(i),
    decreases i,
{
    if i == 0 {
        assert(s.take(0) =~= Seq::<char>::empty());
    } else {
        assert(is_ident_char(s[0]));
        lemma_ident_prefix_stops(s.drop_first(), i - 1);
        assert(s.take(i) =~= seq![s[0]] + s.drop_first().take(i - 1));
    }
}

/// The symbol a path segment names, if any.
pub fn source_api_symbol_from_segment(segment: &str) -> (r: Option<String>)
    ensures
        match r {
            Some(x) => segment_symbol(segment@) == Some(x@),
            None => segment_symbol(segment@) is None,
        },
{
    proof {
        reveal_strlit("<");
    }
    let raw = match find_first(segment, "<") {
        Some(i) => owned(segment.substring_char(0, i)),
        None => owned(segment),
    };
    assert(raw@ == before_angle(segment@));
    let trimmed_raw = trim_text(raw.as_str());
    let symbol = ident_prefix_of(trimmed_raw.as_str());
    let n = symbol.unicode_len();
    if n == 0 {
        return None;
    }
    let first = symbol.as_str().get_char(0);
    if '0' <= first && first <= '9' {
        None
    } else {
        Some(symbol)
    }
}

/// The symbol that a symbol path ends in, if any: its `::` segments are trimmed, empty ones
/// dropped, and the last one that names a symbol and is not a closure gives it.
pub fn source_api_symbol_tails(symbol_path: &str) -> (r: Option<String>)
    ensures
        match r {
            Some(x) => symbol_tail(symbol_path@) == Some(x@),
            None => symbol_tail(symbol_path@) is None,
        },
{
    proof {
        reveal_strlit("::");
        reveal_strlit("{closure");
    }
    let mut parts: Vec<String> = Vec::new();
    let mut rest = owned(symbol_path);
    let mut done = false;
    while !done
        invariant
            done ==> parts@.map_values(|s: String| s@) == split_colons(symbol_path@),
            !done ==> split_colons(symbol_path@) == parts@.map_values(|s: String| s@) + split_colons(rest@),
        decreases rest@.len() + (if done { 0int } else { 1int }),
    {
        let ghost before = parts@.map_values(|s: String| s@);
        let ghost r0 = rest@;
        let n = rest.unicode_len();
        proof {
            reveal_strlit("::");
        }
        match find_first(rest.as_str(), "::") {
            Some(i) => {
                assert(occurs_at(r0, "::"@, i as int));
                assert(i + 2 <= n);
                let part = owned(rest.as_str().substring_char(0, i));
                let next = skip_chars(rest.as_str(), i + 2);
                assert(split_colons(r0) == seq![r0.take(i as int)] + split_colons(r0.skip(i + 2)));
                parts.push(part);
                assert(parts@.map_values(|s: String| s@) =~= before.push(r0.take(i as int)));
                assert(before + (seq![r0.take(i as int)] + split_colons(next@)) =~= before.push(
                    r0.take(i as int),
                ) + split_colons(next@));
                rest = next;
            },
            None => {
                assert(split_colons(r0) == seq![r0]);
                parts.push(rest.clone());
                assert(parts@.map_values(|s: String| s@) =~= before + seq![r0]);
                done = true;
            },
        }
    }
    let ghost pv = parts@.map_values(|s: String| s@);
    let mut segs: Vec<String> = Vec::new();
    let mut j: usize = 0;
    while j < parts.len()
        invariant
            pv == parts@.map_values(|s: String| s@),
            pv == split_colons(symbol_path@),
            0 <= j <= parts@.len(),
            segs@.map_values(|s: String| s@) == symbol_segments(pv.take(j as int)),
        decreases parts.len() - j,
    {
        let ghost before = segs@.map_values(|s: String| s@);
        assert(pv.take(j + 1).drop_last() =~= pv.take(j as int));
        assert(pv.take(j + 1).last() == parts@[j as int]@);
        let piece = trim_text(parts[j].as_str());
        if piece.unicode_len() > 0 {
            segs.push(piece);
            assert(segs@.map_values(|s: String| s@) =~= before.push(trimmed(parts@[j as int]@)));
        }
        j = j + 1;
    }
    assert(pv.take(pv.len() as int) =~= pv);
    assert(segs@.map_values(|s: String| s@).take(segs@.len() as int) =~= segs@.map_values(|s: String| s@));
    let mut k: usize = segs.len();
    while k > 0
        invariant
            0 <= k <= segs@.len(),
            symbol_tail(symbol_path@) == last_symbol(segs@.map_values(|s: String| s@).take(k as int)),
        decreases k,
    {
        let ghost views = segs@.map_values(|s: String| s@);
        assert(views.take(k as int).drop_last() =~= views.take(k - 1));
        assert(views.take(k as int).last() == segs@[k - 1]@);
        proof {
            reveal_strlit("{closure");
        }
        if !starts_with(segs[k - 1].as_str(), "{closure") {
            let found = source_api_symbol_from_segment(segs[k - 1].as_str());
            if found.is_some() {
                return found;
            }
        }
        k = k - 1;
    }
    None
}

/// The source-API alias of a symbol in a module scope.
pub fn source_api_alias(scope: &str, symbol: &str) -> (r: String)
    ensures
        r@ == source_alias(scope@, symbol@),
{
    let identity = concat3(scope, "::", symbol);
    let digest = sha256_hex(identity.as_str());
    proof {
        reveal_strlit("::");
        reveal_strlit("source_api::");
    }
    concat2("source_api::", digest.as_str())
}

} // verus!
