//! What the details of lifecycle evidence say: their `signal`, and whether their JSON text
//! mentions a word.

use vstd::prelude::*;

use crate::lifecycle_v326::{V326Details, V326EvidenceKind, V326LifecycleEvidenceRecord};
use crate::text::{ascii_lower, char_ascii_lower, chars_of};

verus! {

/// The text of the entry with the key, when its value is a text.
pub open spec fn entry_text(entries: Seq<(String, V326Details)>, key: Seq<char>) -> Option<Seq<char>>
    decreases entries.len(),
{
    if entries.len() == 0 {
        None
    } else if entries[0].0@ == key {
        match entries[0].1 {
            V326Details::Text(t) => Some(t@),
            _ => None,
        }
    } else {
        entry_text(entries.drop_first(), key)
    }
}

/// The `signal` text of evidence details that are an object.
pub open spec fn detail_signal(d: V326Details) -> Option<Seq<char>> {
    match d {
        V326Details::Object(entries) => entry_text(entries@, "signal"@),
        _ => None,
    }
}

/// The `signal` text of evidence details, if they have one.
pub fn details_signal(d: &V326Details) -> (r: Option<&String>)
    ensures
        match r {
            Some(t) => detail_signal(*d) == Some(t@),
            None => detail_signal(*d) is None,
        },
{
    match d {
        V326Details::Object(entries) => {
            let key = crate::text::owned("signal");
            let mut i: usize = 0;
            assert(entries@.skip(0) =~= entries@);
            while i < entries.len()
                invariant
                    0 <= i <= entries@.len(),
                    *d == V326Details::Object(*entries),
                    key@ == "signal"@,
                    entry_text(entries@, "signal"@) == entry_text(entries@.skip(i as int), "signal"@),
                decreases entries.len() - i,
            {
                assert(entries@.skip(i as int)[0] == entries@[i as int]);
                assert(entries@.skip(i as int).drop_first() =~= entries@.skip(i + 1));
                if entries[i].0 == key {
                    assert(entries@[i as int].0@ == "signal"@);
                    assert(entries@.skip(i as int)[0].0@ == "signal"@);
                    assert(entry_text(entries@.skip(i as int), "signal"@) == (match entries@[i as int].1 {
                        V326Details::Text(t) => Some(t@),
                        _ => None,
                    }));
                    assert(detail_signal(*d) == entry_text(entries@, "signal"@));
                    return match &entries[i].1 {
                        V326Details::Text(t) => Some(t),
                        _ => None,
                    };
                }
                i = i + 1;
            }
            None
        },
        _ => None,
    }
}

/// The hexadecimal digit of a number below sixteen, in lower case.
pub open spec fn hex_digit(n: u32) -> char {
    if n < 10 {
        (('0' as u32) + n) as char
    } else {
        (('a' as u32) + n - 10) as char
    }
}

/// A character as JSON writes it inside a string: quotes, backslashes and control characters
/// escaped, the others as they are.
pub open spec fn json_escape_char(c: char) -> Seq<char> {
    if c == '"' {
        seq!['\\', '"']
    } else if c == '\\' {
        seq!['\\', '\\']
    } else if c == '\n' {
        seq!['\\', 'n']
    } else if c == '\r' {
        seq!['\\', 'r']
    } else if c == '\t' {
        seq!['\\', 't']
    } else if c == '\u{8}' {
        seq!['\\', 'b']
    } else if c == '\u{c}' {
        seq!['\\', 'f']
    } else if (c as u32) < 0x20 {
        seq!['\\', 'u', '0', '0', hex_digit((c as u32) / 16), hex_digit((c as u32) % 16)]
    } else {
        seq![c]
    }
}

/// A text as JSON writes it inside a string.
pub open spec fn json_escaped(t: Seq<char>) -> Seq<char>
    decreases t.len(),
{
    if t.len() == 0 {
        Seq::empty()
    } else {
        json_escaped(t.drop_last()) + json_escape_char(t.last())
    }
}

fn hex_char(n: u32) -> (c: char)
    requires
        n < 16,
    ensures
        c == hex_digit(n),
{
    match n {
        0 => '0',
        1 => '1',
        2 => '2',
        3 => '3',
        4 => '4',
        5 => '5',
        6 => '6',
        7 => '7',
        8 => '8',
        9 => '9',
        10 => 'a',
        11 => 'b',
        12 => 'c',
        13 => 'd',
        14 => 'e',
        _ => 'f',
    }
}

fn push_escaped(out: &mut Vec<char>, c: char)
    ensures
        final(out)@ == old(out)@ + json_escape_char(c),
{
    let ghost o = out@;
    if c == '"' {
        out.push('\\');
        out.push('"');
    } else if c == '\\' {
        out.push('\\');
        out.push('\\');
    } else if c == '\n' {
        out.push('\\');
        out.push('n');
    } else if c == '\r' {
        out.push('\\');
        out.push('r');
    } else if c == '\t' {
        out.push('\\');
        out.push('t');
    } else if c == '\u{8}' {
        out.push('\\');
        out.push('b');
    } else if c == '\u{c}' {
        out.push('\\');
        out.push('f');
    } else if (c as u32) < 0x20 {
        let n = c as u32;
        out.push('\\');
        out.push('u');
        out.push('0');
        out.push('0');
        out.push(hex_char(n / 16));
        out.push(hex_char(n % 16));
    } else {
        out.push(c);
    }
    assert(out@ =~= o + json_escape_char(c));
}

fn escaped_chars(t: &str) -> (r: Vec<char>)
    ensures
        r@ == json_escaped(t@),
{
    let cs = chars_of(t);
    let mut out: Vec<char> = Vec::new();
    let mut i: usize = 0;
    assert(t@.take(0) =~= Seq::<char>::empty());
    while i < cs.len()
        invariant
            cs@ == t@,
            0 <= i <= cs@.len(),
            out@ == json_escaped(t@.take(i as int)),
        decreases cs.len() - i,
    {
        assert(t@.take(i + 1).drop_last() =~= t@.take(i as int));
        push_escaped(&mut out, cs[i]);
        i = i + 1;
    }
    assert(t@.take(t@.len() as int) =~= t@);
    out
}

/// The ASCII lower-cased text holds the pattern at `start`.
pub open spec fn lower_at(text: Seq<char>, pat: Seq<char>, start: int) -> bool {
    0 <= start && start + pat.len() <= text.len() && forall|k: int|
        0 <= k < pat.len() ==> ascii_lower(#[trigger] text[start + k]) == pat[k]
}

/// The ASCII lower-cased text holds the pattern.
pub open spec fn lower_holds(text: Seq<char>, pat: Seq<char>) -> bool {
    exists|start: int| lower_at(text, pat, start)
}

fn chars_lower_hold(t: &Vec<char>, pat: &str) -> (b: bool)
    ensures
        b == lower_holds(t@, pat@),
{
    let p = chars_of(pat);
    if p.len() > t.len() {
        return false;
    }
    let mut start: usize = 0;
    while start <= t.len() - p.len()
        invariant
            p@ == pat@,
            p.len() <= t.len(),
            0 <= start <= t.len() - p.len() + 1,
            forall|s: int| 0 <= s < start ==> !lower_at(t@, pat@, s),
        decreases t.len() - start,
    {
        let mut k: usize = 0;
        let mut ok = true;
        while k < p.len()
            invariant
                p@ == pat@,
                start + p.len() <= t.len(),
                0 <= k <= p.len(),
                ok == forall|j: int| 0 <= j < k ==> ascii_lower(#[trigger] t@[start + j]) == pat@[j],
            decreases p.len() - k,
        {
            if char_ascii_lower(t[start + k]) != p[k] {
                ok = false;
            }
            k = k + 1;
        }
        if ok {
            assert(lower_at(t@, pat@, start as int));
            return true;
        }
        start = start + 1;
    }
    assert forall|s: int| !lower_at(t@, pat@, s) by {
        if 0 <= s < start {
        }
    }
    false
}

/// Some key or text of the details, as JSON writes it, holds the pattern once ASCII letters are
/// lower-cased: a search of the details' JSON text, where a word without quotes, colons next to
/// quotes or digits only occurs inside one string.
pub open spec fn details_mention(d: V326Details, pat: Seq<char>) -> bool
    decreases d, 1int,
{
    match d {
        V326Details::Scalar => false,
        V326Details::Text(t) => lower_holds(json_escaped(t@), pat),
        V326Details::Array(items) => {
            proof {
                assert(decreases_to!(d => d->Array_0));
                assert(decreases_to!(d->Array_0 => d->Array_0@));
            }
            items_mention(items@, pat)
        },
        V326Details::Object(entries) => {
            proof {
                assert(decreases_to!(d => d->Object_0));
                assert(decreases_to!(d->Object_0 => d->Object_0@));
            }
            entries_mention(entries@, pat)
        },
    }
}

/// Some item mentions the pattern.
pub open spec fn items_mention(s: Seq<V326Details>, pat: Seq<char>) -> bool
    decreases s, 0int,
{
    if s.len() == 0 {
        false
    } else {
        items_mention(s.drop_last(), pat) || details_mention(s.last(), pat)
    }
}

/// Some key or value mentions the pattern.
pub open spec fn entries_mention(s: Seq<(String, V326Details)>, pat: Seq<char>) -> bool
    decreases s, 0int,
{
    if s.len() == 0 {
        false
    } else {
        proof {
            assert(decreases_to!(s => s[s.len() - 1]));
            assert(decreases_to!(s[s.len() - 1] => s[s.len() - 1].1));
        }
        entries_mention(s.drop_last(), pat) || lower_holds(json_escaped(s.last().0@), pat) || details_mention(
            s.last().1,
            pat,
        )
    }
}

fn text_mentions(t: &str, pat: &str) -> (b: bool)
    ensures
        b == lower_holds(json_escaped(t@), pat@),
{
    let e = escaped_chars(t);
    chars_lower_hold(&e, pat)
}

/// Whether the JSON text of the details mentions the pattern.
pub fn details_text_mentions(d: &V326Details, pat: &str) -> (b: bool)
    ensures
        b == details_mention(*d, pat@),
    decreases d,
{
    match d {
        V326Details::Scalar => false,
        V326Details::Text(t) => text_mentions(t.as_str(), pat),
        V326Details::Array(items) => {
            let mut i: usize = 0;
            assert(items@.take(0) =~= Seq::<V326Details>::empty());
            while i < items.len()
                invariant
                    0 <= i <= items@.len(),
                    *d == V326Details::Array(*items),
                    !items_mention(items@.take(i as int), pat@),
                decreases items.len() - i,
            {
                proof {
                    assert(decreases_to!(*d => d->Array_0));
                    assert(decreases_to!(d->Array_0 => d->Array_0@));
                    assert(decreases_to!(d->Array_0@ => d->Array_0@[i as int]));
                }
                assert(items@.take(i + 1).drop_last() =~= items@.take(i as int));
                if details_text_mentions(&items[i], pat) {
                    proof {
                        lemma_items_mention_grow(items@, i + 1, pat@);
                    }
                    return true;
                }
                i = i + 1;
            }
            assert(items@.take(items@.len() as int) =~= items@);
            false
        },
        V326Details::Object(entries) => {
            let mut i: usize = 0;
            assert(entries@.take(0) =~= Seq::<(String, V326Details)>::empty());
            while i < entries.len()
                invariant
                    0 <= i <= entries@.len(),
                    *d == V326Details::Object(*entries),
                    !entries_mention(entries@.take(i as int), pat@),
                decreases entries.len() - i,
            {
                proof {
                    assert(decreases_to!(*d => d->Object_0));
                    assert(decreases_to!(d->Object_0 => d->Object_0@));
                    assert(decreases_to!(d->Object_0@ => d->Object_0@[i as int]));
                    assert(decreases_to!(d->Object_0@[i as int] => d->Object_0@[i as int].1));
                }
                assert(entries@.take(i + 1).drop_last() =~= entries@.take(i as int));
                if text_mentions(entries[i].0.as_str(), pat) || details_text_mentions(&entries[i].1, pat) {
                    proof {
                        lemma_entries_mention_grow(entries@, i + 1, pat@);
                    }
                    return true;
                }
                i = i + 1;
            }
            assert(entries@.take(entries@.len() as int) =~= entries@);
            false
        },
    }
}

proof fn lemma_items_mention_grow(s: Seq<V326Details>, n: int, pat: Seq<char>)
    requires
        0 <= n <= s.len(),
        items_mention(s.take(n), pat),
    ensures
        items_mention(s, pat),
    decreases s.len() - n,
{
    if n < s.len() {
        assert(s.take(n + 1).drop_last() =~= s.take(n));
        lemma_items_mention_grow(s, n + 1, pat);
    } else {
        assert(s.take(n) =~= s);
    }
}

proof fn lemma_entries_mention_grow(s: Seq<(String, V326Details)>, n: int, pat: Seq<char>)
    requires
        0 <= n <= s.len(),
        entries_mention(s.take(n), pat),
    ensures
        entries_mention(s, pat),
    decreases s.len() - n,
{
    if n < s.len() {
        assert(s.take(n + 1).drop_last() =~= s.take(n));
        lemma_entries_mention_grow(s, n + 1, pat);
    } else {
        assert(s.take(n) =~= s);
    }
}

} // verus!
