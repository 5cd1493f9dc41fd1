//! Character-level helpers over `str` views.

use vstd::prelude::*;

verus! {

/// The characters of a string slice, in order.
pub fn chars_of(s: &str) -> (res: Vec<char>)
    ensures
        res@ == s@,
{
    let mut res: Vec<char> = Vec::new();
    for c in it: s.chars()
        invariant
            res@ == it.seq().take(it.index() as int),
            it.seq() == s@,
    {
        res.push(c);
    }
    res
}

/// Unicode `White_Space` property, the set that `char::is_whitespace` and `str::trim` use.
pub open spec fn is_white_space(c: char) -> bool {
    ||| (0x09 <= c as u32 && c as u32 <= 0x0D)
    ||| c as u32 == 0x20
    ||| c as u32 == 0x85
    ||| c as u32 == 0xA0
    ||| c as u32 == 0x1680
    ||| (0x2000 <= c as u32 && c as u32 <= 0x200A)
    ||| c as u32 == 0x2028
    ||| c as u32 == 0x2029
    ||| c as u32 == 0x202F
    ||| c as u32 == 0x205F
    ||| c as u32 == 0x3000
}

pub fn char_is_white_space(c: char) -> (b: bool)
    ensures
        b == is_white_space(c),
{
    let v: u32 = c as u32;
    (0x09 <= v && v <= 0x0D) || v == 0x20 || v == 0x85 || v == 0xA0 || v == 0x1680 || (0x2000
        <= v && v <= 0x200A) || v == 0x2028 || v == 0x2029 || v == 0x202F || v == 0x205F || v
        == 0x3000
}

/// A text is blank when nothing is left of it after trimming white space.
pub open spec fn is_blank(s: Seq<char>) -> bool {
    forall|i: int| 0 <= i < s.len() ==> is_white_space(#[trigger] s[i])
}

pub fn str_is_blank(s: &str) -> (b: bool)
    ensures
        b == is_blank(s@),
{
    let cs = chars_of(s);
    let mut i: usize = 0;
    while i < cs.len()
        invariant
            cs@ == s@,
            0 <= i <= cs.len(),
            forall|k: int| 0 <= k < i ==> is_white_space(#[trigger] s@[k]),
        decreases cs.len() - i,
    {
        if !char_is_white_space(cs[i]) {
            return false;
        }
        i = i + 1;
    }
    true
}

pub open spec fn is_ascii_alnum(c: char) -> bool {
    ||| ('0' <= c && c <= '9')
    ||| ('a' <= c && c <= 'z')
    ||| ('A' <= c && c <= 'Z')
}

pub fn char_is_ascii_alnum(c: char) -> (b: bool)
    ensures
        b == is_ascii_alnum(c),
{
    ('0' <= c && c <= '9') || ('a' <= c && c <= 'z') || ('A' <= c && c <= 'Z')
}

pub open spec fn ascii_lower(c: char) -> char {
    if 'A' <= c && c <= 'Z' {
        ((c as u32) + 32) as char
    } else {
        c
    }
}

pub fn char_ascii_lower(c: char) -> (r: char)
    ensures
        r == ascii_lower(c),
{
    if 'A' <= c && c <= 'Z' {
        let v: u32 = (c as u32) + 32;
        assert(0x61 <= v <= 0x7a);
        v as u8 as char
    } else {
        c
    }
}

/// An owned copy of a string slice.
pub fn owned(s: &str) -> (r: String)
    ensures
        r@ == s@,
{
    s.to_owned()
}

/// Concatenation of two string slices.
pub fn concat2(a: &str, b: &str) -> (r: String)
    ensures
        r@ == a@ + b@,
{
    let mut r = a.to_owned();
    r.append(b);
    r
}

/// Concatenation of three string slices.
pub fn concat3(a: &str, b: &str, c: &str) -> (r: String)
    ensures
        r@ == a@ + b@ + c@,
{
    let mut r = a.to_owned();
    r.append(b);
    r.append(c);
    r
}

} // verus!

verus! {

/// Strict lexicographic order of texts by code point.
pub open spec fn text_lt(a: Seq<char>, b: Seq<char>) -> bool
    decreases a.len(),
{
    if b.len() == 0 {
        false
    } else if a.len() == 0 {
        true
    } else if a[0] < b[0] {
        true
    } else if a[0] == b[0] {
        text_lt(a.drop_first(), b.drop_first())
    } else {
        false
    }
}

/// Non-strict lexicographic order of texts by code point.
pub open spec fn text_le(a: Seq<char>, b: Seq<char>) -> bool {
    !text_lt(b, a)
}

/// Texts in non-decreasing order.
pub open spec fn texts_sorted(s: Seq<Seq<char>>) -> bool {
    forall|i: int| 0 <= i < s.len() - 1 ==> text_le(#[trigger] s[i], s[i + 1])
}

pub proof fn lemma_text_lt_asymmetric(a: Seq<char>, b: Seq<char>)
    ensures
        text_lt(a, b) ==> !text_lt(b, a),
    decreases a.len(),
{
    if a.len() > 0 && b.len() > 0 && a[0] == b[0] {
        lemma_text_lt_asymmetric(a.drop_first(), b.drop_first());
    }
}

pub proof fn lemma_text_lt_total(a: Seq<char>, b: Seq<char>)
    ensures
        a != b ==> text_lt(a, b) || text_lt(b, a),
    decreases a.len(),
{
    if a.len() > 0 && b.len() > 0 && a[0] == b[0] {
        lemma_text_lt_total(a.drop_first(), b.drop_first());
        if a.drop_first() == b.drop_first() {
            assert(a =~= seq![a[0]] + a.drop_first());
            assert(b =~= seq![b[0]] + b.drop_first());
        }
    } else if a.len() == 0 && b.len() == 0 {
        assert(a =~= b);
    }
}

pub proof fn lemma_text_lt_transitive(a: Seq<char>, b: Seq<char>, c: Seq<char>)
    requires
        text_lt(a, b),
        text_lt(b, c),
    ensures
        text_lt(a, c),
    decreases a.len(),
{
    if a.len() > 0 && b.len() > 0 && c.len() > 0 && a[0] == b[0] && b[0] == c[0] {
        lemma_text_lt_transitive(a.drop_first(), b.drop_first(), c.drop_first());
    }
}

pub proof fn lemma_text_lt_irreflexive(a: Seq<char>)
    ensures
        !text_lt(a, a),
    decreases a.len(),
{
    if a.len() > 0 {
        lemma_text_lt_irreflexive(a.drop_first());
    }
}

/// Whether `a` comes strictly before `b` in lexicographic code-point order.
pub fn text_less(a: &str, b: &str) -> (r: bool)
    ensures
        r == text_lt(a@, b@),
{
    let x = chars_of(a);
    let y = chars_of(b);
    let mut i: usize = 0;
    assert(a@.skip(0) =~= a@);
    assert(b@.skip(0) =~= b@);
    while i < x.len() && i < y.len() && x[i] == y[i]
        invariant
            x@ == a@,
            y@ == b@,
            0 <= i <= x.len(),
            i <= y.len(),
            text_lt(a@, b@) == text_lt(a@.skip(i as int), b@.skip(i as int)),
        decreases x.len() - i,
    {
        assert(a@.skip(i as int).drop_first() =~= a@.skip(i + 1));
        assert(b@.skip(i as int).drop_first() =~= b@.skip(i + 1));
        i = i + 1;
    }
    if i == y.len() {
        false
    } else if i == x.len() {
        true
    } else {
        x[i] < y[i]
    }
}

/// Sorts texts into lexicographic code-point order, keeping every occurrence.
pub fn sort_texts(v: Vec<String>) -> (r: Vec<String>)
    ensures
        texts_sorted(r@.map_values(|s: String| s@)),
        r@.map_values(|s: String| s@).to_multiset() == v@.map_values(|s: String| s@).to_multiset(),
{
    broadcast use vstd::seq_lib::group_to_multiset_ensures;

    let mut r: Vec<String> = Vec::new();
    let mut i: usize = 0;
    while i < v.len()
        invariant
            0 <= i <= v.len(),
            texts_sorted(r@.map_values(|s: String| s@)),
            r@.map_values(|s: String| s@).to_multiset() == v@.take(i as int).map_values(
                |s: String| s@,
            ).to_multiset(),
        decreases v.len() - i,
    {
        let x = v[i].clone();
        let mut p: usize = 0;
        while p < r.len() && !text_less(x.as_str(), r[p].as_str())
            invariant
                0 <= p <= r.len(),
                forall|k: int| 0 <= k < p ==> !text_lt(x@, #[trigger] r@[k]@),
            decreases r.len() - p,
        {
            p = p + 1;
        }
        let ghost old_r = r@;
        let ghost old_t = old_r.map_values(|s: String| s@);
        r.insert(p, x);
        let ghost new_t = r@.map_values(|s: String| s@);
        assert(new_t =~= old_t.insert(p as int, x@));
        proof {
            vstd::seq_lib::to_multiset_insert(old_t, p as int, x@);
            vstd::seq_lib::to_multiset_build(
                v@.take(i as int).map_values(|s: String| s@),
                v@[i as int]@,
            );
        }
        assert(v@.take(i + 1).map_values(|s: String| s@) =~= v@.take(i as int).map_values(
            |s: String| s@,
        ).push(v@[i as int]@));
        assert forall|k: int| 0 <= k < new_t.len() - 1 implies text_le(
            #[trigger] new_t[k],
            new_t[k + 1],
        ) by {
            if k < p as int - 1 {
                assert(new_t[k] == old_t[k] && new_t[k + 1] == old_t[k + 1]);
            } else if k == p as int - 1 {
                assert(new_t[k] == old_t[k]);
                assert(!text_lt(x@, old_r[k]@));
            } else if k == p as int {
                assert(p < old_r.len());
                lemma_text_lt_asymmetric(x@, old_t[p as int]);
            } else {
                assert(new_t[k] == old_t[k - 1] && new_t[k + 1] == old_t[k]);
            }
        }
        i = i + 1;
    }
    assert(v@.take(v@.len() as int) =~= v@);
    r
}

} // verus!

verus! {

/// The text without its first `n` characters.
pub fn skip_chars(s: &str, n: usize) -> (r: String)
    requires
        n <= s@.len(),
    ensures
        r@ == s@.skip(n as int),
{
    let len = s.unicode_len();
    let tail = s.substring_char(n, len);
    assert(s@.subrange(n as int, len as int) =~= s@.skip(n as int));
    tail.to_owned()
}

/// Whether `s` begins with `prefix`.
pub fn starts_with(s: &str, prefix: &str) -> (b: bool)
    ensures
        b == (prefix@.len() <= s@.len() && s@.take(prefix@.len() as int) == prefix@),
{
    let x = chars_of(s);
    let p = chars_of(prefix);
    if p.len() > x.len() {
        return false;
    }
    let mut i: usize = 0;
    while i < p.len()
        invariant
            x@ == s@,
            p@ == prefix@,
            p.len() <= x.len(),
            0 <= i <= p.len(),
            forall|k: int| 0 <= k < i ==> x@[k] == p@[k],
        decreases p.len() - i,
    {
        if x[i] != p[i] {
            assert(s@.take(prefix@.len() as int)[i as int] != prefix@[i as int]);
            return false;
        }
        i = i + 1;
    }
    assert(s@.take(prefix@.len() as int) =~= prefix@);
    true
}

} // verus!

verus! {

/// The decimal digit character of a number below ten.
pub open spec fn digit_char(d: nat) -> char {
    if d == 0 { '0' }
    else if d == 1 { '1' }
    else if d == 2 { '2' }
    else if d == 3 { '3' }
    else if d == 4 { '4' }
    else if d == 5 { '5' }
    else if d == 6 { '6' }
    else if d == 7 { '7' }
    else if d == 8 { '8' }
    else { '9' }
}

/// The decimal notation of a natural number, without sign or leading zeros.
pub open spec fn decimal(n: nat) -> Seq<char>
    decreases n,
{
    if n < 10 {
        seq![digit_char(n)]
    } else {
        decimal(n / 10).push(digit_char(n % 10))
    }
}

fn digit_str(d: u64) -> (r: &'static str)
    requires
        d < 10,
    ensures
        r@ == seq![digit_char(d as nat)],
{
    if d == 0 {
        proof { reveal_strlit("0"); }
        "0"
    } else if d == 1 {
        proof { reveal_strlit("1"); }
        "1"
    } else if d == 2 {
        proof { reveal_strlit("2"); }
        "2"
    } else if d == 3 {
        proof { reveal_strlit("3"); }
        "3"
    } else if d == 4 {
        proof { reveal_strlit("4"); }
        "4"
    } else if d == 5 {
        proof { reveal_strlit("5"); }
        "5"
    } else if d == 6 {
        proof { reveal_strlit("6"); }
        "6"
    } else if d == 7 {
        proof { reveal_strlit("7"); }
        "7"
    } else if d == 8 {
        proof { reveal_strlit("8"); }
        "8"
    } else {
        proof { reveal_strlit("9"); }
        "9"
    }
}

/// The decimal notation of a number, as `Display` writes it.
pub fn decimal_string(n: u64) -> (r: String)
    ensures
        r@ == decimal(n as nat),
    decreases n,
{
    if n < 10 {
        owned(digit_str(n))
    } else {
        let mut r = decimal_string(n / 10);
        r.append(digit_str(n % 10));
        r
    }
}

} // verus!

verus! {

/// A copy of a list of texts, equal to it.
pub fn clone_texts(v: &Vec<String>) -> (r: Vec<String>)
    ensures
        r@ == v@,
{
    let mut r: Vec<String> = Vec::new();
    let mut i: usize = 0;
    while i < v.len()
        invariant
            0 <= i <= v@.len(),
            r@ == v@.take(i as int),
        decreases v.len() - i,
    {
        r.push(v[i].clone());
        assert(r@ =~= v@.take(i + 1));
        i = i + 1;
    }
    assert(v@.take(v@.len() as int) =~= v@);
    r
}

} // verus!

verus! {

/// `pat` occurs in `text` at `start`, comparing the text after ASCII lower-casing.
pub open spec fn lower_occurs_at(text: Seq<char>, pat: Seq<char>, start: int) -> bool {
    &&& 0 <= start
    &&& start + pat.len() <= text.len()
    &&& forall|k: int| 0 <= k < pat.len() ==> ascii_lower(#[trigger] text[start + k]) == pat[k]
}

/// `pat` occurs somewhere in the ASCII lower-cased text, as `to_ascii_lowercase().contains`
/// finds it.
pub open spec fn lower_contains(text: Seq<char>, pat: Seq<char>) -> bool {
    exists|start: int| lower_occurs_at(text, pat, start)
}

/// Whether `pat` occurs in `text` once the text is ASCII lower-cased.
pub fn lowercase_contains(text: &str, pat: &str) -> (b: bool)
    ensures
        b == lower_contains(text@, pat@),
{
    let t = chars_of(text);
    let p = chars_of(pat);
    if p.len() > t.len() {
        return false;
    }
    let mut start: usize = 0;
    while start <= t.len() - p.len()
        invariant
            t@ == text@,
            p@ == pat@,
            p.len() <= t.len(),
            0 <= start <= t.len() - p.len() + 1,
            forall|s: int| 0 <= s < start ==> !lower_occurs_at(text@, pat@, s),
        decreases t.len() - start,
    {
        let mut k: usize = 0;
        let mut ok = true;
        while k < p.len()
            invariant
                t@ == text@,
                p@ == pat@,
                start + p.len() <= t.len(),
                0 <= k <= p.len(),
                ok == forall|j: int| 0 <= j < k ==> ascii_lower(#[trigger] text@[start + j]) == pat@[j],
            decreases p.len() - k,
        {
            if char_ascii_lower(t[start + k]) != p[k] {
                ok = false;
            }
            k = k + 1;
        }
        if ok {
            assert(lower_occurs_at(text@, pat@, start as int));
            return true;
        }
        start = start + 1;
    }
    assert forall|s: int| !lower_occurs_at(text@, pat@, s) by {
        if 0 <= s < start {
        }
    }
    false
}

} // verus!

verus! {

/// The text without its leading white space.
pub open spec fn trim_front(s: Seq<char>) -> Seq<char>
    decreases s.len(),
{
    if s.len() > 0 && is_white_space(s[0]) {
        trim_front(s.drop_first())
    } else {
        s
    }
}

/// The text without its trailing white space.
pub open spec fn trim_back(s: Seq<char>) -> Seq<char>
    decreases s.len(),
{
    if s.len() > 0 && is_white_space(s.last()) {
        trim_back(s.drop_last())
    } else {
        s
    }
}

/// The text without leading and trailing white space, as `str::trim` gives it.
pub open spec fn trimmed(s: Seq<char>) -> Seq<char> {
    trim_back(trim_front(s))
}

/// The text without leading and trailing white space.
pub fn trim_text(s: &str) -> (r: String)
    ensures
        r@ == trimmed(s@),
{
    let cs = chars_of(s);
    let n = cs.len();
    let mut a: usize = 0;
    assert(s@.skip(0) =~= s@);
    while a < n && char_is_white_space(cs[a])
        invariant
            cs@ == s@,
            n == cs.len(),
            0 <= a <= n,
            trim_front(s@) == trim_front(s@.skip(a as int)),
        decreases n - a,
    {
        assert(s@.skip(a as int).drop_first() =~= s@.skip(a + 1));
        a = a + 1;
    }
    let ghost front = s@.skip(a as int);
    assert(trim_front(s@) == front);
    let mut b: usize = n;
    assert(front.take(front.len() as int) =~= front);
    while b > a && char_is_white_space(cs[b - 1])
        invariant
            cs@ == s@,
            n == cs.len(),
            0 <= a <= b <= n,
            front == s@.skip(a as int),
            trim_back(front) == trim_back(front.take(b - a)),
        decreases b - a,
    {
        assert(front.take(b - a).drop_last() =~= front.take(b - 1 - a));
        b = b - 1;
    }
    assert(trim_back(front) == front.take(b - a));
    let sub = s.substring_char(a, b);
    assert(sub@ =~= front.take(b - a));
    sub.to_owned()
}

} // verus!

verus! {

/// Texts in strictly increasing order.
pub open spec fn texts_strictly_sorted(s: Seq<Seq<char>>) -> bool {
    forall|i: int| 0 <= i < s.len() - 1 ==> text_lt(#[trigger] s[i], s[i + 1])
}

/// The views of a list of strings.
pub open spec fn text_views(v: Seq<String>) -> Seq<Seq<char>> {
    v.map_values(|s: String| s@)
}

proof fn lemma_same_members_push(a: Seq<Seq<char>>, b: Seq<Seq<char>>, y: Seq<char>)
    requires
        forall|x: Seq<char>| a.contains(x) <==> b.contains(x),
    ensures
        forall|x: Seq<char>| a.push(y).contains(x) <==> b.push(y).contains(x),
{
    assert forall|x: Seq<char>| a.push(y).contains(x) <==> b.push(y).contains(x) by {
        if a.push(y).contains(x) && x != y {
            let k = choose|k: int| 0 <= k < a.push(y).len() && #[trigger] a.push(y)[k] == x;
            assert(a[k] == x);
            assert(a.contains(x));
            assert(b.contains(x));
            let q = choose|q: int| 0 <= q < b.len() && #[trigger] b[q] == x;
            assert(b.push(y)[q] == x);
        }
        if b.push(y).contains(x) && x != y {
            let k = choose|k: int| 0 <= k < b.push(y).len() && #[trigger] b.push(y)[k] == x;
            assert(b[k] == x);
            assert(b.contains(x));
            assert(a.contains(x));
            let q = choose|q: int| 0 <= q < a.len() && #[trigger] a[q] == x;
            assert(a.push(y)[q] == x);
        }
        if x == y {
            assert(a.push(y)[a.len() as int] == y);
            assert(b.push(y)[b.len() as int] == y);
        }
    }
}

proof fn lemma_same_members_repeat(a: Seq<Seq<char>>, b: Seq<Seq<char>>, y: Seq<char>)
    requires
        forall|x: Seq<char>| a.contains(x) <==> b.contains(x),
        a.len() > 0,
        a.last() == y,
    ensures
        forall|x: Seq<char>| a.contains(x) <==> b.push(y).contains(x),
{
    assert forall|x: Seq<char>| a.contains(x) <==> b.push(y).contains(x) by {
        assert(a[a.len() - 1] == y);
        if b.push(y).contains(x) && x != y {
            let k = choose|k: int| 0 <= k < b.push(y).len() && #[trigger] b.push(y)[k] == x;
            assert(b[k] == x);
            assert(b.contains(x));
        }
        if a.contains(x) && x != y {
            assert(b.contains(x));
            let q = choose|q: int| 0 <= q < b.len() && #[trigger] b[q] == x;
            assert(b.push(y)[q] == x);
        }
        if x == y {
            assert(b.push(y)[b.len() as int] == y);
        }
    }
}

/// The distinct texts of a list in increasing order, as an ordered set of them.
pub fn sorted_unique_texts(v: Vec<String>) -> (r: Vec<String>)
    ensures
        texts_strictly_sorted(text_views(r@)),
        text_views(r@).to_set() == text_views(v@).to_set(),
{
    broadcast use vstd::seq_lib::group_to_multiset_ensures;

    let sorted = sort_texts(v);
    let ghost vs = text_views(v@);
    let ghost ss = text_views(sorted@);
    assert forall|x: Seq<char>| ss.contains(x) <==> vs.contains(x) by {
        assert(ss.contains(x) <==> ss.to_multiset().count(x) > 0);
        assert(vs.contains(x) <==> vs.to_multiset().count(x) > 0);
    }
    let mut r: Vec<String> = Vec::new();
    let mut i: usize = 0;
    while i < sorted.len()
        invariant
            ss == text_views(sorted@),
            texts_sorted(ss),
            0 <= i <= ss.len(),
            texts_strictly_sorted(text_views(r@)),
            i > 0 ==> r@.len() > 0 && r@.last()@ == ss[i - 1],
            i == 0 ==> r@.len() == 0,
            forall|x: Seq<char>| text_views(r@).contains(x) <==> ss.take(i as int).contains(x),
        decreases sorted.len() - i,
    {
        let ghost rv = text_views(r@);
        let fresh = i == 0 || text_less(r[r.len() - 1].as_str(), sorted[i].as_str());
        proof {
            if i > 0 {
                assert(text_le(ss[i - 1], ss[i as int]));
                lemma_text_lt_total(ss[i - 1], ss[i as int]);
            }
        }
        if fresh {
            r.push(sorted[i].clone());
            assert(text_views(r@) =~= rv.push(ss[i as int]));
        }
        proof {
            let t0 = ss.take(i as int);
            assert(ss.take(i + 1) =~= t0.push(ss[i as int]));
            if fresh {
                lemma_same_members_push(rv, t0, ss[i as int]);
            } else {
                lemma_same_members_repeat(rv, t0, ss[i as int]);
            }
        }
        i = i + 1;
    }
    assert(ss.take(ss.len() as int) =~= ss);
    assert(text_views(r@).to_set() =~= vs.to_set());
    r
}

} // verus!
