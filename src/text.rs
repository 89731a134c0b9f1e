//! Character-level helpers on strings: equality, ASCII case folding and
//! splitting on ASCII whitespace.

use vstd::prelude::*;

verus! {

/// Whether two strings hold the same characters.
pub fn str_equals(a: &str, b: &str) -> (r: bool)
    ensures
        r == (a@ == b@),
{
    let n = a.unicode_len();
    if n != b.unicode_len() {
        return false;
    }
    let mut i: usize = 0;
    while i < n
        invariant
            n == a@.len(),
            n == b@.len(),
            i <= n,
            a@.take(i as int) == b@.take(i as int),
        decreases n - i,
    {
        if a.get_char(i) != b.get_char(i) {
            assert(a@[i as int] != b@[i as int]);
            return false;
        }
        assert(a@.take(i + 1) == a@.take(i as int).push(a@[i as int]));
        assert(b@.take(i + 1) == b@.take(i as int).push(b@[i as int]));
        i = i + 1;
    }
    assert(a@ == a@.take(n as int));
    assert(b@ == b@.take(n as int));
    true
}

/// Whether `c`, with an ASCII capital made small, is `l`.
pub open spec fn lowers_to(c: char, l: char) -> bool {
    c == l || ('A' <= c && c <= 'Z' && (c as u32) + 32 == l as u32)
}

/// Whether `a`, with its ASCII capitals made small, equals `lower`.
pub open spec fn lowered_equals(a: Seq<char>, lower: Seq<char>) -> bool {
    a.len() == lower.len() && forall|i: int| 0 <= i < a.len() ==> lowers_to(#[trigger] a[i], lower[i])
}

/// Whether `a`, with its ASCII capitals made small, equals `lower`.
pub fn lower_equals(a: &str, lower: &str) -> (r: bool)
    ensures
        r == lowered_equals(a@, lower@),
{
    let n = a.unicode_len();
    if n != lower.unicode_len() {
        return false;
    }
    let mut i: usize = 0;
    while i < n
        invariant
            n == a@.len(),
            n == lower@.len(),
            i <= n,
            forall|j: int| 0 <= j < i ==> lowers_to(#[trigger] a@[j], lower@[j]),
        decreases n - i,
    {
        let c = a.get_char(i);
        let l = lower.get_char(i);
        let ok = c == l || ('A' <= c && c <= 'Z' && (c as u32) + 32 == l as u32);
        if !ok {
            assert(!lowers_to(a@[i as int], lower@[i as int]));
            return false;
        }
        i = i + 1;
    }
    true
}

/// The characters that `u8::is_ascii_whitespace` accepts.
pub open spec fn is_ascii_ws(c: char) -> bool {
    c == ' ' || c == '\t' || c == '\n' || c == '\x0C' || c == '\r'
}

/// The fields finished, and the field being read, after reading `s` from
/// the left.
pub open spec fn split_progress(s: Seq<char>) -> (Seq<Seq<char>>, Seq<char>)
    decreases s.len(),
{
    if s.len() == 0 {
        (Seq::empty(), Seq::empty())
    } else {
        let (done, cur) = split_progress(s.drop_last());
        let c = s.last();
        if is_ascii_ws(c) {
            if cur.len() > 0 {
                (done.push(cur), Seq::empty())
            } else {
                (done, cur)
            }
        } else {
            (done, cur.push(c))
        }
    }
}

/// The maximal runs of characters other than ASCII whitespace in `s`, in order.
pub open spec fn ascii_fields(s: Seq<char>) -> Seq<Seq<char>> {
    let (done, cur) = split_progress(s);
    if cur.len() > 0 {
        done.push(cur)
    } else {
        done
    }
}

/// A non-empty run of characters with no ASCII whitespace: one field.
pub open spec fn is_single_field(t: Seq<char>) -> bool {
    t.len() > 0 && forall|i: int| 0 <= i < t.len() ==> !is_ascii_ws(#[trigger] t[i])
}

/// Reading characters that are not whitespace extends the field being read.
proof fn lemma_split_append_word(p: Seq<char>, w: Seq<char>)
    requires
        forall|i: int| 0 <= i < w.len() ==> !is_ascii_ws(#[trigger] w[i]),
    ensures
        split_progress(p + w) == (split_progress(p).0, split_progress(p).1 + w),
    decreases w.len(),
{
    if w.len() == 0 {
        assert(p + w =~= p);
        assert(split_progress(p).1 + w =~= split_progress(p).1);
    } else {
        let w0 = w.drop_last();
        assert forall|i: int| 0 <= i < w0.len() implies !is_ascii_ws(#[trigger] w0[i]) by {
            assert(w0[i] == w[i]);
        }
        lemma_split_append_word(p, w0);
        assert((p + w).drop_last() =~= p + w0);
        assert((p + w).last() == w[w.len() - 1]);
        assert(split_progress(p).1 + w0.push(w[w.len() - 1]) =~= split_progress(p).1 + w);
        assert(w0.push(w[w.len() - 1]) =~= w);
        assert((split_progress(p).1 + w0).push(w[w.len() - 1]) =~= split_progress(p).1 + w);
    }
}

/// Two fields joined by one space split back into those two fields.
pub proof fn lemma_fields_of_pair(a: Seq<char>, b: Seq<char>)
    requires
        is_single_field(a),
        is_single_field(b),
    ensures
        ascii_fields(a + seq![' '] + b) == seq![a, b],
{
    let e: Seq<char> = Seq::empty();
    lemma_split_append_word(e, a);
    assert(e + a =~= a);
    assert(split_progress(e).1 + a =~= a);
    let a1 = a + seq![' '];
    assert(a1.drop_last() =~= a);
    assert(a1.last() == ' ');
    assert(split_progress(a1) == (seq![a], e));
    lemma_split_append_word(a1, b);
    assert(e + b =~= b);
    assert(split_progress(a1 + b) == (seq![a], b));
    assert(seq![a].push(b) =~= seq![a, b]);
}

pub open spec fn strings_view(v: Seq<String>) -> Seq<Seq<char>> {
    v.map_values(|f: String| f@)
}

/// Splits `s` on runs of ASCII whitespace, dropping empty fields.
pub fn split_ascii_fields(s: &str) -> (r: Vec<String>)
    ensures
        strings_view(r@) == ascii_fields(s@),
{
    let n = s.unicode_len();
    let mut fields: Vec<String> = Vec::new();
    let mut start: usize = 0;
    let mut i: usize = 0;
    while i < n
        invariant
            n == s@.len(),
            start <= i <= n,
            split_progress(s@.take(i as int)) == (strings_view(fields@), s@.subrange(start as int, i as int)),
        decreases n - i,
    {
        let c = s.get_char(i);
        let ghost prev = s@.take(i as int);
        assert(s@.take(i + 1).drop_last() == prev);
        assert(s@.take(i + 1).last() == c);
        if c == ' ' || c == '\t' || c == '\n' || c == '\x0C' || c == '\r' {
            if start < i {
                let ghost before = fields@;
                let f = String::from_str(s.substring_char(start, i));
                fields.push(f);
                assert(fields@.drop_last() == before);
                assert(strings_view(fields@) == strings_view(before).push(f@));
            }
            start = i + 1;
        } else {
            assert(s@.subrange(start as int, i + 1) == s@.subrange(start as int, i as int).push(c));
        }
        i = i + 1;
    }
    assert(s@.take(n as int) == s@);
    if start < n {
        let ghost before = fields@;
        let f = String::from_str(s.substring_char(start, n));
        fields.push(f);
        assert(fields@.drop_last() == before);
        assert(strings_view(fields@) == strings_view(before).push(f@));
    }
    fields
}

} // verus!
