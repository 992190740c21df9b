//! Splitting a URL query string into its key/value pairs.
//!
//! A query is a run of segments separated by `&`; each segment is split at
//! its first `=` into key and value, with an empty value when no `=` is
//! present.  Pairs come back in order; folding repeated keys is the
//! caller's choice.

use vstd::prelude::*;

use crate::strutil::{chars_of, copy_range, string_from_chars};

verus! {

/// Position of the first occurrence of `c` in `s`.
pub open spec fn spec_char_pos(s: Seq<char>, c: char) -> Option<int>
    decreases s.len(),
{
    if s.len() == 0 {
        None
    } else if s[0] == c {
        Some(0int)
    } else {
        match spec_char_pos(s.drop_first(), c) {
            Some(i) => Some(i + 1),
            None => None,
        }
    }
}

pub proof fn lemma_char_pos_props(s: Seq<char>, c: char)
    ensures
        match spec_char_pos(s, c) {
            Some(i) => 0 <= i < s.len() && s[i] == c && (forall|j: int| 0 <= j < i ==> s[j] != c),
            None => forall|j: int| 0 <= j < s.len() ==> s[j] != c,
        },
    decreases s.len(),
{
    if s.len() > 0 && s[0] != c {
        lemma_char_pos_props(s.drop_first(), c);
        let t = s.drop_first();
        match spec_char_pos(t, c) {
            Some(i) => {
                assert(s[i + 1] == t[i]);
                assert forall|j: int| 0 <= j < i + 1 implies s[j] != c by {
                    if j > 0 {
                        assert(t[j - 1] == s[j]);
                    }
                }
            },
            None => {
                assert forall|j: int| 0 <= j < s.len() implies s[j] != c by {
                    if j > 0 {
                        assert(t[j - 1] == s[j]);
                    }
                }
            },
        }
    }
}

pub proof fn lemma_char_pos_first_match(s: Seq<char>, c: char, i: int)
    requires
        0 <= i < s.len(),
        s[i] == c,
        forall|j: int| 0 <= j < i ==> s[j] != c,
    ensures
        spec_char_pos(s, c) == Some(i),
    decreases s.len(),
{
    if i > 0 {
        lemma_char_pos_first_match(s.drop_first(), c, i - 1);
    }
}

pub proof fn lemma_char_pos_absent(s: Seq<char>, c: char)
    requires
        forall|j: int| 0 <= j < s.len() ==> s[j] != c,
    ensures
        spec_char_pos(s, c) is None,
    decreases s.len(),
{
    if s.len() > 0 {
        lemma_char_pos_absent(s.drop_first(), c);
    }
}

/// One segment split at its first `=`: key before it, value after it, and
/// an empty value when the segment has none.
pub open spec fn spec_kv(p: Seq<char>) -> (Seq<char>, Seq<char>) {
    match spec_char_pos(p, '=') {
        Some(i) => (p.subrange(0, i), p.subrange(i + 1, p.len() as int)),
        None => (p, Seq::<char>::empty()),
    }
}

/// The key/value pairs of a query text: segments between `&` separators,
/// each split at its first `=`.
pub open spec fn spec_split_pairs(s: Seq<char>) -> Seq<(Seq<char>, Seq<char>)>
    decreases s.len(),
{
    let p = spec_char_pos(s, '&');
    if p is Some && 0 <= p->0 < s.len() {
        let i = p->0;
        seq![spec_kv(s.subrange(0, i))] + spec_split_pairs(s.subrange(i + 1, s.len() as int))
    } else {
        seq![spec_kv(s)]
    }
}

/// The pairs of an optional query: none at all when the request carried no
/// query string.
pub open spec fn spec_parse_query(q: Option<Seq<char>>) -> Seq<(Seq<char>, Seq<char>)> {
    match q {
        Some(s) => spec_split_pairs(s),
        None => Seq::<(Seq<char>, Seq<char>)>::empty(),
    }
}

/// Finds the first `c` in `v` at or after `start`.
fn find_char_from(v: &Vec<char>, c: char, start: usize) -> (r: Option<usize>)
    requires
        start <= v@.len(),
    ensures
        ({
            let suffix = v@.subrange(start as int, v@.len() as int);
            match r {
                Some(i) => start <= i < v@.len() && spec_char_pos(suffix, c) == Some(
                    i - start as int,
                ),
                None => spec_char_pos(suffix, c) is None,
            }
        }),
{
    let ghost suffix = v@.subrange(start as int, v@.len() as int);
    let mut i: usize = start;
    while i < v.len()
        invariant
            start <= i <= v@.len(),
            suffix == v@.subrange(start as int, v@.len() as int),
            forall|j: int| 0 <= j < i - start ==> suffix[j] != c,
        decreases v@.len() - i,
    {
        assert(suffix[i - start as int] == v@[i as int]);
        if v[i] == c {
            proof {
                lemma_char_pos_first_match(suffix, c, i - start as int);
            }
            return Some(i);
        }
        i = i + 1;
    }
    proof {
        lemma_char_pos_absent(suffix, c);
    }
    None
}

/// Splits one segment of `v`, from `from` to `to`, at its first `=`.
fn split_segment(v: &Vec<char>, from: usize, to: usize) -> (r: (String, String))
    requires
        from <= to <= v@.len(),
    ensures
        ({
            let kv = spec_kv(v@.subrange(from as int, to as int));
            r.0@ == kv.0 && r.1@ == kv.1
        }),
{
    let ghost seg = v@.subrange(from as int, to as int);
    let mut found = false;
    let mut i: usize = from;
    while i < to && !found
        invariant
            from <= i <= to <= v@.len(),
            seg == v@.subrange(from as int, to as int),
            forall|j: int| 0 <= j < i - from ==> seg[j] != '=',
            found ==> i < to && seg[i - from as int] == '=',
        decreases to - i + (if found { 0int } else { 1int }),
    {
        assert(seg[i - from as int] == v@[i as int]);
        if v[i] == '=' {
            found = true;
        } else {
            i = i + 1;
        }
    }
    if found {
        proof {
            lemma_char_pos_first_match(seg, '=', i - from as int);
        }
        let key = copy_range(v, from, i);
        let value = copy_range(v, i + 1, to);
        assert(key@ =~= seg.subrange(0, i - from as int));
        assert(value@ =~= seg.subrange(i - from as int + 1, seg.len() as int));
        (string_from_chars(&key), string_from_chars(&value))
    } else {
        proof {
            lemma_char_pos_absent(seg, '=');
        }
        let key = copy_range(v, from, to);
        assert(key@ =~= seg);
        (string_from_chars(&key), String::new())
    }
}

/// The key/value pairs of a request's query string, in order of
/// appearance.
pub fn parse_query_string(raw_query: Option<&str>) -> (r: Vec<(String, String)>)
    ensures
        ({
            let model = spec_parse_query(
                match raw_query {
                    Some(q) => Some(q@),
                    None => None,
                },
            );
            &&& r@.len() == model.len()
            &&& forall|k: int|
                0 <= k < model.len() ==> (#[trigger] r@[k]).0@ == model[k].0 && r@[k].1@
                    == model[k].1
        }),
{
    let q = match raw_query {
        Some(q) => q,
        None => {
            return Vec::new();
        },
    };
    let cs = chars_of(q);
    let n = cs.len();
    let ghost whole = cs@;
    assert(whole.subrange(0, whole.len() as int) =~= whole);
    let mut out: Vec<(String, String)> = Vec::new();
    let mut start: usize = 0;
    loop
        invariant
            start <= whole.len(),
            whole == cs@,
            whole == q@,
            raw_query == Some(q),
            n == whole.len(),
            ({
                let model = spec_split_pairs(whole);
                let rest = spec_split_pairs(whole.subrange(start as int, whole.len() as int));
                &&& model.len() == out@.len() + rest.len()
                &&& forall|k: int|
                    0 <= k < out@.len() ==> (#[trigger] out@[k]).0@ == model[k].0 && out@[k].1@
                        == model[k].1
                &&& forall|k: int|
                    0 <= k < rest.len() ==> model[out@.len() + k] == rest[k]
            }),
        decreases whole.len() - start + 1,
    {
        let ghost rest_seq = whole.subrange(start as int, whole.len() as int);
        match find_char_from(&cs, '&', start) {
            Some(amp) => {
                let pair = split_segment(&cs, start, amp);
                proof {
                    let rest = spec_split_pairs(rest_seq);
                    let seg = rest_seq.subrange(0, amp - start as int);
                    let tail = rest_seq.subrange(amp - start as int + 1, rest_seq.len() as int);
                    assert(spec_char_pos(rest_seq, '&') == Some(amp - start as int));
                    assert(rest == seq![spec_kv(seg)] + spec_split_pairs(tail));
                    assert(seg =~= whole.subrange(start as int, amp as int));
                    assert(tail =~= whole.subrange(amp as int + 1, whole.len() as int));
                    assert(rest[0] == spec_kv(seg));
                    assert forall|k: int| 0 <= k < spec_split_pairs(tail).len() implies rest[k + 1]
                        == spec_split_pairs(tail)[k] by {}
                }
                out.push(pair);
                start = amp + 1;
            },
            None => {
                let pair = split_segment(&cs, start, n);
                let ghost out_before = out@;
                proof {
                    assert(spec_split_pairs(rest_seq) == seq![spec_kv(rest_seq)]);
                    assert(spec_split_pairs(rest_seq)[0] == spec_kv(rest_seq));
                }
                out.push(pair);
                proof {
                    let model = spec_split_pairs(whole);
                    let rest = spec_split_pairs(rest_seq);
                    assert(model.len() == out@.len());
                    assert(model[out_before.len() as int] == rest[0]);
                    assert(pair.0@ == spec_kv(rest_seq).0 && pair.1@ == spec_kv(rest_seq).1);
                    assert forall|k: int| 0 <= k < model.len() implies (#[trigger] out@[k]).0@
                        == model[k].0 && out@[k].1@ == model[k].1 by {
                        if k < out_before.len() {
                            assert(out@[k] == out_before[k]);
                        } else {
                            assert(out@[k] == pair);
                        }
                    }
                    assert(spec_parse_query(Some(q@)) == model);
                }
                return out;
            },
        }
    }
}

} // verus!
