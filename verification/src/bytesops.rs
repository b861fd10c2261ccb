//! Verified byte-sequence operations used by the processors: non-overlapping
//! substring replacement, and splitting on a separator byte with empty tokens
//! dropped (the shape of a line-delimited stream).

use vstd::prelude::*;

verus! {

/// Decides equality of two byte slices.
pub fn slice_eq(a: &[u8], b: &[u8]) -> (r: bool)
    ensures
        r <==> a@ == b@,
{
    if a.len() != b.len() {
        return false;
    }
    let mut i: usize = 0;
    while i < a.len()
        invariant
            a@.len() == b@.len(),
            0 <= i <= a@.len(),
            forall|j: int| 0 <= j < i ==> a@[j] == b@[j],
        decreases a@.len() - i,
    {
        if a[i] != b[i] {
            return false;
        }
        i = i + 1;
    }
    proof {
        assert(a@ =~= b@);
    }
    true
}

/// Copies a byte vector.
pub fn copy_bytes(v: &Vec<u8>) -> (r: Vec<u8>)
    ensures
        r@ == v@,
{
    let c = v.clone();
    proof {
        assert(c@ =~= v@);
    }
    c
}

/// What follows the first byte when an empty `from` interleaves `to` through
/// the input: each further byte is kept, with one copy of `to` inserted
/// before every byte that starts a character (a byte that is not a UTF-8
/// continuation byte), and one final copy at the very end.
pub open spec fn interleave_tail(s: Seq<u8>, to: Seq<u8>) -> Seq<u8>
    decreases s.len(),
{
    if s.len() == 0 {
        to
    } else if vstd::utf8::is_continuation_byte(s[0]) {
        seq![s[0]] + interleave_tail(s.skip(1), to)
    } else {
        to + seq![s[0]] + interleave_tail(s.skip(1), to)
    }
}

/// `s` with every non-overlapping occurrence of `from` replaced by `to`,
/// scanning left to right. With an empty `from`, `to` is inserted before
/// every character and at the end, as the standard library's substring
/// replacement does; any byte that is not a UTF-8 continuation byte counts
/// as starting a character, so on valid UTF-8 payloads the insertions fall
/// exactly on character boundaries.
pub open spec fn replace_bytes(s: Seq<u8>, from: Seq<u8>, to: Seq<u8>) -> Seq<u8>
    decreases s.len(),
{
    if from.len() == 0 {
        if s.len() == 0 {
            to
        } else {
            to + seq![s[0]] + interleave_tail(s.skip(1), to)
        }
    } else if s.len() < from.len() {
        s
    } else if s.subrange(0, from.len() as int) == from {
        to + replace_bytes(s.skip(from.len() as int), from, to)
    } else {
        seq![s[0]] + replace_bytes(s.skip(1), from, to)
    }
}

/// Whether a byte is a UTF-8 continuation byte (of the form `10xxxxxx`).
pub fn is_continuation(b: u8) -> (r: bool)
    ensures
        r == vstd::utf8::is_continuation_byte(b),
{
    0x80 <= b && b <= 0xbf
}

pub(crate) fn append_slice(out: &mut Vec<u8>, s: &[u8])
    ensures
        final(out)@ == old(out)@ + s@,
{
    proof {
        assert(out@ + s@.subrange(0, 0) =~= out@);
    }
    let mut i: usize = 0;
    while i < s.len()
        invariant
            0 <= i <= s@.len(),
            out@ == old(out)@ + s@.subrange(0, i as int),
        decreases s@.len() - i,
    {
        out.push(s[i]);
        proof {
            assert(old(out)@ + s@.subrange(0, i as int) + seq![s@[i as int]] =~= old(out)@
                + s@.subrange(0, i as int + 1));
        }
        i = i + 1;
    }
    proof {
        assert(old(out)@ + s@.subrange(0, s@.len() as int) =~= old(out)@ + s@);
    }
}

/// Replaces every non-overlapping occurrence of `from` in `s` by `to`,
/// scanning left to right.
pub fn replace_all_bytes(s: &[u8], from: &[u8], to: &[u8]) -> (r: Vec<u8>)
    ensures
        r@ == replace_bytes(s@, from@, to@),
{
    let mut out: Vec<u8> = Vec::new();
    let mut i: usize = 0;
    if from.len() == 0 {
        proof {
            assert(from@ =~= Seq::<u8>::empty());
        }
        append_slice(&mut out, to);
        if s.len() == 0 {
            proof {
                assert(out@ =~= to@);
                assert(replace_bytes(s@, from@, to@) =~= out@);
            }
            return out;
        }
        out.push(s[0]);
        proof {
            assert(out@ =~= to@ + seq![s@[0]]);
            assert(s@.skip(1) =~= s@.skip(1));
        }
        i = 1;
        while i < s.len()
            invariant
                from@.len() == 0,
                1 <= i <= s@.len(),
                s@.len() > 0,
                replace_bytes(s@, from@, to@) == out@ + interleave_tail(
                    s@.skip(i as int),
                    to@,
                ),
            decreases s@.len() - i,
        {
            let ghost o = out@;
            let ghost rem = s@.skip(i as int);
            if !is_continuation(s[i]) {
                append_slice(&mut out, to);
            }
            out.push(s[i]);
            proof {
                assert(rem.skip(1) =~= s@.skip(i as int + 1));
                assert(rem[0] == s@[i as int]);
                if vstd::utf8::is_continuation_byte(rem[0]) {
                    assert(interleave_tail(rem, to@) == seq![rem[0]] + interleave_tail(
                        rem.skip(1),
                        to@,
                    ));
                    assert(out@ =~= o + seq![rem[0]]);
                    assert(o + (seq![rem[0]] + interleave_tail(rem.skip(1), to@)) =~= (o
                        + seq![rem[0]]) + interleave_tail(rem.skip(1), to@));
                } else {
                    assert(interleave_tail(rem, to@) == to@ + seq![rem[0]] + interleave_tail(
                        rem.skip(1),
                        to@,
                    ));
                    assert(out@ =~= o + to@ + seq![rem[0]]);
                    assert(o + (to@ + seq![rem[0]] + interleave_tail(rem.skip(1), to@)) =~= (o
                        + to@ + seq![rem[0]]) + interleave_tail(rem.skip(1), to@));
                }
            }
            i = i + 1;
        }
        append_slice(&mut out, to);
        proof {
            assert(s@.skip(i as int) =~= Seq::<u8>::empty());
            assert(interleave_tail(Seq::<u8>::empty(), to@) == to@);
            assert(replace_bytes(s@, from@, to@) =~= out@);
        }
        return out;
    }
    proof {
        assert(s@.skip(0) =~= s@);
        assert(out@ + replace_bytes(s@, from@, to@) =~= replace_bytes(s@, from@, to@));
    }
    while i < s.len()
        invariant
            from@.len() > 0,
            0 <= i <= s@.len(),
            replace_bytes(s@, from@, to@) == out@ + replace_bytes(
                s@.skip(i as int),
                from@,
                to@,
            ),
        decreases s@.len() - i,
    {
        let ghost o = out@;
        let ghost rem = s@.skip(i as int);
        if from.len() <= s.len() - i && slice_eq(&s[i..i + from.len()], from) {
            append_slice(&mut out, to);
            proof {
                assert(rem.subrange(0, from@.len() as int) =~= s@.subrange(
                    i as int,
                    i as int + from@.len(),
                ));
                assert(rem.skip(from@.len() as int) =~= s@.skip(i as int + from@.len()));
                assert(replace_bytes(rem, from@, to@) == to@ + replace_bytes(
                    rem.skip(from@.len() as int),
                    from@,
                    to@,
                ));
                assert(o + (to@ + replace_bytes(s@.skip(i as int + from@.len()), from@, to@))
                    =~= (o + to@) + replace_bytes(s@.skip(i as int + from@.len()), from@, to@));
            }
            i = i + from.len();
        } else {
            out.push(s[i]);
            proof {
                assert(rem[0] == s@[i as int]);
                assert(rem.skip(1) =~= s@.skip(i as int + 1));
                assert(out@ =~= o + seq![rem[0]]);
                if rem.len() >= from@.len() {
                    // the scan found no occurrence of `from` at position i
                    assert(rem.subrange(0, from@.len() as int) =~= s@.subrange(
                        i as int,
                        i as int + from@.len(),
                    ));
                    assert(replace_bytes(rem, from@, to@) == seq![rem[0]] + replace_bytes(
                        rem.skip(1),
                        from@,
                        to@,
                    ));
                    assert(o + (seq![rem[0]] + replace_bytes(s@.skip(i as int + 1), from@, to@))
                        =~= (o + seq![rem[0]]) + replace_bytes(
                        s@.skip(i as int + 1),
                        from@,
                        to@,
                    ));
                } else {
                    // too little input is left for a match; the tail is kept as is
                    assert(replace_bytes(rem, from@, to@) == rem);
                    assert(replace_bytes(rem.skip(1), from@, to@) == rem.skip(1));
                    assert(o + rem =~= (o + seq![rem[0]]) + rem.skip(1));
                }
            }
            i = i + 1;
        }
    }
    proof {
        assert(s@.skip(i as int) =~= Seq::<u8>::empty());
        assert(replace_bytes(s@, from@, to@) =~= out@);
    }
    out
}

/// `s` split at every occurrence of `sep`: adjacent separators and separators
/// at either end produce empty tokens.
pub open spec fn split_bytes(s: Seq<u8>, sep: u8) -> Seq<Seq<u8>>
    decreases s.len(),
{
    if s.len() == 0 {
        seq![Seq::<u8>::empty()]
    } else if s[0] == sep {
        seq![Seq::<u8>::empty()] + split_bytes(s.skip(1), sep)
    } else {
        let rest = split_bytes(s.skip(1), sep);
        seq![seq![s[0]] + rest[0]] + rest.drop_first()
    }
}

pub proof fn lemma_split_bytes_nonempty(s: Seq<u8>, sep: u8)
    ensures
        split_bytes(s, sep).len() >= 1,
    decreases s.len(),
{
    if s.len() > 0 {
        lemma_split_bytes_nonempty(s.skip(1), sep);
    }
}

/// Whether a token survives the split: empty tokens are dropped.
pub open spec fn token_pred() -> spec_fn(Seq<u8>) -> bool {
    |t: Seq<u8>| t.len() > 0
}

/// The tokens of `s` split on `sep`, with empty tokens dropped.
pub open spec fn split_nonempty(s: Seq<u8>, sep: u8) -> Seq<Seq<u8>> {
    split_bytes(s, sep).filter(token_pred())
}

proof fn lemma_split_bytes_snoc(s: Seq<u8>, x: u8, sep: u8)
    ensures
        split_bytes(s.push(x), sep) == if x == sep {
            split_bytes(s, sep).push(Seq::<u8>::empty())
        } else {
            split_bytes(s, sep).update(
                split_bytes(s, sep).len() - 1,
                split_bytes(s, sep).last().push(x),
            )
        },
    decreases s.len(),
{
    lemma_split_bytes_nonempty(s, sep);
    assert(s.push(x).len() == s.len() + 1);
    assert(s.push(x)[s.len() as int] == x);
    if s.len() == 0 {
        assert(s.push(x)[0] == x);
        assert(s.push(x).skip(1) =~= Seq::<u8>::empty());
        if x == sep {
            assert(split_bytes(s.push(x), sep) == seq![Seq::<u8>::empty()] + split_bytes(
                Seq::<u8>::empty(),
                sep,
            ));
            assert(split_bytes(s.push(x), sep) =~= split_bytes(s, sep).push(
                Seq::<u8>::empty(),
            ));
        } else {
            let rest = split_bytes(Seq::<u8>::empty(), sep);
            assert(rest == seq![Seq::<u8>::empty()]);
            assert(seq![x] + rest[0] =~= seq![x]);
            assert(rest.drop_first() =~= Seq::<Seq<u8>>::empty());
            assert(seq![seq![x]] + Seq::<Seq<u8>>::empty() =~= seq![seq![x]]);
            assert(split_bytes(s, sep).last().push(x) =~= seq![x]);
            assert(split_bytes(s.push(x), sep) =~= split_bytes(s, sep).update(
                0,
                seq![x],
            ));
        }
    } else {
        lemma_split_bytes_snoc(s.skip(1), x, sep);
        lemma_split_bytes_nonempty(s.skip(1), sep);
        assert(s.push(x).skip(1) =~= s.skip(1).push(x));
        assert(s.push(x)[0] == s[0]);
        let rest = split_bytes(s.skip(1), sep);
        let rest_x = split_bytes(s.skip(1).push(x), sep);
        if x == sep {
            assert(rest_x == rest.push(Seq::<u8>::empty()));
            if s[0] == sep {
                assert(split_bytes(s.push(x), sep) == seq![Seq::<u8>::empty()] + rest_x);
                assert(split_bytes(s, sep) == seq![Seq::<u8>::empty()] + rest);
                assert(seq![Seq::<u8>::empty()] + rest.push(Seq::<u8>::empty()) =~= (seq![
                    Seq::<u8>::empty(),
                ] + rest).push(Seq::<u8>::empty()));
            } else {
                assert(split_bytes(s.push(x), sep) == seq![seq![s[0]] + rest_x[0]]
                    + rest_x.drop_first());
                assert(split_bytes(s, sep) == seq![seq![s[0]] + rest[0]] + rest.drop_first());
                assert(rest_x[0] == rest[0]);
                assert(rest_x.drop_first() =~= rest.drop_first().push(Seq::<u8>::empty()));
                assert(seq![seq![s[0]] + rest[0]] + rest.drop_first().push(Seq::<u8>::empty())
                    =~= (seq![seq![s[0]] + rest[0]] + rest.drop_first()).push(
                    Seq::<u8>::empty(),
                ));
            }
        } else {
            assert(rest_x == rest.update(rest.len() - 1, rest.last().push(x)));
            assert(rest_x.len() == rest.len());
            if s[0] == sep {
                let whole = split_bytes(s, sep);
                assert(whole == seq![Seq::<u8>::empty()] + rest);
                assert(split_bytes(s.push(x), sep) == seq![Seq::<u8>::empty()] + rest_x);
                assert(whole.last() == rest.last());
                assert(seq![Seq::<u8>::empty()] + rest.update(
                    rest.len() - 1,
                    rest.last().push(x),
                ) =~= whole.update(whole.len() - 1, whole.last().push(x)));
            } else {
                let whole = split_bytes(s, sep);
                assert(whole == seq![seq![s[0]] + rest[0]] + rest.drop_first());
                assert(split_bytes(s.push(x), sep) == seq![seq![s[0]] + rest_x[0]]
                    + rest_x.drop_first());
                if rest.len() == 1 {
                    assert(rest_x[0] == rest[0].push(x));
                    assert(rest_x.drop_first() =~= Seq::<Seq<u8>>::empty());
                    assert(rest.drop_first() =~= Seq::<Seq<u8>>::empty());
                    assert(whole.len() == 1);
                    assert(whole.last() == seq![s[0]] + rest[0]);
                    assert(seq![s[0]] + rest[0].push(x) =~= (seq![s[0]] + rest[0]).push(x));
                    assert(split_bytes(s.push(x), sep) =~= whole.update(
                        whole.len() - 1,
                        whole.last().push(x),
                    ));
                } else {
                    assert(rest_x[0] == rest[0]);
                    assert(rest_x.drop_first() =~= rest.drop_first().update(
                        rest.drop_first().len() - 1,
                        rest.drop_first().last().push(x),
                    ));
                    assert(whole.last() == rest.last());
                    assert(seq![seq![s[0]] + rest[0]] + rest.drop_first().update(
                        rest.drop_first().len() - 1,
                        rest.drop_first().last().push(x),
                    ) =~= whole.update(whole.len() - 1, whole.last().push(x)));
                }
            }
        }
    }
}

/// Splits `s` at every occurrence of `sep` and drops the empty tokens.
pub fn split_drop_empty(s: &[u8], sep: u8) -> (r: Vec<Vec<u8>>)
    ensures
        r.deep_view() == split_nonempty(s@, sep),
{
    let mut r: Vec<Vec<u8>> = Vec::new();
    let mut cur: Vec<u8> = Vec::new();
    let mut i: usize = 0;
    proof {
        assert(s@.take(0) =~= Seq::<u8>::empty());
        assert(split_bytes(s@.take(0), sep) =~= seq![Seq::<u8>::empty()]);
        assert(split_bytes(s@.take(0), sep).drop_last() =~= Seq::<Seq<u8>>::empty());
        Seq::<Seq<u8>>::empty().lemma_filter_len(token_pred());
        assert(Seq::<Seq<u8>>::empty().filter(token_pred()) =~= Seq::<Seq<u8>>::empty());
        assert(r.deep_view() =~= Seq::<Seq<u8>>::empty());
    }
    while i < s.len()
        invariant
            0 <= i <= s@.len(),
            split_bytes(s@.take(i as int), sep).last() == cur@,
            r.deep_view() == split_bytes(s@.take(i as int), sep).drop_last().filter(
                token_pred(),
            ),
        decreases s@.len() - i,
    {
        let ghost pre = split_bytes(s@.take(i as int), sep);
        proof {
            lemma_split_bytes_nonempty(s@.take(i as int), sep);
            assert(s@.take(i as int).push(s@[i as int]) =~= s@.take(i as int + 1));
            lemma_split_bytes_snoc(s@.take(i as int), s@[i as int], sep);
        }
        if s[i] == sep {
            let ghost old_r = r.deep_view();
            let finished = cur;
            cur = Vec::new();
            if finished.len() > 0 {
                r.push(finished);
                proof {
                    assert(finished.deep_view() =~= finished@);
                    assert(r.deep_view() =~= old_r.push(finished@));
                }
            }
            proof {
                assert(split_bytes(s@.take(i as int + 1), sep) == pre.push(
                    Seq::<u8>::empty(),
                ));
                assert(split_bytes(s@.take(i as int + 1), sep).drop_last() =~= pre);
                assert(pre.drop_last().push(pre.last()) =~= pre);
                pre.drop_last().lemma_filter_push(pre.last(), token_pred());
            }
        } else {
            cur.push(s[i]);
            proof {
                let post = split_bytes(s@.take(i as int + 1), sep);
                assert(post == pre.update(pre.len() - 1, pre.last().push(s@[i as int])));
                assert(post.drop_last() =~= pre.drop_last());
                assert(post.last() == cur@);
            }
        }
        i = i + 1;
    }
    proof {
        assert(s@.take(i as int) =~= s@);
    }
    let ghost full = split_bytes(s@, sep);
    let ghost old_r = r.deep_view();
    let last = cur;
    if last.len() > 0 {
        r.push(last);
        proof {
            assert(last.deep_view() =~= last@);
            assert(r.deep_view() =~= old_r.push(last@));
        }
    }
    proof {
        lemma_split_bytes_nonempty(s@, sep);
        assert(full.drop_last().push(full.last()) =~= full);
        full.drop_last().lemma_filter_push(full.last(), token_pred());
    }
    r
}

} // verus!
