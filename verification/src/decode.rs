//! Decoding of a backend's raw output bytes into paths.
//!
//! A backend's payload is an arbitrary byte sequence: paths need not be valid
//! UTF-8, so all decoding works on raw bytes with the line-feed byte as the
//! only separator. A single-selection payload is trimmed of its leading and
//! trailing newline runs; a multi-selection payload is split on newlines,
//! with empty segments dropped.

use vstd::prelude::*;

verus! {

/// `s` without its leading run of newline bytes.
pub open spec fn trim_start_spec(s: Seq<u8>) -> Seq<u8>
    decreases s.len(),
{
    if s.len() > 0 && s[0] == 10u8 {
        trim_start_spec(s.skip(1))
    } else {
        s
    }
}

/// `s` without its trailing run of newline bytes.
pub open spec fn trim_end_spec(s: Seq<u8>) -> Seq<u8>
    decreases s.len(),
{
    if s.len() > 0 && s.last() == 10u8 {
        trim_end_spec(s.drop_last())
    } else {
        s
    }
}

/// `s` without its leading and trailing runs of newline bytes; interior
/// bytes, embedded newlines included, are kept verbatim.
pub open spec fn trim_newlines_spec(s: Seq<u8>) -> Seq<u8> {
    trim_end_spec(trim_start_spec(s))
}

/// The length of the leading run of newline bytes of `s`.
pub open spec fn leading_newlines(s: Seq<u8>) -> nat
    decreases s.len(),
{
    if s.len() > 0 && s[0] == 10u8 {
        1 + leading_newlines(s.skip(1))
    } else {
        0
    }
}

/// The length of the trailing run of newline bytes of `s`.
pub open spec fn trailing_newlines(s: Seq<u8>) -> nat
    decreases s.len(),
{
    if s.len() > 0 && s.last() == 10u8 {
        1 + trailing_newlines(s.drop_last())
    } else {
        0
    }
}

proof fn lemma_leading_props(s: Seq<u8>)
    ensures
        leading_newlines(s) <= s.len(),
        forall|m: int| 0 <= m < leading_newlines(s) ==> s[m] == 10u8,
        leading_newlines(s) < s.len() ==> s[leading_newlines(s) as int] != 10u8,
    decreases s.len(),
{
    if s.len() > 0 && s[0] == 10u8 {
        lemma_leading_props(s.skip(1));
        assert forall|m: int| 0 <= m < leading_newlines(s) implies s[m] == 10u8 by {
            if m > 0 {
                assert(s.skip(1)[m - 1] == s[m]);
            }
        }
        if leading_newlines(s) < s.len() {
            assert(s.skip(1)[leading_newlines(s) - 1] == s[leading_newlines(s) as int]);
        }
    }
}

proof fn lemma_trailing_props(s: Seq<u8>)
    ensures
        trailing_newlines(s) <= s.len(),
        forall|m: int| s.len() - trailing_newlines(s) <= m < s.len() ==> s[m] == 10u8,
        trailing_newlines(s) < s.len() ==> s[s.len() - trailing_newlines(s) - 1] != 10u8,
    decreases s.len(),
{
    if s.len() > 0 && s.last() == 10u8 {
        lemma_trailing_props(s.drop_last());
        assert forall|m: int| s.len() - trailing_newlines(s) <= m < s.len() implies s[m]
            == 10u8 by {
            if m < s.len() - 1 {
                assert(s.drop_last()[m] == s[m]);
            }
        }
        if trailing_newlines(s) < s.len() {
            assert(s.drop_last()[s.len() - trailing_newlines(s) - 1]
                == s[s.len() - trailing_newlines(s) - 1]);
        }
    }
}

proof fn lemma_trim_start_skip(s: Seq<u8>, k: int)
    requires
        0 <= k <= s.len(),
        forall|m: int| 0 <= m < k ==> s[m] == 10u8,
        k < s.len() ==> s[k] != 10u8,
    ensures
        trim_start_spec(s) == s.skip(k),
    decreases k,
{
    if k == 0 {
        assert(s.skip(0) =~= s);
    } else {
        assert(s[0] == 10u8);
        lemma_trim_start_skip(s.skip(1), k - 1);
        assert(s.skip(1).skip(k - 1) =~= s.skip(k));
    }
}

proof fn lemma_trim_end_take(s: Seq<u8>, k: int)
    requires
        0 <= k <= s.len(),
        forall|m: int| k <= m < s.len() ==> s[m] == 10u8,
        k > 0 ==> s[k - 1] != 10u8,
    ensures
        trim_end_spec(s) == s.take(k),
    decreases s.len(),
{
    if k == s.len() {
        assert(s.take(k) =~= s);
    } else {
        assert(s.last() == 10u8);
        lemma_trim_end_take(s.drop_last(), k);
        assert(s.drop_last().take(k) =~= s.take(k));
    }
}

/// Trimming removes exactly the leading and trailing newline runs: the result
/// is the contiguous interior between them, byte for byte, or empty when the
/// whole payload is newlines.
pub proof fn lemma_trim_exact(s: Seq<u8>)
    ensures
        leading_newlines(s) == s.len() ==> trim_newlines_spec(s) == Seq::<u8>::empty(),
        leading_newlines(s) < s.len() ==> trim_newlines_spec(s) == s.subrange(
            leading_newlines(s) as int,
            s.len() - trailing_newlines(s),
        ),
{
    let lead = leading_newlines(s) as int;
    let trail = trailing_newlines(s) as int;
    lemma_leading_props(s);
    lemma_trailing_props(s);
    lemma_trim_start_skip(s, lead);
    if lead == s.len() {
        assert(s.skip(lead) =~= Seq::<u8>::empty());
    } else {
        let rest = s.skip(lead);
        assert(s[lead] != 10u8);
        assert(lead < s.len() - trail) by {
            if lead >= s.len() - trail {
                assert(s[lead] == 10u8);
            }
        }
        let k = s.len() - trail - lead;
        assert forall|m: int| k <= m < rest.len() implies rest[m] == 10u8 by {
            assert(rest[m] == s[m + lead]);
        }
        assert(rest[k - 1] == s[s.len() - trail - 1]);
        assert(trail < s.len());
        lemma_trim_end_take(rest, k);
        assert(rest.take(k) =~= s.subrange(lead, s.len() - trail));
    }
}

/// Strips the leading and trailing runs of newline bytes from a payload,
/// keeping every interior byte verbatim.
pub fn trim_newlines(s: &[u8]) -> (r: Vec<u8>)
    ensures
        r@ == trim_newlines_spec(s@),
{
    let mut i: usize = 0;
    while i < s.len() && s[i] == 10u8
        invariant
            0 <= i <= s@.len(),
            forall|m: int| 0 <= m < i ==> s@[m] == 10u8,
        decreases s@.len() - i,
    {
        i = i + 1;
    }
    proof {
        lemma_trim_start_skip(s@, i as int);
    }
    if i == s.len() {
        proof {
            assert(s@.skip(i as int) =~= Seq::<u8>::empty());
        }
        Vec::new()
    } else {
        let mut j: usize = s.len();
        while j > i && s[j - 1] == 10u8
            invariant
                i <= j <= s@.len(),
                forall|m: int| j <= m < s@.len() ==> s@[m] == 10u8,
            decreases j,
        {
            j = j - 1;
        }
        proof {
            assert(j > i) by {
                if j == i {
                    assert(s@[i as int] == 10u8);
                }
            }
            let rest = s@.skip(i as int);
            assert forall|m: int| j - i <= m < rest.len() implies rest[m] == 10u8 by {
                assert(rest[m] == s@[m + i]);
            }
            assert(rest[j - i - 1] == s@[j - 1]);
            lemma_trim_end_take(rest, j - i);
            assert(rest.take(j - i) =~= s@.subrange(i as int, j as int));
        }
        let mut r: Vec<u8> = Vec::new();
        let mut k: usize = i;
        while k < j
            invariant
                i <= k <= j <= s@.len(),
                r@ =~= s@.subrange(i as int, k as int),
            decreases j - k,
        {
            r.push(s[k]);
            proof {
                assert(s@.subrange(i as int, k as int).push(s@[k as int]) =~= s@.subrange(
                    i as int,
                    k + 1,
                ));
            }
            k = k + 1;
        }
        r
    }
}

/// The segment collected so far, emitted only when non-empty.
pub open spec fn flush(cur: Seq<u8>) -> Seq<Seq<u8>> {
    if cur.len() == 0 {
        Seq::empty()
    } else {
        seq![cur]
    }
}

/// Splitting of `s` on the newline byte with `cur` as the segment collected
/// so far; empty segments are dropped.
pub open spec fn split_rec(s: Seq<u8>, cur: Seq<u8>) -> Seq<Seq<u8>>
    decreases s.len(),
{
    if s.len() == 0 {
        flush(cur)
    } else if s[0] == 10u8 {
        flush(cur) + split_rec(s.skip(1), Seq::empty())
    } else {
        split_rec(s.skip(1), cur.push(s[0]))
    }
}

/// The non-empty newline-separated segments of `s`, in payload order.
pub open spec fn split_paths_spec(s: Seq<u8>) -> Seq<Seq<u8>> {
    split_rec(s, Seq::empty())
}

/// Splits a multi-selection payload on the newline byte, dropping empty
/// segments (so a trailing separator, or none at all, yields no phantom
/// entry) and keeping segment order as the backend produced it.
pub fn split_paths(bytes: &[u8]) -> (r: Vec<Vec<u8>>)
    ensures
        r.deep_view() == split_paths_spec(bytes@),
{
    let mut out: Vec<Vec<u8>> = Vec::new();
    let mut cur: Vec<u8> = Vec::new();
    let mut i: usize = 0;
    proof {
        assert(bytes@.skip(0) =~= bytes@);
        assert(out.deep_view() + split_rec(bytes@, cur@) =~~= split_paths_spec(bytes@));
    }
    while i < bytes.len()
        invariant
            0 <= i <= bytes@.len(),
            split_paths_spec(bytes@) == out.deep_view() + split_rec(bytes@.skip(i as int), cur@),
        decreases bytes@.len() - i,
    {
        let ghost rem = bytes@.skip(i as int);
        let ghost old_cur = cur@;
        let ghost old_out = out.deep_view();
        proof {
            assert(rem[0] == bytes@[i as int]);
            assert(rem.skip(1) =~= bytes@.skip(i + 1));
        }
        if bytes[i] == 10u8 {
            proof {
                assert(split_rec(rem, old_cur) == flush(old_cur) + split_rec(
                    bytes@.skip(i + 1),
                    Seq::empty(),
                ));
            }
            if cur.len() > 0 {
                out.push(cur);
                cur = Vec::new();
                proof {
                    assert(out.deep_view() =~~= old_out + flush(old_cur));
                    assert((old_out + flush(old_cur)) + split_rec(
                        bytes@.skip(i + 1),
                        Seq::empty(),
                    ) =~~= old_out + (flush(old_cur) + split_rec(bytes@.skip(i + 1), Seq::empty())));
                }
            } else {
                proof {
                    assert(old_cur =~= Seq::<u8>::empty());
                    assert(flush(old_cur) + split_rec(bytes@.skip(i + 1), Seq::empty())
                        =~~= split_rec(bytes@.skip(i + 1), Seq::empty()));
                }
            }
        } else {
            cur.push(bytes[i]);
            proof {
                assert(split_rec(rem, old_cur) == split_rec(bytes@.skip(i + 1), cur@));
            }
        }
        i = i + 1;
    }
    proof {
        assert(bytes@.skip(i as int) =~= Seq::<u8>::empty());
    }
    let ghost old_out = out.deep_view();
    let ghost seg = cur@;
    if cur.len() > 0 {
        out.push(cur);
        proof {
            assert(out.deep_view() =~~= old_out + flush(seg));
        }
    } else {
        proof {
            assert(old_out + flush(seg) =~~= old_out);
        }
    }
    out
}

/// `p` contains no newline byte.
pub open spec fn newline_free(p: Seq<u8>) -> bool {
    forall|k: int| 0 <= k < p.len() ==> p[k] != 10u8
}

/// The paths joined with a newline after every path (trailing separator
/// included), as the subprocess tools emit multiple selections.
pub open spec fn newline_terminated(paths: Seq<Seq<u8>>) -> Seq<u8>
    decreases paths.len(),
{
    if paths.len() == 0 {
        Seq::empty()
    } else {
        paths[0] + seq![10u8] + newline_terminated(paths.skip(1))
    }
}

/// The paths joined with a newline between consecutive paths and no trailing
/// separator.
pub open spec fn newline_separated(paths: Seq<Seq<u8>>) -> Seq<u8>
    decreases paths.len(),
{
    if paths.len() == 0 {
        Seq::empty()
    } else if paths.len() == 1 {
        paths[0]
    } else {
        paths[0] + seq![10u8] + newline_separated(paths.skip(1))
    }
}

proof fn lemma_split_rec_segments(s: Seq<u8>, cur: Seq<u8>)
    requires
        newline_free(cur),
    ensures
        forall|i: int|
            0 <= i < split_rec(s, cur).len() ==> (#[trigger] split_rec(s, cur)[i]).len() > 0
                && newline_free(split_rec(s, cur)[i]),
    decreases s.len(),
{
    if s.len() == 0 {
        assert forall|i: int| 0 <= i < split_rec(s, cur).len() implies (#[trigger] split_rec(
            s,
            cur,
        )[i]).len() > 0 && newline_free(split_rec(s, cur)[i]) by {
            assert(split_rec(s, cur)[i] == cur);
        }
    } else if s[0] == 10u8 {
        lemma_split_rec_segments(s.skip(1), Seq::empty());
        let rest = split_rec(s.skip(1), Seq::empty());
        assert forall|i: int| 0 <= i < split_rec(s, cur).len() implies (#[trigger] split_rec(
            s,
            cur,
        )[i]).len() > 0 && newline_free(split_rec(s, cur)[i]) by {
            if i < flush(cur).len() {
                assert(split_rec(s, cur)[i] == cur);
            } else {
                assert(split_rec(s, cur)[i] == rest[i - flush(cur).len()]);
            }
        }
    } else {
        assert(newline_free(cur.push(s[0]))) by {
            assert(forall|k: int| 0 <= k < cur.len() ==> #[trigger] cur.push(s[0])[k] == cur[k]);
        }
        lemma_split_rec_segments(s.skip(1), cur.push(s[0]));
        let rest = split_rec(s.skip(1), cur.push(s[0]));
        assert forall|i: int| 0 <= i < split_rec(s, cur).len() implies (#[trigger] split_rec(
            s,
            cur,
        )[i]).len() > 0 && newline_free(split_rec(s, cur)[i]) by {
            assert(split_rec(s, cur)[i] == rest[i]);
        }
    }
}

/// Whatever the payload, splitting yields no empty segment and no segment
/// with an interior newline: every entry is a maximal run of non-newline
/// bytes, so a lone trailing separator or a run of separators adds nothing.
pub proof fn lemma_split_segments(s: Seq<u8>)
    ensures
        forall|i: int|
            0 <= i < split_paths_spec(s).len() ==> (#[trigger] split_paths_spec(s)[i]).len() > 0
                && newline_free(split_paths_spec(s)[i]),
{
    lemma_split_rec_segments(s, Seq::empty());
}

proof fn lemma_split_rec_consume(p: Seq<u8>, rest: Seq<u8>, cur: Seq<u8>)
    requires
        newline_free(p),
    ensures
        split_rec(p + rest, cur) == split_rec(rest, cur + p),
    decreases p.len(),
{
    if p.len() == 0 {
        assert(p + rest =~= rest);
        assert(cur + p =~= cur);
    } else {
        assert((p + rest)[0] == p[0]);
        assert(p[0] != 10u8);
        assert((p + rest).skip(1) =~= p.skip(1) + rest);
        lemma_split_rec_consume(p.skip(1), rest, cur.push(p[0]));
        assert(cur.push(p[0]) + p.skip(1) =~= cur + p);
    }
}

proof fn lemma_split_rec_newline(rest: Seq<u8>, cur: Seq<u8>)
    ensures
        split_rec(seq![10u8] + rest, cur) == flush(cur) + split_rec(rest, Seq::empty()),
{
    assert((seq![10u8] + rest)[0] == 10u8);
    assert((seq![10u8] + rest).skip(1) =~= rest);
}

/// Round trip: joining non-empty, newline-free paths with newlines — with or
/// without a trailing separator — and splitting the result on newlines gives
/// back exactly the original paths, in order, with no empty entries.
pub proof fn lemma_split_join_roundtrip(paths: Seq<Seq<u8>>)
    requires
        forall|i: int| 0 <= i < paths.len() ==> (#[trigger] paths[i]).len() > 0 && newline_free(
            paths[i],
        ),
    ensures
        split_paths_spec(newline_terminated(paths)) == paths,
        split_paths_spec(newline_separated(paths)) == paths,
    decreases paths.len(),
{
    lemma_roundtrip_rec(paths);
    if paths.len() == 0 {
        assert(split_rec(Seq::empty(), Seq::empty()) =~~= paths);
    }
}

proof fn lemma_roundtrip_rec(paths: Seq<Seq<u8>>)
    requires
        forall|i: int| 0 <= i < paths.len() ==> (#[trigger] paths[i]).len() > 0 && newline_free(
            paths[i],
        ),
    ensures
        split_rec(newline_terminated(paths), Seq::empty()) == paths,
        split_rec(newline_separated(paths), Seq::empty()) == paths,
    decreases paths.len(),
{
    if paths.len() == 0 {
        assert(split_rec(Seq::empty(), Seq::<u8>::empty()) =~~= paths);
    } else {
        let head = paths[0];
        let tail = paths.skip(1);
        assert(paths[0].len() > 0 && newline_free(paths[0]));
        assert(forall|i: int|
            0 <= i < tail.len() ==> (#[trigger] tail[i]).len() > 0 && newline_free(tail[i]))
            by {
            assert(forall|i: int| 0 <= i < tail.len() ==> tail[i] == paths[i + 1]);
        }
        lemma_roundtrip_rec(tail);
        // the newline-terminated form: head, newline, rest
        let rest_t = newline_terminated(tail);
        assert(newline_terminated(paths) == head + seq![10u8] + rest_t);
        assert(head + seq![10u8] + rest_t =~= head + (seq![10u8] + rest_t));
        lemma_split_rec_consume(head, seq![10u8] + rest_t, Seq::empty());
        assert(Seq::<u8>::empty() + head =~= head);
        lemma_split_rec_newline(rest_t, head);
        assert(flush(head) =~= seq![head]);
        assert(seq![head] + tail =~= paths);
        // the newline-separated form
        if paths.len() == 1 {
            assert(newline_separated(paths) == head);
            assert(head =~= head + Seq::<u8>::empty());
            lemma_split_rec_consume(head, Seq::empty(), Seq::empty());
            assert(split_rec(Seq::<u8>::empty(), Seq::<u8>::empty() + head) == flush(
                Seq::<u8>::empty() + head,
            ));
            assert(flush(Seq::<u8>::empty() + head) =~~= paths);
        } else {
            let rest_s = newline_separated(tail);
            assert(newline_separated(paths) == head + seq![10u8] + rest_s);
            assert(head + seq![10u8] + rest_s =~= head + (seq![10u8] + rest_s));
            lemma_split_rec_consume(head, seq![10u8] + rest_s, Seq::empty());
            lemma_split_rec_newline(rest_s, head);
        }
    }
}

} // verus!
