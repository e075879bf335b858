//! The textual form of a license key: `PRLX-XXXX-XXXX-XXXX-XXXX`.

use crate::text::{decimal_string, decimal_text, to_chars};
use vstd::prelude::*;

verus! {

/// Why a text is not a license key.
#[derive(Clone, Copy, Debug, PartialEq, Eq, Structural)]
pub enum KeyFormatError {
    /// The text does not begin with `PRLX-`.
    MissingPrefix,
    /// The text does not have five segments between hyphens.
    SegmentCount,
    /// The segment with this index, counted from zero, is not four characters long.
    SegmentLength(usize),
}

/// The literal that every key begins with.
pub open spec fn key_prefix() -> Seq<char> {
    seq!['P', 'R', 'L', 'X', '-']
}

/// The index of the first hyphen in `s`, or the length of `s` where it has none.
pub open spec fn dash_index(s: Seq<char>) -> int
    decreases s.len(),
{
    if s.len() == 0 {
        0
    } else if s[0] == '-' {
        0
    } else {
        1 + dash_index(s.drop_first())
    }
}

/// The pieces of `s` between its hyphens, in order. A text without a hyphen is
/// its own single piece, and two hyphens in a row hold an empty piece.
pub open spec fn segments(s: Seq<char>) -> Seq<Seq<char>>
    decreases s.len(),
{
    let i = dash_index(s);
    if 0 <= i < s.len() {
        seq![s.take(i)] + segments(s.skip(i + 1))
    } else {
        seq![s]
    }
}

/// The index of the first piece from `from` on that is not four characters long,
/// or the number of pieces where there is none.
pub open spec fn first_bad_segment(parts: Seq<Seq<char>>, from: int) -> int
    decreases parts.len() - from,
{
    if from < 0 || from >= parts.len() {
        parts.len() as int
    } else if parts[from].len() != 4 {
        from
    } else {
        first_bad_segment(parts, from + 1)
    }
}

/// The outcome of the format check on `key`: the first rule that it breaks, in
/// the order prefix, number of segments, length of each segment after the first.
pub open spec fn format_verdict(key: Seq<char>) -> Result<(), KeyFormatError> {
    let parts = segments(key);
    if !key_prefix().is_prefix_of(key) {
        Err(KeyFormatError::MissingPrefix)
    } else if parts.len() != 5 {
        Err(KeyFormatError::SegmentCount)
    } else if first_bad_segment(parts, 1) < 5 {
        Err(KeyFormatError::SegmentLength(first_bad_segment(parts, 1) as usize))
    } else {
        Ok(())
    }
}

/// The grammar of a license key: twenty-four characters, the prefix `PRLX-`, and
/// hyphens at exactly the positions that part it into groups of four.
pub open spec fn is_license_key(key: Seq<char>) -> bool {
    &&& key.len() == 24
    &&& key_prefix().is_prefix_of(key)
    &&& forall|i: int|
        0 <= i < 24 ==> ((#[trigger] key[i] == '-') <==> (i == 4 || i == 9 || i == 14 || i == 19))
}

/// What `dash_index` finds: a position within the text, with no hyphen before it
/// and a hyphen at it unless the text has run out.
pub proof fn lemma_dash_index(s: Seq<char>)
    ensures
        0 <= dash_index(s) <= s.len(),
        forall|j: int| 0 <= j < dash_index(s) ==> s[j] != '-',
        dash_index(s) < s.len() ==> s[dash_index(s)] == '-',
    decreases s.len(),
{
    if s.len() > 0 && s[0] != '-' {
        let rest = s.drop_first();
        lemma_dash_index(rest);
        assert forall|j: int| 0 <= j < dash_index(s) implies s[j] != '-' by {
            if j > 0 {
                assert(s[j] == rest[j - 1]);
            }
        }
        if dash_index(s) < s.len() {
            assert(s[dash_index(s)] == rest[dash_index(rest)]);
        }
    }
}

/// A position with no hyphen before it, and a hyphen at it or the text's end, is
/// what `dash_index` finds.
pub proof fn lemma_dash_index_is(s: Seq<char>, k: int)
    requires
        0 <= k <= s.len(),
        forall|j: int| 0 <= j < k ==> s[j] != '-',
        k < s.len() ==> s[k] == '-',
    ensures
        dash_index(s) == k,
    decreases s.len(),
{
    if s.len() > 0 && k > 0 {
        let rest = s.drop_first();
        assert(s[0] != '-');
        assert forall|j: int| 0 <= j < k - 1 implies rest[j] != '-' by {
            assert(rest[j] == s[j + 1]);
        }
        lemma_dash_index_is(rest, k - 1);
    }
}

/// Every text has at least one segment.
pub proof fn lemma_segments_nonempty(s: Seq<char>)
    ensures
        segments(s).len() >= 1,
    decreases s.len(),
{
    let i = dash_index(s);
    if 0 <= i < s.len() {
        lemma_segments_nonempty(s.skip(i + 1));
    }
}

proof fn lemma_first_bad_bounds(parts: Seq<Seq<char>>, from: int)
    requires
        0 <= from <= parts.len(),
    ensures
        from <= first_bad_segment(parts, from) <= parts.len(),
        forall|j: int| from <= j < first_bad_segment(parts, from) ==> parts[j].len() == 4,
        first_bad_segment(parts, from) < parts.len() ==> parts[first_bad_segment(parts, from)].len()
            != 4,
    decreases parts.len() - from,
{
    if from < parts.len() && parts[from].len() == 4 {
        lemma_first_bad_bounds(parts, from + 1);
    }
}

/// A text with a hyphen at `k` and none before it parts into its first `k`
/// characters and the segments of what follows the hyphen.
proof fn lemma_segments_split(s: Seq<char>, k: int)
    requires
        0 <= k < s.len(),
        forall|j: int| 0 <= j < k ==> s[j] != '-',
        s[k] == '-',
    ensures
        segments(s) == seq![s.take(k)] + segments(s.skip(k + 1)),
        segments(s).len() == 1 + segments(s.skip(k + 1)).len(),
        segments(s)[0] == s.take(k),
        forall|i: int|
            0 <= i < segments(s.skip(k + 1)).len() ==> #[trigger] segments(s)[i + 1] == segments(
                s.skip(k + 1),
            )[i],
{
    lemma_dash_index_is(s, k);
}

/// A text without a hyphen is its own single segment.
proof fn lemma_segments_whole(s: Seq<char>)
    requires
        forall|j: int| 0 <= j < s.len() ==> s[j] != '-',
    ensures
        segments(s) == seq![s],
{
    lemma_dash_index_is(s, s.len() as int);
}

/// The format check accepts exactly the texts of the key grammar.
pub proof fn lemma_format_accepts_grammar(key: Seq<char>)
    ensures
        format_verdict(key) is Ok <==> is_license_key(key),
{
    let p = key_prefix();
    if p.is_prefix_of(key) {
        assert(key.len() >= 5);
        assert forall|j: int| 0 <= j < 5 implies key[j] == p[j] by {
            assert(key.subrange(0, 5)[j] == key[j]);
        }
        lemma_segments_split(key, 4);
        let s1 = key.skip(5);
        let parts = segments(key);
        lemma_segments_nonempty(s1);
        if is_license_key(key) {
            let s2 = s1.skip(5);
            let s3 = s2.skip(5);
            let s4 = s3.skip(5);
            assert forall|j: int| 0 <= j < 4 implies s1[j] != '-' by {
                assert(s1[j] == key[j + 5]);
            }
            assert(s1[4] == key[9]);
            lemma_segments_split(s1, 4);
            assert forall|j: int| 0 <= j < 4 implies s2[j] != '-' by {
                assert(s2[j] == key[j + 10]);
            }
            assert(s2[4] == key[14]);
            lemma_segments_split(s2, 4);
            assert forall|j: int| 0 <= j < 4 implies s3[j] != '-' by {
                assert(s3[j] == key[j + 15]);
            }
            assert(s3[4] == key[19]);
            lemma_segments_split(s3, 4);
            assert forall|j: int| 0 <= j < s4.len() implies s4[j] != '-' by {
                assert(s4[j] == key[j + 20]);
            }
            lemma_segments_whole(s4);
            assert(segments(s3).len() == 2);
            assert(segments(s2).len() == 3);
            assert(segments(s1).len() == 4);
            assert(parts.len() == 5);
            assert(parts[1] == s1.take(4));
            assert(parts[2] == segments(s1)[1]);
            assert(segments(s1)[1] == s2.take(4));
            assert(parts[3] == segments(s1)[2]);
            assert(segments(s1)[2] == segments(s2)[1]);
            assert(segments(s2)[1] == s3.take(4));
            assert(parts[4] == segments(s1)[3]);
            assert(segments(s1)[3] == segments(s2)[2]);
            assert(segments(s2)[2] == segments(s3)[1]);
            assert(segments(s3)[1] == s4);
            lemma_first_bad_bounds(parts, 1);
            assert(first_bad_segment(parts, 1) == 5);
        }
        if format_verdict(key) is Ok {
            lemma_first_bad_bounds(parts, 1);
            assert(parts.len() == 5);
            assert(segments(s1).len() == 4);
            assert(parts[1].len() == 4 && parts[2].len() == 4 && parts[3].len() == 4
                && parts[4].len() == 4);
            // second segment
            lemma_dash_index(s1);
            let d1 = dash_index(s1);
            assert(d1 < s1.len());
            lemma_segments_split(s1, d1);
            assert(parts[1] == segments(s1)[0]);
            assert(d1 == 4);
            let s2 = s1.skip(5);
            lemma_segments_nonempty(s2);
            // third segment
            lemma_dash_index(s2);
            let d2 = dash_index(s2);
            assert(segments(s2).len() == 3);
            assert(d2 < s2.len());
            lemma_segments_split(s2, d2);
            assert(parts[2] == segments(s1)[1]);
            assert(segments(s1)[1] == segments(s2)[0]);
            assert(d2 == 4);
            let s3 = s2.skip(5);
            lemma_segments_nonempty(s3);
            // fourth segment
            lemma_dash_index(s3);
            let d3 = dash_index(s3);
            assert(segments(s3).len() == 2);
            assert(d3 < s3.len());
            lemma_segments_split(s3, d3);
            assert(parts[3] == segments(s1)[2]);
            assert(segments(s1)[2] == segments(s2)[1]);
            assert(segments(s2)[1] == segments(s3)[0]);
            assert(d3 == 4);
            let s4 = s3.skip(5);
            lemma_segments_nonempty(s4);
            // last segment
            lemma_dash_index(s4);
            let d4 = dash_index(s4);
            assert(segments(s4).len() == 1);
            if d4 < s4.len() {
                lemma_segments_split(s4, d4);
                lemma_segments_nonempty(s4.skip(d4 + 1));
            }
            assert(segments(s4) == seq![s4]);
            assert(parts[4] == segments(s1)[3]);
            assert(segments(s1)[3] == segments(s2)[2]);
            assert(segments(s2)[2] == segments(s3)[1]);
            assert(segments(s3)[1] == segments(s4)[0]);
            assert(s4.len() == 4);
            assert(key.len() == 24);
            assert forall|i: int| 0 <= i < 24 implies ((#[trigger] key[i] == '-') <==> (i == 4 || i
                == 9 || i == 14 || i == 19)) by {
                if i >= 20 {
                    assert(key[i] == s4[i - 20]);
                } else if i >= 15 {
                    assert(key[i] == s3[i - 15]);
                } else if i >= 10 {
                    assert(key[i] == s2[i - 10]);
                } else if i >= 5 {
                    assert(key[i] == s1[i - 5]);
                }
            }
        }
    }
}

/// Checks that `key` has the textual form of a license key, and says which rule
/// it breaks first where it does not.
pub fn check_format(key: &str) -> (verdict: Result<(), KeyFormatError>)
    ensures
        verdict == format_verdict(key@),
        verdict is Ok <==> is_license_key(key@),
{
    let chars = to_chars(key);
    let n = chars.len();
    proof {
        lemma_format_accepts_grammar(key@);
    }
    if n < 5 || chars[0] != 'P' || chars[1] != 'R' || chars[2] != 'L' || chars[3] != 'X'
        || chars[4] != '-' {
        proof {
            if key_prefix().is_prefix_of(key@) {
                assert forall|j: int| 0 <= j < 5 implies key@[j] == key_prefix()[j] by {
                    assert(key@.subrange(0, 5)[j] == key@[j]);
                }
            }
        }
        return Err(KeyFormatError::MissingPrefix);
    }
    assert(key@.subrange(0, 5) =~= key_prefix());
    let mut lens: Vec<usize> = Vec::new();
    let ghost mut done: Seq<Seq<char>> = Seq::empty();
    let mut start: usize = 0;
    let mut pos: usize = 0;
    assert(chars@.skip(0) =~= chars@);
    while pos < n
        invariant
            start <= pos <= n,
            n == chars@.len(),
            segments(chars@) == done + segments(chars@.skip(start as int)),
            lens@.len() == done.len(),
            forall|i: int| 0 <= i < done.len() ==> lens@[i] == (#[trigger] done[i]).len(),
            forall|j: int| start <= j < pos ==> chars@[j] != '-',
        decreases n - pos,
    {
        if chars[pos] == '-' {
            proof {
                let s = chars@.skip(start as int);
                assert forall|j: int| 0 <= j < pos - start implies s[j] != '-' by {
                    assert(s[j] == chars@[j + start]);
                }
                lemma_segments_split(s, pos - start);
                assert(s.skip(pos - start + 1) =~= chars@.skip(pos + 1));
                assert(done + (seq![s.take(pos - start)] + segments(chars@.skip(pos + 1)))
                    =~= done.push(s.take(pos - start)) + segments(chars@.skip(pos + 1)));
                done = done.push(s.take(pos - start));
            }
            lens.push(pos - start);
            start = pos + 1;
        }
        pos += 1;
    }
    proof {
        let s = chars@.skip(start as int);
        assert forall|j: int| 0 <= j < s.len() implies s[j] != '-' by {
            assert(s[j] == chars@[j + start]);
        }
        lemma_segments_whole(s);
        assert(done + seq![s] =~= done.push(s));
        done = done.push(s);
    }
    lens.push(n - start);
    assert(segments(key@) == done);
    if lens.len() != 5 {
        return Err(KeyFormatError::SegmentCount);
    }
    let mut i: usize = 1;
    while i < 5
        invariant
            1 <= i <= 5,
            done.len() == 5,
            lens@.len() == 5,
            segments(key@) == done,
            key_prefix().is_prefix_of(key@),
            format_verdict(key@) is Ok <==> is_license_key(key@),
            forall|k: int| 0 <= k < 5 ==> lens@[k] == (#[trigger] done[k]).len(),
            first_bad_segment(done, 1) == first_bad_segment(done, i as int),
        decreases 5 - i,
    {
        if lens[i] != 4 {
            return Err(KeyFormatError::SegmentLength(i));
        }
        i += 1;
    }
    Ok(())
}

/// The message of a format error.
pub open spec fn format_error_text(e: KeyFormatError) -> Seq<char> {
    match e {
        KeyFormatError::MissingPrefix => "Invalid license key format: must start with PRLX-"@,
        KeyFormatError::SegmentCount => "Invalid license key format: must have 5 segments"@,
        KeyFormatError::SegmentLength(i) => "Invalid license key format: segment "@ + decimal_text(
            i as nat,
        ) + " must be 4 characters"@,
    }
}

impl KeyFormatError {
    /// Says in words which rule the key broke.
    pub fn message(&self) -> (text: String)
        ensures
            text@ == format_error_text(*self),
    {
        match self {
            KeyFormatError::MissingPrefix => String::from_str(
                "Invalid license key format: must start with PRLX-",
            ),
            KeyFormatError::SegmentCount => String::from_str(
                "Invalid license key format: must have 5 segments",
            ),
            KeyFormatError::SegmentLength(i) => {
                let mut text = String::from_str("Invalid license key format: segment ");
                let number = decimal_string(*i);
                text.append(number.as_str());
                text.append(" must be 4 characters");
                text
            },
        }
    }
}

} // verus!
