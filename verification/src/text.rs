//! Text that the helper scripts hand back: decoding their output and
//! stripping the white space around it.

use vstd::prelude::*;
use vstd::utf8::*;

verus! {

/// Whether `c` is white space: a code point with Unicode's `White_Space`
/// property.
pub open spec fn is_white_space(c: char) -> bool {
    let u = c as u32;
    ||| 0x0009 <= u <= 0x000D
    ||| u == 0x0020
    ||| u == 0x0085
    ||| u == 0x00A0
    ||| u == 0x1680
    ||| 0x2000 <= u <= 0x200A
    ||| u == 0x2028
    ||| u == 0x2029
    ||| u == 0x202F
    ||| u == 0x205F
    ||| u == 0x3000
}

/// `s` without the white space that it begins with.
pub open spec fn trimmed_start(s: Seq<char>) -> Seq<char>
    decreases s.len(),
{
    if s.len() > 0 && is_white_space(s.first()) {
        trimmed_start(s.drop_first())
    } else {
        s
    }
}

/// `s` without the white space that it ends with.
pub open spec fn trimmed_end(s: Seq<char>) -> Seq<char>
    decreases s.len(),
{
    if s.len() > 0 && is_white_space(s.last()) {
        trimmed_end(s.drop_last())
    } else {
        s
    }
}

/// `s` without the white space at either end.
pub open spec fn trimmed(s: Seq<char>) -> Seq<char> {
    trimmed_end(trimmed_start(s))
}

/// Whether `s` from `from` up to `to` is what stays of `s` when the white
/// space at either end goes: all before `from` and all from `to` on is white
/// space, and the part between them, unless it is empty, neither begins nor
/// ends with white space.
pub open spec fn is_core(s: Seq<char>, from: int, to: int) -> bool {
    &&& 0 <= from <= to <= s.len()
    &&& forall|k: int| 0 <= k < from ==> is_white_space(#[trigger] s[k])
    &&& forall|k: int| to <= k < s.len() ==> is_white_space(#[trigger] s[k])
    &&& from < to ==> !is_white_space(s[from]) && !is_white_space(s[to - 1])
}

proof fn lemma_trimmed_start_skips(s: Seq<char>, from: int)
    requires
        0 <= from <= s.len(),
        forall|k: int| 0 <= k < from ==> is_white_space(#[trigger] s[k]),
        from < s.len() ==> !is_white_space(s[from]),
    ensures
        trimmed_start(s) == s.skip(from),
    decreases from,
{
    if from == 0 {
        assert(s.skip(0) =~= s);
    } else {
        let rest = s.drop_first();
        assert forall|k: int| 0 <= k < from - 1 implies is_white_space(#[trigger] rest[k]) by {
            assert(rest[k] == s[k + 1]);
        }
        lemma_trimmed_start_skips(rest, from - 1);
        assert(rest.skip(from - 1) =~= s.skip(from));
    }
}

proof fn lemma_trimmed_end_takes(s: Seq<char>, to: int)
    requires
        0 <= to <= s.len(),
        forall|k: int| to <= k < s.len() ==> is_white_space(#[trigger] s[k]),
        0 < to ==> !is_white_space(s[to - 1]),
    ensures
        trimmed_end(s) == s.take(to),
    decreases s.len() - to,
{
    if to == s.len() {
        assert(s.take(to) =~= s);
    } else {
        let rest = s.drop_last();
        assert forall|k: int| to <= k < rest.len() implies is_white_space(#[trigger] rest[k]) by {
            assert(rest[k] == s[k]);
        }
        lemma_trimmed_end_takes(rest, to);
        assert(rest.take(to) =~= s.take(to));
    }
}

/// Trimming keeps the core, and the core only: whatever part of `s` is
/// framed by white space alone and has none at its own ends is what
/// trimming `s` gives.
pub proof fn lemma_trimmed_is_core(s: Seq<char>, from: int, to: int)
    requires
        is_core(s, from, to),
    ensures
        trimmed(s) == s.subrange(from, to),
{
    if from == to {
        lemma_trimmed_start_skips(s, s.len() as int);
        assert(s.skip(s.len() as int) =~= s.subrange(from, to));
        assert(trimmed_start(s).len() == 0);
    } else {
        lemma_trimmed_start_skips(s, from);
        let tail = s.skip(from);
        assert forall|k: int| to - from <= k < tail.len() implies is_white_space(
            #[trigger] tail[k],
        ) by {
            assert(tail[k] == s[k + from]);
        }
        lemma_trimmed_end_takes(tail, to - from);
        assert(tail.take(to - from) =~= s.subrange(from, to));
    }
}

/// Every text has a core: trimming never fails, and what it gives is a part
/// of the text that is framed by white space alone.
pub proof fn lemma_trimmed_has_core(s: Seq<char>) -> (bounds: (int, int))
    ensures
        is_core(s, bounds.0, bounds.1),
        trimmed(s) == s.subrange(bounds.0, bounds.1),
    decreases s.len(),
{
    if s.len() > 0 && is_white_space(s.first()) {
        let rest = s.drop_first();
        let inner = lemma_trimmed_has_core(rest);
        let bounds = (inner.0 + 1, inner.1 + 1);
        assert forall|k: int| 0 <= k < bounds.0 implies is_white_space(#[trigger] s[k]) by {
            if k > 0 {
                assert(s[k] == rest[k - 1]);
            }
        }
        assert forall|k: int| bounds.1 <= k < s.len() implies is_white_space(#[trigger] s[k]) by {
            assert(s[k] == rest[k - 1]);
        }
        assert(rest.subrange(inner.0, inner.1) =~= s.subrange(bounds.0, bounds.1));
        bounds
    } else if s.len() > 0 && is_white_space(s.last()) {
        let rest = s.drop_last();
        assert(trimmed_start(rest) == rest) by {
            assert(rest.len() == 0 || rest.first() == s.first());
        }
        let inner = lemma_trimmed_has_core(rest);
        assert(trimmed_end(rest) == rest.subrange(inner.0, inner.1));
        assert(inner.0 == 0) by {
            if inner.0 > 0 {
                assert(is_white_space(rest[0]));
            }
        }
        assert forall|k: int| inner.1 <= k < s.len() implies is_white_space(#[trigger] s[k]) by {
            if k < rest.len() {
                assert(s[k] == rest[k]);
            }
        }
        assert(rest.subrange(inner.0, inner.1) =~= s.subrange(inner.0, inner.1));
        inner
    } else {
        assert(s.subrange(0, s.len() as int) =~= s);
        (0, s.len() as int)
    }
}

/// What lossy decoding makes of bytes that are not valid UTF-8: the text in
/// which each invalid sequence has given way to U+FFFD.
pub uninterp spec fn repaired_text(bytes: Seq<u8>) -> Seq<char>;

/// The text that `bytes` stand for: their decoding where they are valid
/// UTF-8, the repaired text where they are not.
pub open spec fn lossy_text(bytes: Seq<u8>) -> Seq<char> {
    if valid_utf8(bytes) {
        decode_utf8(bytes)
    } else {
        repaired_text(bytes)
    }
}

/// Calls `String::from_utf8_lossy`. Trusted: valid UTF-8 comes back as the
/// string it encodes; of other input the result is only given its name.
#[verifier::external_body]
pub(crate) fn decode_lossy(bytes: &[u8]) -> (text: String)
    ensures
        valid_utf8(bytes@) ==> text@ == decode_utf8(bytes@),
        !valid_utf8(bytes@) ==> text@ == repaired_text(bytes@),
{
    String::from_utf8_lossy(bytes).into_owned()
}

/// Calls `str::trim`. Trusted: the result is `text` without the leading and
/// trailing characters that have the `White_Space` property.
#[verifier::external_body]
pub(crate) fn trim(text: &str) -> (inner: &str)
    ensures
        inner@ == trimmed(text@),
{
    text.trim()
}

/// `text` without the white space at either end, as a string of its own.
pub fn tidy(text: &str) -> (inner: String)
    ensures
        inner@ == trimmed(text@),
{
    trim(text).to_owned()
}

} // verus!
