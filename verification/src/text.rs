//! Whitespace and trimming of the text that binaries and operators produce.

use vstd::prelude::*;
use vstd::utf8::*;

verus! {

/// Whether `c` carries the Unicode `White_Space` property.
pub open spec fn is_whitespace(c: char) -> bool {
    let n = c as u32;
    ||| 0x09 <= n <= 0x0D
    ||| n == 0x20
    ||| n == 0x85
    ||| n == 0xA0
    ||| n == 0x1680
    ||| 0x2000 <= n <= 0x200A
    ||| n == 0x2028
    ||| n == 0x2029
    ||| n == 0x202F
    ||| n == 0x205F
    ||| n == 0x3000
}

/// `s` without its longest prefix of whitespace.
pub open spec fn trim_start(s: Seq<char>) -> Seq<char>
    decreases s.len(),
{
    if s.len() > 0 && is_whitespace(s[0]) {
        trim_start(s.drop_first())
    } else {
        s
    }
}

/// `s` without its longest suffix of whitespace.
pub open spec fn trim_end(s: Seq<char>) -> Seq<char>
    decreases s.len(),
{
    if s.len() > 0 && is_whitespace(s.last()) {
        trim_end(s.drop_last())
    } else {
        s
    }
}

/// `s` with leading and trailing whitespace removed.
pub open spec fn trimmed(s: Seq<char>) -> Seq<char> {
    trim_end(trim_start(s))
}

/// Tests one character for whitespace.
pub fn whitespace(c: char) -> (b: bool)
    ensures
        b == is_whitespace(c),
{
    let n: u32 = c as u32;
    (0x09 <= n && n <= 0x0D) || n == 0x20 || n == 0x85 || n == 0xA0 || n == 0x1680 || (0x2000 <= n
        && n <= 0x200A) || n == 0x2028 || n == 0x2029 || n == 0x202F || n == 0x205F || n == 0x3000
}

/// Whether every character of `s` is whitespace.
pub open spec fn is_blank(s: Seq<char>) -> bool {
    forall|i: int| 0 <= i < s.len() ==> is_whitespace(#[trigger] s[i])
}

/// Whether `s` neither begins nor ends with whitespace.
pub open spec fn is_tidy(s: Seq<char>) -> bool {
    s.len() > 0 ==> !is_whitespace(s[0]) && !is_whitespace(s.last())
}

/// Trimming the start cuts `s` at its first character that is not whitespace.
pub proof fn lemma_trim_start_cuts(s: Seq<char>, k: int)
    requires
        0 <= k <= s.len(),
        is_blank(s.subrange(0, k)),
        k < s.len() ==> !is_whitespace(s[k]),
    ensures
        trim_start(s) == s.subrange(k, s.len() as int),
    decreases k,
{
    if k == 0 {
        assert(s.subrange(0, s.len() as int) == s);
    } else {
        let rest = s.drop_first();
        assert(is_whitespace(s.subrange(0, k)[0]));
        assert forall|i: int| 0 <= i < k - 1 implies is_whitespace(
            #[trigger] rest.subrange(0, k - 1)[i],
        ) by {
            assert(rest.subrange(0, k - 1)[i] == s.subrange(0, k)[i + 1]);
        }
        lemma_trim_start_cuts(rest, k - 1);
        assert(rest.subrange(k - 1, rest.len() as int) == s.subrange(k, s.len() as int));
    }
}

/// Trimming the end cuts `s` after its last character that is not whitespace.
pub proof fn lemma_trim_end_cuts(s: Seq<char>, k: int)
    requires
        0 <= k <= s.len(),
        is_blank(s.subrange(k, s.len() as int)),
        k > 0 ==> !is_whitespace(s[k - 1]),
    ensures
        trim_end(s) == s.subrange(0, k),
    decreases s.len() - k,
{
    if k == s.len() {
        assert(s.subrange(0, k) == s);
    } else {
        let rest = s.drop_last();
        assert(is_whitespace(s.subrange(k, s.len() as int)[s.len() - k - 1]));
        assert forall|i: int| 0 <= i < rest.len() - k implies is_whitespace(
            #[trigger] rest.subrange(k, rest.len() as int)[i],
        ) by {
            assert(rest.subrange(k, rest.len() as int)[i] == s.subrange(k, s.len() as int)[i]);
        }
        lemma_trim_end_cuts(rest, k);
        assert(rest.subrange(0, k) == s.subrange(0, k));
    }
}

/// Trimming the start of text that is all whitespace leaves nothing.
pub proof fn lemma_trim_start_of_blank(s: Seq<char>)
    requires
        is_blank(s),
    ensures
        trim_start(s) == Seq::<char>::empty(),
{
    assert(s.subrange(0, s.len() as int) == s);
    lemma_trim_start_cuts(s, s.len() as int);
    assert(s.subrange(s.len() as int, s.len() as int) == Seq::<char>::empty());
}

/// Trimming the start leaves either nothing or text whose first character is
/// not whitespace, and takes nothing from the end.
pub proof fn lemma_trim_start_shape(s: Seq<char>)
    ensures
        trim_start(s).len() > 0 ==> !is_whitespace(trim_start(s)[0]) && s.len() > 0
            && trim_start(s).last() == s.last(),
        trim_start(s).len() <= s.len(),
    decreases s.len(),
{
    if s.len() > 0 && is_whitespace(s[0]) {
        lemma_trim_start_shape(s.drop_first());
    }
}

/// Trimming the end leaves either nothing or text whose last character is not
/// whitespace, and takes nothing from the start.
pub proof fn lemma_trim_end_shape(s: Seq<char>)
    ensures
        trim_end(s).len() > 0 ==> !is_whitespace(trim_end(s).last()) && s.len() > 0 && trim_end(
            s,
        )[0] == s[0],
        trim_end(s).len() <= s.len(),
    decreases s.len(),
{
    if s.len() > 0 && is_whitespace(s.last()) {
        lemma_trim_end_shape(s.drop_last());
    }
}

/// Trimmed text neither begins nor ends with whitespace.
pub proof fn lemma_trimmed_is_tidy(s: Seq<char>)
    ensures
        is_tidy(trimmed(s)),
{
    lemma_trim_start_shape(s);
    lemma_trim_end_shape(trim_start(s));
}

/// Trimming changes nothing in text that neither begins nor ends with
/// whitespace; so trimming twice is trimming once.
pub proof fn lemma_tidy_is_unchanged(s: Seq<char>)
    requires
        is_tidy(s),
    ensures
        trimmed(s) == s,
{
}

/// Whitespace appended to the end does not survive trimming the end.
pub proof fn lemma_trim_end_drops_padding(s: Seq<char>, padding: Seq<char>)
    requires
        is_blank(padding),
    ensures
        trim_end(s + padding) == trim_end(s),
    decreases padding.len(),
{
    if padding.len() == 0 {
        assert(s + padding == s);
    } else {
        assert((s + padding).last() == padding.last());
        assert((s + padding).drop_last() == s + padding.drop_last());
        lemma_trim_end_drops_padding(s, padding.drop_last());
    }
}

/// Trimming the start of text that holds something other than whitespace is not
/// affected by what is appended to it.
pub proof fn lemma_trim_start_keeps_suffix(s: Seq<char>, suffix: Seq<char>)
    requires
        !is_blank(s),
    ensures
        trim_start(s + suffix) == trim_start(s) + suffix,
    decreases s.len(),
{
    if is_whitespace(s[0]) {
        let rest = s.drop_first();
        assert((s + suffix).drop_first() == rest + suffix);
        assert(!is_blank(rest)) by {
            if is_blank(rest) {
                assert forall|i: int| 0 <= i < s.len() implies is_whitespace(#[trigger] s[i]) by {
                    if i > 0 {
                        assert(s[i] == rest[i - 1]);
                    }
                }
            }
        }
        lemma_trim_start_keeps_suffix(rest, suffix);
    }
}

/// Trimming gives the same text whatever whitespace follows it: however many
/// newlines end a line of output, the trimmed text is the same.
pub proof fn lemma_trailing_blank_is_ignored(s: Seq<char>, padding: Seq<char>)
    requires
        is_blank(padding),
    ensures
        trimmed(s + padding) == trimmed(s),
{
    if is_blank(s) {
        assert(is_blank(s + padding));
        lemma_trim_start_of_blank(s);
        lemma_trim_start_of_blank(s + padding);
    } else {
        lemma_trim_start_keeps_suffix(s, padding);
        lemma_trim_end_drops_padding(trim_start(s), padding);
    }
}

/// Removes leading and trailing whitespace from `s`.
pub fn trim(s: &str) -> (t: String)
    ensures
        t@ == trimmed(s@),
{
    let total: usize = s.unicode_len();
    let mut start: usize = 0;
    let mut end: usize = 0;
    let mut count: usize = 0;
    let mut seen: bool = false;
    for c in it: s.chars()
        invariant
            count == it.index(),
            it.seq() == s@,
            total == s@.len(),
            count <= total,
            !seen ==> start == 0 && end == 0 && is_blank(s@.subrange(0, count as int)),
            seen ==> start < end <= count,
            seen ==> is_blank(s@.subrange(0, start as int)) && !is_whitespace(s@[start as int]),
            seen ==> is_blank(s@.subrange(end as int, count as int)) && !is_whitespace(
                s@[end - 1],
            ),
    {
        if !whitespace(c) {
            if !seen {
                start = count;
                seen = true;
            }
            end = count + 1;
        }
        count = count + 1;
    }
    proof {
        let whole = s@;
        if seen {
            lemma_trim_start_cuts(whole, start as int);
            let tail = whole.subrange(start as int, whole.len() as int);
            assert forall|i: int| 0 <= i < tail.len() - (end - start) implies is_whitespace(
                #[trigger] tail.subrange(end - start, tail.len() as int)[i],
            ) by {
                assert(tail.subrange(end - start, tail.len() as int)[i] == whole.subrange(
                    end as int,
                    count as int,
                )[i]);
            }
            lemma_trim_end_cuts(tail, end - start);
            assert(tail.subrange(0, end - start) == whole.subrange(start as int, end as int));
        } else {
            lemma_trim_start_cuts(whole, whole.len() as int);
            assert(whole.subrange(0, 0) == whole.subrange(whole.len() as int, whole.len() as int));
        }
    }
    String::from_str(s.substring_char(start, end))
}

/// What `String::from_utf8_lossy` makes of `bytes`.
pub uninterp spec fn utf8_lossy(bytes: Seq<u8>) -> Seq<char>;

/// The text that `bytes` stand for: the text they encode where they are valid
/// UTF-8, and otherwise what lenient decoding makes of them.
pub open spec fn decoded(bytes: Seq<u8>) -> Seq<char> {
    if valid_utf8(bytes) {
        decode_utf8(bytes)
    } else {
        utf8_lossy(bytes)
    }
}

/// What `str::to_lowercase` makes of `s`.
pub uninterp spec fn lowercased(s: Seq<char>) -> Seq<char>;

/// Decodes bytes as text with `String::from_utf8_lossy`, which replaces every
/// invalid sequence by U+FFFD instead of failing. Bytes that are valid UTF-8
/// come out as the text they encode.
#[verifier::external_body]
pub(crate) fn decode_lossy(bytes: &[u8]) -> (text: String)
    ensures
        text@ == utf8_lossy(bytes@),
        valid_utf8(bytes@) ==> text@ == decode_utf8(bytes@),
{
    String::from_utf8_lossy(bytes).into_owned()
}

/// Lowercases text with `str::to_lowercase`, which follows the Unicode
/// lowercase mapping.
#[verifier::external_body]
pub(crate) fn lowercase(s: &str) -> (lower: String)
    ensures
        lower@ == lowercased(s@),
{
    s.to_lowercase()
}

} // verus!
