//! Unicode facts that the text layer needs: display widths, grapheme clusters,
//! truncation from the start, and control characters.

use vstd::prelude::*;

verus! {

/// The display width of a string, in terminal columns.
pub uninterp spec fn str_width(s: Seq<char>) -> usize;

/// The extended grapheme clusters of a string, in order.
pub uninterp spec fn graphemes_of(s: Seq<char>) -> Seq<Seq<char>>;

/// The longest suffix of a string that fits a display width, and its width.
pub uninterp spec fn truncate_start_of(s: Seq<char>, max_width: usize) -> (Seq<char>, usize);

/// Relies on `unicode_width::UnicodeWidthStr::width`: the display width of `s`, which
/// depends on the characters alone; the empty string has width zero.
#[verifier::external_body]
pub(crate) fn display_width(s: &str) -> (r: usize)
    ensures
        r == str_width(s@),
        s@.len() == 0 ==> r == 0,
{
    unicode_width::UnicodeWidthStr::width(s)
}

/// Relies on `unicode_segmentation::UnicodeSegmentation::graphemes` (extended clusters):
/// the clusters of `s` in order.
#[verifier::external_body]
pub(crate) fn graphemes(s: &str) -> (r: Vec<String>)
    ensures
        r@.len() == graphemes_of(s@).len(),
        forall|i: int| 0 <= i < r@.len() ==> #[trigger] r@[i]@ == graphemes_of(s@)[i],
        forall|i: int| 0 <= i < r@.len() ==> (#[trigger] r@[i])@.len() > 0,
        r@.map_values(|g: String| g@).flatten() == s@,
{
    unicode_segmentation::UnicodeSegmentation::graphemes(s, true).map(String::from).collect()
}

/// The sum of the display widths of `gs`.
pub open spec fn widths_sum(gs: Seq<Seq<char>>) -> int
    decreases gs.len(),
{
    if gs.len() == 0 {
        0
    } else {
        str_width(gs[0]) + widths_sum(gs.drop_first())
    }
}

/// Every tail of whole grapheme clusters of `s` is as wide as its clusters together.
/// (Where it is not, as when a ligature joins two clusters into one column, truncating
/// from the start cannot tell the width of what is left.)
pub open spec fn truncatable_spec(s: Seq<char>) -> bool {
    let gs = graphemes_of(s);
    forall|k: int|
        0 <= k <= gs.len() ==> str_width(#[trigger] gs.subrange(k, gs.len() as int).flatten())
            == widths_sum(gs.subrange(k, gs.len() as int))
}

/// Whether every tail of whole grapheme clusters of `s` is as wide as its clusters
/// together.
pub fn truncatable(s: &str) -> (r: bool)
    ensures
        r == truncatable_spec(s@),
{
    let gs = graphemes(s);
    let ghost gsv = graphemes_of(s@);
    let n = gs.len();
    let mut suffix = String::new();
    let mut sum: usize = 0;
    let mut k: usize = n;
    proof {
        assert(gsv.subrange(n as int, n as int) =~= Seq::<Seq<char>>::empty());
    }
    let w0 = display_width(suffix.as_str());
    assert(w0 == str_width(gsv.subrange(n as int, n as int).flatten()));
    while k > 0
        invariant
            n == gsv.len(),
            gs@.len() == n,
            forall|i: int| 0 <= i < n ==> #[trigger] gs@[i]@ == gsv[i],
            gsv == graphemes_of(s@),
            k <= n,
            suffix@ == gsv.subrange(k as int, n as int).flatten(),
            sum == widths_sum(gsv.subrange(k as int, n as int)),
            forall|j: int|
                k <= j <= n ==> str_width(#[trigger] gsv.subrange(j, n as int).flatten())
                    == widths_sum(gsv.subrange(j, n as int)),
        decreases k,
    {
        k = k - 1;
        let ghost tail = gsv.subrange(k as int, n as int);
        proof {
            assert(tail.drop_first() =~= gsv.subrange(k + 1, n as int));
            assert(tail.first() == gsv[k as int]);
        }
        let w = display_width(gs[k].as_str());
        if sum > usize::MAX - w {
            proof {
                assert(str_width(tail.flatten()) != widths_sum(tail));
            }
            return false;
        }
        sum = sum + w;
        let mut t = String::from_str(gs[k].as_str());
        t.append(suffix.as_str());
        suffix = t;
        if display_width(suffix.as_str()) != sum {
            proof {
                assert(str_width(tail.flatten()) != widths_sum(tail));
            }
            return false;
        }
    }
    true
}

/// Relies on `unicode_truncate::UnicodeTruncateStr::unicode_truncate_start`: drops leading
/// grapheme clusters until the rest fits `max_width` columns, returning the rest, which
/// is a suffix of `s`, and its width, which is at most `max_width`. The function checks,
/// in debug builds, that the rest is as wide as its clusters together, hence `requires`.
#[verifier::external_body]
pub(crate) fn truncate_start(s: &str, max_width: usize) -> (r: (String, usize))
    requires
        truncatable_spec(s@),
    ensures
        (r.0@, r.1) == truncate_start_of(s@, max_width),
        r.1 <= max_width,
        r.0@.len() <= s@.len(),
        r.0@ == s@.subrange(s@.len() - r.0@.len(), s@.len() as int),
{
    let (rest, width) = unicode_truncate::UnicodeTruncateStr::unicode_truncate_start(s, max_width);
    (String::from(rest), width)
}

/// Whether `c` is a control character (Unicode general category Cc).
pub open spec fn is_control_spec(c: char) -> bool {
    (c as u32) <= 0x1f || (0x7f <= (c as u32) && (c as u32) <= 0x9f)
}

/// Whether any character of `s` is a control character.
pub open spec fn has_control(s: Seq<char>) -> bool {
    exists|i: int| 0 <= i < s.len() && is_control_spec(#[trigger] s[i])
}

/// Whether `c` is a control character (Unicode general category Cc).
pub fn is_control(c: char) -> (r: bool)
    ensures
        r == is_control_spec(c),
{
    let v = c as u32;
    v <= 0x1f || (0x7f <= v && v <= 0x9f)
}

/// Whether any character of `s` is a control character.
pub fn contains_control(s: &str) -> (r: bool)
    ensures
        r == has_control(s@),
{
    let n = s.unicode_len();
    let mut i: usize = 0;
    while i < n
        invariant
            n == s@.len(),
            i <= n,
            forall|j: int| 0 <= j < i ==> !is_control_spec(#[trigger] s@[j]),
        decreases n - i,
    {
        if is_control(s.get_char(i)) {
            return true;
        }
        i = i + 1;
    }
    false
}

} // verus!
