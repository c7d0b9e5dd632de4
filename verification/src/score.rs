use crate::error::TirError;
use vstd::prelude::*;
use vstd::string::*;

verus! {

// The score a model reply carries is embedded under the machine-parseable
// contract "percent sign, one or more decimal digits, percent sign". This
// module finds the first such marker, reads its digits as an unsigned
// integer, and replaces the one matched marker by its bare digits.

/// A decimal digit, as the score pattern accepts it.
pub open spec fn is_score_digit(c: char) -> bool {
    48 <= c as int && c as int <= 57
}

/// The end of the run of digits that starts at `k`: the first position at
/// or after `k` holding a non-digit, or the text's length.
pub open spec fn digit_run_end(s: Seq<char>, k: int) -> int
    decreases s.len() - k,
        when 0 <= k <= s.len()
{
    if k < s.len() && is_score_digit(s[k]) {
        digit_run_end(s, k + 1)
    } else {
        k
    }
}

/// Does a score marker start at position `i`? It does exactly when `i`
/// holds a percent sign, at least one digit follows, and the digit run is
/// closed by another percent sign.
pub open spec fn match_at(s: Seq<char>, i: int) -> bool {
    &&& 0 <= i < s.len()
    &&& s[i] == '%'
    &&& i + 1 < digit_run_end(s, i + 1) < s.len()
    &&& s[digit_run_end(s, i + 1)] == '%'
}

/// The first position at or after `from` where a marker starts, or the
/// text's length if there is none.
pub open spec fn first_match_from(s: Seq<char>, from: int) -> int
    decreases s.len() - from,
        when 0 <= from <= s.len()
{
    if from >= s.len() {
        s.len() as int
    } else if match_at(s, from) {
        from
    } else {
        first_match_from(s, from + 1)
    }
}

/// Where the first score marker of the text starts.
pub open spec fn match_start(s: Seq<char>) -> int {
    first_match_from(s, 0)
}

/// Does the text contain a score marker at all?
pub open spec fn has_score_marker(s: Seq<char>) -> bool {
    match_start(s) < s.len()
}

/// The digits of the first score marker.
pub open spec fn marker_digits(s: Seq<char>) -> Seq<char> {
    s.subrange(match_start(s) + 1, digit_run_end(s, match_start(s) + 1))
}

/// The numeric value of a digit string, most significant digit first.
pub open spec fn digits_value(ds: Seq<char>) -> int
    decreases ds.len(),
{
    if ds.len() == 0 {
        0
    } else {
        digits_value(ds.drop_last()) * 10 + (ds.last() as int - 48)
    }
}

/// The score the first marker of the text carries.
pub open spec fn marker_score(s: Seq<char>) -> int {
    digits_value(marker_digits(s))
}

/// The cleaned text: the first marker replaced by its bare digits; the
/// rest of the text is untouched, and later markers are left alone.
pub open spec fn cleaned_text(s: Seq<char>) -> Seq<char>
    recommends
        has_score_marker(s),
{
    s.subrange(0, match_start(s)) + marker_digits(s) + s.subrange(
        digit_run_end(s, match_start(s) + 1) + 1,
        s.len() as int,
    )
}

proof fn lemma_digit_run_end_is(s: Seq<char>, k: int, j: int)
    requires
        0 <= k <= j <= s.len(),
        forall|t: int| k <= t < j ==> is_score_digit(s[t]),
        j == s.len() || !is_score_digit(s[j]),
    ensures
        digit_run_end(s, k) == j,
    decreases j - k,
{
    if k < j {
        lemma_digit_run_end_is(s, k + 1, j);
    }
}

proof fn lemma_first_match_from_is(s: Seq<char>, from: int, i: int)
    requires
        0 <= from <= i <= s.len(),
        forall|k: int| from <= k < i ==> !match_at(s, k),
        i == s.len() || match_at(s, i),
    ensures
        first_match_from(s, from) == i,
    decreases i - from,
{
    if from < i {
        lemma_first_match_from_is(s, from + 1, i);
    }
}

proof fn lemma_digits_value_nonneg(ds: Seq<char>)
    requires
        forall|t: int| 0 <= t < ds.len() ==> is_score_digit(ds[t]),
    ensures
        digits_value(ds) >= 0,
    decreases ds.len(),
{
    if ds.len() > 0 {
        lemma_digits_value_nonneg(ds.drop_last());
    }
}

proof fn lemma_digits_value_prefix_le(ds: Seq<char>, m: int)
    requires
        0 <= m <= ds.len(),
        forall|t: int| 0 <= t < ds.len() ==> is_score_digit(ds[t]),
    ensures
        digits_value(ds.subrange(0, m)) <= digits_value(ds),
    decreases ds.len() - m,
{
    if m == ds.len() {
        assert(ds.subrange(0, m) =~= ds);
    } else {
        lemma_digits_value_prefix_le(ds, m + 1);
        assert(ds.subrange(0, m + 1).drop_last() =~= ds.subrange(0, m));
        lemma_digits_value_nonneg(ds.subrange(0, m));
    }
}

/// Is the character at position `k` a decimal digit?
fn digit_at(text: &str, k: usize) -> (r: bool)
    requires
        k < text@.len(),
    ensures
        r == is_score_digit(text@[k as int]),
{
    let c = text.get_char(k);
    48 <= c as u32 && c as u32 <= 57
}

/// Search the text for the first `%digits%` marker. On success return the
/// digits' value and the text with that one marker replaced by the bare
/// digits. A text without a marker, or one whose marker's digits exceed
/// 255, breaks the score contract: the result is then
/// [`TirError::ParseContractViolation`], never a default score.
pub fn extract_score(text: &str) -> (r: Result<(u8, String), TirError>)
    ensures
        r is Ok <==> has_score_marker(text@) && marker_score(text@) <= 255,
        r is Ok ==> r->Ok_0.0 as int == marker_score(text@) && r->Ok_0.1@ == cleaned_text(text@),
        r is Err ==> r->Err_0 == TirError::ParseContractViolation,
{
    let ghost s = text@;
    let n = text.unicode_len();
    let mut i: usize = 0;
    while i < n
        invariant
            s == text@,
            n == s.len(),
            i <= n,
            forall|k: int| 0 <= k < i ==> !match_at(s, k),
        decreases n - i,
    {
        if text.get_char(i) == '%' {
            let mut j: usize = i + 1;
            while j < n && digit_at(text, j)
                invariant
                    s == text@,
                    n == s.len(),
                    i + 1 <= j <= n,
                    forall|t: int| i + 1 <= t < j ==> is_score_digit(s[t]),
                decreases n - j,
            {
                j = j + 1;
            }
            proof {
                lemma_digit_run_end_is(s, i + 1, j as int);
            }
            if i + 1 < j && j < n && text.get_char(j) == '%' {
                proof {
                    lemma_first_match_from_is(s, 0, i as int);
                }
                let ghost ds = marker_digits(s);
                proof {
                    assert(ds =~= s.subrange(i + 1, j as int));
                }
                let mut val: u32 = 0;
                let mut k: usize = i + 1;
                while k < j
                    invariant
                        s == text@,
                        n == s.len(),
                        i + 1 <= k <= j <= n,
                        i < n,
                        ds == s.subrange(i + 1, j as int),
                        forall|t: int| i + 1 <= t < j ==> is_score_digit(s[t]),
                        val as int == digits_value(s.subrange(i + 1, k as int)),
                        val <= 255,
                        marker_score(s) == digits_value(ds),
                        match_start(s) == i,
                        digit_run_end(s, i + 1) == j,
                    decreases j - k,
                {
                    let c = text.get_char(k);
                    let d: u32 = c as u32 - 48;
                    proof {
                        assert(s.subrange(i + 1, k + 1).drop_last() =~= s.subrange(
                            i + 1,
                            k as int,
                        ));
                    }
                    if val > 25 || (val == 25 && d > 5) {
                        proof {
                            assert(digits_value(s.subrange(i + 1, k + 1)) > 255);
                            assert(s.subrange(i + 1, k + 1) =~= ds.subrange(0, k + 1 - (i + 1)));
                            lemma_digits_value_prefix_le(ds, k + 1 - (i + 1));
                        }
                        return Err(TirError::ParseContractViolation);
                    }
                    val = val * 10 + d;
                    k = k + 1;
                }
                proof {
                    assert(s.subrange(i + 1, k as int) =~= ds);
                }
                let pre = text.substring_char(0, i);
                let digits = text.substring_char(i + 1, j);
                let post = text.substring_char(j + 1, n);
                let cleaned = String::from_str(pre).concat(digits).concat(post);
                proof {
                    assert(cleaned@ =~= cleaned_text(s));
                }
                return Ok((val as u8, cleaned));
            }
        }
        i = i + 1;
    }
    proof {
        lemma_first_match_from_is(s, 0, n as int);
    }
    Err(TirError::ParseContractViolation)
}

} // verus!
