//! Text helpers shared by the modules: the characters of a string, decimal
//! numerals in both directions, and removal of a marker from a text.

use vstd::prelude::*;

verus! {

/// Taken on trust of the standard library, as its documentation says:
/// `String::push` appends the character to the end of the string and
/// changes nothing else.
pub assume_specification[ String::push ](s: &mut String, c: char)
    ensures
        final(s)@ == old(s)@.push(c),
;

/// The characters of `s`, in order.
pub fn chars_of(s: &str) -> (out: Vec<char>)
    ensures
        out@ == s@,
{
    let mut out: Vec<char> = Vec::new();
    for c in it: s.chars()
        invariant
            it.seq() == s@,
            out@ == s@.take(it.index() as int),
    {
        out.push(c);
    }
    assert(out@ == s@);
    out
}

/// Tests whether two texts are the same.
pub fn str_equal(a: &str, b: &str) -> (same: bool)
    ensures
        same == (a@ == b@),
{
    let left = chars_of(a);
    let right = chars_of(b);
    if left.len() != right.len() {
        return false;
    }
    let mut i: usize = 0;
    while i < left.len()
        invariant
            i <= left@.len(),
            left@ == a@,
            right@ == b@,
            left@.len() == right@.len(),
            left@.take(i as int) == right@.take(i as int),
        decreases left.len() - i,
    {
        if left[i] != right[i] {
            assert(a@[i as int] != b@[i as int]);
            return false;
        }
        assert(left@.take(i + 1) =~= left@.take(i as int).push(left@[i as int]));
        assert(right@.take(i + 1) =~= right@.take(i as int).push(right@[i as int]));
        i += 1;
    }
    assert(left@.take(i as int) == left@);
    assert(right@.take(i as int) == right@);
    true
}

/// Whether `c` is one of the ten ASCII digits.
pub open spec fn is_digit(c: char) -> bool {
    '0' <= c && c <= '9'
}

/// The value of the ASCII digit `c`.
pub open spec fn digit_value(c: char) -> nat {
    (c as u32 - 48) as nat
}

/// The ASCII digit that stands for `d`, for `d` below ten.
pub open spec fn digit_char(d: nat) -> char {
    ((48 + d) as u8) as char
}

/// The decimal numeral of `n`: no sign, no leading zero except for zero itself.
pub open spec fn decimal(n: nat) -> Seq<char>
    decreases n,
{
    if n < 10 {
        seq![digit_char(n)]
    } else {
        decimal(n / 10).push(digit_char(n % 10))
    }
}

/// The number that a sequence of digits denotes, most significant digit first.
pub open spec fn digits_value(s: Seq<char>) -> nat
    decreases s.len(),
{
    if s.len() == 0 {
        0
    } else {
        digits_value(s.drop_last()) * 10 + digit_value(s.last())
    }
}

/// Whether every character of `s` is an ASCII digit.
pub open spec fn all_digits(s: Seq<char>) -> bool {
    forall|i: int| 0 <= i < s.len() ==> is_digit(#[trigger] s[i])
}

/// The digits of a numeral: the text without one leading plus sign.
pub open spec fn numeral_body(s: Seq<char>) -> Seq<char> {
    if s.len() > 0 && s[0] == '+' {
        s.drop_first()
    } else {
        s
    }
}

/// What an unsigned numeral denotes when read with an upper limit of `max`:
/// an optional plus sign, then at least one digit and nothing else, and a
/// value that does not exceed the limit.
pub open spec fn parsed(s: Seq<char>, max: nat) -> Option<nat> {
    let body = numeral_body(s);
    if body.len() > 0 && all_digits(body) && digits_value(body) <= max {
        Some(digits_value(body))
    } else {
        None
    }
}

/// Writes `n` as a decimal numeral.
pub fn decimal_string(n: u64) -> (out: String)
    ensures
        out@ == decimal(n as nat),
    decreases n,
{
    if n < 10 {
        let mut out = String::new();
        out.push((48 + n) as u8 as char);
        assert(out@ == decimal(n as nat));
        out
    } else {
        let mut out = decimal_string(n / 10);
        out.push((48 + n % 10) as u8 as char);
        out
    }
}

/// A prefix of a digit sequence never denotes more than the whole.
pub proof fn lemma_prefix_value(s: Seq<char>, k: int)
    requires
        0 <= k <= s.len(),
    ensures
        digits_value(s.take(k)) <= digits_value(s),
    decreases s.len() - k,
{
    if k == s.len() {
        assert(s.take(k) == s);
    } else {
        lemma_prefix_value(s, k + 1);
        assert(s.take(k + 1).drop_last() == s.take(k));
    }
}

/// Reads an unsigned decimal numeral that must not exceed `max`.
pub fn parse_bounded(s: &str, max: u64) -> (res: Option<u64>)
    ensures
        res is Some <==> parsed(s@, max as nat) is Some,
        res matches Some(v) ==> parsed(s@, max as nat) == Some(v as nat),
{
    let chars = chars_of(s);
    let n = chars.len();
    let start: usize = if n > 0 && chars[0] == '+' {
        1
    } else {
        0
    };
    let ghost body = numeral_body(s@);
    assert(body == s@.skip(start as int));
    if start == n {
        return None;
    }
    let mut acc: u64 = 0;
    let mut i: usize = start;
    while i < n
        invariant
            start <= i <= n,
            n == chars@.len(),
            chars@ == s@,
            body == numeral_body(s@),
            body == s@.skip(start as int),
            all_digits(body.take(i - start)),
            acc as nat == digits_value(body.take(i - start)),
            acc <= max,
        decreases n - i,
    {
        let c = chars[i];
        let ghost k = i - start;
        assert(body[k] == c);
        assert(body.take(k + 1).drop_last() == body.take(k));
        assert(body.take(k + 1).last() == c);
        if !('0' <= c && c <= '9') {
            assert(!is_digit(body[k]));
            return None;
        }
        let d: u64 = (c as u32 - 48) as u64;
        proof {
            lemma_prefix_value(body, k + 1);
        }
        if d > max {
            return None;
        }
        if acc > (max - d) / 10 {
            assert(acc * 10 + d > max) by (nonlinear_arith)
                requires
                    acc > (max - d) / 10,
                    d <= max,
                    d >= 0,
                    acc >= 0,
            ;
            return None;
        }
        assert(acc * 10 + d <= max) by (nonlinear_arith)
            requires
                acc <= (max - d) / 10,
                d <= max,
        ;
        acc = acc * 10 + d;
        assert forall|j: int| 0 <= j < body.take(k + 1).len() implies is_digit(
            #[trigger] body.take(k + 1)[j],
        ) by {
            if j < k {
                assert(body.take(k)[j] == body.take(k + 1)[j]);
            }
        }
        i += 1;
    }
    assert(body.take(n - start) == body);
    Some(acc)
}

/// The text `s` with every occurrence of `pat` taken out, searching from
/// the left and continuing behind each occurrence found.
pub open spec fn without(s: Seq<char>, pat: Seq<char>) -> Seq<char>
    decreases s.len(),
{
    if pat.len() == 0 || s.len() < pat.len() {
        s
    } else if s.take(pat.len() as int) == pat {
        without(s.skip(pat.len() as int), pat)
    } else {
        seq![s[0]] + without(s.drop_first(), pat)
    }
}

/// Whether `pat` occurs somewhere in `s`.
pub open spec fn occurs(s: Seq<char>, pat: Seq<char>) -> bool {
    exists|i: int| 0 <= i <= s.len() - pat.len() && #[trigger] s.subrange(i, i + pat.len()) == pat
}

/// Tests whether `pat` stands in `s` at position `at`.
fn stands_at(s: &Vec<char>, at: usize, pat: &Vec<char>) -> (found: bool)
    requires
        at + pat@.len() <= s@.len(),
    ensures
        found == (s@.subrange(at as int, at + pat@.len()) == pat@),
{
    let ghost window = s@.subrange(at as int, at + pat@.len());
    let n = s.len();
    let mut k: usize = 0;
    while k < pat.len()
        invariant
            k <= pat@.len(),
            at + pat@.len() <= s@.len() == n,
            window == s@.subrange(at as int, at + pat@.len()),
            window.take(k as int) == pat@.take(k as int),
        decreases pat.len() - k,
    {
        if s[at + k] != pat[k] {
            assert(window[k as int] != pat@[k as int]);
            return false;
        }
        assert(window.take(k + 1) =~= window.take(k as int).push(window[k as int]));
        assert(pat@.take(k + 1) =~= pat@.take(k as int).push(pat@[k as int]));
        k += 1;
    }
    assert(window.take(k as int) == window);
    assert(pat@.take(k as int) == pat@);
    true
}

/// Takes every occurrence of `pat` out of `s`.
pub fn remove_all(s: &str, pat: &str) -> (out: String)
    ensures
        out@ == without(s@, pat@),
{
    let text = chars_of(s);
    let mark = chars_of(pat);
    let n = text.len();
    let m = mark.len();
    let mut out = String::new();
    let mut i: usize = 0;
    if m == 0 {
        return String::from_str(s);
    }
    assert(s@.skip(0) == s@);
    while i < n
        invariant
            i <= n,
            n == text@.len(),
            m == mark@.len(),
            m > 0,
            text@ == s@,
            mark@ == pat@,
            out@ + without(s@.skip(i as int), pat@) == without(s@, pat@),
        decreases n - i,
    {
        let ghost rest = s@.skip(i as int);
        if n - i >= m && stands_at(&text, i, &mark) {
            assert(rest.take(m as int) == s@.subrange(i as int, i + m));
            assert(rest.skip(m as int) == s@.skip(i + m));
            i += m;
        } else {
            let c = text[i];
            assert(rest.drop_first() == s@.skip(i + 1));
            assert(rest[0] == c);
            if n - i >= m {
                assert(rest.take(m as int) == s@.subrange(i as int, i + m));
            } else {
                assert(rest =~= seq![c] + rest.drop_first());
            }
            assert(without(rest, pat@) == seq![c] + without(s@.skip(i + 1), pat@));
            assert(out@.push(c) + without(s@.skip(i + 1), pat@) =~= out@ + (seq![c] + without(
                s@.skip(i + 1),
                pat@,
            )));
            out.push(c);
            i += 1;
        }
    }
    assert(s@.skip(n as int).len() == 0);
    assert(out@ + without(s@.skip(i as int), pat@) =~= out@);
    out
}

/// A text in which the marker does not occur is left as it is.
pub proof fn lemma_without_absent(s: Seq<char>, pat: Seq<char>)
    requires
        !occurs(s, pat),
    ensures
        without(s, pat) == s,
    decreases s.len(),
{
    if pat.len() == 0 || s.len() < pat.len() {
    } else {
        assert(s.subrange(0, 0 + pat.len() as int) == s.take(pat.len() as int));
        assert(s.take(pat.len() as int) != pat);
        let rest = s.drop_first();
        assert(!occurs(rest, pat)) by {
            if occurs(rest, pat) {
                let i = choose|i: int|
                    0 <= i <= rest.len() - pat.len() && #[trigger] rest.subrange(i, i + pat.len())
                        == pat;
                assert(s.subrange(i + 1, i + 1 + pat.len()) == rest.subrange(i, i + pat.len()));
            }
        }
        lemma_without_absent(rest, pat);
        assert(seq![s[0]] + rest =~= s);
    }
}

/// Putting the marker in front of a text in which it does not occur, and
/// taking every marker out again, gives the text back.
pub proof fn lemma_marker_round_trip(s: Seq<char>, pat: Seq<char>)
    requires
        !occurs(s, pat),
    ensures
        without(pat + s, pat) == s,
{
    lemma_without_absent(s, pat);
    if pat.len() > 0 {
        assert((pat + s).take(pat.len() as int) == pat);
        assert((pat + s).skip(pat.len() as int) == s);
    } else {
        assert(pat + s == s);
    }
}

/// The numeral of a number consists of digits, and denotes that number.
pub proof fn lemma_decimal_digits(n: nat)
    ensures
        decimal(n).len() > 0,
        all_digits(decimal(n)),
        digits_value(decimal(n)) == n,
    decreases n,
{
    if n < 10 {
        assert(decimal(n).drop_last() =~= Seq::<char>::empty());
        assert(digits_value(decimal(n).drop_last()) == 0);
        assert(decimal(n).last() == digit_char(n));
    } else {
        lemma_decimal_digits(n / 10);
        let front = decimal(n / 10);
        assert(decimal(n).drop_last() =~= front);
        assert(decimal(n).last() == digit_char(n % 10));
        assert forall|i: int| 0 <= i < decimal(n).len() implies is_digit(
            #[trigger] decimal(n)[i],
        ) by {
            if i < front.len() {
                assert(decimal(n)[i] == front[i]);
            }
        }
    }
}

/// Reading the numeral of a number gives the number back, as long as the
/// number does not exceed the limit.
pub proof fn lemma_decimal_round_trip(n: nat, max: nat)
    requires
        n <= max,
    ensures
        parsed(decimal(n), max) == Some(n),
{
    lemma_decimal_digits(n);
    assert(is_digit(decimal(n)[0]));
    assert(numeral_body(decimal(n)) == decimal(n));
}

} // verus!
