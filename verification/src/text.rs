//! Character-level text utilities.
//!
//! The modem replies with plain text, and every resolver in this crate works
//! by scanning that text: finding marker substrings, cutting lines into
//! comma-separated fields, and reading decimal numbers. This module holds
//! those scanners together with the specification functions that say exactly
//! what they find.

use vstd::prelude::*;

verus! {

// ---------------------------------------------------------------------------
// Character classes
// ---------------------------------------------------------------------------
/// True for the ten ASCII digits.
pub open spec fn is_digit(c: char) -> bool {
    '0' <= c && c <= '9'
}

/// The numeric value of an ASCII digit.
pub open spec fn digit_val(c: char) -> int {
    c as int - '0' as int
}

/// The ASCII whitespace characters that [`trim`] removes.
pub open spec fn is_space(c: char) -> bool {
    c == ' ' || c == '\t' || c == '\r' || c == '\n'
}

fn is_digit_exec(c: char) -> (r: bool)
    ensures
        r == is_digit(c),
{
    '0' <= c && c <= '9'
}

fn is_space_exec(c: char) -> (r: bool)
    ensures
        r == is_space(c),
{
    c == ' ' || c == '\t' || c == '\r' || c == '\n'
}

// ---------------------------------------------------------------------------
// Substring search
// ---------------------------------------------------------------------------
/// The pattern `p` occurs in `t` starting at index `i`.
pub open spec fn sub_at(t: Seq<char>, p: Seq<char>, i: int) -> bool {
    0 <= i && i + p.len() <= t.len() && t.subrange(i, i + p.len() as int) == p
}

/// The pattern `p` occurs somewhere in `t`.
pub open spec fn has_sub(t: Seq<char>, p: Seq<char>) -> bool {
    exists|i: int| sub_at(t, p, i)
}

/// The first index at or after `from` where `p` occurs in `t`, if any.
pub open spec fn first_sub_from(t: Seq<char>, p: Seq<char>, from: int) -> Option<int>
    decreases t.len() + 1 - from,
{
    if from < 0 || from + p.len() > t.len() {
        None
    } else if t.subrange(from, from + p.len() as int) == p {
        Some(from)
    } else {
        first_sub_from(t, p, from + 1)
    }
}

/// `first_sub_from` finds exactly the earliest occurrence at or after `from`.
pub proof fn lemma_first_sub_from(t: Seq<char>, p: Seq<char>, from: int)
    requires
        0 <= from,
    ensures
        match first_sub_from(t, p, from) {
            Some(k) => from <= k && sub_at(t, p, k) && forall|j: int|
                from <= j < k ==> !sub_at(t, p, j),
            None => forall|j: int| from <= j ==> !sub_at(t, p, j),
        },
    decreases t.len() + 1 - from,
{
    if from + p.len() > t.len() {
        // any occurrence at j >= from would need room for p
    } else if t.subrange(from, from + p.len() as int) == p {
    } else {
        lemma_first_sub_from(t, p, from + 1);
        assert(!sub_at(t, p, from));
    }
}

/// The first index at or after `from` where the character `c` stands in `t`.
pub open spec fn first_char_from(t: Seq<char>, c: char, from: int) -> Option<int>
    decreases t.len() - from,
{
    if from < 0 || from >= t.len() {
        None
    } else if t[from] == c {
        Some(from)
    } else {
        first_char_from(t, c, from + 1)
    }
}

/// `first_char_from` finds exactly the earliest such character.
pub proof fn lemma_first_char_from(t: Seq<char>, c: char, from: int)
    requires
        0 <= from,
    ensures
        match first_char_from(t, c, from) {
            Some(k) => from <= k < t.len() && t[k] == c && forall|j: int|
                from <= j < k && 0 <= j ==> t[j] != c,
            None => forall|j: int| from <= j < t.len() && 0 <= j ==> t[j] != c,
        },
    decreases t.len() - from,
{
    if from < 0 || from >= t.len() {
    } else if t[from] == c {
    } else {
        lemma_first_char_from(t, c, from + 1);
    }
}

/// Finds the first occurrence of `p` in `t` at or after `from`.
pub fn find_sub_from(t: &str, p: &str, from: usize) -> (r: Option<usize>)
    requires
        from <= t@.len(),
    ensures
        match r {
            Some(i) => first_sub_from(t@, p@, from as int) == Some(i as int) && i
                <= t@.len(),
            None => first_sub_from(t@, p@, from as int) is None,
        },
{
    let n = t.unicode_len();
    let m = p.unicode_len();
    if m == 0 {
        proof {
            assert(t@.subrange(from as int, from as int) =~= p@);
        }
        return Some(from);
    }
    if m > n || from > n - m {
        proof {
            lemma_first_sub_from(t@, p@, from as int);
        }
        return None;
    }
    let mut i: usize = from;
    while i <= n - m
        invariant
            from <= i <= n,
            n == t@.len(),
            m == p@.len(),
            1 <= m <= n,
            forall|j: int| from <= j < i ==> !sub_at(t@, p@, j),
        decreases n - i,
    {
        if match_at(t, p, i) {
            proof {
                lemma_first_sub_from(t@, p@, from as int);
                match first_sub_from(t@, p@, from as int) {
                    Some(k) => {
                        assert(!(k < i) && !(i < k));
                    },
                    None => {
                        assert(!sub_at(t@, p@, i as int));
                    },
                }
            }
            return Some(i);
        }
        i = i + 1;
    }
    proof {
        assert forall|j: int| from <= j implies !sub_at(t@, p@, j) by {
            if sub_at(t@, p@, j) {
                assert(j + m <= n);
                assert(j < i);
            }
        }
        lemma_first_sub_from(t@, p@, from as int);
    }
    None
}

/// True iff `p` occurs in `t` exactly at index `i`.
fn match_at(t: &str, p: &str, i: usize) -> (r: bool)
    requires
        i + p@.len() <= t@.len(),
        t@.len() <= usize::MAX,
    ensures
        r == sub_at(t@, p@, i as int),
{
    let m = p.unicode_len();
    let mut j: usize = 0;
    while j < m
        invariant
            0 <= j <= m,
            i + m <= t@.len(),
            t@.len() <= usize::MAX,
            m == p@.len(),
            forall|l: int| 0 <= l < j ==> t@[i + l] == p@[l],
        decreases m - j,
    {
        if t.get_char(i + j) != p.get_char(j) {
            proof {
                if sub_at(t@, p@, i as int) {
                    assert(t@.subrange(i as int, i + m as int)[j as int] == t@[i
                        + j]);
                }
            }
            return false;
        }
        j = j + 1;
    }
    proof {
        assert(t@.subrange(i as int, i + m as int) =~= p@);
    }
    true
}

/// True iff `p` occurs somewhere in `t`.
pub fn contains_sub(t: &str, p: &str) -> (r: bool)
    ensures
        r == has_sub(t@, p@),
{
    proof {
        lemma_first_sub_from(t@, p@, 0);
    }
    let r = find_sub_from(t, p, 0);
    proof {
        if r is Some {
            assert(has_sub(t@, p@));
        } else {
            assert forall|j: int| !sub_at(t@, p@, j) by {
                if sub_at(t@, p@, j) {
                    assert(j >= 0);
                }
            }
        }
    }
    r.is_some()
}

/// Finds the first `c` in `t` at or after `from`.
pub fn find_char_from(t: &str, c: char, from: usize) -> (r: Option<usize>)
    requires
        from <= t@.len(),
    ensures
        r == match first_char_from(t@, c, from as int) {
            Some(k) => Some(k as usize),
            None => None::<usize>,
        },
        r matches Some(k) ==> from <= k < t@.len(),
{
    let n = t.unicode_len();
    let mut i: usize = from;
    while i < n
        invariant
            from <= i <= n,
            n == t@.len(),
            forall|j: int| from <= j < i ==> t@[j] != c,
        decreases n - i,
    {
        if t.get_char(i) == c {
            proof {
                lemma_first_char_from(t@, c, from as int);
                match first_char_from(t@, c, from as int) {
                    Some(k) => {
                        assert(!(k < i) && !(i < k));
                    },
                    None => {
                        assert(t@[i as int] != c);
                    },
                }
            }
            return Some(i);
        }
        i = i + 1;
    }
    proof {
        lemma_first_char_from(t@, c, from as int);
    }
    None
}

// ---------------------------------------------------------------------------
// Decimal digit runs
// ---------------------------------------------------------------------------
/// Every character of `s` is an ASCII digit.
pub open spec fn all_digits(s: Seq<char>) -> bool {
    forall|i: int| 0 <= i < s.len() ==> is_digit(#[trigger] s[i])
}

/// The number written by a digit sequence, most significant digit first.
pub open spec fn digits_val(s: Seq<char>) -> int
    decreases s.len(),
{
    if s.len() == 0 {
        0
    } else {
        digits_val(s.drop_last()) * 10 + digit_val(s.last())
    }
}

/// Ten to the `n`.
pub open spec fn pow10(n: nat) -> int
    decreases n,
{
    if n == 0 {
        1
    } else {
        10 * pow10((n - 1) as nat)
    }
}

/// A digit string of length `n` writes a number below `pow10(n)`.
pub proof fn lemma_digits_val_bound(s: Seq<char>)
    requires
        all_digits(s),
    ensures
        0 <= digits_val(s) < pow10(s.len()),
    decreases s.len(),
{
    if s.len() > 0 {
        assert(all_digits(s.drop_last())) by {
            assert(forall|i: int|
                0 <= i < s.len() - 1 ==> #[trigger] s.drop_last()[i] == s[i]);
        }
        lemma_digits_val_bound(s.drop_last());
        assert(is_digit(s.last()));
        assert(0 <= digit_val(s.last()) <= 9);
    }
}

/// The length of the run of digits in `s` starting at `from`.
pub open spec fn digit_run_len(s: Seq<char>, from: int) -> int
    decreases s.len() - from,
{
    if from < 0 || from >= s.len() || !is_digit(s[from]) {
        0
    } else {
        1 + digit_run_len(s, from + 1)
    }
}

/// The digit run is a well-placed all-digit block ended by a non-digit.
pub proof fn lemma_digit_run_len(s: Seq<char>, from: int)
    requires
        0 <= from <= s.len(),
    ensures
        0 <= digit_run_len(s, from),
        from + digit_run_len(s, from) <= s.len(),
        forall|j: int|
            from <= j < from + digit_run_len(s, from) ==> is_digit(#[trigger] s[j]),
        from + digit_run_len(s, from) < s.len() ==> !is_digit(
            s[from + digit_run_len(s, from)],
        ),
    decreases s.len() - from,
{
    if from < s.len() && is_digit(s[from]) {
        lemma_digit_run_len(s, from + 1);
    }
}

/// Measures the digit run in `t` starting at `from`.
pub fn digit_run(t: &str, from: usize) -> (r: usize)
    requires
        from <= t@.len(),
    ensures
        r == digit_run_len(t@, from as int),
        from + r <= t@.len(),
{
    proof {
        lemma_digit_run_len(t@, from as int);
    }
    let n = t.unicode_len();
    let mut i: usize = from;
    while i < n
        invariant
            from <= i <= n,
            n == t@.len(),
            forall|j: int| from <= j < i ==> is_digit(#[trigger] t@[j]),
            digit_run_len(t@, i as int) + i == digit_run_len(t@, from as int) + from,
        decreases n - i,
    {
        if !is_digit_exec(t.get_char(i)) {
            proof {
                assert(digit_run_len(t@, i as int) == 0);
            }
            return i - from;
        }
        proof {
            assert(digit_run_len(t@, i as int) == 1 + digit_run_len(t@, i + 1));
        }
        i = i + 1;
    }
    proof {
        assert(digit_run_len(t@, n as int) == 0);
    }
    n - from
}

/// The value of the pure digit block `[from, to)` of `s`, when it is between
/// 1 and 18 digits long; `None` on an empty, over-long or non-digit block.
pub open spec fn digits_value_in(s: Seq<char>, from: int, to: int) -> Option<int> {
    if 0 <= from < to <= s.len() && to - from <= 18 && all_digits(
        s.subrange(from, to),
    ) {
        Some(digits_val(s.subrange(from, to)))
    } else {
        None
    }
}

/// Reads the digit block `[from, to)` of `t` as a number.
pub fn parse_digits_u64(t: &str, from: usize, to: usize) -> (r: Option<u64>)
    requires
        to <= t@.len(),
    ensures
        r == match digits_value_in(t@, from as int, to as int) {
            Some(v) => Some(v as u64),
            None => None::<u64>,
        },
{
    if !(from < to && to - from <= 18) {
        return None;
    }
    let ghost block = t@.subrange(from as int, to as int);
    let mut v: u64 = 0;
    let mut i: usize = from;
    while i < to
        invariant
            from <= i <= to <= t@.len(),
            to - from <= 18,
            block == t@.subrange(from as int, to as int),
            all_digits(t@.subrange(from as int, i as int)),
            v == digits_val(t@.subrange(from as int, i as int)),
            v < pow10((i - from) as nat),
        decreases to - i,
    {
        let c = t.get_char(i);
        if !is_digit_exec(c) {
            proof {
                assert(block[i - from] == t@[i as int]);
                assert(!all_digits(block));
            }
            return None;
        }
        proof {
            let pre = t@.subrange(from as int, i as int);
            let nxt = t@.subrange(from as int, i + 1);
            assert(nxt.drop_last() =~= pre);
            assert(nxt.last() == t@[i as int]);
            assert(all_digits(nxt)) by {
                assert(forall|j: int| 0 <= j < i - from ==> nxt[j] == pre[j]);
            }
            assert(pow10(((i + 1) - from) as nat) == 10 * pow10((i - from) as nat));
            lemma_pow10_le_18((((i + 1) - from)) as nat);
        }
        v = v * 10 + (c as u64 - 48);
        proof {
            assert(digit_val(t@[i as int]) == c as int - 48);
        }
        i = i + 1;
    }
    proof {
        assert(block =~= t@.subrange(from as int, to as int));
        assert(all_digits(block));
    }
    Some(v)
}

/// `pow10` of at most 18 stays below `u64::MAX`.
pub proof fn lemma_pow10_le_18(n: nat)
    requires
        n <= 18,
    ensures
        pow10(n) <= 1_000_000_000_000_000_000,
{
    lemma_pow10_mono(n, 18);
    reveal_with_fuel(pow10, 19);
    assert(pow10(18) == 1_000_000_000_000_000_000);
}

/// `pow10` is positive.
pub proof fn lemma_pow10_pos(n: nat)
    ensures
        pow10(n) >= 1,
    decreases n,
{
    if n > 0 {
        lemma_pow10_pos((n - 1) as nat);
    }
}

/// `pow10` is monotonic.
pub proof fn lemma_pow10_mono(a: nat, b: nat)
    requires
        a <= b,
    ensures
        pow10(a) <= pow10(b),
    decreases b,
{
    if a < b {
        lemma_pow10_mono(a, (b - 1) as nat);
        lemma_pow10_pos((b - 1) as nat);
    }
}

// ---------------------------------------------------------------------------
// Number formatting
// ---------------------------------------------------------------------------
/// The decimal digit character for `d` between 0 and 9.
pub open spec fn digit_char(d: int) -> char {
    if d == 0 {
        '0'
    } else if d == 1 {
        '1'
    } else if d == 2 {
        '2'
    } else if d == 3 {
        '3'
    } else if d == 4 {
        '4'
    } else if d == 5 {
        '5'
    } else if d == 6 {
        '6'
    } else if d == 7 {
        '7'
    } else if d == 8 {
        '8'
    } else {
        '9'
    }
}

/// The decimal writing of `n`, most significant digit first.
pub open spec fn dec_digits(n: int) -> Seq<char>
    decreases n,
{
    if n < 10 {
        seq![digit_char(n)]
    } else {
        dec_digits(n / 10) + seq![digit_char(n % 10)]
    }
}

fn digit_str(d: u64) -> (r: &'static str)
    requires
        d < 10,
    ensures
        r@ == seq![digit_char(d as int)],
{
    proof {
        reveal_strlit("0");
        reveal_strlit("1");
        reveal_strlit("2");
        reveal_strlit("3");
        reveal_strlit("4");
        reveal_strlit("5");
        reveal_strlit("6");
        reveal_strlit("7");
        reveal_strlit("8");
        reveal_strlit("9");
    }
    let r = match d {
        0 => "0",
        1 => "1",
        2 => "2",
        3 => "3",
        4 => "4",
        5 => "5",
        6 => "6",
        7 => "7",
        8 => "8",
        _ => "9",
    };
    proof {
        assert(r@ =~= seq![digit_char(d as int)]);
    }
    r
}

/// Appends the decimal writing of `n` to `out`.
pub fn push_decimal(out: &mut String, n: u64)
    ensures
        final(out)@ == old(out)@ + dec_digits(n as int),
    decreases n,
{
    if n >= 10 {
        push_decimal(out, n / 10);
        out.append(digit_str(n % 10));
        proof {
            assert(old(out)@ + dec_digits(n as int) =~= (old(out)@ + dec_digits(
                n as int / 10,
            )) + seq![digit_char(n as int % 10)]);
        }
    } else {
        out.append(digit_str(n));
        proof {
            assert(old(out)@ + dec_digits(n as int) =~= old(out)@ + seq![
                digit_char(n as int),
            ]);
        }
    }
}

// ---------------------------------------------------------------------------
// Trimming and quote stripping
// ---------------------------------------------------------------------------
/// The length of the run of whitespace in `s` starting at `from`.
pub open spec fn space_run_len(s: Seq<char>, from: int) -> int
    decreases s.len() - from,
{
    if from < 0 || from >= s.len() || !is_space(s[from]) {
        0
    } else {
        1 + space_run_len(s, from + 1)
    }
}

/// The length of the run of whitespace ending just before `upto`.
pub open spec fn space_tail_len(s: Seq<char>, upto: int) -> int
    decreases upto,
{
    if upto <= 0 || upto > s.len() || !is_space(s[upto - 1]) {
        0
    } else {
        1 + space_tail_len(s, upto - 1)
    }
}

/// `s` with leading and trailing ASCII whitespace removed.
pub open spec fn trim_spec(s: Seq<char>) -> Seq<char> {
    let a = space_run_len(s, 0);
    let b = s.len() - space_tail_len(s, s.len() as int);
    if a <= b {
        s.subrange(a, b)
    } else {
        Seq::empty()
    }
}

proof fn lemma_space_run_len(s: Seq<char>, from: int)
    requires
        0 <= from <= s.len(),
    ensures
        0 <= space_run_len(s, from),
        from + space_run_len(s, from) <= s.len(),
        forall|j: int|
            from <= j < from + space_run_len(s, from) ==> is_space(#[trigger] s[j]),
        from + space_run_len(s, from) < s.len() ==> !is_space(
            s[from + space_run_len(s, from)],
        ),
    decreases s.len() - from,
{
    if from < s.len() && is_space(s[from]) {
        lemma_space_run_len(s, from + 1);
    }
}

proof fn lemma_space_tail_len(s: Seq<char>, upto: int)
    requires
        0 <= upto <= s.len(),
    ensures
        0 <= space_tail_len(s, upto) <= upto,
        forall|j: int|
            upto - space_tail_len(s, upto) <= j < upto ==> is_space(#[trigger] s[j]),
        upto - space_tail_len(s, upto) > 0 ==> !is_space(
            s[upto - space_tail_len(s, upto) - 1],
        ),
    decreases upto,
{
    if upto > 0 && is_space(s[upto - 1]) {
        lemma_space_tail_len(s, upto - 1);
    }
}

/// Copies `t` without its leading and trailing ASCII whitespace.
pub fn trim(t: &str) -> (r: String)
    ensures
        r@ == trim_spec(t@),
{
    proof {
        lemma_space_run_len(t@, 0);
        lemma_space_tail_len(t@, t@.len() as int);
    }
    let n = t.unicode_len();
    let mut a: usize = 0;
    while a < n && is_space_exec(t.get_char(a))
        invariant
            0 <= a <= n,
            n == t@.len(),
            space_run_len(t@, a as int) + a == space_run_len(t@, 0),
            a <= space_run_len(t@, 0),
        decreases n - a,
    {
        proof {
            assert(space_run_len(t@, a as int) == 1 + space_run_len(t@, a + 1));
            lemma_space_run_len(t@, 0);
        }
        a = a + 1;
    }
    proof {
        assert(space_run_len(t@, a as int) == 0);
        assert(a == space_run_len(t@, 0));
    }
    let mut b: usize = n;
    while b > a && is_space_exec(t.get_char(b - 1))
        invariant
            a <= b <= n,
            n == t@.len(),
            a == space_run_len(t@, 0),
            space_tail_len(t@, n as int) == space_tail_len(t@, b as int) + (n - b),
            n - b <= space_tail_len(t@, n as int),
        decreases b,
    {
        proof {
            assert(space_tail_len(t@, b as int) == 1 + space_tail_len(t@, b - 1));
            lemma_space_tail_len(t@, n as int);
        }
        b = b - 1;
    }
    proof {
        lemma_space_run_len(t@, 0);
        lemma_space_tail_len(t@, n as int);
        if b > a {
            assert(space_tail_len(t@, b as int) == 0);
            assert(b == n - space_tail_len(t@, n as int));
        } else {
            // everything from a on is whitespace, so the trim is empty
            assert(b == a);
            if a < n - space_tail_len(t@, n as int) {
                assert(is_space(t@[a as int]));
                assert(space_run_len(t@, a as int) >= 1);
                assert(false);
            }
            assert(trim_spec(t@) =~= t@.subrange(a as int, b as int));
        }
    }
    let r = t.substring_char(a, b);
    String::from_str(r)
}

/// `s` with every double-quote character removed.
pub open spec fn without_quotes(s: Seq<char>) -> Seq<char>
    decreases s.len(),
{
    if s.len() == 0 {
        Seq::empty()
    } else if s.last() == '"' {
        without_quotes(s.drop_last())
    } else {
        without_quotes(s.drop_last()) + seq![s.last()]
    }
}

/// Copies `t` with every double-quote character removed.
pub fn strip_quotes(t: &str) -> (r: String)
    ensures
        r@ == without_quotes(t@),
{
    let n = t.unicode_len();
    let mut out = String::new();
    let mut i: usize = 0;
    while i < n
        invariant
            0 <= i <= n,
            n == t@.len(),
            out@ == without_quotes(t@.subrange(0, i as int)),
        decreases n - i,
    {
        let ghost pre = t@.subrange(0, i as int);
        let ghost nxt = t@.subrange(0, i + 1);
        proof {
            assert(nxt.drop_last() =~= pre);
            assert(nxt.last() == t@[i as int]);
        }
        if t.get_char(i) != '"' {
            let piece = t.substring_char(i, i + 1);
            proof {
                assert(piece@ =~= seq![t@[i as int]]);
            }
            out.append(piece);
        }
        i = i + 1;
    }
    proof {
        assert(t@.subrange(0, n as int) =~= t@);
    }
    out
}

// ---------------------------------------------------------------------------
// Comma-separated fields
// ---------------------------------------------------------------------------
/// The comma-separated fields of `s` from index `from` on. A text with no
/// comma is a single field; every comma opens a further field.
pub open spec fn fields_from(s: Seq<char>, from: int) -> Seq<Seq<char>>
    decreases s.len() - from,
{
    if from < 0 || from > s.len() {
        Seq::empty()
    } else {
        match first_char_from(s, ',', from) {
            Some(k) => if from <= k < s.len() {
                seq![s.subrange(from, k)] + fields_from(s, k + 1)
            } else {
                seq![s.subrange(from, s.len() as int)]
            },
            None => seq![s.subrange(from, s.len() as int)],
        }
    }
}

/// The comma-separated fields of the whole of `s`.
pub open spec fn fields_of(s: Seq<char>) -> Seq<Seq<char>> {
    fields_from(s, 0)
}

/// Splits `t[from..]` into its comma-separated fields.
pub fn split_commas(t: &str, from: usize) -> (r: Vec<String>)
    requires
        from <= t@.len(),
    ensures
        r.deep_view() == fields_from(t@, from as int),
{
    let n = t.unicode_len();
    let mut r: Vec<String> = Vec::new();
    let mut start: usize = from;
    loop
        invariant
            from <= start <= n,
            n == t@.len(),
            r.deep_view() + fields_from(t@, start as int) == fields_from(
                t@,
                from as int,
            ),
        decreases n - start + 1,
    {
        match find_char_from(t, ',', start) {
            Some(k) => {
                proof {
                    lemma_first_char_from(t@, ',', start as int);
                }
                let piece = t.substring_char(start, k);
                r.push(String::from_str(piece));
                proof {
                    assert(fields_from(t@, start as int) =~= seq![
                        t@.subrange(start as int, k as int),
                    ] + fields_from(t@, k + 1));
                    assert(r.deep_view() + fields_from(t@, k + 1) =~= fields_from(
                        t@,
                        from as int,
                    ));
                }
                start = k + 1;
            },
            None => {
                let piece = t.substring_char(start, n);
                r.push(String::from_str(piece));
                proof {
                    assert(fields_from(t@, start as int) =~= seq![
                        t@.subrange(start as int, n as int),
                    ]);
                    assert(r.deep_view() =~= fields_from(t@, from as int));
                }
                return r;
            },
        }
    }
}

// ---------------------------------------------------------------------------
// Whole fields as numbers
// ---------------------------------------------------------------------------
/// The value of a whole field, when it is a plain digit string.
pub open spec fn field_u64(s: Seq<char>) -> Option<int> {
    digits_value_in(s, 0, s.len() as int)
}

/// The value of a whole field, when it is a digit string no larger than 255.
pub open spec fn field_u8(s: Seq<char>) -> Option<int> {
    match field_u64(s) {
        Some(v) => if v <= 255 {
            Some(v)
        } else {
            None
        },
        None => None,
    }
}

/// Reads a whole field as a number.
pub fn parse_field_u64(t: &str) -> (r: Option<u64>)
    ensures
        r == match field_u64(t@) {
            Some(v) => Some(v as u64),
            None => None::<u64>,
        },
{
    let n = t.unicode_len();
    parse_digits_u64(t, 0, n)
}

/// Reads a whole field as a small number.
pub fn parse_field_u8(t: &str) -> (r: Option<u8>)
    ensures
        r == match field_u8(t@) {
            Some(v) => Some(v as u8),
            None => None::<u8>,
        },
        field_u8(t@) matches Some(v) ==> 0 <= v <= 255,
{
    proof {
        let s = t@;
        if digits_value_in(s, 0, s.len() as int) is Some {
            assert(s.subrange(0, s.len() as int) =~= s);
            lemma_digits_val_bound(s.subrange(0, s.len() as int));
            lemma_pow10_le_18(s.len() as nat);
        }
    }
    match parse_field_u64(t) {
        Some(v) => if v <= 255 {
            Some(v as u8)
        } else {
            None
        },
        None => None,
    }
}

// ---------------------------------------------------------------------------
// Plain decimal numbers
// ---------------------------------------------------------------------------
/// A plain decimal number, as the modem prints one: an optional minus sign,
/// digits, and at most one decimal point. The value is
/// `mantissa / 10^scale`, negated when `negative` is set.
#[derive(Clone, Copy, Debug, PartialEq, Eq, Structural)]
pub struct Decimal {
    pub negative: bool,
    pub mantissa: u64,
    pub scale: u8,
}

/// The reading of a field as a plain decimal number: an optional leading
/// `-`, then digits with at most one `.` among them, 1 to 18 digits in all.
pub open spec fn decimal_of(s: Seq<char>) -> Option<Decimal> {
    let neg = s.len() > 0 && s[0] == '-';
    let body = if neg {
        s.drop_first()
    } else {
        s
    };
    match first_char_from(body, '.', 0) {
        Some(k) => {
            let ip = body.subrange(0, k);
            let fp = body.subrange(k + 1, body.len() as int);
            if 1 <= ip.len() + fp.len() <= 18 && all_digits(ip) && all_digits(fp) {
                Some(
                    Decimal {
                        negative: neg,
                        mantissa: digits_val(ip + fp) as u64,
                        scale: fp.len() as u8,
                    },
                )
            } else {
                None
            }
        },
        None => if 1 <= body.len() <= 18 && all_digits(body) {
            Some(
                Decimal {
                    negative: neg,
                    mantissa: digits_val(body) as u64,
                    scale: 0,
                },
            )
        } else {
            None
        },
    }
}

/// Concatenated digit strings write `a * 10^|b| + b`.
pub proof fn lemma_digits_val_concat(a: Seq<char>, b: Seq<char>)
    ensures
        digits_val(a + b) == digits_val(a) * pow10(b.len()) + digits_val(b),
    decreases b.len(),
{
    if b.len() == 0 {
        assert(a + b =~= a);
    } else {
        lemma_digits_val_concat(a, b.drop_last());
        assert((a + b).drop_last() =~= a + b.drop_last());
        assert((a + b).last() == b.last());
        assert(digits_val(a + b) == digits_val(a + b.drop_last()) * 10 + digit_val(
            b.last(),
        ));
        assert(digits_val(a) * pow10(b.len()) == (digits_val(a) * pow10(
            (b.len() - 1) as nat,
        )) * 10) by (nonlinear_arith)
            requires
                pow10(b.len()) == 10 * pow10((b.len() - 1) as nat),
        ;
    }
}

/// `pow10` turns addition into multiplication.
pub proof fn lemma_pow10_add(a: nat, b: nat)
    ensures
        pow10(a + b) == pow10(a) * pow10(b),
    decreases b,
{
    if b == 0 {
        assert(pow10(a + 0) == pow10(a) * 1);
    } else {
        lemma_pow10_add(a, (b - 1) as nat);
        assert(a + b == (a + (b - 1) as nat) + 1);
        assert(pow10(a + b) == 10 * pow10(a + (b - 1) as nat));
        assert(10 * (pow10(a) * pow10((b - 1) as nat)) == pow10(a) * (10 * pow10(
            (b - 1) as nat,
        ))) by (nonlinear_arith);
    }
}

/// Ten to the `e`, for `e` up to 18.
fn pow10_u64(e: usize) -> (r: u64)
    requires
        e <= 18,
    ensures
        r == pow10(e as nat),
{
    proof {
        lemma_pow10_le_18(e as nat);
    }
    let mut r: u64 = 1;
    let mut i: usize = 0;
    while i < e
        invariant
            0 <= i <= e <= 18,
            r == pow10(i as nat),
        decreases e - i,
    {
        proof {
            lemma_pow10_le_18(i as nat);
            lemma_pow10_mono((i + 1) as nat, 18);
            lemma_pow10_le_18(18);
            assert(pow10((i + 1) as nat) == 10 * pow10(i as nat));
        }
        r = r * 10;
        i = i + 1;
    }
    r
}

/// Reads a whole field as a plain decimal number.
pub fn parse_decimal(t: &str) -> (r: Option<Decimal>)
    ensures
        r == decimal_of(t@),
{
    let n = t.unicode_len();
    let neg = n > 0 && t.get_char(0) == '-';
    let start: usize = if neg {
        1
    } else {
        0
    };
    let ghost body = if neg {
        t@.drop_first()
    } else {
        t@
    };
    proof {
        assert(body =~= t@.subrange(start as int, n as int));
    }
    match find_char_from(t, '.', start) {
        Some(k) => {
            proof {
                lemma_first_char_from(t@, '.', start as int);
                lemma_shift_first_char(t@, '.', start as int);
                assert(first_char_from(body, '.', 0) == Some(k - start));
                let ip = body.subrange(0, k - start);
                let fp = body.subrange(k - start + 1, body.len() as int);
                assert(ip =~= t@.subrange(start as int, k as int));
                assert(fp =~= t@.subrange(k + 1, n as int));
            }
            let ip_len = k - start;
            let fp_len = n - (k + 1);
            if !(1 <= ip_len + fp_len && ip_len + fp_len <= 18) {
                return None;
            }
            let vip = match parse_digits_any(t, start, k) {
                Some(v) => v,
                None => {
                    return None;
                },
            };
            let vfp = match parse_digits_any(t, k + 1, n) {
                Some(v) => v,
                None => {
                    return None;
                },
            };
            let p = pow10_u64(fp_len);
            proof {
                let ip = t@.subrange(start as int, k as int);
                let fp = t@.subrange(k + 1, n as int);
                lemma_digits_val_bound(ip);
                lemma_digits_val_bound(fp);
                lemma_digits_val_concat(ip, fp);
                lemma_pow10_add(ip.len() as nat, fp.len() as nat);
                lemma_pow10_le_18((ip_len + fp_len) as nat);
                assert(vip * p + vfp < pow10((ip_len + fp_len) as nat))
                    by (nonlinear_arith)
                    requires
                        vip < pow10(ip_len as nat),
                        0 <= vfp < pow10(fp_len as nat),
                        p == pow10(fp_len as nat),
                        0 <= vip,
                        0 < p,
                        pow10((ip_len + fp_len) as nat) == pow10(ip_len as nat)
                            * pow10(fp_len as nat),
                ;
            }
            let mantissa = vip * p + vfp;
            Some(
                Decimal {
                    negative: neg,
                    mantissa,
                    scale: fp_len as u8,
                },
            )
        },
        None => {
            proof {
                lemma_shift_first_char(t@, '.', start as int);
                assert(first_char_from(body, '.', 0) is None);
            }
            if n - start < 1 || n - start > 18 {
                return None;
            }
            match parse_digits_u64(t, start, n) {
                Some(v) => Some(
                    Decimal {
                        negative: neg,
                        mantissa: v,
                        scale: 0,
                    },
                ),
                None => None,
            }
        },
    }
}

/// The digit block `[from, to)` of `s` as a number, an empty block reading
/// as zero.
pub open spec fn digits_any_in(s: Seq<char>, from: int, to: int) -> Option<int> {
    if 0 <= from <= to <= s.len() && to - from <= 18 && all_digits(
        s.subrange(from, to),
    ) {
        Some(digits_val(s.subrange(from, to)))
    } else {
        None
    }
}

/// Reads the digit block `[from, to)` of `t` as a number, allowing an empty
/// block.
pub fn parse_digits_any(t: &str, from: usize, to: usize) -> (r: Option<u64>)
    requires
        to <= t@.len(),
    ensures
        r == match digits_any_in(t@, from as int, to as int) {
            Some(v) => Some(v as u64),
            None => None::<u64>,
        },
        r matches Some(v) ==> v == digits_val(t@.subrange(from as int, to as int))
            && v < pow10((to - from) as nat) && all_digits(
            t@.subrange(from as int, to as int),
        ),
{
    if !(from <= to && to - from <= 18) {
        return None;
    }
    if from == to {
        proof {
            assert(t@.subrange(from as int, to as int) =~= Seq::<char>::empty());
            lemma_pow10_pos(0);
        }
        return Some(0);
    }
    let r = parse_digits_u64(t, from, to);
    proof {
        if r is Some {
            lemma_digits_val_bound(t@.subrange(from as int, to as int));
            lemma_pow10_le_18((to - from) as nat);
        }
    }
    r
}

/// Looking for `c` in the tail of `t` from `start` on is the same search
/// shifted.
proof fn lemma_shift_first_char(t: Seq<char>, c: char, start: int)
    requires
        0 <= start <= t.len(),
    ensures
        first_char_from(t, c, start) == match first_char_from(
            t.subrange(start, t.len() as int),
            c,
            0,
        ) {
            Some(i) => Some(i + start),
            None => None::<int>,
        },
{
    let body = t.subrange(start, t.len() as int);
    lemma_first_char_from(t, c, start);
    lemma_first_char_from(body, c, 0);
    assert(forall|i: int| 0 <= i < body.len() ==> body[i] == t[start + i]);
    match first_char_from(t, c, start) {
        Some(k) => {
            match first_char_from(body, c, 0) {
                Some(i) => {
                    assert(t[start + i] == c);
                    assert(body[k - start] == c);
                    assert(!(start + i < k) && !(k < start + i));
                },
                None => {
                    assert(body[k - start] == c);
                    assert(false);
                },
            }
        },
        None => {
            match first_char_from(body, c, 0) {
                Some(i) => {
                    assert(t[start + i] == c);
                    assert(false);
                },
                None => {},
            }
        },
    }
}

} // verus!
