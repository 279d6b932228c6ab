//! Verified text utilities: substring search, whitespace trimming,
//! case-insensitive comparison, and decimal conversion. The protocol and
//! executor contracts are stated over the spec functions defined here.

use vstd::prelude::*;

verus! {

// ---------------------------------------------------------------------------
// Substring search
// ---------------------------------------------------------------------------

/// `pat` occurs in `s` starting at position `i`.
pub open spec fn match_at(s: Seq<char>, pat: Seq<char>, i: int) -> bool {
    &&& 0 <= i
    &&& i + pat.len() <= s.len()
    &&& s.subrange(i, i + pat.len()) == pat
}

/// The position of the first occurrence of `pat` in `s` at or after `from`,
/// if any.
pub open spec fn first_match_from(s: Seq<char>, pat: Seq<char>, from: int) -> Option<int>
    decreases s.len() - from,
{
    if from < 0 || from + pat.len() > s.len() {
        None
    } else if pat.len() == 0 {
        Some(from)
    } else if match_at(s, pat, from) {
        Some(from)
    } else {
        first_match_from(s, pat, from + 1)
    }
}

/// What `first_match_from` returns really is the first occurrence: a match
/// position, with no earlier match at or after `from`; `None` means no
/// occurrence at all.
pub proof fn lemma_first_match_from(s: Seq<char>, pat: Seq<char>, from: int)
    requires
        from >= 0,
    ensures
        match first_match_from(s, pat, from) {
            Some(j) => from <= j && match_at(s, pat, j) && forall|i: int|
                from <= i < j ==> !match_at(s, pat, i),
            None => forall|i: int| i >= from ==> !match_at(s, pat, i),
        },
    decreases s.len() - from,
{
    if from + pat.len() > s.len() {
    } else if pat.len() == 0 {
        assert(s.subrange(from, from) =~= pat);
    } else if match_at(s, pat, from) {
    } else {
        lemma_first_match_from(s, pat, from + 1);
    }
}

/// Compare `pat` against `s` at position `i`.
fn check_match(s: &str, pat: &str, i: usize) -> (r: bool)
    requires
        i + pat@.len() <= s@.len(),
    ensures
        r == match_at(s@, pat@, i as int),
{
    let sn = s.unicode_len();
    let n = pat.unicode_len();
    let mut j: usize = 0;
    while j < n
        invariant
            j <= n,
            n == pat@.len(),
            sn == s@.len(),
            i + n <= sn,
            forall|k: int| 0 <= k < j ==> s@[i + k] == pat@[k],
        decreases n - j,
    {
        if s.get_char(i + j) != pat.get_char(j) {
            proof {
                if match_at(s@, pat@, i as int) {
                    assert(s@.subrange(i as int, i + pat@.len())[j as int] == s@[i + j]);
                }
            }
            return false;
        }
        j += 1;
    }
    proof {
        assert(s@.subrange(i as int, i + pat@.len()) =~= pat@);
    }
    true
}

/// Find the first occurrence of `pat` in `s` at or after character
/// position `from`.
pub fn find_first(s: &str, pat: &str, from: usize) -> (r: Option<usize>)
    ensures
        ({
            let f = first_match_from(s@, pat@, from as int);
            match r {
                Some(j) => f == Some(j as int),
                None => f is None,
            }
        }),
{
    let n = s.unicode_len();
    let m = pat.unicode_len();
    if m == 0 {
        if from <= n {
            return Some(from);
        } else {
            return None;
        }
    }
    if m > n || from > n - m {
        return None;
    }
    let mut i: usize = from;
    while i <= n - m
        invariant
            from <= i,
            1 <= m <= n,
            i <= n - m + 1,
            n == s@.len(),
            m == pat@.len(),
            first_match_from(s@, pat@, from as int) == first_match_from(s@, pat@, i as int),
        decreases n - i,
    {
        if check_match(s, pat, i) {
            return Some(i);
        }
        proof {
            assert(first_match_from(s@, pat@, i as int) == first_match_from(s@, pat@, i + 1));
        }
        i += 1;
    }
    None
}

/// Exact string equality, character by character.
pub fn str_eq(a: &str, b: &str) -> (r: bool)
    ensures
        r == (a@ == b@),
{
    let n = a.unicode_len();
    if n != b.unicode_len() {
        proof {
            assert(a@.len() != b@.len());
        }
        return false;
    }
    let r = check_match(a, b, 0);
    proof {
        if r {
            assert(a@.subrange(0, b@.len() as int) =~= a@);
        } else {
            if a@ == b@ {
                assert(a@.subrange(0, b@.len() as int) =~= b@);
            }
        }
    }
    r
}

/// `s` begins with `pat`.
pub fn has_prefix(s: &str, pat: &str) -> (r: bool)
    ensures
        r == match_at(s@, pat@, 0),
{
    let n = s.unicode_len();
    let m = pat.unicode_len();
    if m > n {
        false
    } else {
        check_match(s, pat, 0)
    }
}

// ---------------------------------------------------------------------------
// Whitespace and trimming
// ---------------------------------------------------------------------------

/// The Unicode white-space characters (the set `str::trim` removes).
pub open spec fn is_space(c: char) -> bool {
    let u = c as u32;
    ||| (0x09 <= u && u <= 0x0D)
    ||| u == 0x20
    ||| u == 0x85
    ||| u == 0xA0
    ||| u == 0x1680
    ||| (0x2000 <= u && u <= 0x200A)
    ||| u == 0x2028
    ||| u == 0x2029
    ||| u == 0x202F
    ||| u == 0x205F
    ||| u == 0x3000
}

/// Executable white-space test.
pub fn is_space_char(c: char) -> (r: bool)
    ensures
        r == is_space(c),
{
    let u = c as u32;
    (0x09 <= u && u <= 0x0D) || u == 0x20 || u == 0x85 || u == 0xA0 || u == 0x1680 || (0x2000
        <= u && u <= 0x200A) || u == 0x2028 || u == 0x2029 || u == 0x202F || u == 0x205F || u
        == 0x3000
}

/// `s` with its leading white space removed.
pub open spec fn trim_front(s: Seq<char>) -> Seq<char>
    decreases s.len(),
{
    if s.len() > 0 && is_space(s[0]) {
        trim_front(s.drop_first())
    } else {
        s
    }
}

/// `s` with its trailing white space removed.
pub open spec fn trim_back(s: Seq<char>) -> Seq<char>
    decreases s.len(),
{
    if s.len() > 0 && is_space(s[s.len() - 1]) {
        trim_back(s.drop_last())
    } else {
        s
    }
}

/// `s` with leading and trailing white space removed.
pub open spec fn trim_seq(s: Seq<char>) -> Seq<char> {
    trim_back(trim_front(s))
}

proof fn lemma_trim_front_skip(s: Seq<char>, a: int)
    requires
        0 <= a <= s.len(),
        forall|k: int| 0 <= k < a ==> is_space(s[k]),
        a == s.len() || !is_space(s[a]),
    ensures
        trim_front(s) == s.skip(a),
    decreases a,
{
    if a == 0 {
        assert(trim_front(s) =~= s.skip(0));
    } else {
        assert(is_space(s[0]));
        lemma_trim_front_skip(s.drop_first(), a - 1);
        assert(s.drop_first().skip(a - 1) =~= s.skip(a));
    }
}

proof fn lemma_trim_back_take(s: Seq<char>, b: int)
    requires
        0 <= b <= s.len(),
        forall|k: int| b <= k < s.len() ==> is_space(s[k]),
        b == 0 || !is_space(s[b - 1]),
    ensures
        trim_back(s) == s.take(b),
    decreases s.len() - b,
{
    if b == s.len() {
        assert(trim_back(s) =~= s.take(b));
    } else {
        assert(is_space(s[s.len() - 1]));
        lemma_trim_back_take(s.drop_last(), b);
        assert(s.drop_last().take(b) =~= s.take(b));
    }
}

/// Trimming yields a contiguous infix of `s`, with no white space left at
/// either end.
pub proof fn lemma_trim_seq_infix(s: Seq<char>)
    ensures
        exists|i: int, j: int|
            0 <= i <= j <= s.len() && trim_seq(s) == s.subrange(i, j),
        trim_seq(s).len() > 0 ==> !is_space(trim_seq(s)[0]) && !is_space(
            trim_seq(s)[trim_seq(s).len() - 1],
        ),
    decreases s.len(),
{
    if s.len() > 0 && is_space(s[0]) {
        lemma_trim_seq_infix(s.drop_first());
        let (i, j) = choose|i: int, j: int|
            0 <= i <= j <= s.drop_first().len() && trim_seq(s.drop_first()) == s.drop_first()
                .subrange(i, j);
        assert(s.drop_first().subrange(i, j) =~= s.subrange(i + 1, j + 1));
        assert(trim_seq(s) == s.subrange(i + 1, j + 1));
    } else if trim_front(s).len() > 0 && is_space(s[s.len() - 1]) {
        assert(trim_front(s) == s);
        lemma_trim_seq_infix(s.drop_last());
        assert(trim_front(s.drop_last()) == s.drop_last());
        let (i, j) = choose|i: int, j: int|
            0 <= i <= j <= s.drop_last().len() && trim_seq(s.drop_last()) == s.drop_last()
                .subrange(i, j);
        assert(s.drop_last().subrange(i, j) =~= s.subrange(i, j));
        assert(trim_seq(s) == s.subrange(i, j));
    } else {
        if s.len() == 0 {
            assert(trim_seq(s) =~= s.subrange(0, 0));
        } else if trim_front(s).len() == 0 {
            assert(trim_seq(s) =~= s.subrange(0, 0));
        } else {
            assert(trim_front(s) == s);
            assert(trim_back(s) == s);
            assert(trim_seq(s) =~= s.subrange(0, s.len() as int));
        }
    }
}

/// Trim white space from both ends of `s`.
pub fn trim_str(s: &str) -> (r: String)
    ensures
        r@ == trim_seq(s@),
{
    let n = s.unicode_len();
    let mut a: usize = 0;
    while a < n && is_space_char(s.get_char(a))
        invariant
            a <= n,
            n == s@.len(),
            forall|k: int| 0 <= k < a ==> is_space(s@[k]),
        decreases n - a,
    {
        a += 1;
    }
    let mut b: usize = n;
    while b > a && is_space_char(s.get_char(b - 1))
        invariant
            a <= b <= n,
            n == s@.len(),
            forall|k: int| b <= k < n ==> is_space(s@[k]),
        decreases b,
    {
        b -= 1;
    }
    proof {
        lemma_trim_front_skip(s@, a as int);
        if a == n {
            assert(b == a);
            assert(s@.skip(a as int).len() == 0);
            assert(trim_back(s@.skip(a as int)) =~= s@.subrange(a as int, b as int));
        } else {
            assert(!is_space(s@[a as int]));
            assert(b > a) by {
                if b == a {
                    assert(is_space(s@[a as int]));
                }
            }
            assert(!is_space(s@[b - 1]));
            let t = s@.skip(a as int);
            assert(forall|k: int| b - a <= k < t.len() ==> is_space(#[trigger] t[k]));
            assert(!is_space(t[b - a - 1]));
            lemma_trim_back_take(t, b - a);
            assert(t.take(b - a) =~= s@.subrange(a as int, b as int));
        }
    }
    let sub = s.substring_char(a, b);
    String::from_str(sub)
}

/// `s` holds nothing but white space.
pub fn is_blank(s: &str) -> (r: bool)
    ensures
        r == (trim_seq(s@).len() == 0),
{
    let t = trim_str(s);
    t.as_str().unicode_len() == 0
}

// ---------------------------------------------------------------------------
// Case-insensitive comparison (ASCII)
// ---------------------------------------------------------------------------

/// The code point of `c` with an ASCII capital letter folded to lower case.
pub open spec fn lower_code(c: char) -> u32 {
    let u = c as u32;
    if 0x41 <= u && u <= 0x5A {
        (u + 0x20) as u32
    } else {
        u
    }
}

/// Equality of two character sequences up to ASCII case.
pub open spec fn eq_ignore_case_seq(a: Seq<char>, b: Seq<char>) -> bool {
    &&& a.len() == b.len()
    &&& forall|i: int| 0 <= i < a.len() ==> lower_code(a[i]) == lower_code(b[i])
}

/// Compare two strings, folding ASCII capitals to lower case.
pub fn eq_ignore_case(a: &str, b: &str) -> (r: bool)
    ensures
        r == eq_ignore_case_seq(a@, b@),
{
    let n = a.unicode_len();
    if n != b.unicode_len() {
        return false;
    }
    let mut i: usize = 0;
    while i < n
        invariant
            i <= n,
            n == a@.len(),
            n == b@.len(),
            forall|k: int| 0 <= k < i ==> lower_code(a@[k]) == lower_code(b@[k]),
        decreases n - i,
    {
        let ca = a.get_char(i) as u32;
        let cb = b.get_char(i) as u32;
        let la = if 0x41 <= ca && ca <= 0x5A {
            ca + 0x20
        } else {
            ca
        };
        let lb = if 0x41 <= cb && cb <= 0x5A {
            cb + 0x20
        } else {
            cb
        };
        if la != lb {
            return false;
        }
        i += 1;
    }
    true
}

// ---------------------------------------------------------------------------
// Decimal formatting
// ---------------------------------------------------------------------------

/// The decimal digit character for `d`.
pub open spec fn digit_char(d: int) -> char {
    if d == 0 {
        '0'
    } else if d == 1 {
        '1'
    } else if d == 2 {
        '2'
    } else if d == 3 {
        '3'
    } else if d == 4 {
        '4'
    } else if d == 5 {
        '5'
    } else if d == 6 {
        '6'
    } else if d == 7 {
        '7'
    } else if d == 8 {
        '8'
    } else {
        '9'
    }
}

/// The decimal representation of `n`, most significant digit first.
pub open spec fn dec_rep(n: nat) -> Seq<char>
    decreases n,
{
    if n < 10 {
        seq![digit_char(n as int)]
    } else {
        dec_rep(n / 10).push(digit_char((n % 10) as int))
    }
}

/// The decimal representation of `i`, with a minus sign when negative.
pub open spec fn int_rep(i: int) -> Seq<char> {
    if i < 0 {
        seq!['-'] + dec_rep((-i) as nat)
    } else {
        dec_rep(i as nat)
    }
}

fn digit_str(d: u64) -> (r: &'static str)
    requires
        d < 10,
    ensures
        r@ == seq![digit_char(d as int)],
{
    proof {
        reveal_strlit("0");
        reveal_strlit("1");
        reveal_strlit("2");
        reveal_strlit("3");
        reveal_strlit("4");
        reveal_strlit("5");
        reveal_strlit("6");
        reveal_strlit("7");
        reveal_strlit("8");
        reveal_strlit("9");
    }
    let r = if d == 0 {
        "0"
    } else if d == 1 {
        "1"
    } else if d == 2 {
        "2"
    } else if d == 3 {
        "3"
    } else if d == 4 {
        "4"
    } else if d == 5 {
        "5"
    } else if d == 6 {
        "6"
    } else if d == 7 {
        "7"
    } else if d == 8 {
        "8"
    } else {
        "9"
    };
    proof {
        assert(r@ =~= seq![digit_char(d as int)]);
    }
    r
}

/// Append the decimal digits of `n` to `out`.
pub fn push_u64_dec(out: &mut String, n: u64)
    ensures
        final(out)@ == old(out)@ + dec_rep(n as nat),
    decreases n,
{
    if n >= 10 {
        push_u64_dec(out, n / 10);
        out.append(digit_str(n % 10));
        proof {
            assert(old(out)@ + dec_rep((n / 10) as nat) + seq![
                digit_char((n % 10) as int),
            ] =~= old(out)@ + dec_rep(n as nat));
        }
    } else {
        out.append(digit_str(n));
    }
}

/// Append the decimal form of `code`, minus sign included, to `out`.
pub fn push_i32_dec(out: &mut String, code: i32)
    ensures
        final(out)@ == old(out)@ + int_rep(code as int),
{
    proof {
        reveal_strlit("-");
    }
    if code < 0 {
        out.append("-");
        let m: u64 = (-(code as i64)) as u64;
        push_u64_dec(out, m);
        proof {
            assert(old(out)@ + "-"@ + dec_rep(m as nat) =~= old(out)@ + int_rep(code as int));
        }
    } else {
        push_u64_dec(out, code as u64);
    }
}

// ---------------------------------------------------------------------------
// Decimal parsing
// ---------------------------------------------------------------------------

/// `c` is a decimal digit.
pub open spec fn is_digit(c: char) -> bool {
    0x30 <= c as u32 && c as u32 <= 0x39
}

/// The value of a decimal digit character.
pub open spec fn digit_val(c: char) -> int {
    c as u32 - 0x30
}

/// Every character of `s` is a decimal digit.
pub open spec fn all_digits(s: Seq<char>) -> bool {
    forall|i: int| 0 <= i < s.len() ==> is_digit(s[i])
}

/// The value of a sequence of decimal digits.
pub open spec fn dec_val(s: Seq<char>) -> int
    decreases s.len(),
{
    if s.len() == 0 {
        0
    } else {
        dec_val(s.drop_last()) * 10 + digit_val(s.last())
    }
}

proof fn lemma_dec_val_nonneg(s: Seq<char>)
    requires
        all_digits(s),
    ensures
        dec_val(s) >= 0,
    decreases s.len(),
{
    if s.len() > 0 {
        assert(all_digits(s.drop_last()));
        lemma_dec_val_nonneg(s.drop_last());
    }
}

proof fn lemma_dec_val_extend(s: Seq<char>, k: int)
    requires
        all_digits(s),
        0 <= k <= s.len(),
    ensures
        dec_val(s) >= dec_val(s.take(k)),
    decreases s.len() - k,
{
    if k < s.len() {
        lemma_dec_val_extend(s, k + 1);
        assert(s.take(k + 1).drop_last() =~= s.take(k));
        assert(all_digits(s.take(k)));
        lemma_dec_val_nonneg(s.take(k));
        assert(dec_val(s.take(k + 1)) == dec_val(s.take(k)) * 10 + digit_val(s[k]));
        assert(dec_val(s.take(k)) * 10 >= dec_val(s.take(k))) by (nonlinear_arith)
            requires
                dec_val(s.take(k)) >= 0,
        ;
    } else {
        assert(s.take(k) =~= s);
    }
}

/// The digits of a decimal number: `s` with an optional leading plus sign
/// removed.
pub open spec fn parse_body(s: Seq<char>) -> Seq<char> {
    if s.len() > 0 && s[0] == '+' {
        s.drop_first()
    } else {
        s
    }
}

/// The result of parsing `s` as an unsigned decimal number: an optional
/// leading plus sign, then at least one digit, and a value within range.
pub open spec fn parse_usize_spec(s: Seq<char>) -> Option<int> {
    let body = parse_body(s);
    if body.len() > 0 && all_digits(body) && dec_val(body) <= usize::MAX {
        Some(dec_val(body))
    } else {
        None
    }
}

/// Parse `s` as an unsigned decimal number.
pub fn parse_usize(s: &str) -> (r: Option<usize>)
    ensures
        ({
            let f = parse_usize_spec(s@);
            match r {
                Some(v) => f == Some(v as int),
                None => f is None,
            }
        }),
{
    let n = s.unicode_len();
    let mut i: usize = 0;
    if n > 0 && s.get_char(0) == '+' {
        i = 1;
    }
    let ghost body = parse_body(s@);
    proof {
        assert(body =~= s@.subrange(i as int, n as int));
    }
    if i == n {
        return None;
    }
    let mut acc: usize = 0;
    let mut j: usize = i;
    while j < n
        invariant
            i <= j <= n,
            n == s@.len(),
            body == parse_body(s@),
            body == s@.subrange(i as int, n as int),
            forall|k: int| i <= k < j ==> is_digit(s@[k]),
            acc == dec_val(s@.subrange(i as int, j as int)),
        decreases n - j,
    {
        let c = s.get_char(j);
        let u = c as u32;
        if !(0x30 <= u && u <= 0x39) {
            proof {
                assert(body[j - i] == s@[j as int]);
                assert(!is_digit(body[j - i]));
            }
            return None;
        }
        let d = (u - 0x30) as usize;
        proof {
            assert(s@.subrange(i as int, j + 1).drop_last() =~= s@.subrange(i as int, j as int));
            assert(dec_val(s@.subrange(i as int, j + 1)) == acc * 10 + d);
        }
        if acc > (usize::MAX - d) / 10 {
            proof {
                assert(acc * 10 + d > usize::MAX) by (nonlinear_arith)
                    requires
                        acc > (usize::MAX - d) / 10,
                        d <= 9,
                        acc >= 0,
                ;
                if all_digits(body) {
                    lemma_dec_val_extend(body, j - i + 1);
                    assert(body.take(j - i + 1) =~= s@.subrange(i as int, j + 1));
                    assert(dec_val(body) > usize::MAX);
                }
            }
            return None;
        }
        proof {
            assert(acc * 10 + d <= usize::MAX) by (nonlinear_arith)
                requires
                    acc <= (usize::MAX - d) / 10,
                    d <= 9,
                    acc >= 0,
            ;
        }
        acc = acc * 10 + d;
        j += 1;
    }
    proof {
        assert forall|k: int| 0 <= k < body.len() implies is_digit(body[k]) by {
            assert(body[k] == s@[i + k]);
        }
        assert(dec_val(body) == acc);
    }
    Some(acc)
}

} // verus!
