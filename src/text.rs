use vstd::prelude::*;

verus! {

// ---------------------------------------------------------------------
// Optional text fields
// ---------------------------------------------------------------------

/// The text of `o`, or `fallback` when it is absent.
pub open spec fn text_of(o: Option<String>, fallback: Seq<char>) -> Seq<char> {
    match o {
        Some(s) => s@,
        None => fallback,
    }
}

/// `a` when present, else `b`.
pub open spec fn first_of(a: Option<String>, b: Option<String>) -> Option<String> {
    if a is Some {
        a
    } else {
        b
    }
}

/// A copy of an optional text.
pub fn copy_text(o: &Option<String>) -> (r: Option<String>)
    ensures
        r == *o,
{
    match o {
        Some(s) => Some(s.clone()),
        None => None,
    }
}

/// The first of two optional texts that is present.
pub fn either_text(a: &Option<String>, b: &Option<String>) -> (r: Option<String>)
    ensures
        r == first_of(*a, *b),
{
    match a {
        Some(s) => Some(s.clone()),
        None => copy_text(b),
    }
}

/// The text of `o`, or `fallback` when absent.
pub fn text_or(o: &Option<String>, fallback: &str) -> (r: String)
    ensures
        r@ == text_of(*o, fallback@),
{
    match o {
        Some(s) => s.clone(),
        None => fallback.to_owned(),
    }
}

/// Character-wise equality of two texts.
pub fn text_eq(a: &str, b: &str) -> (r: bool)
    ensures
        r == (a@ == b@),
{
    let n = a.unicode_len();
    if n != b.unicode_len() {
        return false;
    }
    let mut i: usize = 0;
    while i < n
        invariant
            n == a@.len(),
            n == b@.len(),
            i <= n,
            forall|k: int| 0 <= k < i ==> a@[k] == b@[k],
        decreases n - i,
    {
        if a.get_char(i) != b.get_char(i) {
            return false;
        }
        i += 1;
    }
    assert(a@ =~= b@);
    true
}

// ---------------------------------------------------------------------
// Building text
// ---------------------------------------------------------------------

/// Relies on `String::push`: appends one character.
#[verifier::external_body]
pub(crate) fn push_char(s: &mut String, c: char)
    ensures
        final(s)@ == old(s)@.push(c),
{
    s.push(c)
}

/// The decimal digit character for `d`.
pub open spec fn digit_char(d: int) -> char {
    if d == 0 {
        '0'
    } else if d == 1 {
        '1'
    } else if d == 2 {
        '2'
    } else if d == 3 {
        '3'
    } else if d == 4 {
        '4'
    } else if d == 5 {
        '5'
    } else if d == 6 {
        '6'
    } else if d == 7 {
        '7'
    } else if d == 8 {
        '8'
    } else {
        '9'
    }
}

/// Decimal notation of `n`, without leading zeros.
pub open spec fn decimal(n: nat) -> Seq<char>
    decreases n,
{
    if n < 10 {
        seq![digit_char(n as int)]
    } else {
        decimal(n / 10).push(digit_char((n % 10) as int))
    }
}

/// Decimal notation of `x`, with a leading `-` when negative.
pub open spec fn signed_decimal(x: int) -> Seq<char> {
    if x < 0 {
        "-"@ + decimal((-x) as nat)
    } else {
        decimal(x as nat)
    }
}

/// `n` in decimal, left-padded with zeros to `width` characters.
pub open spec fn padded(n: nat, width: nat) -> Seq<char> {
    let d = decimal(n);
    if d.len() < width {
        Seq::new((width - d.len()) as nat, |i: int| '0') + d
    } else {
        d
    }
}

fn digit_of(d: u64) -> (c: char)
    requires
        d < 10,
    ensures
        c == digit_char(d as int),
{
    if d == 0 {
        '0'
    } else if d == 1 {
        '1'
    } else if d == 2 {
        '2'
    } else if d == 3 {
        '3'
    } else if d == 4 {
        '4'
    } else if d == 5 {
        '5'
    } else if d == 6 {
        '6'
    } else if d == 7 {
        '7'
    } else if d == 8 {
        '8'
    } else {
        '9'
    }
}

/// Decimal notation of `n`.
pub fn decimal_text(n: u64) -> (r: String)
    ensures
        r@ == decimal(n as nat),
    decreases n,
{
    if n < 10 {
        let mut s = String::new();
        push_char(&mut s, digit_of(n));
        proof {
            assert(s@ =~= decimal(n as nat));
        }
        s
    } else {
        let mut s = decimal_text(n / 10);
        push_char(&mut s, digit_of(n % 10));
        s
    }
}

/// Decimal notation of `x`, with a leading `-` when negative.
pub fn signed_decimal_text(x: i128) -> (r: String)
    requires
        -0xffff_ffff_ffff_ffff <= x <= 0xffff_ffff_ffff_ffff,
    ensures
        r@ == signed_decimal(x as int),
{
    if x < 0 {
        let mut out = "-".to_owned();
        let d = decimal_text((-x) as u64);
        out.append(d.as_str());
        out
    } else {
        decimal_text(x as u64)
    }
}

/// Decimal notation of `n`, left-padded with zeros to `width` characters.
pub fn padded_text(n: u64, width: usize) -> (r: String)
    ensures
        r@ == padded(n as nat, width as nat),
{
    let d = decimal_text(n);
    let len = d.as_str().unicode_len();
    if len >= width {
        return d;
    }
    let mut s = String::new();
    let mut i: usize = 0;
    while i < width - len
        invariant
            len < width,
            i <= width - len,
            s@ == Seq::new(i as nat, |k: int| '0'),
        decreases width - len - i,
    {
        push_char(&mut s, '0');
        i += 1;
        assert(s@ =~= Seq::new(i as nat, |k: int| '0'));
    }
    s.append(d.as_str());
    s
}

// ---------------------------------------------------------------------
// Reading numbers
// ---------------------------------------------------------------------

/// Whether `c` is an ASCII decimal digit.
pub open spec fn is_digit(c: char) -> bool {
    '0' <= c && c <= '9'
}

/// Value of an ASCII decimal digit.
pub open spec fn digit_value(c: char) -> int {
    (c as int) - ('0' as int)
}

/// Whether every character of `s` is a decimal digit.
pub open spec fn all_digits(s: Seq<char>) -> bool {
    forall|k: int| 0 <= k < s.len() ==> is_digit(#[trigger] s[k])
}

/// The number that a run of decimal digits denotes.
pub open spec fn digits_value(s: Seq<char>) -> int
    decreases s.len(),
{
    if s.len() == 0 {
        0
    } else {
        digits_value(s.drop_last()) * 10 + digit_value(s.last())
    }
}

/// A longer run of digits never denotes a smaller number.
proof fn lemma_digits_value_grows(s: Seq<char>, i: int)
    requires
        all_digits(s),
        0 <= i <= s.len(),
    ensures
        0 <= digits_value(s.subrange(0, i)) <= digits_value(s),
    decreases s.len() - i,
{
    if i < s.len() {
        lemma_digits_value_grows(s, i + 1);
        let p = s.subrange(0, i + 1);
        assert(p.drop_last() =~= s.subrange(0, i));
        assert(is_digit(s[i]));
    } else {
        assert(s.subrange(0, i) =~= s);
        lemma_digits_value_nonneg(s);
    }
}

proof fn lemma_digits_value_nonneg(s: Seq<char>)
    requires
        all_digits(s),
    ensures
        digits_value(s) >= 0,
    decreases s.len(),
{
    if s.len() > 0 {
        assert(is_digit(s.last()));
        lemma_digits_value_nonneg(s.drop_last());
    }
}

/// The digits of `s` after an optional leading `sign`.
pub open spec fn unsigned_body(s: Seq<char>) -> Seq<char> {
    if s.len() > 0 && s[0] == '+' {
        s.drop_first()
    } else {
        s
    }
}

/// What reading `s` as an unsigned 32-bit decimal yields: an optional `+`,
/// then one or more digits whose value fits.
pub open spec fn parse_u32_spec(s: Seq<char>) -> Option<u32> {
    let b = unsigned_body(s);
    if b.len() > 0 && all_digits(b) && digits_value(b) <= u32::MAX {
        Some(digits_value(b) as u32)
    } else {
        None
    }
}

/// What reading `s` as a signed 64-bit decimal yields: an optional `+` or
/// `-`, then one or more digits whose value fits.
pub open spec fn parse_i64_spec(s: Seq<char>) -> Option<i64> {
    if s.len() > 0 && s[0] == '-' {
        let b = s.drop_first();
        if b.len() > 0 && all_digits(b) && digits_value(b) <= 0x8000_0000_0000_0000 {
            Some((-digits_value(b)) as i64)
        } else {
            None
        }
    } else {
        let b = unsigned_body(s);
        if b.len() > 0 && all_digits(b) && digits_value(b) <= i64::MAX {
            Some(digits_value(b) as i64)
        } else {
            None
        }
    }
}

/// Reads the digits of `s` from `start`, giving up once the value exceeds `limit`.
fn read_digits(s: &str, start: usize, limit: u64) -> (r: Option<u64>)
    requires
        start <= s@.len(),
        10 <= limit <= 0x8000_0000_0000_0000,
    ensures
        ({
            let b = s@.subrange(start as int, s@.len() as int);
            match r {
                Some(v) => b.len() > 0 && all_digits(b) && v == digits_value(b) && v <= limit,
                None => !(b.len() > 0 && all_digits(b) && digits_value(b) <= limit),
            }
        }),
{
    let n = s.unicode_len();
    let ghost b = s@.subrange(start as int, n as int);
    if start >= n {
        return None;
    }
    let mut acc: u64 = 0;
    let mut i: usize = start;
    while i < n
        invariant
            n == s@.len(),
            start <= i <= n,
            b == s@.subrange(start as int, n as int),
            all_digits(b.subrange(0, i - start)),
            acc == digits_value(b.subrange(0, i - start)),
            acc <= limit,
            10 <= limit <= 0x8000_0000_0000_0000,
        decreases n - i,
    {
        let c = s.get_char(i);
        proof {
            assert(b[i - start] == c);
            assert(b.subrange(0, i - start + 1).drop_last() =~= b.subrange(0, i - start));
        }
        if !('0' <= c && c <= '9') {
            proof {
                assert(!is_digit(b[i - start]));
            }
            return None;
        }
        let d = (c as u32 - '0' as u32) as u64;
        if acc > (limit - d) / 10 {
            proof {
                assert(all_digits(b.subrange(0, i - start + 1)));
                assert(digits_value(b.subrange(0, i - start + 1)) == acc * 10 + d);
                assert(acc * 10 + d > limit) by (nonlinear_arith)
                    requires acc > (limit - d) / 10, d < 10, limit >= d;
                if all_digits(b) {
                    lemma_digits_value_grows(b, i - start + 1);
                }
            }
            return None;
        }
        proof {
            assert(acc * 10 + d <= limit) by (nonlinear_arith)
                requires acc <= (limit - d) / 10, d < 10, limit >= d;
        }
        acc = acc * 10 + d;
        i += 1;
        proof {
            assert(all_digits(b.subrange(0, i - start)));
        }
    }
    proof {
        assert(b.subrange(0, n - start) =~= b);
    }
    Some(acc)
}

/// Reads `s` as an unsigned 32-bit decimal number.
pub fn parse_u32(s: &str) -> (r: Option<u32>)
    ensures
        r == parse_u32_spec(s@),
{
    let n = s.unicode_len();
    let start: usize = if n > 0 && s.get_char(0) == '+' {
        1
    } else {
        0
    };
    proof {
        let b = unsigned_body(s@);
        assert(b =~= s@.subrange(start as int, n as int));
    }
    match read_digits(s, start, 0xffff_ffff) {
        Some(v) => Some(v as u32),
        None => None,
    }
}

/// Reads `s` as a signed 64-bit decimal number.
pub fn parse_i64(s: &str) -> (r: Option<i64>)
    ensures
        r == parse_i64_spec(s@),
{
    let n = s.unicode_len();
    if n > 0 && s.get_char(0) == '-' {
        proof {
            assert(s@.drop_first() =~= s@.subrange(1, n as int));
        }
        match read_digits(s, 1, 0x8000_0000_0000_0000) {
            Some(v) => {
                if v == 0x8000_0000_0000_0000 {
                    Some(i64::MIN)
                } else {
                    Some(-(v as i64))
                }
            },
            None => None,
        }
    } else {
        let start: usize = if n > 0 && s.get_char(0) == '+' {
            1
        } else {
            0
        };
        proof {
            assert(unsigned_body(s@) =~= s@.subrange(start as int, n as int));
        }
        match read_digits(s, start, 0x7fff_ffff_ffff_ffff) {
            Some(v) => Some(v as i64),
            None => None,
        }
    }
}

// ---------------------------------------------------------------------
// Splitting
// ---------------------------------------------------------------------

/// Positions of `sep` among the first `upto` characters of `s`, in order.
pub open spec fn sep_positions(s: Seq<char>, sep: char, upto: int) -> Seq<int>
    decreases upto,
{
    if upto <= 0 {
        Seq::empty()
    } else {
        let prev = sep_positions(s, sep, upto - 1);
        if s[upto - 1] == sep {
            prev.push(upto - 1)
        } else {
            prev
        }
    }
}

proof fn lemma_sep_positions_ordered(s: Seq<char>, sep: char, upto: int)
    requires
        0 <= upto <= s.len(),
    ensures
        forall|k: int|
            0 <= k < sep_positions(s, sep, upto).len() ==> 0 <= #[trigger] sep_positions(
                s,
                sep,
                upto,
            )[k] < upto,
        forall|k: int, l: int|
            0 <= k < l < sep_positions(s, sep, upto).len() ==> sep_positions(s, sep, upto)[k]
                < sep_positions(s, sep, upto)[l],
    decreases upto,
{
    if upto > 0 {
        lemma_sep_positions_ordered(s, sep, upto - 1);
        let prev = sep_positions(s, sep, upto - 1);
        let cur = sep_positions(s, sep, upto);
        assert forall|k: int| 0 <= k < cur.len() implies 0 <= #[trigger] cur[k] < upto by {
            if k < prev.len() {
                assert(cur[k] == prev[k]);
            }
        }
        assert forall|k: int, l: int| 0 <= k < l < cur.len() implies cur[k] < cur[l] by {
            assert(cur[k] == prev[k]);
            if l < prev.len() {
                assert(cur[l] == prev[l]);
            }
        }
    }
}

/// The three parts of `s` around its separators, when it holds exactly two.
pub open spec fn split3(s: Seq<char>, sep: char) -> Option<(Seq<char>, Seq<char>, Seq<char>)> {
    let p = sep_positions(s, sep, s.len() as int);
    if p.len() == 2 {
        Some(
            (
                s.subrange(0, p[0]),
                s.subrange(p[0] + 1, p[1]),
                s.subrange(p[1] + 1, s.len() as int),
            ),
        )
    } else {
        None
    }
}

/// Positions of every `sep` in `s`, in order.
pub fn positions_of(s: &str, sep: char) -> (r: Vec<usize>)
    ensures
        r@.len() == sep_positions(s@, sep, s@.len() as int).len(),
        forall|k: int| 0 <= k < r@.len() ==> r@[k] as int == sep_positions(s@, sep, s@.len() as int)[k],
        forall|k: int| 0 <= k < r@.len() ==> 0 <= #[trigger] r@[k] < s@.len(),
        forall|k: int, l: int| 0 <= k < l < r@.len() ==> r@[k] < r@[l],
{
    let n = s.unicode_len();
    let mut pos: Vec<usize> = Vec::new();
    let mut i: usize = 0;
    while i < n
        invariant
            n == s@.len(),
            i <= n,
            pos@.len() == sep_positions(s@, sep, i as int).len(),
            forall|k: int| 0 <= k < pos@.len() ==> pos@[k] as int == sep_positions(s@, sep, i as int)[k],
        decreases n - i,
    {
        if s.get_char(i) == sep {
            pos.push(i);
        }
        i += 1;
    }
    proof {
        lemma_sep_positions_ordered(s@, sep, n as int);
        let sp = sep_positions(s@, sep, n as int);
        assert forall|k: int| 0 <= k < pos@.len() implies 0 <= #[trigger] pos@[k] < s@.len() by {
            assert(pos@[k] as int == sp[k]);
        }
        assert forall|k: int, l: int| 0 <= k < l < pos@.len() implies pos@[k] < pos@[l] by {
            assert(pos@[k] as int == sp[k]);
            assert(pos@[l] as int == sp[l]);
        }
    }
    pos
}

/// Splits `s` at `sep` when it holds exactly two of them.
pub fn split_three(s: &str, sep: char) -> (r: Option<(String, String, String)>)
    ensures
        match split3(s@, sep) {
            Some((a, b, c)) => r matches Some((x, y, z)) && x@ == a && y@ == b && z@ == c,
            None => r is None,
        },
{
    let n = s.unicode_len();
    let pos = positions_of(s, sep);
    if pos.len() != 2 {
        return None;
    }
    let p0 = pos[0];
    let p1 = pos[1];
    let a = s.substring_char(0, p0).to_owned();
    let b = s.substring_char(p0 + 1, p1).to_owned();
    let c = s.substring_char(p1 + 1, n).to_owned();
    Some((a, b, c))
}

/// The first two parts of `s` split at `sep`, when it holds at least one.
pub open spec fn split_head(s: Seq<char>, sep: char) -> Option<(Seq<char>, Seq<char>)> {
    let p = sep_positions(s, sep, s.len() as int);
    if p.len() >= 1 {
        let end = if p.len() >= 2 {
            p[1]
        } else {
            s.len() as int
        };
        Some((s.subrange(0, p[0]), s.subrange(p[0] + 1, end)))
    } else {
        None
    }
}

/// The first two parts of `s` split at `sep`, when it holds at least one.
pub fn split_two(s: &str, sep: char) -> (r: Option<(String, String)>)
    ensures
        match split_head(s@, sep) {
            Some((a, b)) => r matches Some((x, y)) && x@ == a && y@ == b,
            None => r is None,
        },
{
    let n = s.unicode_len();
    let pos = positions_of(s, sep);
    if pos.len() == 0 {
        return None;
    }
    let p0 = pos[0];
    let end = if pos.len() >= 2 {
        pos[1]
    } else {
        n
    };
    let a = s.substring_char(0, p0).to_owned();
    let b = s.substring_char(p0 + 1, end).to_owned();
    Some((a, b))
}

/// The first `k` characters of `s` (all of it when shorter).
pub open spec fn prefix(s: Seq<char>, k: int) -> Seq<char> {
    if k < s.len() {
        s.subrange(0, k)
    } else {
        s
    }
}

/// The first `k` characters of `s` (all of it when shorter).
pub fn take_chars(s: &str, k: usize) -> (r: String)
    ensures
        r@ == prefix(s@, k as int),
{
    let n = s.unicode_len();
    if k < n {
        s.substring_char(0, k).to_owned()
    } else {
        s.to_owned()
    }
}

// ---------------------------------------------------------------------
// Ordering
// ---------------------------------------------------------------------

/// Lexicographic order on character sequences, by code point.
pub open spec fn text_less(a: Seq<char>, b: Seq<char>) -> bool
    decreases a.len(),
{
    if a.len() == 0 {
        b.len() > 0
    } else if b.len() == 0 {
        false
    } else if a[0] != b[0] {
        a[0] < b[0]
    } else {
        text_less(a.drop_first(), b.drop_first())
    }
}

/// Lexicographic comparison of two texts.
pub fn compare_text(a: &str, b: &str) -> (r: core::cmp::Ordering)
    ensures
        (r == core::cmp::Ordering::Less) == text_less(a@, b@),
        (r == core::cmp::Ordering::Greater) == text_less(b@, a@),
        (r == core::cmp::Ordering::Equal) == (a@ == b@),
{
    let n = a.unicode_len();
    let m = b.unicode_len();
    let mut i: usize = 0;
    assert(a@.subrange(0, n as int) =~= a@);
    assert(b@.subrange(0, m as int) =~= b@);
    while i < n && i < m
        invariant
            n == a@.len(),
            m == b@.len(),
            i <= n,
            i <= m,
            a@.subrange(0, i as int) == b@.subrange(0, i as int),
            text_less(a@, b@) == text_less(a@.subrange(i as int, n as int), b@.subrange(i as int, m as int)),
            text_less(b@, a@) == text_less(b@.subrange(i as int, m as int), a@.subrange(i as int, n as int)),
        decreases n - i,
    {
        let x = a.get_char(i);
        let y = b.get_char(i);
        let ghost ra = a@.subrange(i as int, n as int);
        let ghost rb = b@.subrange(i as int, m as int);
        proof {
            assert(ra[0] == x);
            assert(rb[0] == y);
        }
        if x != y {
            proof {
                assert(a@[i as int] != b@[i as int]);
                assert(a@ != b@);
            }
            if x < y {
                return core::cmp::Ordering::Less;
            } else {
                return core::cmp::Ordering::Greater;
            }
        }
        proof {
            assert(ra.drop_first() =~= a@.subrange(i + 1, n as int));
            assert(rb.drop_first() =~= b@.subrange(i + 1, m as int));
            assert(a@.subrange(0, i + 1) =~= a@.subrange(0, i as int).push(x));
            assert(b@.subrange(0, i + 1) =~= b@.subrange(0, i as int).push(y));
        }
        i += 1;
    }
    proof {
        assert(a@.subrange(i as int, n as int).len() == n - i);
        assert(b@.subrange(i as int, m as int).len() == m - i);
        if n == m {
            assert(a@ =~= a@.subrange(0, i as int));
            assert(b@ =~= b@.subrange(0, i as int));
        } else {
            assert(a@.len() != b@.len());
        }
    }
    if n < m {
        core::cmp::Ordering::Less
    } else if n > m {
        core::cmp::Ordering::Greater
    } else {
        core::cmp::Ordering::Equal
    }
}

} // verus!
