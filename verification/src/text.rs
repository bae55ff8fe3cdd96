//! Text utilities: truncation to a character budget, decimal and
//! hexadecimal parsing of identifier tokens, decimal formatting, and the
//! colon splitter for component identifiers.
use vstd::prelude::*;

verus! {

/// The first `max_len` characters of `s`, or all of `s` if it is shorter.
pub open spec fn truncate_spec(s: Seq<char>, max_len: int) -> Seq<char> {
    if s.len() <= max_len {
        s
    } else {
        s.subrange(0, max_len)
    }
}

/// Cuts `s` down to at most `max_len` characters.
pub fn truncate(s: &str, max_len: usize) -> (r: &str)
    ensures
        r@ == truncate_spec(s@, max_len as int),
{
    let n = s.unicode_len();
    if n <= max_len {
        s
    } else {
        s.substring_char(0, max_len)
    }
}

/// Like [`truncate`], but returns an owned string.
pub fn truncate_chars(s: &str, max_chars: usize) -> (r: String)
    ensures
        r@ == truncate_spec(s@, max_chars as int),
{
    String::from_str(truncate(s, max_chars))
}

/// What `str::trim` leaves of a string once leading and trailing
/// whitespace is removed.
pub uninterp spec fn trim_spec(s: Seq<char>) -> Seq<char>;

/// Relies on `str::trim`: returns the string without its leading and
/// trailing whitespace, so never longer than the input, and unchanged when
/// the input neither starts nor ends with whitespace.
#[verifier::external_body]
pub fn trim(s: &str) -> (r: String)
    ensures
        r@ == trim_spec(s@),
        r@.len() <= s@.len(),
{
    s.trim().to_owned()
}

pub open spec fn is_dec_digit(c: char) -> bool {
    '0' <= c && c <= '9'
}

pub open spec fn all_dec_digits(s: Seq<char>) -> bool {
    forall|i: int| 0 <= i < s.len() ==> is_dec_digit(#[trigger] s[i])
}

/// The number a string of decimal digits denotes.
pub open spec fn dec_value(s: Seq<char>) -> nat
    decreases s.len(),
{
    if s.len() == 0 {
        0
    } else {
        dec_value(s.drop_last()) * 10 + ((s.last() as int - '0' as int) as nat)
    }
}

/// A longer digit string never denotes a smaller number.
proof fn lemma_dec_value_prefix_le(s: Seq<char>, i: int, j: int)
    requires
        0 <= i <= j <= s.len(),
        all_dec_digits(s),
    ensures
        dec_value(s.subrange(0, i)) <= dec_value(s.subrange(0, j)),
    decreases j - i,
{
    if i < j {
        lemma_dec_value_prefix_le(s, i, j - 1);
        let p = s.subrange(0, j);
        assert(p.drop_last() =~= s.subrange(0, j - 1));
        assert(dec_value(s.subrange(0, j - 1)) <= dec_value(p));
    }
}

/// The `u64` a string denotes: defined when it is non-empty, all decimal
/// digits, and in range.
pub open spec fn parse_u64_spec(s: Seq<char>) -> Option<u64> {
    if s.len() > 0 && all_dec_digits(s) && dec_value(s) <= u64::MAX {
        Some((dec_value(s) as u64))
    } else {
        None
    }
}

/// Parses a non-empty, all-digit string as a `u64`; `None` on any other
/// input or when the value does not fit.
pub fn parse_u64(s: &str) -> (r: Option<u64>)
    ensures
        r == parse_u64_spec(s@),
{
    let n = s.unicode_len();
    if n == 0 {
        return None;
    }
    let mut val: u64 = 0;
    let mut i: usize = 0;
    while i < n
        invariant
            0 < n == s@.len(),
            i <= n,
            all_dec_digits(s@.subrange(0, i as int)),
            val == dec_value(s@.subrange(0, i as int)),
        decreases n - i,
    {
        let c = s.get_char(i);
        let code = c as u32;
        if code < 48 || code > 57 {
            assert(!is_dec_digit(s@[i as int]));
            assert(!all_dec_digits(s@));
            return None;
        }
        let d: u64 = (code - 48) as u64;
        assert(s@.subrange(0, i + 1).drop_last() =~= s@.subrange(0, i as int));
        assert(s@.subrange(0, i + 1).last() == s@[i as int]);
        if val > (u64::MAX - d) / 10 {
            proof {
                assert(dec_value(s@.subrange(0, i + 1)) > u64::MAX) by {
                    assert(dec_value(s@.subrange(0, i + 1)) == val * 10 + d);
                };
                if all_dec_digits(s@) && dec_value(s@) <= u64::MAX {
                    lemma_dec_value_prefix_le(s@, i + 1, n as int);
                    assert(s@.subrange(0, n as int) =~= s@);
                }
            }
            return None;
        }
        val = val * 10 + d;
        i = i + 1;
    }
    assert(s@.subrange(0, n as int) =~= s@);
    Some(val)
}

pub open spec fn is_hex_digit(c: char) -> bool {
    ('0' <= c && c <= '9') || ('a' <= c && c <= 'f') || ('A' <= c && c <= 'F')
}

pub open spec fn hex_digit_value(c: char) -> nat {
    if '0' <= c && c <= '9' {
        (c as int - '0' as int) as nat
    } else if 'a' <= c && c <= 'f' {
        (c as int - 'a' as int + 10) as nat
    } else {
        (c as int - 'A' as int + 10) as nat
    }
}

pub open spec fn all_hex_digits(s: Seq<char>) -> bool {
    forall|i: int| 0 <= i < s.len() ==> is_hex_digit(#[trigger] s[i])
}

/// The number a string of hexadecimal digits denotes.
pub open spec fn hex_value(s: Seq<char>) -> nat
    decreases s.len(),
{
    if s.len() == 0 {
        0
    } else {
        hex_value(s.drop_last()) * 16 + hex_digit_value(s.last())
    }
}

proof fn lemma_hex_value_prefix_le(s: Seq<char>, i: int, j: int)
    requires
        0 <= i <= j <= s.len(),
        all_hex_digits(s),
    ensures
        hex_value(s.subrange(0, i)) <= hex_value(s.subrange(0, j)),
    decreases j - i,
{
    if i < j {
        lemma_hex_value_prefix_le(s, i, j - 1);
        let p = s.subrange(0, j);
        assert(p.drop_last() =~= s.subrange(0, j - 1));
        assert(hex_value(s.subrange(0, j - 1)) <= hex_value(p));
    }
}

/// The non-negative `i32` a string of hexadecimal digits denotes.
pub open spec fn parse_hex_i32_spec(s: Seq<char>) -> Option<i32> {
    if s.len() > 0 && all_hex_digits(s) && hex_value(s) <= i32::MAX {
        Some((hex_value(s) as i32))
    } else {
        None
    }
}

/// Parses a non-empty string of hexadecimal digits as a non-negative `i32`;
/// `None` on any other input or when the value exceeds `i32::MAX`.
pub fn parse_hex_i32(s: &str) -> (r: Option<i32>)
    ensures
        r == parse_hex_i32_spec(s@),
{
    let n = s.unicode_len();
    if n == 0 {
        return None;
    }
    let mut val: u32 = 0;
    let max: u32 = 0x7fff_ffff;
    let mut i: usize = 0;
    while i < n
        invariant
            0 < n == s@.len(),
            i <= n,
            all_hex_digits(s@.subrange(0, i as int)),
            val == hex_value(s@.subrange(0, i as int)),
            val <= max,
            max == i32::MAX,
        decreases n - i,
    {
        let c = s.get_char(i);
        let code = c as u32;
        let d: u32 = if code >= 48 && code <= 57 {
            code - 48
        } else if code >= 97 && code <= 102 {
            code - 97 + 10
        } else if code >= 65 && code <= 70 {
            code - 65 + 10
        } else {
            assert(!is_hex_digit(s@[i as int]));
            assert(!all_hex_digits(s@));
            return None;
        };
        assert(is_hex_digit(s@[i as int]) && d == hex_digit_value(s@[i as int]));
        assert(s@.subrange(0, i + 1).drop_last() =~= s@.subrange(0, i as int));
        assert(s@.subrange(0, i + 1).last() == s@[i as int]);
        if val > (max - d) / 16 {
            proof {
                assert(hex_value(s@.subrange(0, i + 1)) > i32::MAX) by {
                    assert(hex_value(s@.subrange(0, i + 1)) == val * 16 + d);
                };
                if all_hex_digits(s@) && hex_value(s@) <= i32::MAX {
                    lemma_hex_value_prefix_le(s@, i + 1, n as int);
                    assert(s@.subrange(0, n as int) =~= s@);
                }
            }
            return None;
        }
        val = val * 16 + d;
        i = i + 1;
    }
    assert(s@.subrange(0, n as int) =~= s@);
    Some(val as i32)
}

pub open spec fn digit_char(d: int) -> char {
    if d == 0 {
        '0'
    } else if d == 1 {
        '1'
    } else if d == 2 {
        '2'
    } else if d == 3 {
        '3'
    } else if d == 4 {
        '4'
    } else if d == 5 {
        '5'
    } else if d == 6 {
        '6'
    } else if d == 7 {
        '7'
    } else if d == 8 {
        '8'
    } else {
        '9'
    }
}

/// The decimal rendering of a number.
pub open spec fn dec_str(n: nat) -> Seq<char>
    decreases n,
{
    if n < 10 {
        seq![digit_char(n as int)]
    } else {
        dec_str(n / 10).push(digit_char((n % 10) as int))
    }
}

fn digit_str(d: u64) -> (r: &'static str)
    requires
        d < 10,
    ensures
        r@ =~= seq![digit_char(d as int)],
{
    proof {
        reveal_strlit("0");
        reveal_strlit("1");
        reveal_strlit("2");
        reveal_strlit("3");
        reveal_strlit("4");
        reveal_strlit("5");
        reveal_strlit("6");
        reveal_strlit("7");
        reveal_strlit("8");
        reveal_strlit("9");
    }
    if d == 0 {
        "0"
    } else if d == 1 {
        "1"
    } else if d == 2 {
        "2"
    } else if d == 3 {
        "3"
    } else if d == 4 {
        "4"
    } else if d == 5 {
        "5"
    } else if d == 6 {
        "6"
    } else if d == 7 {
        "7"
    } else if d == 8 {
        "8"
    } else {
        "9"
    }
}

/// Renders a number in decimal.
pub fn u64_to_string(n: u64) -> (r: String)
    ensures
        r@ == dec_str(n as nat),
    decreases n,
{
    if n < 10 {
        String::from_str(digit_str(n))
    } else {
        let mut s = u64_to_string(n / 10);
        s.append(digit_str(n % 10));
        assert(s@ =~= dec_str((n / 10) as nat).push(digit_char((n % 10) as int)));
        s
    }
}

/// Powers of ten.
pub open spec fn pow10(k: nat) -> nat
    decreases k,
{
    if k == 0 {
        1
    } else {
        10 * pow10((k - 1) as nat)
    }
}

/// A number below `10^k` renders to at most `k` digits.
pub proof fn lemma_dec_str_len(n: nat, k: nat)
    requires
        k >= 1,
        n < pow10(k),
    ensures
        dec_str(n).len() <= k,
    decreases k,
{
    if n >= 10 {
        assert(pow10(k) == 10 * pow10((k - 1) as nat));
        assert(n / 10 < pow10((k - 1) as nat)) by (nonlinear_arith)
            requires
                n < 10 * pow10((k - 1) as nat),
        ;
        lemma_dec_str_len(n / 10, (k - 1) as nat);
    }
}

/// A `u64` renders to at most 20 digits.
pub proof fn lemma_dec_str_len_u64(n: u64)
    ensures
        dec_str(n as nat).len() <= 20,
{
    reveal_with_fuel(pow10, 21);
    assert(n < pow10(20));
    lemma_dec_str_len(n as nat, 20);
}

/// Splitting on `':'`: consumes `s`, extending the part under construction
/// `cur` and the finished parts `done`.
pub open spec fn split_rec(s: Seq<char>, cur: Seq<char>, done: Seq<Seq<char>>) -> Seq<Seq<char>>
    decreases s.len(),
{
    if s.len() == 0 {
        done.push(cur)
    } else if s[0] == ':' {
        split_rec(s.drop_first(), Seq::empty(), done.push(cur))
    } else {
        split_rec(s.drop_first(), cur.push(s[0]), done)
    }
}

/// The parts of `s` between (possibly empty) runs of `':'` separators; a
/// string with no separator yields a single part.
pub open spec fn split_colons_spec(s: Seq<char>) -> Seq<Seq<char>> {
    split_rec(s, Seq::empty(), Seq::empty())
}

/// Whether a string holds no separator, so the splitter keeps it whole.
pub open spec fn no_colon(s: Seq<char>) -> bool {
    forall|i: int| 0 <= i < s.len() ==> s[i] != ':'
}

/// Splitting consumes a colon-free prefix into the part under
/// construction.
pub proof fn lemma_split_rec_skip(s1: Seq<char>, s2: Seq<char>, cur: Seq<char>, done: Seq<Seq<char>>)
    requires
        no_colon(s1),
    ensures
        split_rec(s1 + s2, cur, done) == split_rec(s2, cur + s1, done),
    decreases s1.len(),
{
    if s1.len() == 0 {
        assert(s1 + s2 =~= s2);
        assert(cur + s1 =~= cur);
    } else {
        let c = s1[0];
        assert((s1 + s2)[0] == c);
        assert((s1 + s2).drop_first() =~= s1.drop_first() + s2);
        lemma_split_rec_skip(s1.drop_first(), s2, cur.push(c), done);
        assert(cur.push(c) + s1.drop_first() =~= cur + s1);
    }
}

/// Splitting at a separator finishes the part under construction.
pub proof fn lemma_split_rec_colon(s2: Seq<char>, cur: Seq<char>, done: Seq<Seq<char>>)
    ensures
        split_rec(seq![':'] + s2, cur, done) == split_rec(s2, Seq::empty(), done.push(cur)),
{
    assert((seq![':'] + s2)[0] == ':');
    assert((seq![':'] + s2).drop_first() =~= s2);
}

/// The finished parts only ever grow: they prefix the final result.
pub proof fn lemma_split_rec_done(s: Seq<char>, cur: Seq<char>, done: Seq<Seq<char>>)
    ensures
        split_rec(s, cur, done) == done + split_rec(s, cur, Seq::empty()),
    decreases s.len(),
{
    if s.len() == 0 {
        assert(done.push(cur) =~= done + Seq::<Seq<char>>::empty().push(cur));
    } else if s[0] == ':' {
        lemma_split_rec_done(s.drop_first(), Seq::empty(), done.push(cur));
        lemma_split_rec_done(s.drop_first(), Seq::empty(), Seq::<Seq<char>>::empty().push(cur));
        let rest = split_rec(s.drop_first(), Seq::empty(), Seq::empty());
        assert(done.push(cur) + rest =~= done + (Seq::<Seq<char>>::empty().push(cur) + rest));
    } else {
        lemma_split_rec_done(s.drop_first(), cur.push(s[0]), done);
    }
}

/// A separator-free string splits into itself alone.
pub proof fn lemma_split_whole(s: Seq<char>)
    requires
        no_colon(s),
    ensures
        split_colons_spec(s) == seq![s],
{
    assert(s + Seq::<char>::empty() =~= s);
    lemma_split_rec_skip(s, Seq::empty(), Seq::empty(), Seq::empty());
    assert(Seq::<char>::empty() + s =~= s);
    assert(split_rec(Seq::<char>::empty(), s, Seq::<Seq<char>>::empty()) =~= seq![s]);
}

/// Two separator-free strings around one separator split into exactly
/// those two parts.
pub proof fn lemma_split_two(a: Seq<char>, b: Seq<char>)
    requires
        no_colon(a),
        no_colon(b),
    ensures
        split_colons_spec(a + seq![':'] + b) == seq![a, b],
{
    let s = a + seq![':'] + b;
    assert(s =~= a + (seq![':'] + b));
    lemma_split_rec_skip(a, seq![':'] + b, Seq::empty(), Seq::empty());
    assert(Seq::<char>::empty() + a =~= a);
    lemma_split_rec_colon(b, a, Seq::empty());
    lemma_split_rec_skip(b, Seq::empty(), Seq::empty(), Seq::<Seq<char>>::empty().push(a));
    assert(b + Seq::<char>::empty() =~= b);
    assert(Seq::<char>::empty() + b =~= b);
    assert(split_rec(
        Seq::<char>::empty(),
        b,
        Seq::<Seq<char>>::empty().push(a),
    ) =~= seq![a, b]);
}

/// A family token, an id and a tail around two separators split into the
/// family, the id, and whatever the tail splits into.
pub proof fn lemma_split_id3(fam: Seq<char>, u: Seq<char>, tail: Seq<char>)
    requires
        no_colon(fam),
        no_colon(u),
    ensures
        split_colons_spec(fam + seq![':'] + u + seq![':'] + tail) == seq![fam, u]
            + split_colons_spec(tail),
    decreases 0nat,
{
    let s = fam + seq![':'] + u + seq![':'] + tail;
    assert(s =~= fam + (seq![':'] + (u + (seq![':'] + tail))));
    lemma_split_rec_skip(fam, seq![':'] + (u + (seq![':'] + tail)), Seq::empty(), Seq::empty());
    assert(Seq::<char>::empty() + fam =~= fam);
    lemma_split_rec_colon(u + (seq![':'] + tail), fam, Seq::empty());
    lemma_split_rec_skip(u, seq![':'] + tail, Seq::empty(), Seq::<Seq<char>>::empty().push(fam));
    assert(Seq::<char>::empty() + u =~= u);
    lemma_split_rec_colon(tail, u, Seq::<Seq<char>>::empty().push(fam));
    lemma_split_rec_done(tail, Seq::empty(), Seq::<Seq<char>>::empty().push(fam).push(u));
    assert(Seq::<Seq<char>>::empty().push(fam).push(u) =~= seq![fam, u]);
}

/// Every character of a decimal rendering is a digit, so it holds no
/// separator and at least one character.
pub proof fn lemma_dec_str_digits(n: nat)
    ensures
        all_dec_digits(dec_str(n)),
        dec_str(n).len() >= 1,
        no_colon(dec_str(n)),
    decreases n,
{
    if n < 10 {
        assert(is_dec_digit(dec_str(n)[0]));
    } else {
        lemma_dec_str_digits(n / 10);
        let s = dec_str(n);
        assert(s == dec_str(n / 10).push(digit_char((n % 10) as int)));
        assert(is_dec_digit(digit_char((n % 10) as int)));
        assert forall|i: int| 0 <= i < s.len() implies is_dec_digit(#[trigger] s[i]) by {
            if i < s.len() - 1 {
                assert(s[i] == dec_str(n / 10)[i]);
            }
        }
    }
}

/// The decimal rendering denotes the rendered number: parsing it back
/// yields the number itself.
pub proof fn lemma_dec_str_value(n: nat)
    ensures
        dec_value(dec_str(n)) == n,
    decreases n,
{
    if n < 10 {
        let s = dec_str(n);
        assert(s.drop_last() =~= Seq::<char>::empty());
        assert(dec_value(Seq::<char>::empty()) == 0);
        assert(s.last() == digit_char(n as int));
        assert(digit_char(n as int) as int - '0' as int == n);
    } else {
        lemma_dec_str_value(n / 10);
        let s = dec_str(n);
        assert(s.drop_last() =~= dec_str(n / 10));
        assert(s.last() == digit_char((n % 10) as int));
        assert(digit_char((n % 10) as int) as int - '0' as int == n % 10);
        assert((n / 10) * 10 + n % 10 == n) by (nonlinear_arith);
    }
}

/// Rendering then parsing is the identity on `u64` values.
pub proof fn lemma_parse_dec_str(n: u64)
    ensures
        parse_u64_spec(dec_str(n as nat)) == Some(n),
{
    lemma_dec_str_digits(n as nat);
    lemma_dec_str_value(n as nat);
}

/// Splits `s` at every `':'`.
pub fn split_colons(s: &str) -> (parts: Vec<String>)
    ensures
        parts.deep_view() == split_colons_spec(s@),
{
    let n = s.unicode_len();
    let mut parts: Vec<String> = Vec::new();
    let mut start: usize = 0;
    let mut i: usize = 0;
    proof {
        assert(s@.subrange(0, n as int) =~= s@);
        assert(s@.subrange(0, 0) =~= Seq::<char>::empty());
        assert(parts.deep_view() =~= Seq::<Seq<char>>::empty());
    }
    while i < n
        invariant
            n == s@.len(),
            start <= i <= n,
            split_rec(s@.subrange(i as int, n as int), s@.subrange(start as int, i as int), parts.deep_view())
                == split_colons_spec(s@),
        decreases n - i,
    {
        let ghost rest = s@.subrange(i as int, n as int);
        let ghost cur = s@.subrange(start as int, i as int);
        assert(rest[0] == s@[i as int]);
        if s.get_char(i) == ':' {
            let part = String::from_str(s.substring_char(start, i));
            let ghost old_parts = parts.deep_view();
            parts.push(part);
            proof {
                assert(parts.deep_view() =~= old_parts.push(cur));
                assert(rest.drop_first() =~= s@.subrange(i + 1, n as int));
                assert(s@.subrange((i + 1) as int, (i + 1) as int) =~= Seq::<char>::empty());
            }
            start = i + 1;
        } else {
            proof {
                assert(rest.drop_first() =~= s@.subrange(i + 1, n as int));
                assert(cur.push(s@[i as int]) =~= s@.subrange(start as int, i + 1));
            }
        }
        i = i + 1;
    }
    let last = String::from_str(s.substring_char(start, n));
    let ghost old_parts = parts.deep_view();
    parts.push(last);
    proof {
        assert(s@.subrange(n as int, n as int) =~= Seq::<char>::empty());
        assert(parts.deep_view() =~= old_parts.push(s@.subrange(start as int, n as int)));
    }
    parts
}

} // verus!
