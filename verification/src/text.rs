use vstd::prelude::*;

verus! {

// ---------------------------------------------------------------------------
// Character classes
// ---------------------------------------------------------------------------

/// The character of the decimal digit `d` (`0..=9`).
pub open spec fn digit_char(d: int) -> char {
    (48 + d) as char
}

/// The lower-case hexadecimal digit of `d` (`0..=15`).
pub open spec fn hex_char(d: int) -> char {
    if d < 10 {
        (48 + d) as char
    } else {
        (87 + d) as char
    }
}

/// Whether `c` is one of `0`..`9`.
pub open spec fn is_digit_char(c: char) -> bool {
    48 <= c as int <= 57
}

/// The value of the decimal digit `c`.
pub open spec fn digit_value(c: char) -> int {
    c as int - 48
}

/// Unicode's `White_Space` property, the one that `str::trim` uses.
pub open spec fn is_white_space(c: char) -> bool {
    let x = c as int;
    ||| 0x9 <= x <= 0xd
    ||| x == 0x20
    ||| x == 0x85
    ||| x == 0xa0
    ||| x == 0x1680
    ||| 0x2000 <= x <= 0x200a
    ||| x == 0x2028
    ||| x == 0x2029
    ||| x == 0x202f
    ||| x == 0x205f
    ||| x == 0x3000
}

// ---------------------------------------------------------------------------
// Text operations
// ---------------------------------------------------------------------------

/// `s` begins with `p`.
pub open spec fn has_prefix(s: Seq<char>, p: Seq<char>) -> bool {
    p.len() <= s.len() && s.subrange(0, p.len() as int) == p
}

/// `p` occurs somewhere in `s`.
pub open spec fn contains_text(s: Seq<char>, p: Seq<char>) -> bool {
    exists|i: int| 0 <= i && i + p.len() <= s.len() && #[trigger] s.subrange(i, i + p.len()) == p
}

/// `s` without its leading white space.
pub open spec fn trim_start(s: Seq<char>) -> Seq<char>
    decreases s.len(),
{
    if s.len() > 0 && is_white_space(s[0]) {
        trim_start(s.drop_first())
    } else {
        s
    }
}

/// `s` without its trailing white space.
pub open spec fn trim_end(s: Seq<char>) -> Seq<char>
    decreases s.len(),
{
    if s.len() > 0 && is_white_space(s.last()) {
        trim_end(s.drop_last())
    } else {
        s
    }
}

/// `s` without leading and trailing white space.
pub open spec fn trimmed(s: Seq<char>) -> Seq<char> {
    trim_end(trim_start(s))
}

/// `s` with every `from` turned into `to`.
pub open spec fn replaced(s: Seq<char>, from: char, to: char) -> Seq<char> {
    s.map_values(|c: char| if c == from { to } else { c })
}

/// `String::push`: appends one character.
#[verifier::external_body]
pub(crate) fn push_char(s: &mut String, c: char)
    ensures
        final(s)@ == old(s)@.push(c),
{
    s.push(c);
}

/// Whether `s` begins with `p`.
pub fn starts_with(s: &str, p: &str) -> (r: bool)
    ensures
        r == has_prefix(s@, p@),
{
    let n = s.unicode_len();
    let m = p.unicode_len();
    if m > n {
        return false;
    }
    let mut i: usize = 0;
    while i < m
        invariant
            n == s@.len(),
            m == p@.len(),
            m <= n,
            i <= m,
            forall|j: int| 0 <= j < i ==> s@[j] == p@[j],
        decreases m - i,
    {
        if s.get_char(i) != p.get_char(i) {
            assert(s@.subrange(0, m as int)[i as int] != p@[i as int]);
            return false;
        }
        i = i + 1;
    }
    assert(s@.subrange(0, m as int) =~= p@);
    true
}

/// Whether `p` matches `s` at position `i`.
fn matches_at(s: &str, p: &str, i: usize, n: usize, m: usize) -> (r: bool)
    requires
        n == s@.len(),
        m == p@.len(),
        i + m <= n,
    ensures
        r == (s@.subrange(i as int, i + m) == p@),
{
    let mut j: usize = 0;
    while j < m
        invariant
            n == s@.len(),
            m == p@.len(),
            i + m <= n,
            j <= m,
            forall|k: int| 0 <= k < j ==> s@[i + k] == p@[k],
        decreases m - j,
    {
        if s.get_char(i + j) != p.get_char(j) {
            assert(s@.subrange(i as int, i + m)[j as int] != p@[j as int]);
            return false;
        }
        j = j + 1;
    }
    assert(s@.subrange(i as int, i + m) =~= p@);
    true
}

/// Whether `p` occurs in `s`.
pub fn contains(s: &str, p: &str) -> (r: bool)
    ensures
        r == contains_text(s@, p@),
{
    let n = s.unicode_len();
    let m = p.unicode_len();
    if m > n {
        return false;
    }
    let last = n - m;
    let mut i: usize = 0;
    loop
        invariant
            n == s@.len(),
            m == p@.len(),
            last == n - m,
            i <= last,
            forall|k: int| 0 <= k < i ==> #[trigger] s@.subrange(k, k + m) != p@,
        ensures
            forall|k: int| 0 <= k <= last ==> #[trigger] s@.subrange(k, k + m) != p@,
        decreases last - i,
    {
        if matches_at(s, p, i, n, m) {
            return true;
        }
        if i == last {
            break;
        }
        i = i + 1;
    }
    proof {
        lemma_no_match_position(s@, p@);
    }
    false
}

/// Where no position up to the last one matches, `p` does not occur.
proof fn lemma_no_match_position(s: Seq<char>, p: Seq<char>)
    requires
        p.len() <= s.len(),
        forall|k: int| 0 <= k < s.len() - p.len() + 1 ==> #[trigger] s.subrange(k, k + p.len()) != p,
    ensures
        !contains_text(s, p),
{
}

/// Whether `c` is Unicode white space.
fn is_white_space_char(c: char) -> (r: bool)
    ensures
        r == is_white_space(c),
{
    let x = c as u32;
    (0x9 <= x && x <= 0xd) || x == 0x20 || x == 0x85 || x == 0xa0 || x == 0x1680 || (0x2000 <= x
        && x <= 0x200a) || x == 0x2028 || x == 0x2029 || x == 0x202f || x == 0x205f || x == 0x3000
}

/// Leading white space can be skipped all at once.
proof fn lemma_trim_start_skip(s: Seq<char>, i: int)
    requires
        0 <= i <= s.len(),
        forall|j: int| 0 <= j < i ==> is_white_space(#[trigger] s[j]),
    ensures
        trim_start(s) == trim_start(s.subrange(i, s.len() as int)),
    decreases i,
{
    if i == 0 {
        assert(s.subrange(0, s.len() as int) =~= s);
    } else {
        let t = s.drop_first();
        assert forall|j: int| 0 <= j < i - 1 implies is_white_space(#[trigger] t[j]) by {
            assert(t[j] == s[j + 1]);
        }
        lemma_trim_start_skip(t, i - 1);
        assert(t.subrange(i - 1, t.len() as int) =~= s.subrange(i, s.len() as int));
    }
}

/// Trailing white space can be dropped all at once.
proof fn lemma_trim_end_take(s: Seq<char>, e: int)
    requires
        0 <= e <= s.len(),
        forall|j: int| e <= j < s.len() ==> is_white_space(#[trigger] s[j]),
    ensures
        trim_end(s) == trim_end(s.subrange(0, e)),
    decreases s.len() - e,
{
    if e == s.len() {
        assert(s.subrange(0, e) =~= s);
    } else {
        let t = s.drop_last();
        assert(is_white_space(s[s.len() - 1]));
        assert forall|j: int| e <= j < t.len() implies is_white_space(#[trigger] t[j]) by {
            assert(t[j] == s[j]);
        }
        lemma_trim_end_take(t, e);
        assert(t.subrange(0, e) =~= s.subrange(0, e));
    }
}

/// `s` without leading and trailing Unicode white space.
pub fn trim(s: &str) -> (r: &str)
    ensures
        r@ == trimmed(s@),
{
    let n = s.unicode_len();
    let mut start: usize = 0;
    while start < n
        invariant
            n == s@.len(),
            start <= n,
            forall|j: int| 0 <= j < start ==> is_white_space(#[trigger] s@[j]),
        ensures
            start <= n,
            forall|j: int| 0 <= j < start ==> is_white_space(#[trigger] s@[j]),
            start < n ==> !is_white_space(s@[start as int]),
        decreases n - start,
    {
        if !is_white_space_char(s.get_char(start)) {
            break;
        }
        start = start + 1;
    }
    let mut end: usize = n;
    while end > start
        invariant
            n == s@.len(),
            start <= end <= n,
            forall|j: int| end <= j < n ==> is_white_space(#[trigger] s@[j]),
        ensures
            start <= end <= n,
            forall|j: int| end <= j < n ==> is_white_space(#[trigger] s@[j]),
            end > start ==> !is_white_space(s@[end - 1]),
        decreases end - start,
    {
        if !is_white_space_char(s.get_char(end - 1)) {
            break;
        }
        end = end - 1;
    }
    proof {
        lemma_trim_start_skip(s@, start as int);
        let rest = s@.subrange(start as int, n as int);
        if start < n {
            assert(!is_white_space(s@[start as int]));
            assert(rest[0] == s@[start as int]);
        }
        assert(trim_start(rest) == rest);
        assert forall|j: int| end - start <= j < rest.len() implies is_white_space(
            #[trigger] rest[j],
        ) by {
            assert(rest[j] == s@[start + j]);
        }
        lemma_trim_end_take(rest, end - start);
        let mid = rest.subrange(0, end - start);
        assert(mid =~= s@.subrange(start as int, end as int));
        if end > start {
            assert(!is_white_space(s@[end - 1]));
            assert(mid.last() == s@[end - 1]);
        }
        assert(trim_end(mid) == mid);
    }
    s.substring_char(start, end)
}

/// `s` with every `from` turned into `to`.
pub fn replace_char(s: &str, from: char, to: char) -> (r: String)
    ensures
        r@ == replaced(s@, from, to),
{
    let n = s.unicode_len();
    let mut r = String::new();
    let mut i: usize = 0;
    while i < n
        invariant
            n == s@.len(),
            i <= n,
            r@ == replaced(s@.take(i as int), from, to),
        decreases n - i,
    {
        let c = s.get_char(i);
        let d = if c == from {
            to
        } else {
            c
        };
        push_char(&mut r, d);
        assert(replaced(s@.take(i + 1), from, to) =~= replaced(s@.take(i as int), from, to).push(
            d,
        ));
        i = i + 1;
    }
    assert(s@.take(n as int) =~= s@);
    r
}

// ---------------------------------------------------------------------------
// Decimal numbers
// ---------------------------------------------------------------------------

/// The decimal notation of `n`, without leading zeros.
pub open spec fn decimal(n: nat) -> Seq<char>
    decreases n,
{
    if n < 10 {
        seq![digit_char(n as int)]
    } else {
        decimal(n / 10).push(digit_char((n % 10) as int))
    }
}

/// The value of a string of decimal digits.
pub open spec fn decimal_value(s: Seq<char>) -> int
    decreases s.len(),
{
    if s.len() == 0 {
        0
    } else {
        decimal_value(s.drop_last()) * 10 + digit_value(s.last())
    }
}

/// A string of decimal digits in the form that `decimal` writes: not empty,
/// digits only, no leading zero.
pub open spec fn is_canonical_decimal(s: Seq<char>) -> bool {
    &&& s.len() > 0
    &&& forall|i: int| 0 <= i < s.len() ==> is_digit_char(#[trigger] s[i])
    &&& s.len() > 1 ==> s[0] != '0'
}

/// Appends the decimal notation of `n` to `s`.
pub fn push_decimal(s: &mut String, n: u32)
    ensures
        final(s)@ == old(s)@ + decimal(n as nat),
    decreases n,
{
    if n >= 10 {
        push_decimal(s, n / 10);
    }
    let d: u8 = (n % 10) as u8;
    let c: char = (48u8 + d) as char;
    let ghost before = s@;
    push_char(s, c);
    proof {
        if n >= 10 {
            assert(before + seq![c] =~= s@);
            assert(old(s)@ + decimal(n as nat) =~= s@);
        } else {
            assert(old(s)@ + decimal(n as nat) =~= s@);
        }
    }
}

/// `decimal` writes canonical digit strings, and reading them back gives the
/// number.
pub proof fn lemma_decimal_canonical(n: nat)
    ensures
        is_canonical_decimal(decimal(n)),
        decimal_value(decimal(n)) == n,
        decimal(n).len() == 1 <==> n < 10,
    decreases n,
{
    if n < 10 {
        let s = decimal(n);
        assert(s.drop_last() =~= Seq::<char>::empty());
        assert(decimal_value(s.drop_last()) == 0);
    } else {
        lemma_decimal_canonical(n / 10);
        let t = decimal(n / 10);
        let s = decimal(n);
        assert(s.drop_last() =~= t);
        assert(n == (n / 10) * 10 + n % 10);
        assert forall|i: int| 0 <= i < s.len() implies is_digit_char(#[trigger] s[i]) by {
            if i < t.len() {
                assert(s[i] == t[i]);
            }
        }
        assert(s[0] == t[0]);
        if t.len() == 1 {
            assert(n / 10 < 10);
            assert(n / 10 >= 1);
            assert(t[0] == digit_char((n / 10) as int));
        }
    }
}

/// A string of digits with a positive leading digit has a positive value.
proof fn lemma_decimal_value_positive(s: Seq<char>)
    requires
        s.len() > 0,
        forall|i: int| 0 <= i < s.len() ==> is_digit_char(#[trigger] s[i]),
        s[0] != '0',
    ensures
        decimal_value(s) >= 1,
    decreases s.len(),
{
    if s.len() > 1 {
        let t = s.drop_last();
        assert(t[0] == s[0]);
        assert forall|i: int| 0 <= i < t.len() implies is_digit_char(#[trigger] t[i]) by {
            assert(t[i] == s[i]);
        }
        lemma_decimal_value_positive(t);
        assert(is_digit_char(s.last()));
    } else {
        assert(is_digit_char(s[0]));
        assert(s.drop_last() =~= Seq::<char>::empty());
        assert(decimal_value(s.drop_last()) == 0);
    }
}

/// The value of a digit string is at least that of each of its prefixes.
proof fn lemma_decimal_value_prefix(s: Seq<char>, k: int)
    requires
        0 <= k <= s.len(),
        forall|i: int| 0 <= i < s.len() ==> is_digit_char(#[trigger] s[i]),
    ensures
        decimal_value(s.subrange(0, k)) <= decimal_value(s),
        decimal_value(s) >= 0,
    decreases s.len(),
{
    if s.len() > 0 {
        let t = s.drop_last();
        assert forall|i: int| 0 <= i < t.len() implies is_digit_char(#[trigger] t[i]) by {
            assert(t[i] == s[i]);
        }
        assert(is_digit_char(s.last()));
        if k == s.len() {
            assert(s.subrange(0, k) =~= s);
            lemma_decimal_value_prefix(t, 0);
        } else {
            lemma_decimal_value_prefix(t, k);
            assert(t.subrange(0, k) =~= s.subrange(0, k));
        }
    } else {
        assert(s.subrange(0, k) =~= s);
    }
}

/// Reading a canonical digit string and writing the value back gives the
/// same string.
pub proof fn lemma_canonical_decimal_roundtrip(s: Seq<char>)
    requires
        is_canonical_decimal(s),
    ensures
        decimal_value(s) >= 0,
        decimal(decimal_value(s) as nat) == s,
    decreases s.len(),
{
    let v = decimal_value(s);
    let d = digit_value(s.last());
    assert(is_digit_char(s[s.len() - 1]));
    if s.len() == 1 {
        assert(s.drop_last() =~= Seq::<char>::empty());
        assert(decimal_value(s.drop_last()) == 0);
        assert(v == d);
        assert(decimal(v as nat) =~= s);
    } else {
        let t = s.drop_last();
        assert(t[0] == s[0]);
        assert forall|i: int| 0 <= i < t.len() implies is_digit_char(#[trigger] t[i]) by {
            assert(t[i] == s[i]);
        }
        lemma_decimal_value_positive(t);
        lemma_canonical_decimal_roundtrip(t);
        let w = decimal_value(t);
        assert(v == w * 10 + d);
        assert(0 <= d < 10);
        vstd::arithmetic::div_mod::lemma_fundamental_div_mod_converse(v, 10, w, d);
        assert(v >= 10);
        assert(decimal(v as nat) == decimal((v / 10) as nat).push(digit_char(v % 10)));
        assert(digit_char(d) == s.last());
        assert(decimal(v as nat) =~= s);
    }
}

/// The prefix of every device node of the video class.
pub open spec fn video_node_prefix() -> Seq<char> {
    "/dev/video"@
}

/// The path of the video device node number `n`.
pub open spec fn video_node_path(n: nat) -> Seq<char> {
    video_node_prefix() + decimal(n)
}

/// Different device numbers give different device paths.
pub proof fn lemma_video_path_determines_number(a: nat, b: nat)
    ensures
        video_node_path(a) == video_node_path(b) ==> a == b,
{
    reveal_strlit("/dev/video");
    if video_node_path(a) == video_node_path(b) {
        lemma_decimal_canonical(a);
        lemma_decimal_canonical(b);
        assert(decimal(a) =~= video_node_path(a).subrange(10, video_node_path(a).len() as int));
        assert(decimal(b) =~= video_node_path(b).subrange(10, video_node_path(b).len() as int));
    }
}

/// The path of the video device node number `n`, such as `/dev/video62`.
pub fn video_device_path(n: u32) -> (r: String)
    ensures
        r@ == video_node_path(n as nat),
{
    let mut s = String::from_str("/dev/video");
    push_decimal(&mut s, n);
    s
}

/// The device number in a path `/dev/videoN`, where `N` is written as
/// `decimal` writes it and fits in a `u32`; `None` for any other path.
pub fn video_device_number(path: &str) -> (r: Option<u32>)
    ensures
        match r {
            Some(n) => path@ == video_node_path(n as nat),
            None => forall|n: u32| path@ != video_node_path(n as nat),
        },
{
    proof {
        reveal_strlit("/dev/video");
    }
    let len = path.unicode_len();
    let prefix = "/dev/video";
    if !starts_with(path, prefix) {
        proof {
            assert forall|n: u32| path@ != video_node_path(n as nat) by {
                if path@ == video_node_path(n as nat) {
                    assert(path@.subrange(0, 10) =~= video_node_prefix());
                }
            }
        }
        return None;
    }
    let ghost digits = path@.subrange(10, len as int);
    assert(path@ =~= video_node_prefix() + digits) by {
        assert(path@.subrange(0, 10) =~= video_node_prefix());
    }
    proof {
        assert forall|n: u32| #[trigger] video_node_path(n as nat) == path@ implies decimal(
            n as nat,
        ) == digits by {
            assert(decimal(n as nat) =~= video_node_path(n as nat).subrange(10, len as int));
        }
    }
    if len == 10 {
        proof {
            assert forall|n: u32| path@ != video_node_path(n as nat) by {
                lemma_decimal_canonical(n as nat);
                if path@ == video_node_path(n as nat) {
                    assert(decimal(n as nat) == digits);
                }
            }
        }
        return None;
    }
    if len > 11 && path.get_char(10) == '0' {
        proof {
            assert forall|n: u32| path@ != video_node_path(n as nat) by {
                lemma_decimal_canonical(n as nat);
                if path@ == video_node_path(n as nat) {
                    assert(decimal(n as nat) == digits);
                    assert(digits[0] == path@[10]);
                }
            }
        }
        return None;
    }
    let mut value: u64 = 0;
    let mut i: usize = 10;
    while i < len
        invariant
            10 <= i <= len,
            len == path@.len(),
            len > 10,
            digits == path@.subrange(10, len as int),
            path@ == video_node_prefix() + digits,
            len > 11 ==> path@[10] != '0',
            value <= u32::MAX,
            value == decimal_value(digits.subrange(0, i - 10)),
            forall|j: int| 0 <= j < i - 10 ==> is_digit_char(#[trigger] digits[j]),
            forall|n: u32| #[trigger] video_node_path(n as nat) == path@ ==> decimal(n as nat)
                == digits,
        decreases len - i,
    {
        let c = path.get_char(i);
        assert(c == digits[i - 10]);
        if !('0' <= c && c <= '9') {
            proof {
                assert forall|n: u32| path@ != video_node_path(n as nat) by {
                    lemma_decimal_canonical(n as nat);
                    if path@ == video_node_path(n as nat) {
                        assert(decimal(n as nat) == digits);
                        assert(is_digit_char(digits[i - 10]));
                    }
                }
            }
            return None;
        }
        let d: u64 = (c as u32 - 48) as u64;
        proof {
            let pre = digits.subrange(0, i - 10);
            let next = digits.subrange(0, i + 1 - 10);
            assert(next.drop_last() =~= pre);
            assert(next.last() == c);
        }
        let next_value: u64 = value * 10 + d;
        if next_value > 0xffff_ffff {
            proof {
                let next = digits.subrange(0, i + 1 - 10);
                assert(decimal_value(next) == next_value);
                assert forall|n: u32| path@ != video_node_path(n as nat) by {
                    lemma_decimal_canonical(n as nat);
                    if path@ == video_node_path(n as nat) {
                        assert(decimal(n as nat) == digits);
                        lemma_decimal_value_prefix(digits, i + 1 - 10);
                    }
                }
            }
            return None;
        }
        value = next_value;
        i = i + 1;
    }
    proof {
        assert(digits.subrange(0, len - 10) =~= digits);
        assert(is_canonical_decimal(digits)) by {
            if digits.len() > 1 {
                assert(digits[0] == path@[10]);
            }
        }
        lemma_canonical_decimal_roundtrip(digits);
    }
    Some(value as u32)
}

// ---------------------------------------------------------------------------
// Hexadecimal numbers
// ---------------------------------------------------------------------------

/// The `k` lowest hexadecimal digits of `v`, most significant first, in
/// lower case, padded with zeros.
pub open spec fn hex_digits(v: nat, k: nat) -> Seq<char>
    decreases k,
{
    if k == 0 {
        seq![]
    } else {
        hex_digits(v / 16, (k - 1) as nat).push(hex_char((v % 16) as int))
    }
}

/// Appends the `k` lowest hexadecimal digits of `v` to `s`.
pub fn push_hex(s: &mut String, v: u64, k: u32)
    ensures
        final(s)@ == old(s)@ + hex_digits(v as nat, k as nat),
    decreases k,
{
    if k > 0 {
        push_hex(s, v / 16, k - 1);
        let d: u8 = (v % 16) as u8;
        let c: char = if d < 10 {
            (48u8 + d) as char
        } else {
            (87u8 + d) as char
        };
        push_char(s, c);
        assert(old(s)@ + hex_digits(v as nat, k as nat) =~= s@);
    } else {
        assert(old(s)@ + hex_digits(v as nat, k as nat) =~= s@);
    }
}

/// `v` in sixteen lower-case hexadecimal digits, as `format!("{:016x}", v)`
/// writes it.
pub fn hex16(v: u64) -> (r: String)
    ensures
        r@ == hex_digits(v as nat, 16),
{
    let mut s = String::new();
    push_hex(&mut s, v, 16);
    assert(s@ =~= hex_digits(v as nat, 16));
    s
}

/// `hex_digits` writes exactly `k` characters, each a lower-case hexadecimal
/// digit.
pub proof fn lemma_hex_digits_shape(v: nat, k: nat)
    ensures
        hex_digits(v, k).len() == k,
        forall|i: int|
            0 <= i < k ==> {
                let c = #[trigger] hex_digits(v, k)[i];
                (48 <= c as int <= 57) || (97 <= c as int <= 102)
            },
    decreases k,
{
    if k > 0 {
        lemma_hex_digits_shape(v / 16, (k - 1) as nat);
        let t = hex_digits(v / 16, (k - 1) as nat);
        assert forall|i: int| 0 <= i < k implies {
            let c = #[trigger] hex_digits(v, k)[i];
            (48 <= c as int <= 57) || (97 <= c as int <= 102)
        } by {
            if i < k - 1 {
                assert(hex_digits(v, k)[i] == t[i]);
            }
        }
    }
}


/// Sixteen to the power `k`.
pub open spec fn pow16(k: nat) -> nat
    decreases k,
{
    if k == 0 {
        1
    } else {
        16 * pow16((k - 1) as nat)
    }
}

/// Equal `k`-digit renderings mean equal values modulo `16^k`.
proof fn lemma_hex_digits_determine(a: nat, b: nat, k: nat)
    requires
        hex_digits(a, k) == hex_digits(b, k),
    ensures
        pow16(k) > 0,
        a % pow16(k) == b % pow16(k),
    decreases k,
{
    if k == 0 {
        assert(a % 1 == 0 && b % 1 == 0);
    } else {
        let ta = hex_digits(a / 16, (k - 1) as nat);
        let tb = hex_digits(b / 16, (k - 1) as nat);
        assert(hex_digits(a, k).drop_last() =~= ta);
        assert(hex_digits(b, k).drop_last() =~= tb);
        lemma_hex_digits_determine(a / 16, b / 16, (k - 1) as nat);
        let da = (a % 16) as int;
        let db = (b % 16) as int;
        assert(hex_digits(a, k).last() == hex_char(da));
        assert(hex_digits(b, k).last() == hex_char(db));
        assert(hex_char(da) == hex_char(db));
        assert(hex_char(da) as int == if da < 10 { 48 + da } else { 87 + da });
        assert(hex_char(db) as int == if db < 10 { 48 + db } else { 87 + db });
        assert(da == db);
        let p = pow16((k - 1) as nat);
        vstd::arithmetic::div_mod::lemma_mod_breakdown(a as int, 16, p as int);
        vstd::arithmetic::div_mod::lemma_mod_breakdown(b as int, 16, p as int);
        assert(pow16(k) == 16 * p);
    }
}

/// Different 64-bit values have different sixteen-digit renderings, so two
/// cameras whose uuids come from different fingerprints get different uuids.
pub proof fn lemma_hex16_injective(a: u64, b: u64)
    ensures
        hex_digits(a as nat, 16) == hex_digits(b as nat, 16) ==> a == b,
{
    if hex_digits(a as nat, 16) == hex_digits(b as nat, 16) {
        lemma_hex_digits_determine(a as nat, b as nat, 16);
        reveal_with_fuel(pow16, 17);
        assert(pow16(16) == 0x1_0000_0000_0000_0000);
        assert((a as nat) % pow16(16) == a as nat);
        assert((b as nat) % pow16(16) == b as nat);
    }
}

} // verus!
