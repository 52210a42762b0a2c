//! Lower-case hexadecimal text: of an unsigned number (padded with zeros to a
//! minimum width) and of a byte string (two digits per byte).
use vstd::prelude::*;

verus! {

/// The lower-case hexadecimal digit for a value below 16.
pub open spec fn hex_char(d: int) -> char {
    if d < 10 {
        (48 + d) as char
    } else {
        (87 + d) as char
    }
}

/// The shortest hexadecimal numeral of `n`, most significant digit first
/// ("0" for zero).
pub open spec fn hex_digits(n: nat) -> Seq<char>
    decreases n,
{
    if n < 16 {
        seq![hex_char(n as int)]
    } else {
        hex_digits(n / 16).push(hex_char((n % 16) as int))
    }
}

/// `s` with `'0'` put in front until it is at least `width` characters long.
pub open spec fn zero_padded(s: Seq<char>, width: nat) -> Seq<char> {
    if s.len() < width {
        Seq::new((width - s.len()) as nat, |i: int| '0') + s
    } else {
        s
    }
}

/// Each byte as two lower-case hexadecimal digits, high half first.
pub open spec fn hex_bytes(b: Seq<u8>) -> Seq<char>
    decreases b.len(),
{
    if b.len() == 0 {
        Seq::empty()
    } else {
        hex_bytes(b.drop_last()) + seq![
            hex_char((b.last() / 16) as int),
            hex_char((b.last() % 16) as int),
        ]
    }
}

/// The digits of a reversed list of digit values, read back in order.
spec fn digits_reversed(r: Seq<u8>) -> Seq<char> {
    Seq::new(r.len(), |i: int| hex_char(r[r.len() - 1 - i] as int))
}

/// Two hexadecimal digits per byte.
pub proof fn lemma_hex_bytes_len(b: Seq<u8>)
    ensures
        hex_bytes(b).len() == 2 * b.len(),
    decreases b.len(),
{
    if b.len() > 0 {
        lemma_hex_bytes_len(b.drop_last());
    }
}

/// Sixteen to the power `k`.
pub open spec fn pow16(k: nat) -> nat
    decreases k,
{
    if k == 0 {
        1
    } else {
        16 * pow16((k - 1) as nat)
    }
}

/// A number below sixteen to the power `k` has at most `k` hexadecimal digits.
pub proof fn lemma_hex_digits_len(n: nat, k: nat)
    requires
        1 <= k,
        n < pow16(k),
    ensures
        1 <= hex_digits(n).len() <= k,
    decreases n,
{
    if n >= 16 {
        assert(pow16(k) == 16 * pow16((k - 1) as nat));
        if k == 1 {
            assert(pow16(0) == 1);
        } else {
            lemma_hex_digits_len(n / 16, (k - 1) as nat);
        }
    }
}

/// A 128-bit number has at most thirty-two hexadecimal digits.
pub proof fn lemma_hex_digits_u128(n: u128)
    ensures
        1 <= hex_digits(n as nat).len() <= 32,
{
    assert(pow16(32) == 0x1_0000_0000_0000_0000_0000_0000_0000_0000) by {
        reveal_with_fuel(pow16, 33);
    }
    lemma_hex_digits_len(n as nat, 32);
}

/// Every character of a numeral is a lower-case hexadecimal digit.
pub proof fn lemma_hex_digits_are_digits(n: nat)
    ensures
        forall|i: int| 0 <= i < hex_digits(n).len() ==> is_hex_char(#[trigger] hex_digits(n)[i]),
    decreases n,
{
    if n >= 16 {
        lemma_hex_digits_are_digits(n / 16);
        assert forall|i: int| 0 <= i < hex_digits(n).len() implies is_hex_char(
            #[trigger] hex_digits(n)[i],
        ) by {
            if i < hex_digits(n / 16).len() {
                assert(hex_digits(n)[i] == hex_digits(n / 16)[i]);
            }
        }
    }
}

/// Whether `c` is one of `0`-`9` and `a`-`f`.
pub open spec fn is_hex_char(c: char) -> bool {
    ('0' <= c <= '9') || ('a' <= c <= 'f')
}

/// The one-character text of the digit `d`.
fn hex_digit_text(d: u8) -> (s: &'static str)
    requires
        d < 16,
    ensures
        s@ == seq![hex_char(d as int)],
{
    let digits = "0123456789abcdef";
    proof {
        reveal_strlit("0123456789abcdef");
    }
    let s = digits.substring_char(d as usize, d as usize + 1);
    assert(s@ =~= seq![hex_char(d as int)]);
    s
}

/// Formats `n` as `format!("{:0w$x}", n)` does: the shortest lower-case
/// hexadecimal numeral, with zeros put in front up to `width` characters.
pub fn hex_lower_padded(n: u128, width: usize) -> (s: String)
    ensures
        s@ == zero_padded(hex_digits(n as nat), width as nat),
{
    let mut rev: Vec<u8> = Vec::new();
    let mut m: u128 = n;
    while m >= 16
        invariant
            hex_digits(n as nat) == hex_digits(m as nat) + digits_reversed(rev@),
            rev@.len() + hex_digits(m as nat).len() == hex_digits(n as nat).len(),
            forall|i: int| 0 <= i < rev@.len() ==> #[trigger] rev@[i] < 16,
        decreases m,
    {
        let d = (m % 16) as u8;
        let ghost old_rev = rev@;
        rev.push(d);
        assert(digits_reversed(rev@) =~= seq![hex_char(d as int)] + digits_reversed(old_rev));
        assert(hex_digits(m as nat) == hex_digits((m / 16) as nat).push(hex_char(d as int)));
        m = m / 16;
        assert(hex_digits(n as nat) =~= hex_digits(m as nat) + digits_reversed(rev@));
    }
    let ghost old_rev = rev@;
    rev.push(m as u8);
    assert(digits_reversed(rev@) =~= seq![hex_char(m as int)] + digits_reversed(old_rev));
    assert(hex_digits(n as nat) =~= digits_reversed(rev@));
    let len = rev.len();
    let mut s = String::new();
    let mut k: usize = len;
    while k < width
        invariant
            len <= k <= width || (width < len && k == len),
            s@ =~= Seq::new((k - len) as nat, |i: int| '0'),
        decreases width - k,
    {
        s.append("0");
        proof {
            reveal_strlit("0");
        }
        k = k + 1;
    }
    let ghost pad = s@;
    let mut j: usize = 0;
    while j < len
        invariant
            len == rev@.len(),
            j <= len,
            forall|i: int| 0 <= i < rev@.len() ==> #[trigger] rev@[i] < 16,
            s@ =~= pad + digits_reversed(rev@).take(j as int),
        decreases len - j,
    {
        let d = rev[len - 1 - j];
        let t = hex_digit_text(d);
        s.append(t);
        assert(digits_reversed(rev@).take(j + 1) =~= digits_reversed(rev@).take(j as int)
            + seq![hex_char(d as int)]);
        j = j + 1;
    }
    assert(digits_reversed(rev@).take(len as int) =~= digits_reversed(rev@));
    s
}

/// Formats bytes as the lower-case hexadecimal text of a digest: two digits
/// per byte, high half first.
pub fn hex_encode_lower(b: &[u8]) -> (s: String)
    ensures
        s@ == hex_bytes(b@),
{
    let mut s = String::new();
    let n = b.len();
    let mut i: usize = 0;
    while i < n
        invariant
            n == b@.len(),
            i <= n,
            s@ == hex_bytes(b@.take(i as int)),
        decreases n - i,
    {
        let x = b[i];
        s.append(hex_digit_text(x / 16));
        s.append(hex_digit_text(x % 16));
        assert(b@.take(i + 1).drop_last() =~= b@.take(i as int));
        i = i + 1;
    }
    assert(b@.take(n as int) =~= b@);
    s
}

/// The value of a hexadecimal digit character.
pub open spec fn digit_value(c: char) -> int {
    if '0' <= c <= '9' {
        c as int - 48
    } else {
        c as int - 87
    }
}

/// The number that a hexadecimal numeral denotes, most significant digit
/// first (zero for the empty text).
pub open spec fn hex_value(s: Seq<char>) -> int
    decreases s.len(),
{
    if s.len() == 0 {
        0
    } else {
        hex_value(s.drop_last()) * 16 + digit_value(s.last())
    }
}

/// A digit character reads back as its value.
pub proof fn lemma_digit_value(d: int)
    requires
        0 <= d < 16,
    ensures
        digit_value(hex_char(d)) == d,
{
    if d < 10 {
        assert(((48 + d) as char) as int == 48 + d);
    } else {
        assert(((87 + d) as char) as int == 87 + d);
    }
}

/// A numeral reads back as its number.
pub proof fn lemma_hex_value_digits(n: nat)
    ensures
        hex_value(hex_digits(n)) == n,
    decreases n,
{
    if n < 16 {
        lemma_digit_value(n as int);
        let s = seq![hex_char(n as int)];
        assert(s.drop_last() =~= Seq::<char>::empty());
        assert(hex_value(Seq::<char>::empty()) == 0);
        assert(hex_value(s) == hex_value(s.drop_last()) * 16 + digit_value(s.last()));
    } else {
        lemma_hex_value_digits(n / 16);
        lemma_digit_value((n % 16) as int);
        let s = hex_digits(n / 16).push(hex_char((n % 16) as int));
        assert(s.drop_last() =~= hex_digits(n / 16));
        assert(s.last() == hex_char((n % 16) as int));
        assert(hex_value(s) == hex_value(s.drop_last()) * 16 + digit_value(s.last()));
        assert((n / 16) * 16 + n % 16 == n);
    }
}

/// Zeros in front do not change the number a numeral denotes.
pub proof fn lemma_hex_value_leading_zeros(k: nat, s: Seq<char>)
    ensures
        hex_value(Seq::new(k, |i: int| '0') + s) == hex_value(s),
    decreases s.len(), k,
{
    let z = Seq::new(k, |i: int| '0');
    if s.len() == 0 {
        assert(z + s =~= z);
        if k > 0 {
            let z1 = Seq::new((k - 1) as nat, |i: int| '0');
            assert(z.drop_last() =~= z1 + Seq::<char>::empty());
            lemma_hex_value_leading_zeros((k - 1) as nat, Seq::<char>::empty());
            assert(z1 + Seq::<char>::empty() =~= z1);
            assert(digit_value('0') == 0);
        }
    } else {
        assert((z + s).drop_last() =~= z + s.drop_last());
        lemma_hex_value_leading_zeros(k, s.drop_last());
    }
}

/// A numeral padded with zeros still reads back as its number.
pub proof fn lemma_hex_value_padded(n: nat, width: nat)
    ensures
        hex_value(zero_padded(hex_digits(n), width)) == n,
{
    lemma_hex_value_digits(n);
    let d = hex_digits(n);
    if d.len() < width {
        lemma_hex_value_leading_zeros((width - d.len()) as nat, d);
    }
}

/// Two bytes texts are equal only for equal byte strings.
pub proof fn lemma_hex_bytes_injective(a: Seq<u8>, b: Seq<u8>)
    requires
        hex_bytes(a) == hex_bytes(b),
    ensures
        a == b,
    decreases a.len(),
{
    lemma_hex_bytes_len(a);
    lemma_hex_bytes_len(b);
    if a.len() > 0 {
        let ha = hex_bytes(a.drop_last());
        let hb = hex_bytes(b.drop_last());
        lemma_hex_bytes_len(a.drop_last());
        lemma_hex_bytes_len(b.drop_last());
        let ta = seq![hex_char((a.last() / 16) as int), hex_char((a.last() % 16) as int)];
        let tb = seq![hex_char((b.last() / 16) as int), hex_char((b.last() % 16) as int)];
        assert(hex_bytes(a) == ha + ta);
        assert(hex_bytes(b) == hb + tb);
        assert((ha + ta).subrange(0, ha.len() as int) =~= ha);
        assert((hb + tb).subrange(0, hb.len() as int) =~= hb);
        assert(ta[0] == (ha + ta)[ha.len() as int]);
        assert(tb[0] == (hb + tb)[hb.len() as int]);
        assert(ta[1] == (ha + ta)[ha.len() as int + 1]);
        assert(tb[1] == (hb + tb)[hb.len() as int + 1]);
        lemma_digit_value((a.last() / 16) as int);
        lemma_digit_value((a.last() % 16) as int);
        lemma_digit_value((b.last() / 16) as int);
        lemma_digit_value((b.last() % 16) as int);
        assert(a.last() == b.last());
        lemma_hex_bytes_injective(a.drop_last(), b.drop_last());
        assert(a =~= a.drop_last().push(a.last()));
        assert(b =~= b.drop_last().push(b.last()));
    } else {
        assert(a =~= b);
    }
}

} // verus!
