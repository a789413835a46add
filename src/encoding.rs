//! Text encodings used by the request signer: lowercase hexadecimal,
//! decimal integers and the character rules of HTTP header values.
use vstd::prelude::*;
use vstd::string::*;

verus! {

/// The sixteen lowercase hexadecimal digits, in order.
pub open spec fn hex_digits() -> Seq<char> {
    "0123456789abcdef"@
}

/// The ten decimal digits, in order.
pub open spec fn dec_digits() -> Seq<char> {
    "0123456789"@
}

/// Two lowercase hex digits per byte, high nibble first.
pub open spec fn hex_of(b: Seq<u8>) -> Seq<char>
    decreases b.len(),
{
    if b.len() == 0 {
        Seq::empty()
    } else {
        let last = b.last();
        hex_of(b.drop_last()) + seq![hex_digits()[(last / 16) as int], hex_digits()[(last % 16) as int]]
    }
}

/// Decimal notation of a natural number, without leading zeros.
pub open spec fn decimal_of(n: nat) -> Seq<char>
    decreases n,
{
    if n < 10 {
        seq![dec_digits()[n as int]]
    } else {
        decimal_of(n / 10) + seq![dec_digits()[(n % 10) as int]]
    }
}

/// Decimal notation of an integer, with a leading `-` when negative.
pub open spec fn signed_decimal_of(n: int) -> Seq<char> {
    if n < 0 {
        "-"@ + decimal_of((-n) as nat)
    } else {
        decimal_of(n as nat)
    }
}

/// A byte that may appear in a header value read back as text:
/// visible ASCII or a horizontal tab.
pub open spec fn is_visible_ascii(b: u8) -> bool {
    (32 <= b && b < 127) || b == 9
}

/// A byte that may appear in a header value: anything but control
/// characters and DEL, where a horizontal tab is allowed.
pub open spec fn is_header_byte(b: u8) -> bool {
    (32 <= b && b != 127) || b == 9
}

pub open spec fn all_visible_ascii(b: Seq<u8>) -> bool {
    forall|i: int| 0 <= i < b.len() ==> is_visible_ascii(#[trigger] b[i])
}

pub open spec fn all_header_bytes(b: Seq<u8>) -> bool {
    forall|i: int| 0 <= i < b.len() ==> is_header_byte(#[trigger] b[i])
}

/// The UTF-8 bytes of a text.
pub open spec fn utf8_of(s: Seq<char>) -> Seq<u8> {
    vstd::utf8::encode_utf8(s)
}

/// Whether `s` can be read back from a header as text.
pub open spec fn is_readable_header_text(s: Seq<char>) -> bool {
    all_visible_ascii(utf8_of(s))
}

/// Whether `s` can be stored as a header value.
pub open spec fn is_valid_header_text(s: Seq<char>) -> bool {
    all_header_bytes(utf8_of(s))
}

pub proof fn lemma_hex_len(b: Seq<u8>)
    ensures
        hex_of(b).len() == 2 * b.len(),
    decreases b.len(),
{
    if b.len() > 0 {
        lemma_hex_len(b.drop_last());
    }
}

proof fn lemma_hex_digit_distinct(i: int, j: int)
    requires
        0 <= i < 16,
        0 <= j < 16,
        hex_digits()[i] == hex_digits()[j],
    ensures
        i == j,
{
    reveal_strlit("0123456789abcdef");
}

/// Hex encoding loses nothing: equal encodings come from equal bytes.
pub proof fn lemma_hex_injective(a: Seq<u8>, b: Seq<u8>)
    requires
        hex_of(a) == hex_of(b),
    ensures
        a == b,
    decreases a.len(),
{
    lemma_hex_len(a);
    lemma_hex_len(b);
    if a.len() > 0 {
        let ha = hex_of(a.drop_last());
        let hb = hex_of(b.drop_last());
        lemma_hex_len(a.drop_last());
        lemma_hex_len(b.drop_last());
        let n = ha.len() as int;
        let da = seq![hex_digits()[(a.last() / 16) as int], hex_digits()[(a.last() % 16) as int]];
        let db = seq![hex_digits()[(b.last() / 16) as int], hex_digits()[(b.last() % 16) as int]];
        assert(hex_of(a) == ha + da);
        assert(hex_of(b) == hb + db);
        assert((ha + da)[n] == da[0]);
        assert((hb + db)[n] == db[0]);
        assert((ha + da)[n + 1] == da[1]);
        assert((hb + db)[n + 1] == db[1]);
        lemma_hex_digit_distinct((a.last() / 16) as int, (b.last() / 16) as int);
        lemma_hex_digit_distinct((a.last() % 16) as int, (b.last() % 16) as int);
        assert(ha =~= hex_of(a).subrange(0, n));
        assert(hb =~= hex_of(b).subrange(0, n));
        lemma_hex_injective(a.drop_last(), b.drop_last());
        assert(a =~= a.drop_last().push(a.last()));
        assert(b =~= b.drop_last().push(b.last()));
    }
}

/// Appends the digit `d` of the given digit table to `s`.
fn append_digit(s: &mut String, table: &str, d: usize)
    requires
        table.is_ascii(),
        d < table@.len(),
        d < 16,
    ensures
        final(s)@ == old(s)@ + seq![table@[d as int]],
{
    let one = table.substring_ascii(d, d + 1);
    s.append(one);
    assert(one@ =~= seq![table@[d as int]]);
}

/// Lowercase hexadecimal text of `bytes`, two digits per byte.
pub fn to_hex(bytes: &[u8]) -> (r: String)
    ensures
        r@ == hex_of(bytes@),
{
    let digits = "0123456789abcdef";
    proof {
        reveal_strlit("0123456789abcdef");
    }
    let mut r = String::new();
    let mut i: usize = 0;
    while i < bytes.len()
        invariant
            i <= bytes@.len(),
            digits@ == hex_digits(),
            digits@.len() == 16,
            digits.is_ascii(),
            r@ == hex_of(bytes@.subrange(0, i as int)),
        decreases bytes@.len() - i,
    {
        let b = bytes[i];
        append_digit(&mut r, digits, (b / 16) as usize);
        append_digit(&mut r, digits, (b % 16) as usize);
        proof {
            let next = bytes@.subrange(0, i + 1);
            assert(next.drop_last() =~= bytes@.subrange(0, i as int));
        }
        i = i + 1;
    }
    assert(bytes@.subrange(0, i as int) =~= bytes@);
    r
}

fn append_unsigned_decimal(s: &mut String, n: u64)
    ensures
        final(s)@ == old(s)@ + decimal_of(n as nat),
    decreases n,
{
    let digits = "0123456789";
    proof {
        reveal_strlit("0123456789");
    }
    if n >= 10 {
        append_unsigned_decimal(s, n / 10);
    }
    append_digit(s, digits, (n % 10) as usize);
    assert(s@ =~= old(s)@ + decimal_of(n as nat));
}

/// Decimal text of `n`, as `{}` formatting writes an integer.
pub fn to_decimal(n: i64) -> (r: String)
    ensures
        r@ == signed_decimal_of(n as int),
{
    let mut r = String::new();
    if n < 0 {
        r.append("-");
        let m: i128 = -(n as i128);
        append_unsigned_decimal(&mut r, m as u64);
    } else {
        append_unsigned_decimal(&mut r, n as u64);
    }
    assert(r@ =~= signed_decimal_of(n as int));
    r
}

} // verus!

verus! {

/// Whether `s` can be read back from a header as text: each byte is visible
/// ASCII or a tab.
pub fn is_readable_header(s: &str) -> (r: bool)
    ensures
        r == is_readable_header_text(s@),
{
    let b = s.as_bytes();
    let mut i: usize = 0;
    while i < b.len()
        invariant
            b@ == utf8_of(s@),
            i <= b@.len(),
            forall|j: int| 0 <= j < i ==> is_visible_ascii(#[trigger] b@[j]),
        decreases b@.len() - i,
    {
        let c = b[i];
        if !((32 <= c && c < 127) || c == 9) {
            return false;
        }
        i = i + 1;
    }
    true
}

/// Whether `s` can be stored as a header value: no control byte but a tab,
/// and no DEL.
pub fn is_valid_header(s: &str) -> (r: bool)
    ensures
        r == is_valid_header_text(s@),
{
    let b = s.as_bytes();
    let mut i: usize = 0;
    while i < b.len()
        invariant
            b@ == utf8_of(s@),
            i <= b@.len(),
            forall|j: int| 0 <= j < i ==> is_header_byte(#[trigger] b@[j]),
        decreases b@.len() - i,
    {
        let c = b[i];
        if !((32 <= c && c != 127) || c == 9) {
            return false;
        }
        i = i + 1;
    }
    true
}

} // verus!
