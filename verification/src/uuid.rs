//! Bluetooth UUIDs: the canonical 128-bit representation, the compact 16-
//! and 32-bit forms, string parsing and formatting.
//!
//! A 16- or 32-bit UUID stands for the 128-bit UUID obtained by embedding
//! its little-endian bytes into the fixed Bluetooth base UUID at byte
//! offset 12.  Equality always compares that expansion, so a 16-bit UUID
//! and its own expansion are equal.
use vstd::prelude::*;
use vstd::string::StrSliceExecFns;
use vstd::string::StringExecFns;

verus! {

/// A Bluetooth UUID.
#[derive(Copy, Clone, Debug)]
pub enum BleUuid {
    /// A 16-bit UUID.
    Uuid16(u16),
    /// A 32-bit UUID.
    Uuid32(u32),
    /// A 128-bit UUID, stored in the controller's little-endian byte order.
    Uuid128([u8; 16]),
}

/// The 16 bytes of the Bluetooth base UUID
/// `00000000-0000-1000-8000-00805f9b34fb`, in little-endian order.
pub open spec fn base_uuid() -> Seq<u8> {
    seq![0xfb, 0x34, 0x9b, 0x5f, 0x80, 0x00, 0x00, 0x80, 0x00, 0x10, 0x00, 0x00, 0x00, 0x00, 0x00, 0x00]
}

/// The canonical 128-bit expansion of a UUID, as its 16 little-endian bytes.
///
/// A 16-bit value occupies bytes 12 and 13 of the base UUID and a 32-bit
/// value bytes 12 through 15; a 128-bit value passes through unchanged.
pub open spec fn spec_expand(u: BleUuid) -> Seq<u8> {
    match u {
        BleUuid::Uuid16(x) => base_uuid().update(12, (x & 0xff) as u8).update(
            13,
            ((x >> 8) & 0xff) as u8,
        ),
        BleUuid::Uuid32(x) => base_uuid().update(12, (x & 0xff) as u8).update(
            13,
            ((x >> 8) & 0xff) as u8,
        ).update(14, ((x >> 16) & 0xff) as u8).update(15, ((x >> 24) & 0xff) as u8),
        BleUuid::Uuid128(a) => a@,
    }
}

/// What UUID equality means: the 128-bit expansions coincide.
pub open spec fn uuid_eq(a: BleUuid, b: BleUuid) -> bool {
    spec_expand(a) == spec_expand(b)
}

/// Whether `c` is an ASCII hexadecimal digit, either case.
pub open spec fn is_hex_digit(c: char) -> bool {
    (48 <= c as u32 && c as u32 <= 57) || (97 <= c as u32 && c as u32 <= 102) || (65 <= c as u32
        && c as u32 <= 70)
}

/// The numeric value of a hexadecimal digit.
pub open spec fn hex_value(c: char) -> u8 {
    if 48 <= c as u32 && c as u32 <= 57 {
        (c as u32 - 48) as u8
    } else if 97 <= c as u32 && c as u32 <= 102 {
        (c as u32 - 87) as u8
    } else {
        (c as u32 - 55) as u8
    }
}

/// The lower-case hexadecimal digit for a value below 16.
pub open spec fn hex_char(n: u8) -> char {
    if n == 0 {
        '0'
    } else if n == 1 {
        '1'
    } else if n == 2 {
        '2'
    } else if n == 3 {
        '3'
    } else if n == 4 {
        '4'
    } else if n == 5 {
        '5'
    } else if n == 6 {
        '6'
    } else if n == 7 {
        '7'
    } else if n == 8 {
        '8'
    } else if n == 9 {
        '9'
    } else if n == 10 {
        'a'
    } else if n == 11 {
        'b'
    } else if n == 12 {
        'c'
    } else if n == 13 {
        'd'
    } else if n == 14 {
        'e'
    } else {
        'f'
    }
}

/// The hexadecimal digits of a UUID string, dashes removed.
pub open spec fn uuid_digits(s: Seq<char>) -> Seq<char> {
    s.filter(|c: char| c != '-')
}

/// A string parses as a 128-bit UUID when every character is a hexadecimal
/// digit or a dash and exactly 32 digits remain once the dashes are removed.
pub open spec fn valid_uuid_str(s: Seq<char>) -> bool {
    &&& forall|i: int| 0 <= i < s.len() ==> is_hex_digit(#[trigger] s[i]) || s[i] == '-'
    &&& uuid_digits(s).len() == 32
}

/// The byte denoted by a pair of hexadecimal digits, high digit first.
pub open spec fn byte_from_hex(hi: char, lo: char) -> u8 {
    (hex_value(hi) * 16 + hex_value(lo)) as u8
}

/// The 16 little-endian bytes denoted by a valid UUID string: the first
/// digit pair of the string is the last byte of the array.
pub open spec fn parsed_uuid_bytes(s: Seq<char>) -> Seq<u8> {
    let d = uuid_digits(s);
    Seq::new(16, |j: int| byte_from_hex(d[2 * (15 - j)], d[2 * (15 - j) + 1]))
}

/// The two lower-case hexadecimal digits of a byte.
pub open spec fn hex_pair(b: u8) -> Seq<char> {
    seq![hex_char(b / 16), hex_char(b % 16)]
}

/// A dash stands before the display bytes 4, 6, 8 and 10 of the canonical
/// dashed form; nothing stands before the others.
pub open spec fn uuid_dash_before(t: int) -> Seq<char> {
    if t == 4 || t == 6 || t == 8 || t == 10 {
        seq!['-']
    } else {
        Seq::empty()
    }
}

/// The first `t` display bytes of the canonical dashed form of a 128-bit
/// UUID.  Display byte `k` is array byte `15 - k`: the on-wire order is
/// little-endian and the written form big-endian.
pub open spec fn format128_prefix(b: Seq<u8>, t: int) -> Seq<char>
    decreases t,
{
    if t <= 0 {
        Seq::empty()
    } else {
        format128_prefix(b, t - 1) + uuid_dash_before(t - 1) + hex_pair(b[15 - (t - 1)])
    }
}

/// The canonical dashed lower-case form of a 128-bit UUID.
pub open spec fn spec_format_uuid128(b: Seq<u8>) -> Seq<char> {
    format128_prefix(b, 16)
}

/// The `0x`-prefixed four-digit form of a 16-bit UUID.
pub open spec fn spec_format_uuid16(x: u16) -> Seq<char> {
    seq!['0', 'x'] + hex_pair(((x >> 8) & 0xff) as u8) + hex_pair((x & 0xff) as u8)
}

/// The `0x`-prefixed eight-digit form of a 32-bit UUID.
pub open spec fn spec_format_uuid32(x: u32) -> Seq<char> {
    seq!['0', 'x'] + hex_pair(((x >> 24) & 0xff) as u8) + hex_pair(((x >> 16) & 0xff) as u8)
        + hex_pair(((x >> 8) & 0xff) as u8) + hex_pair((x & 0xff) as u8)
}

/// The display form of a UUID, by its variant.
pub open spec fn spec_format(u: BleUuid) -> Seq<char> {
    match u {
        BleUuid::Uuid16(x) => spec_format_uuid16(x),
        BleUuid::Uuid32(x) => spec_format_uuid32(x),
        BleUuid::Uuid128(a) => spec_format_uuid128(a@),
    }
}

/// Removing dashes distributes over concatenation.
proof fn lemma_digits_add(a: Seq<char>, b: Seq<char>)
    ensures
        uuid_digits(a + b) == uuid_digits(a) + uuid_digits(b),
    decreases b.len(),
{
    reveal(Seq::filter);
    if b.len() == 0 {
        assert(a + b =~= a);
        assert(uuid_digits(a) + uuid_digits(b) =~= uuid_digits(a));
    } else {
        lemma_digits_add(a, b.drop_last());
        assert((a + b).drop_last() =~= a + b.drop_last());
        assert((a + b).len() != 0);
        if b.last() != '-' {
            assert(uuid_digits(a + b) == uuid_digits(a + b.drop_last()).push(b.last()));
            assert(uuid_digits(b) == uuid_digits(b.drop_last()).push(b.last()));
            assert(uuid_digits(a) + uuid_digits(b.drop_last()).push(b.last()) =~= (uuid_digits(a)
                + uuid_digits(b.drop_last())).push(b.last()));
        } else {
            assert(uuid_digits(a + b) == uuid_digits(a + b.drop_last()));
            assert(uuid_digits(b) == uuid_digits(b.drop_last()));
        }
    }
}

/// The digits of a prefix of `s` are a prefix of the digits of `s`.
proof fn lemma_digits_take_prefix(s: Seq<char>, m: int)
    requires
        0 <= m <= s.len(),
    ensures
        uuid_digits(s.take(m)).len() <= uuid_digits(s).len(),
        uuid_digits(s.take(m)) == uuid_digits(s).take(uuid_digits(s.take(m)).len() as int),
{
    lemma_digits_add(s.take(m), s.skip(m));
    assert(s.take(m) + s.skip(m) =~= s);
    let a = uuid_digits(s.take(m));
    let b = uuid_digits(s.skip(m));
    assert((a + b).take(a.len() as int) =~= a);
}

/// Appending one character extends the digit sequence exactly when the
/// character is not a dash.
proof fn lemma_digits_push(s: Seq<char>, c: char)
    ensures
        uuid_digits(s.push(c)) == if c != '-' {
            uuid_digits(s).push(c)
        } else {
            uuid_digits(s)
        },
{
    reveal(Seq::filter);
    assert(s.push(c).drop_last() =~= s);
    assert(s.push(c).last() == c);
    assert(s.push(c).len() != 0);
}

/// Facts about the hexadecimal digit of a value below 16: it is a
/// hexadecimal digit, it is not a dash, and it denotes the value again.
proof fn lemma_hex_char_facts(n: u8)
    requires
        n < 16,
    ensures
        is_hex_digit(hex_char(n)),
        hex_char(n) != '-',
        hex_value(hex_char(n)) == n,
{
}

/// The digits of the first `t` display bytes of the dashed form: every
/// character is a digit or a dash, there are `2 t` digits, and digit pair
/// `k` spells display byte `k`, that is array byte `15 - k`.
proof fn lemma_format128_prefix_digits(b: Seq<u8>, t: int)
    requires
        0 <= t <= 16,
        b.len() == 16,
    ensures
        forall|i: int|
            0 <= i < format128_prefix(b, t).len() ==> is_hex_digit(
                #[trigger] format128_prefix(b, t)[i],
            ) || format128_prefix(b, t)[i] == '-',
        uuid_digits(format128_prefix(b, t)).len() == 2 * t,
        forall|k: int|
            #![trigger uuid_digits(format128_prefix(b, t))[2 * k]]
            0 <= k < t ==> uuid_digits(format128_prefix(b, t))[2 * k] == hex_char(
                (b[15 - k] / 16) as u8,
            ) && uuid_digits(format128_prefix(b, t))[2 * k + 1] == hex_char((b[15 - k] % 16) as u8),
    decreases t,
{
    reveal(Seq::filter);
    if t == 0 {
        assert(uuid_digits(format128_prefix(b, 0)).len() == 0);
    } else {
        lemma_format128_prefix_digits(b, t - 1);
        let prev = format128_prefix(b, t - 1);
        let dash = uuid_dash_before(t - 1);
        let pair = hex_pair(b[15 - (t - 1)]);
        lemma_hex_char_facts((b[15 - (t - 1)] / 16) as u8);
        lemma_hex_char_facts((b[15 - (t - 1)] % 16) as u8);
        lemma_digits_add(prev, dash + pair);
        lemma_digits_add(dash, pair);
        assert(format128_prefix(b, t) =~= prev + (dash + pair));
        assert(uuid_digits(dash).len() == 0) by {
            reveal(Seq::filter);
            if t - 1 == 4 || t - 1 == 6 || t - 1 == 8 || t - 1 == 10 {
                assert(dash.drop_last() =~= Seq::<char>::empty());
            }
        }
        assert(uuid_digits(pair) =~= pair) by {
            reveal_with_fuel(Seq::filter, 4);
            let c0 = hex_char((b[15 - (t - 1)] / 16) as u8);
            let c1 = hex_char((b[15 - (t - 1)] % 16) as u8);
            assert(pair.drop_last() =~= seq![c0]);
            assert(seq![c0].drop_last() =~= Seq::<char>::empty());
            assert(uuid_digits(Seq::<char>::empty()) =~= Seq::<char>::empty());
            assert(uuid_digits(seq![c0]) == uuid_digits(seq![c0].drop_last()).push(c0));
            assert(uuid_digits(pair) == uuid_digits(pair.drop_last()).push(c1));
        }
        assert(uuid_digits(format128_prefix(b, t)) =~= uuid_digits(prev) + pair);
        assert forall|k: int|
            #![trigger uuid_digits(format128_prefix(b, t))[2 * k]]
            0 <= k < t implies uuid_digits(format128_prefix(b, t))[2 * k] == hex_char(
            (b[15 - k] / 16) as u8,
        ) && uuid_digits(format128_prefix(b, t))[2 * k + 1] == hex_char(
            (b[15 - k] % 16) as u8,
        ) by {
            if k < t - 1 {
                assert(uuid_digits(format128_prefix(b, t))[2 * k] == uuid_digits(prev)[2 * k]);
                assert(uuid_digits(format128_prefix(b, t))[2 * k + 1] == uuid_digits(prev)[2 * k
                    + 1]);
            }
        }
        assert forall|i: int| 0 <= i < format128_prefix(b, t).len() implies is_hex_digit(
            #[trigger] format128_prefix(b, t)[i],
        ) || format128_prefix(b, t)[i] == '-' by {
            if i < prev.len() {
                assert(format128_prefix(b, t)[i] == prev[i]);
            } else if i < prev.len() + dash.len() {
                assert(format128_prefix(b, t)[i] == '-');
            } else {
                assert(format128_prefix(b, t)[i] == pair[i - prev.len() - dash.len()]);
            }
        }
    }
}

/// The canonical dashed form of any 16 bytes is itself a valid UUID string,
/// and parsing it gives the bytes back.
pub proof fn lemma_format128_roundtrip(b: Seq<u8>)
    requires
        b.len() == 16,
    ensures
        valid_uuid_str(spec_format_uuid128(b)),
        parsed_uuid_bytes(spec_format_uuid128(b)) == b,
{
    lemma_format128_prefix_digits(b, 16);
    let f = spec_format_uuid128(b);
    let d = uuid_digits(f);
    assert forall|j: int| 0 <= j < 16 implies parsed_uuid_bytes(f)[j] == b[j] by {
        let k = 15 - j;
        assert(d[2 * k] == hex_char((b[j] / 16) as u8));
        assert(d[2 * k + 1] == hex_char((b[j] % 16) as u8));
        lemma_hex_char_facts((b[j] / 16) as u8);
        lemma_hex_char_facts((b[j] % 16) as u8);
        assert(parsed_uuid_bytes(f)[j] == byte_from_hex(d[2 * k], d[2 * k + 1]));
    }
    assert(parsed_uuid_bytes(f) =~= b);
}

/// Parsing, formatting and parsing again gives the same UUID as parsing
/// once: for every valid UUID string `s`, the canonical form of the bytes
/// of `s` is itself valid and parses to the same bytes.
pub proof fn lemma_parse_format_roundtrip(s: Seq<char>)
    requires
        valid_uuid_str(s),
    ensures
        valid_uuid_str(spec_format_uuid128(parsed_uuid_bytes(s))),
        parsed_uuid_bytes(spec_format_uuid128(parsed_uuid_bytes(s))) == parsed_uuid_bytes(s),
{
    lemma_format128_roundtrip(parsed_uuid_bytes(s));
}

/// A 16-bit UUID and the 128-bit UUID obtained by expanding it into the
/// base UUID are equal under UUID equality, for every 16-bit value.
pub proof fn lemma_uuid16_expansion_equal(x: u16, expanded: [u8; 16])
    requires
        expanded@ == spec_expand(BleUuid::Uuid16(x)),
    ensures
        uuid_eq(BleUuid::Uuid16(x), BleUuid::Uuid128(expanded)),
{
}

/// A static one-character string for each hexadecimal digit value.
fn hex_char_str(n: u8) -> (r: &'static str)
    requires
        n < 16,
    ensures
        r@.len() == 1,
        r@[0] == hex_char(n),
{
    proof {
        reveal_strlit("0");
        reveal_strlit("1");
        reveal_strlit("2");
        reveal_strlit("3");
        reveal_strlit("4");
        reveal_strlit("5");
        reveal_strlit("6");
        reveal_strlit("7");
        reveal_strlit("8");
        reveal_strlit("9");
        reveal_strlit("a");
        reveal_strlit("b");
        reveal_strlit("c");
        reveal_strlit("d");
        reveal_strlit("e");
        reveal_strlit("f");
    }
    match n {
        0 => "0",
        1 => "1",
        2 => "2",
        3 => "3",
        4 => "4",
        5 => "5",
        6 => "6",
        7 => "7",
        8 => "8",
        9 => "9",
        10 => "a",
        11 => "b",
        12 => "c",
        13 => "d",
        14 => "e",
        _ => "f",
    }
}

/// Appends the two hexadecimal digits of `b` to `out`.
fn append_hex_pair(out: &mut String, b: u8)
    ensures
        final(out)@ == old(out)@ + hex_pair(b),
{
    out.append(hex_char_str(b / 16));
    out.append(hex_char_str(b % 16));
    proof {
        assert(final(out)@ =~= old(out)@ + hex_pair(b));
    }
}

/// Whether a string is a UUID string: hexadecimal digits and dashes only,
/// with exactly 32 digits.  Callers of the parsing constructors check this
/// first.
pub fn is_valid_uuid_str(uuid_str: &str) -> (r: bool)
    ensures
        r == valid_uuid_str(uuid_str@),
{
    let ghost s = uuid_str@;
    let len = uuid_str.unicode_len();
    let mut c: usize = 0;
    let mut digits: usize = 0;
    proof {
        assert(s.take(0) =~= Seq::<char>::empty());
        assert(uuid_digits(s.take(0)).len() == 0) by {
            reveal(Seq::filter);
        }
    }
    while c < len
        invariant
            c <= len,
            len == s.len(),
            uuid_str@ == s,
            digits as int == uuid_digits(s.take(c as int)).len(),
            digits <= c,
            forall|i: int| 0 <= i < c as int ==> is_hex_digit(#[trigger] s[i]) || s[i] == '-',
        decreases len - c,
    {
        let ch = uuid_str.get_char(c);
        proof {
            assert(s.take(c as int + 1) =~= s.take(c as int).push(s[c as int]));
            lemma_digits_push(s.take(c as int), s[c as int]);
        }
        let u = ch as u32;
        if (48 <= u && u <= 57) || (97 <= u && u <= 102) || (65 <= u && u <= 70) {
            digits += 1;
        } else if ch == '-' {
        } else {
            return false;
        }
        c += 1;
    }
    proof {
        assert(s.take(len as int) =~= s);
    }
    digits == 32
}

impl BleUuid {
    /// Creates a new [`BleUuid`] from a 16-bit integer.
    pub fn from_uuid16(uuid: u16) -> (r: Self)
        ensures
            r == BleUuid::Uuid16(uuid),
    {
        Self::Uuid16(uuid)
    }

    /// Creates a new [`BleUuid`] from a 32-bit integer.
    pub fn from_uuid32(uuid: u32) -> (r: Self)
        ensures
            r == BleUuid::Uuid32(uuid),
    {
        Self::Uuid32(uuid)
    }

    /// Creates a new [`BleUuid`] from a 16 byte array in little-endian order.
    pub fn from_uuid128(uuid: [u8; 16]) -> (r: Self)
        ensures
            r == BleUuid::Uuid128(uuid),
    {
        Self::Uuid128(uuid)
    }

    /// Creates a new [`BleUuid`] from a UUID string, dashed or plain.
    ///
    /// The string must be made of hexadecimal digits and dashes, with
    /// exactly 32 digits; the first digit pair lands in the last byte.
    pub fn from_uuid128_str(uuid_str: &str) -> (r: Self)
        requires
            valid_uuid_str(uuid_str@),
        ensures
            r is Uuid128,
            spec_expand(r) == parsed_uuid_bytes(uuid_str@),
    {
        let ghost s = uuid_str@;
        let ghost d = uuid_digits(s);
        let len = uuid_str.unicode_len();
        let mut arr: [u8; 16] = [0; 16];
        let mut c: usize = 0;
        let mut k: usize = 0;
        proof {
            assert(s.take(0) =~= Seq::<char>::empty());
            lemma_digits_take_prefix(s, 0);
            assert(uuid_digits(s.take(0)).len() == 0) by {
                reveal(Seq::filter);
            }
        }
        while c < len
            invariant
                valid_uuid_str(s),
                uuid_str@ == s,
                d == uuid_digits(s),
                len == s.len(),
                c <= len,
                k <= 32,
                k == uuid_digits(s.take(c as int)).len(),
                uuid_digits(s.take(c as int)) == d.take(k as int),
                forall|t: int|
                    #![trigger arr@[15 - t]]
                    0 <= t < k as int / 2 ==> arr@[15 - t] == byte_from_hex(d[2 * t], d[2 * t + 1]),
                k % 2 == 1 ==> arr@[15 - (k as int - 1) / 2] == hex_value(d[k - 1]) * 16,
            decreases len - c,
        {
            let ch = uuid_str.get_char(c);
            proof {
                assert(s.take(c as int + 1) =~= s.take(c as int).push(s[c as int]));
                lemma_digits_push(s.take(c as int), s[c as int]);
                lemma_digits_take_prefix(s, c as int + 1);
            }
            if ch == '-' {
                c += 1;
                continue ;
            }
            let u = ch as u32;
            let v: u8 = if 48 <= u && u <= 57 {
                (u - 48) as u8
            } else if 97 <= u && u <= 102 {
                (u - 87) as u8
            } else if 65 <= u && u <= 70 {
                (u - 55) as u8
            } else {
                proof {
                    assert(is_hex_digit(s[c as int]) || s[c as int] == '-');
                    assert(false);
                }
                0
            };
            proof {
                assert(v == hex_value(s[c as int]));
                assert(v < 16);
                assert(uuid_digits(s.take(c as int + 1)) == uuid_digits(s.take(c as int)).push(
                    s[c as int],
                ));
                assert(uuid_digits(s.take(c as int + 1)).len() == k + 1);
                assert(k < 32);
                assert(uuid_digits(s.take(c as int + 1)) == d.take(k as int + 1));
                assert(d.take(k as int + 1)[k as int] == d[k as int]);
                assert(d[k as int] == s[c as int]);
            }
            let idx = 15 - k / 2;
            if k % 2 == 0 {
                arr[idx] = v * 16;
            } else {
                arr[idx] = arr[idx] + v;
                proof {
                    let ghost ki = k as int;
                    assert(arr@[15 - (ki - 1) / 2] == byte_from_hex(d[ki - 1], d[ki]));
                }
            }
            k += 1;
            c += 1;
        }
        proof {
            assert(s.take(len as int) =~= s);
            assert(k == 32);
            assert(arr@ =~= parsed_uuid_bytes(s)) by {
                assert forall|j: int| 0 <= j < 16 implies arr@[j] == parsed_uuid_bytes(s)[j] by {
                    let t = 15 - j;
                    assert(arr@[15 - t] == byte_from_hex(d[2 * t], d[2 * t + 1]));
                }
            }
        }
        Self::Uuid128(arr)
    }

    /// Creates a new [`BleUuid`] from a UUID string held in a `String`.
    pub fn from_uuid128_string(uuid: &String) -> (r: Self)
        requires
            valid_uuid_str(uuid@),
        ensures
            r is Uuid128,
            spec_expand(r) == parsed_uuid_bytes(uuid@),
    {
        Self::from_uuid128_str(uuid.as_str())
    }

    /// The canonical 128-bit expansion, little-endian.
    pub fn as_uuid128_array(&self) -> (r: [u8; 16])
        ensures
            r@ == spec_expand(*self),
    {
        let mut out: [u8; 16] = [
            0xfb, 0x34, 0x9b, 0x5f, 0x80, 0x00, 0x00, 0x80, 0x00, 0x10, 0x00, 0x00, 0x00, 0x00,
            0x00, 0x00,
        ];
        proof {
            assert(out@ =~= base_uuid());
        }
        match self {
            Self::Uuid16(uuid) => {
                let x = *uuid;
                out[12] = (x & 0xff) as u8;
                out[13] = ((x >> 8) & 0xff) as u8;
                proof {
                    assert(out@ =~= spec_expand(*self));
                }
                out
            },
            Self::Uuid32(uuid) => {
                let x = *uuid;
                out[12] = (x & 0xff) as u8;
                out[13] = ((x >> 8) & 0xff) as u8;
                out[14] = ((x >> 16) & 0xff) as u8;
                out[15] = ((x >> 24) & 0xff) as u8;
                proof {
                    assert(out@ =~= spec_expand(*self));
                }
                out
            },
            Self::Uuid128(uuid) => *uuid,
        }
    }

    /// The display form: `0x%04x` for a 16-bit UUID, `0x%08x` for a 32-bit
    /// one, and the canonical dashed lower-case form for a 128-bit one.
    pub fn to_string(&self) -> (r: String)
        ensures
            r@ == spec_format(*self),
    {
        proof {
            reveal_strlit("0x");
            reveal_strlit("-");
        }
        match self {
            Self::Uuid16(uuid) => {
                let x = *uuid;
                let mut out = String::new();
                out.append("0x");
                append_hex_pair(&mut out, ((x >> 8) & 0xff) as u8);
                append_hex_pair(&mut out, (x & 0xff) as u8);
                proof {
                    assert(out@ =~= spec_format_uuid16(x));
                }
                out
            },
            Self::Uuid32(uuid) => {
                let x = *uuid;
                let mut out = String::new();
                out.append("0x");
                append_hex_pair(&mut out, ((x >> 24) & 0xff) as u8);
                append_hex_pair(&mut out, ((x >> 16) & 0xff) as u8);
                append_hex_pair(&mut out, ((x >> 8) & 0xff) as u8);
                append_hex_pair(&mut out, (x & 0xff) as u8);
                proof {
                    assert(out@ =~= spec_format_uuid32(x));
                }
                out
            },
            Self::Uuid128(uuid) => {
                let arr = *uuid;
                let mut out = String::new();
                let mut t: usize = 0;
                proof {
                    assert(out@ =~= format128_prefix(arr@, 0));
                }
                while t < 16
                    invariant
                        t <= 16,
                        out@ == format128_prefix(arr@, t as int),
                    decreases 16 - t,
                {
                    let ghost before = out@;
                    proof {
                        reveal_strlit("-");
                    }
                    if t == 4 || t == 6 || t == 8 || t == 10 {
                        out.append("-");
                    }
                    proof {
                        assert(out@ == before + uuid_dash_before(t as int)) by {
                            if t == 4 || t == 6 || t == 8 || t == 10 {
                                assert(before + uuid_dash_before(t as int) =~= before.push('-'));
                                assert(out@ =~= before.push('-'));
                            } else {
                                assert(before + uuid_dash_before(t as int) =~= before);
                            }
                        }
                    }
                    append_hex_pair(&mut out, arr[15 - t]);
                    proof {
                        assert(out@ =~= format128_prefix(arr@, t as int + 1));
                    }
                    t += 1;
                }
                out
            },
        }
    }
}

impl PartialEq for BleUuid {
    /// Equality compares the 128-bit expansions.
    fn eq(&self, other: &Self) -> (r: bool) {
        let a = self.as_uuid128_array();
        let b = other.as_uuid128_array();
        let mut i: usize = 0;
        while i < 16
            invariant
                i <= 16,
                a@ == spec_expand(*self),
                b@ == spec_expand(*other),
                forall|j: int| 0 <= j < i as int ==> a@[j] == b@[j],
            decreases 16 - i,
        {
            if a[i] != b[i] {
                proof {
                    assert(spec_expand(*self)[i as int] != spec_expand(*other)[i as int]);
                }
                return false;
            }
            i += 1;
        }
        proof {
            assert(a@ =~= b@);
        }
        true
    }
}

impl vstd::std_specs::cmp::PartialEqSpecImpl for BleUuid {
    open spec fn obeys_eq_spec() -> bool {
        true
    }

    open spec fn eq_spec(&self, other: &Self) -> bool {
        uuid_eq(*self, *other)
    }
}

} // verus!
