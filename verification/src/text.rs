//! Rendering primitives for the attribute-list fragments of a playlist:
//! decimal and hexadecimal digit strings, zero-padded fields, fixed-point
//! decimal values, and separator-joined lists.

use vstd::prelude::*;
use vstd::string::StringExecFns;

verus! {

/// Reassociating concatenations is needed whenever an output built by
/// successive appends is compared against a nested specification.
pub broadcast proof fn lemma_add_assoc(a: Seq<char>, b: Seq<char>, c: Seq<char>)
    ensures
        #[trigger] ((a + b) + c) == a + (b + c),
{
    assert((a + b) + c =~= a + (b + c));
}

/// Concatenating the empty sequence on the right changes nothing.
pub broadcast proof fn lemma_add_empty_right(a: Seq<char>)
    ensures
        #[trigger] (a + Seq::<char>::empty()) == a,
{
    assert(a + Seq::<char>::empty() =~= a);
}

/// Concatenating the empty sequence on the left changes nothing.
pub broadcast proof fn lemma_add_empty_left(a: Seq<char>)
    ensures
        #[trigger] (Seq::<char>::empty() + a) == a,
{
    assert(Seq::<char>::empty() + a =~= a);
}

/// The character for one digit value, `0` through `F`.
pub open spec fn spec_digit(d: nat) -> char {
    if d == 0 {
        '0'
    } else if d == 1 {
        '1'
    } else if d == 2 {
        '2'
    } else if d == 3 {
        '3'
    } else if d == 4 {
        '4'
    } else if d == 5 {
        '5'
    } else if d == 6 {
        '6'
    } else if d == 7 {
        '7'
    } else if d == 8 {
        '8'
    } else if d == 9 {
        '9'
    } else if d == 10 {
        'A'
    } else if d == 11 {
        'B'
    } else if d == 12 {
        'C'
    } else if d == 13 {
        'D'
    } else if d == 14 {
        'E'
    } else {
        'F'
    }
}

/// The decimal digit string of `n`, without leading zeros.
pub open spec fn spec_dec(n: nat) -> Seq<char>
    decreases n,
{
    if n < 10 {
        seq![spec_digit(n)]
    } else {
        spec_dec(n / 10) + seq![spec_digit(n % 10)]
    }
}

/// The uppercase hexadecimal digit string of `n`, without leading zeros.
pub open spec fn spec_hex_upper(n: nat) -> Seq<char>
    decreases n,
{
    if n < 16 {
        seq![spec_digit(n)]
    } else {
        spec_hex_upper(n / 16) + seq![spec_digit(n % 16)]
    }
}

/// The last `width` decimal digits of `n`, zero-padded on the left.
pub open spec fn spec_zero_pad(n: nat, width: nat) -> Seq<char>
    decreases width,
{
    if width == 0 {
        Seq::<char>::empty()
    } else {
        spec_zero_pad(n / 10, (width - 1) as nat) + seq![spec_digit(n % 10)]
    }
}

pub open spec fn pow10(e: nat) -> nat
    decreases e,
{
    if e == 0 {
        1
    } else {
        10 * pow10((e - 1) as nat)
    }
}

/// Appends one character.
///
/// Relies on `String::push`: it appends exactly the given character.
#[verifier::external_body]
pub(crate) fn push_char(out: &mut String, c: char)
    ensures
        final(out)@ == old(out)@ + seq![c],
{
    out.push(c);
}

fn digit_char(d: u8) -> (c: char)
    requires
        d < 16,
    ensures
        c == spec_digit(d as nat),
{
    match d {
        0 => '0',
        1 => '1',
        2 => '2',
        3 => '3',
        4 => '4',
        5 => '5',
        6 => '6',
        7 => '7',
        8 => '8',
        9 => '9',
        10 => 'A',
        11 => 'B',
        12 => 'C',
        13 => 'D',
        14 => 'E',
        _ => 'F',
    }
}

pub fn push_u64(out: &mut String, n: u64)
    ensures
        final(out)@ == old(out)@ + spec_dec(n as nat),
    decreases n,
{
    broadcast use lemma_add_assoc;

    if n < 10 {
        push_char(out, digit_char(n as u8));
    } else {
        assert(n / 10 < n) by (nonlinear_arith)
            requires
                n >= 10,
        ;
        push_u64(out, n / 10);
        push_char(out, digit_char((n % 10) as u8));
    }
}

pub fn push_u128_hex(out: &mut String, n: u128)
    ensures
        final(out)@ == old(out)@ + spec_hex_upper(n as nat),
    decreases n,
{
    broadcast use lemma_add_assoc;

    if n < 16 {
        push_char(out, digit_char(n as u8));
    } else {
        assert(n / 16 < n) by (nonlinear_arith)
            requires
                n >= 16,
        ;
        push_u128_hex(out, n / 16);
        push_char(out, digit_char((n % 16) as u8));
    }
}

pub fn push_zero_pad(out: &mut String, n: u64, width: u8)
    ensures
        final(out)@ == old(out)@ + spec_zero_pad(n as nat, width as nat),
    decreases width,
{
    broadcast use lemma_add_assoc;

    if width > 0 {
        push_zero_pad(out, n / 10, width - 1);
        push_char(out, digit_char((n % 10) as u8));
    }
}

/// A non-negative-exponent fixed-point decimal value: the playlist format's
/// stand-in for fractional seconds, scores and similar quantities. A value
/// renders as its integer part and, when `frac_len` is nonzero, a dot
/// followed by exactly `frac_len` fractional digits.
#[derive(Debug, Clone, Copy)]
pub struct Decimal {
    /// Render a leading minus sign.
    pub negative: bool,
    /// The digits before the decimal point.
    pub integer: u64,
    /// The fractional digits, as an integer (e.g. `45` with `frac_len == 3`
    /// renders as `.045`).
    pub frac: u64,
    /// How many fractional digits to render; zero suppresses the point.
    pub frac_len: u8,
}

impl Decimal {
    /// The fractional digits fit in the declared width.
    pub open spec fn wf(&self) -> bool {
        self.frac_len <= 19 && (self.frac as nat) < pow10(self.frac_len as nat)
    }

    /// The exact character rendering of this value.
    pub open spec fn spec_chars(&self) -> Seq<char> {
        (if self.negative {
            "-"@
        } else {
            Seq::<char>::empty()
        }) + spec_dec(self.integer as nat) + (if self.frac_len == 0 {
            Seq::<char>::empty()
        } else {
            "."@ + spec_zero_pad(self.frac as nat, self.frac_len as nat)
        })
    }

    /// A whole number, rendered without a decimal point.
    pub fn from_integer(n: u64) -> (d: Decimal)
        ensures
            d.wf(),
            d.spec_chars() == spec_dec(n as nat),
    {
        let d = Decimal { negative: false, integer: n, frac: 0, frac_len: 0 };
        assert(d.spec_chars() =~= spec_dec(n as nat));
        d
    }

    pub fn serialize(&self, output: &mut String)
        ensures
            final(output)@ == old(output)@ + self.spec_chars(),
    {
        broadcast use lemma_add_assoc;

        if self.negative {
            output.append("-");
        }
        push_u64(output, self.integer);
        if self.frac_len != 0 {
            output.append(".");
            push_zero_pad(output, self.frac, self.frac_len);
        }
    }
}

/// The views of `items` joined by `sep`.
pub open spec fn spec_join_strs(items: Seq<String>, sep: Seq<char>) -> Seq<char>
    decreases items.len(),
{
    if items.len() == 0 {
        Seq::<char>::empty()
    } else if items.len() == 1 {
        items[0]@
    } else {
        spec_join_strs(items.drop_last(), sep) + sep + items.last()@
    }
}

/// The decimal renderings of `items` joined by `sep`.
pub open spec fn spec_join_u64(items: Seq<u64>, sep: Seq<char>) -> Seq<char>
    decreases items.len(),
{
    if items.len() == 0 {
        Seq::<char>::empty()
    } else if items.len() == 1 {
        spec_dec(items[0] as nat)
    } else {
        spec_join_u64(items.drop_last(), sep) + sep + spec_dec(items.last() as nat)
    }
}

pub fn push_join_strs(out: &mut String, items: &Vec<String>, sep: &str)
    ensures
        final(out)@ == old(out)@ + spec_join_strs(items@, sep@),
{
    broadcast use lemma_add_assoc;

    let ghost base = out@;
    let n = items.len();
    let mut i: usize = 0;
    while i < n
        invariant
            0 <= i <= n,
            n == items@.len(),
            out@ == base + spec_join_strs(items@.take(i as int), sep@),
        decreases n - i,
    {
        if i > 0 {
            out.append(sep);
        }
        out.append(items[i].as_str());
        proof {
            assert(items@.take(i + 1).drop_last() =~= items@.take(i as int));
            assert(items@.take(i + 1).last() == items@[i as int]);
        }
        i += 1;
    }
    proof {
        assert(items@.take(n as int) =~= items@);
    }
}

pub fn push_join_u64(out: &mut String, items: &Vec<u64>, sep: &str)
    ensures
        final(out)@ == old(out)@ + spec_join_u64(items@, sep@),
{
    broadcast use lemma_add_assoc;

    let ghost base = out@;
    let n = items.len();
    let mut i: usize = 0;
    while i < n
        invariant
            0 <= i <= n,
            n == items@.len(),
            out@ == base + spec_join_u64(items@.take(i as int), sep@),
        decreases n - i,
    {
        if i > 0 {
            out.append(sep);
        }
        push_u64(out, items[i]);
        proof {
            assert(items@.take(i + 1).drop_last() =~= items@.take(i as int));
            assert(items@.take(i + 1).last() == items@[i as int]);
        }
        i += 1;
    }
    proof {
        assert(items@.take(n as int) =~= items@);
    }
}

/// Appends `prefix`, then `value`, then a closing double quote: the shape
/// of every quoted attribute, with the opening quote ending the prefix.
pub fn push_quoted_value(out: &mut String, prefix: &str, value: &str)
    ensures
        final(out)@ == old(out)@ + prefix@ + value@ + "\""@,
{
    broadcast use lemma_add_assoc;

    out.append(prefix);
    out.append(value);
    out.append("\"");
}

/// Two uppercase hexadecimal digits for one byte.
pub open spec fn spec_hex_byte(b: nat) -> Seq<char> {
    seq![spec_digit(b / 16), spec_digit(b % 16)]
}

/// The uppercase hexadecimal rendering of a byte string: two digits per
/// byte, in order.
pub open spec fn spec_hex_bytes_upper(bytes: Seq<u8>) -> Seq<char>
    decreases bytes.len(),
{
    if bytes.len() == 0 {
        Seq::<char>::empty()
    } else {
        spec_hex_bytes_upper(bytes.drop_last()) + spec_hex_byte(bytes.last() as nat)
    }
}

/// Encodes a byte string as uppercase hexadecimal text.
///
/// Relies on `hex::encode_upper`: each input byte becomes exactly two
/// uppercase hexadecimal digits, most significant first, in input order.
#[verifier::external_body]
pub(crate) fn hex_encode_upper(bytes: &Vec<u8>) -> (r: String)
    ensures
        r@ == spec_hex_bytes_upper(bytes@),
{
    hex::encode_upper(bytes.as_slice())
}

} // verus!
