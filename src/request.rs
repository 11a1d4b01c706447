//! Framing of the ranged HTTP requests and of the answers handed back to the engine.
use vstd::prelude::*;
use vstd::string::*;

verus! {

/// The decimal digit `d` as a character.
pub open spec fn digit_char(d: nat) -> char {
    if d == 0 {
        '0'
    } else if d == 1 {
        '1'
    } else if d == 2 {
        '2'
    } else if d == 3 {
        '3'
    } else if d == 4 {
        '4'
    } else if d == 5 {
        '5'
    } else if d == 6 {
        '6'
    } else if d == 7 {
        '7'
    } else if d == 8 {
        '8'
    } else {
        '9'
    }
}

/// Decimal representation of `n`, without sign or leading zeros.
pub open spec fn decimal_of(n: nat) -> Seq<char>
    decreases n,
{
    if n < 10 {
        seq![digit_char(n)]
    } else {
        decimal_of(n / 10) + seq![digit_char(n % 10)]
    }
}

/// The value of an HTTP `Range` header asking for bytes `first` to `last`, both included.
pub open spec fn range_value(first: nat, last: nat) -> Seq<char> {
    seq!['b', 'y', 't', 'e', 's', '='] + decimal_of(first) + seq!['-'] + decimal_of(last)
}

fn digit_str(d: u64) -> (r: &'static str)
    requires
        d < 10,
    ensures
        r@ == seq![digit_char(d as nat)],
{
    if d == 0 {
        proof { reveal_strlit("0"); }
        "0"
    } else if d == 1 {
        proof { reveal_strlit("1"); }
        "1"
    } else if d == 2 {
        proof { reveal_strlit("2"); }
        "2"
    } else if d == 3 {
        proof { reveal_strlit("3"); }
        "3"
    } else if d == 4 {
        proof { reveal_strlit("4"); }
        "4"
    } else if d == 5 {
        proof { reveal_strlit("5"); }
        "5"
    } else if d == 6 {
        proof { reveal_strlit("6"); }
        "6"
    } else if d == 7 {
        proof { reveal_strlit("7"); }
        "7"
    } else if d == 8 {
        proof { reveal_strlit("8"); }
        "8"
    } else {
        proof { reveal_strlit("9"); }
        "9"
    }
}

/// Append the decimal representation of `n` to `s`.
pub fn push_decimal(s: &mut String, n: u64)
    ensures
        final(s)@ == old(s)@ + decimal_of(n as nat),
    decreases n,
{
    if n >= 10 {
        push_decimal(s, n / 10);
    }
    s.append(digit_str(n % 10));
    assert(final(s)@ =~= old(s)@ + decimal_of(n as nat));
}

/// The `Range` header value for reading `size_to_read` bytes from `offset`:
/// `bytes={offset}-{offset + size_to_read - 1}`, both ends included.
pub fn range_header_value(offset: u64, size_to_read: usize) -> (r: String)
    requires
        size_to_read >= 1,
        offset + size_to_read - 1 <= u64::MAX,
    ensures
        r@ == range_value(offset as nat, (offset + size_to_read - 1) as nat),
{
    let last = offset + (size_to_read as u64 - 1);
    proof { reveal_strlit("bytes="); reveal_strlit("-"); }
    let mut s = String::from_str("bytes=");
    push_decimal(&mut s, offset);
    s.append("-");
    push_decimal(&mut s, last);
    assert(s@ =~= range_value(offset as nat, last as nat));
    s
}

/// An ASCII decimal digit.
pub open spec fn is_digit(b: u8) -> bool {
    48 <= b <= 57
}

/// The value of a string of ASCII decimal digits.
pub open spec fn digits_value(s: Seq<u8>) -> nat
    decreases s.len(),
{
    if s.len() == 0 {
        0
    } else {
        digits_value(s.drop_last()) * 10 + (s.last() - 48) as nat
    }
}

/// The digits of an unsigned number: the text after one optional leading `+`.
pub open spec fn unsigned_digits(s: Seq<u8>) -> Seq<u8> {
    if s.len() > 0 && s[0] == 43 {
        s.drop_first()
    } else {
        s
    }
}

/// The `usize` that `s` denotes: an optional `+`, then one or more decimal digits
/// whose value fits in a `usize`.
pub open spec fn usize_of(s: Seq<u8>) -> Option<nat> {
    let d = unsigned_digits(s);
    if d.len() > 0 && (forall|i: int| 0 <= i < d.len() ==> is_digit(#[trigger] d[i]))
        && digits_value(d) <= usize::MAX {
        Some(digits_value(d))
    } else {
        None
    }
}

proof fn lemma_digits_value_prefix_monotone(d: Seq<u8>, j: int, k: int)
    requires
        0 <= j <= k <= d.len(),
        forall|i: int| 0 <= i < d.len() ==> is_digit(#[trigger] d[i]),
    ensures
        digits_value(d.subrange(0, j)) <= digits_value(d.subrange(0, k)),
    decreases k - j,
{
    if j < k {
        lemma_digits_value_prefix_monotone(d, j, k - 1);
        assert(d.subrange(0, k).drop_last() =~= d.subrange(0, k - 1));
    }
}

/// Parse a `Content-Length` value the way `str::parse::<usize>` reads it.
pub fn parse_content_length(value: &[u8]) -> (r: Option<usize>)
    ensures
        match r {
            Some(n) => usize_of(value@) == Some(n as nat),
            None => usize_of(value@) is None,
        },
{
    let len = value.len();
    let start: usize = if len > 0 && value[0] == 43u8 { 1 } else { 0 };
    let ghost d = unsigned_digits(value@);
    assert(d =~= value@.subrange(start as int, len as int));
    if start >= len {
        return None;
    }
    let mut i: usize = start;
    while i < len
        invariant
            start <= i <= len,
            len == value@.len(),
            d =~= value@.subrange(start as int, len as int),
            d == unsigned_digits(value@),
            forall|k: int| 0 <= k < i - start ==> is_digit(#[trigger] d[k]),
        decreases len - i,
    {
        if !(48u8 <= value[i] && value[i] <= 57u8) {
            assert(d[i - start] == value@[i as int]);
            assert(!is_digit(d[i - start]));
            return None;
        }
        i = i + 1;
    }
    let mut acc: usize = 0;
    let mut i: usize = start;
    while i < len
        invariant
            start <= i <= len,
            len == value@.len(),
            d =~= value@.subrange(start as int, len as int),
            d == unsigned_digits(value@),
            forall|k: int| 0 <= k < d.len() ==> is_digit(#[trigger] d[k]),
            acc == digits_value(d.subrange(0, i - start)),
        decreases len - i,
    {
        assert(d[i - start] == value@[i as int]);
        assert(is_digit(d[i - start]));
        let digit = (value[i] - 48u8) as usize;
        assert(d.subrange(0, i - start + 1).drop_last() =~= d.subrange(0, i - start));
        assert(digits_value(d.subrange(0, i - start + 1)) == acc * 10 + digit);
        let next = match acc.checked_mul(10) {
            Some(m) => m.checked_add(digit),
            None => None,
        };
        match next {
            Some(n) => {
                acc = n;
            },
            None => {
                proof {
                    lemma_digits_value_prefix_monotone(d, i - start + 1, d.len() as int);
                    assert(d.subrange(0, d.len() as int) =~= d);
                }
                return None;
            },
        }
        i = i + 1;
    }
    assert(d.subrange(0, len - start) =~= d);
    Some(acc)
}

/// How many bytes of a response body go to the engine: no more than it asked for, than the
/// response announced, or than arrived.
pub open spec fn chunk_len(content_length: nat, size_to_read: nat, received: nat) -> nat {
    let a = if content_length <= size_to_read { content_length } else { size_to_read };
    if a <= received { a } else { received }
}

/// Cut a received body down to the bytes that are copied into the engine's buffer.
pub fn take_chunk(body: Vec<u8>, content_length: usize, size_to_read: usize) -> (r: Vec<u8>)
    ensures
        r@ == body@.subrange(
            0,
            chunk_len(content_length as nat, size_to_read as nat, body@.len()) as int,
        ),
{
    let mut body = body;
    let wanted = if content_length <= size_to_read { content_length } else { size_to_read };
    body.truncate(wanted);
    body
}

/// Index of the first NUL byte of `s`, or its length if it has none.
pub open spec fn first_nul(s: Seq<u8>) -> nat
    decreases s.len(),
{
    if s.len() == 0 {
        0
    } else if s[0] == 0 {
        0
    } else {
        1 + first_nul(s.drop_first())
    }
}

/// The NUL-terminated message written into the engine's error buffer of `max_size` bytes:
/// the message up to its first NUL byte, cut to `max_size - 1` bytes, then a NUL.
pub open spec fn error_buffer(message: Seq<u8>, max_size: nat) -> Seq<u8> {
    let n = if first_nul(message) <= max_size - 1 { first_nul(message) } else { (max_size - 1) as nat };
    message.subrange(0, n as int).push(0)
}

/// `first_nul` lies past a prefix free of NUL bytes, within the string, and at a NUL that
/// ends such a prefix.
pub proof fn lemma_first_nul_bounds(s: Seq<u8>, i: int)
    requires
        0 <= i <= s.len(),
        forall|k: int| 0 <= k < i ==> s[k] != 0,
    ensures
        first_nul(s) >= i,
        first_nul(s) <= s.len(),
        i < s.len() && s[i] == 0 ==> first_nul(s) == i,
    decreases s.len(),
{
    if s.len() > 0 && s[0] != 0 {
        let t = s.drop_first();
        if i > 0 {
            assert forall|k: int| 0 <= k < i - 1 implies t[k] != 0 by {
                assert(t[k] == s[k + 1]);
            }
            lemma_first_nul_bounds(t, i - 1);
        } else {
            lemma_first_nul_bounds(t, 0);
        }
    }
}

/// Bytes for the engine's error buffer of `max_size` bytes, terminator included.
pub fn error_buffer_bytes(message: &str, max_size: usize) -> (r: Vec<u8>)
    requires
        max_size >= 1,
    ensures
        r@ == error_buffer(message.spec_bytes(), max_size as nat),
        r@.len() <= max_size,
{
    let bytes = message.as_bytes();
    let mut out: Vec<u8> = Vec::new();
    let mut i: usize = 0;
    while i < bytes.len() && i < max_size - 1 && bytes[i] != 0u8
        invariant
            i <= bytes@.len(),
            i <= max_size - 1,
            bytes@ == message.spec_bytes(),
            out@ == bytes@.subrange(0, i as int),
            forall|k: int| 0 <= k < i ==> bytes@[k] != 0,
        decreases bytes@.len() - i,
    {
        out.push(bytes[i]);
        i = i + 1;
    }
    proof {
        lemma_first_nul_bounds(bytes@, i as int);
    }
    out.push(0u8);
    out
}

} // verus!
