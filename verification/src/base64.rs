//! Standard padded Base64 (RFC 4648, section 4), as a specification: the
//! encoding that the clipboard sequence carries, and the decoding that
//! gives the bytes back.
use vstd::prelude::*;

verus! {

/// The Base64 alphabet: `A`-`Z`, `a`-`z`, `0`-`9`, `+`, `/`, for `i` in `0..64`.
pub open spec fn sextet_char(i: int) -> char {
    if i < 26 {
        (65 + i) as char
    } else if i < 52 {
        (97 + (i - 26)) as char
    } else if i < 62 {
        (48 + (i - 52)) as char
    } else if i == 62 {
        '+'
    } else {
        '/'
    }
}

/// The position of a char in the Base64 alphabet.
pub open spec fn sextet_value(c: char) -> int {
    let v = c as int;
    if 65 <= v <= 90 {
        v - 65
    } else if 97 <= v <= 122 {
        v - 71
    } else if 48 <= v <= 57 {
        v + 4
    } else if c == '+' {
        62
    } else {
        63
    }
}

/// The four chars for a 24-bit group `n`.
pub open spec fn quad(n: int) -> Seq<char> {
    seq![
        sextet_char(n / 262144),
        sextet_char((n / 4096) % 64),
        sextet_char((n / 64) % 64),
        sextet_char(n % 64),
    ]
}

/// Standard padded Base64 of `b`: each group of three bytes becomes four
/// chars; a last group of one or two bytes is padded with `=`.
pub open spec fn base64_encoding(b: Seq<u8>) -> Seq<char>
    decreases b.len(),
{
    if b.len() == 0 {
        seq![]
    } else if b.len() == 1 {
        let q = quad(b[0] * 65536);
        seq![q[0], q[1], '=', '=']
    } else if b.len() == 2 {
        let q = quad(b[0] * 65536 + b[1] * 256);
        seq![q[0], q[1], q[2], '=']
    } else {
        quad(b[0] * 65536 + b[1] * 256 + b[2]) + base64_encoding(b.subrange(3, b.len() as int))
    }
}

/// The bytes of one group of four Base64 chars.
pub open spec fn group_bytes(s: Seq<char>) -> Seq<u8> {
    let n = sextet_value(s[0]) * 262144 + sextet_value(s[1]) * 4096 + (if s[2] == '=' {
        0
    } else {
        sextet_value(s[2]) * 64
    }) + (if s[3] == '=' {
        0
    } else {
        sextet_value(s[3])
    });
    if s[2] == '=' {
        seq![(n / 65536) as u8]
    } else if s[3] == '=' {
        seq![(n / 65536) as u8, ((n / 256) % 256) as u8]
    } else {
        seq![(n / 65536) as u8, ((n / 256) % 256) as u8, (n % 256) as u8]
    }
}

/// Decoding of padded Base64, four chars at a time.
pub open spec fn base64_decoding(s: Seq<char>) -> Seq<u8>
    decreases s.len(),
{
    if s.len() < 4 {
        seq![]
    } else {
        group_bytes(s.subrange(0, 4)) + base64_decoding(s.subrange(4, s.len() as int))
    }
}

proof fn lemma_sextet_round_trip(i: int)
    requires
        0 <= i < 64,
    ensures
        sextet_value(sextet_char(i)) == i,
        sextet_char(i) != '=',
{
}

proof fn lemma_quad_digits(n: int)
    requires
        0 <= n < 16777216,
    ensures
        0 <= n / 262144 < 64,
        0 <= (n / 4096) % 64 < 64,
        0 <= (n / 64) % 64 < 64,
        0 <= n % 64 < 64,
        (n / 262144) * 262144 + ((n / 4096) % 64) * 4096 + ((n / 64) % 64) * 64 + n % 64 == n,
{
    assert((n / 262144) * 262144 + ((n / 4096) % 64) * 4096 + ((n / 64) % 64) * 64 + n % 64 == n)
        by (nonlinear_arith)
        requires
            0 <= n < 16777216,
    ;
}

proof fn lemma_group_round_trip(b: Seq<u8>)
    requires
        1 <= b.len() <= 3,
    ensures
        group_bytes(
            if b.len() == 1 {
                let q = quad(b[0] * 65536);
                seq![q[0], q[1], '=', '=']
            } else if b.len() == 2 {
                let q = quad(b[0] * 65536 + b[1] * 256);
                seq![q[0], q[1], q[2], '=']
            } else {
                quad(b[0] * 65536 + b[1] * 256 + b[2])
            },
        ) == b,
{
    let n: int = if b.len() == 1 {
        b[0] * 65536
    } else if b.len() == 2 {
        b[0] * 65536 + b[1] * 256
    } else {
        b[0] * 65536 + b[1] * 256 + b[2]
    };
    let x0: int = b[0] as int;
    let x1: int = if b.len() >= 2 { b[1] as int } else { 0 };
    let x2: int = if b.len() == 3 { b[2] as int } else { 0 };
    assert(n == x0 * 65536 + x1 * 256 + x2);
    lemma_quad_digits(n);
    lemma_sextet_round_trip(n / 262144);
    lemma_sextet_round_trip((n / 4096) % 64);
    lemma_sextet_round_trip((n / 64) % 64);
    lemma_sextet_round_trip(n % 64);
    assert(n / 65536 == x0 && (n / 256) % 256 == x1 && n % 256 == x2) by (nonlinear_arith)
        requires
            n == x0 * 65536 + x1 * 256 + x2,
            0 <= x0 < 256,
            0 <= x1 < 256,
            0 <= x2 < 256,
    ;
    if b.len() == 1 {
        assert(n % 64 == 0 && (n / 64) % 64 == 0) by (nonlinear_arith)
            requires
                n == x0 * 65536,
        ;
    } else if b.len() == 2 {
        assert(n % 64 == 0) by (nonlinear_arith)
            requires
                n == x0 * 65536 + x1 * 256,
        ;
    }
    let g = if b.len() == 1 {
        let q = quad(n);
        seq![q[0], q[1], '=', '=']
    } else if b.len() == 2 {
        let q = quad(n);
        seq![q[0], q[1], q[2], '=']
    } else {
        quad(n)
    };
    assert(group_bytes(g) =~= b);
}

/// Decoding the Base64 of any bytes gives the bytes back.
pub proof fn lemma_base64_round_trip(b: Seq<u8>)
    ensures
        base64_decoding(base64_encoding(b)) == b,
    decreases b.len(),
{
    if b.len() == 0 {
    } else if b.len() <= 2 {
        lemma_group_round_trip(b);
        let e = base64_encoding(b);
        assert(e.subrange(0, 4) =~= e);
        assert(base64_decoding(e.subrange(4, 4)) == Seq::<u8>::empty());
        assert(base64_decoding(e) =~= b);
    } else {
        let rest = b.subrange(3, b.len() as int);
        let g = quad(b[0] * 65536 + b[1] * 256 + b[2]);
        lemma_group_round_trip(b.subrange(0, 3));
        assert(b.subrange(0, 3)[0] == b[0] && b.subrange(0, 3)[1] == b[1] && b.subrange(0, 3)[2]
            == b[2]);
        lemma_base64_round_trip(rest);
        let e = base64_encoding(b);
        assert(e == g + base64_encoding(rest));
        assert(e.subrange(0, 4) =~= g);
        assert(e.subrange(4, e.len() as int) =~= base64_encoding(rest));
        assert(base64_decoding(e) =~= b.subrange(0, 3) + rest);
        assert(b.subrange(0, 3) + rest =~= b);
    }
}

/// Four chars for every started group of three bytes.
pub proof fn lemma_base64_length(b: Seq<u8>)
    ensures
        base64_encoding(b).len() == 4 * ((b.len() + 2) / 3),
    decreases b.len(),
{
    if b.len() > 2 {
        lemma_base64_length(b.subrange(3, b.len() as int));
    }
}

} // verus!
