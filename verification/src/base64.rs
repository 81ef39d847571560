//! Standard base64, used only for the Authorization header.

use vstd::prelude::*;

verus! {

/// The character for a number under 64.
pub open spec fn sextet_char(n: int) -> char {
    if n < 26 {
        ((65 + n) as u32) as char
    } else if n < 52 {
        ((97 + n - 26) as u32) as char
    } else if n < 62 {
        ((48 + n - 52) as u32) as char
    } else if n == 62 {
        '+'
    } else {
        '/'
    }
}

/// Three bytes, or the one or two that are left, as four characters.
pub open spec fn quartet(group: Seq<u8>) -> Seq<char> {
    let b0 = group[0] as int;
    let b1 = if group.len() > 1 {
        group[1] as int
    } else {
        0
    };
    let b2 = if group.len() > 2 {
        group[2] as int
    } else {
        0
    };
    seq![
        sextet_char(b0 / 4),
        sextet_char(b0 % 4 * 16 + b1 / 16),
        if group.len() > 1 {
            sextet_char(b1 % 16 * 4 + b2 / 64)
        } else {
            '='
        },
        if group.len() > 2 {
            sextet_char(b2 % 64)
        } else {
            '='
        },
    ]
}

/// The base64 text of bytes.
pub open spec fn base64(input: Seq<u8>) -> Seq<char>
    decreases input.len(),
{
    if input.len() == 0 {
        Seq::empty()
    } else if input.len() <= 3 {
        quartet(input)
    } else {
        quartet(input.take(3)) + base64(input.skip(3))
    }
}

fn sextet(n: u8) -> (c: char)
    requires
        n < 64,
    ensures
        c == sextet_char(n as int),
{
    if n < 26 {
        (65 + n) as char
    } else if n < 52 {
        (97 + (n - 26)) as char
    } else if n < 62 {
        (48 + (n - 52)) as char
    } else if n == 62 {
        '+'
    } else {
        '/'
    }
}

/// Encodes bytes as base64.
pub fn base64_encode(input: &[u8]) -> (r: String)
    ensures
        r@ == base64(input@),
{
    let n: usize = input.len();
    let mut out = String::new();
    let mut i: usize = 0;
    assert(input@.skip(0) =~= input@);
    assert(out@ + base64(input@) =~= base64(input@));
    while i < n
        invariant
            i <= n == input@.len(),
            out@ + base64(input@.skip(i as int)) == base64(input@),
        decreases n - i,
    {
        let left: usize = n - i;
        let b0: u8 = input[i];
        let b1: u8 = if left > 1 {
            input[i + 1]
        } else {
            0
        };
        let b2: u8 = if left > 2 {
            input[i + 2]
        } else {
            0
        };
        let ghost before = out@;
        out.push(sextet(b0 / 4));
        out.push(sextet(b0 % 4 * 16 + b1 / 16));
        out.push(
            if left > 1 {
                sextet(b1 % 16 * 4 + b2 / 64)
            } else {
                '='
            },
        );
        out.push(
            if left > 2 {
                sextet(b2 % 64)
            } else {
                '='
            },
        );
        let ghost rest = input@.skip(i as int);
        if left > 3 {
            proof {
                assert(rest.skip(3) =~= input@.skip(i + 3));
                assert(out@ =~= before + quartet(rest.take(3)));
                assert(before + (quartet(rest.take(3)) + base64(rest.skip(3))) =~= out@ + base64(
                    input@.skip(i + 3),
                ));
            }
            i += 3;
        } else {
            proof {
                assert(out@ =~= before + quartet(rest));
                assert(input@.skip(n as int) =~= Seq::empty());
                assert(out@ + base64(input@.skip(n as int)) =~= out@);
            }
            i = n;
        }
    }
    assert(input@.skip(n as int) =~= Seq::empty());
    assert(out@ + base64(input@.skip(i as int)) =~= out@);
    out
}

/// The number that a base64 character stands for.
pub open spec fn sextet_value(c: char) -> int {
    let n = c as int;
    if 65 <= n <= 90 {
        n - 65
    } else if 97 <= n <= 122 {
        n - 97 + 26
    } else if 48 <= n <= 57 {
        n - 48 + 52
    } else if c == '+' {
        62
    } else {
        63
    }
}

/// The bytes that four characters stand for.
pub open spec fn group_bytes(q: Seq<char>) -> Seq<u8> {
    let a = sextet_value(q[0]);
    let b = sextet_value(q[1]);
    let c = sextet_value(q[2]);
    let d = sextet_value(q[3]);
    let b0 = (a * 4 + b / 16) as u8;
    let b1 = (b % 16 * 16 + c / 4) as u8;
    let b2 = (c % 4 * 64 + d) as u8;
    if q[2] == '=' {
        seq![b0]
    } else if q[3] == '=' {
        seq![b0, b1]
    } else {
        seq![b0, b1, b2]
    }
}

/// The bytes that base64 text stands for.
pub open spec fn unbase64(s: Seq<char>) -> Seq<u8>
    decreases s.len(),
{
    if s.len() < 4 {
        Seq::empty()
    } else {
        group_bytes(s.take(4)) + unbase64(s.skip(4))
    }
}

proof fn lemma_sextet(n: int)
    requires
        0 <= n < 64,
    ensures
        sextet_value(sextet_char(n)) == n,
        sextet_char(n) != '=',
{
}

proof fn lemma_quartet(group: Seq<u8>)
    requires
        1 <= group.len() <= 3,
    ensures
        group_bytes(quartet(group)) == group,
{
    let b0 = group[0] as int;
    let b1 = if group.len() > 1 {
        group[1] as int
    } else {
        0
    };
    let b2 = if group.len() > 2 {
        group[2] as int
    } else {
        0
    };
    lemma_sextet(b0 / 4);
    lemma_sextet(b0 % 4 * 16 + b1 / 16);
    lemma_sextet(b1 % 16 * 4 + b2 / 64);
    lemma_sextet(b2 % 64);
    assert(group_bytes(quartet(group)) =~= group);
}

/// Base64 text holds four characters for every three bytes begun, and stands for exactly
/// the bytes that it was made from.
pub proof fn law_base64_is_reversible(input: Seq<u8>)
    ensures
        base64(input).len() == (input.len() + 2) / 3 * 4,
        unbase64(base64(input)) == input,
    decreases input.len(),
{
    if input.len() == 0 {
        assert(unbase64(base64(input)) =~= input);
    } else if input.len() <= 3 {
        lemma_quartet(input);
        let q = quartet(input);
        assert(q.take(4) =~= q);
        assert(unbase64(q.skip(4)) == Seq::<u8>::empty());
        assert(group_bytes(q) + Seq::<u8>::empty() =~= input);
    } else {
        law_base64_is_reversible(input.skip(3));
        lemma_quartet(input.take(3));
        let q = quartet(input.take(3));
        let all = q + base64(input.skip(3));
        assert(all.take(4) =~= q);
        assert(all.skip(4) =~= base64(input.skip(3)));
        assert(input.take(3) + input.skip(3) =~= input);
    }
}

} // verus!
