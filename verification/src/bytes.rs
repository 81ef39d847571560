//! Byte sequences off the wire, and the text in them.

use vstd::prelude::*;
use vstd::utf8::*;

verus! {

/// What `String::from_utf8_lossy` makes of bytes that are not valid UTF-8.
pub uninterp spec fn repaired(bytes: Seq<u8>) -> Seq<char>;

/// The text in bytes: that of valid UTF-8, or what is left of it after repair.
pub open spec fn text_in(bytes: Seq<u8>) -> Seq<char> {
    if valid_utf8(bytes) {
        decode_utf8(bytes)
    } else {
        repaired(bytes)
    }
}

/// `String::from_utf8_lossy`: valid UTF-8 is decoded as it is; where the replacement
/// characters go in other bytes is left to the standard library, and only named.
#[verifier::external_body]
pub(crate) fn lossy_text(bytes: &[u8]) -> (r: String)
    ensures
        r@ == if valid_utf8(bytes@) {
            decode_utf8(bytes@)
        } else {
            repaired(bytes@)
        },
{
    String::from_utf8_lossy(bytes).to_string()
}

/// Whether `p` occurs in `s` at position `i`.
pub open spec fn bytes_at(s: Seq<u8>, p: Seq<u8>, i: int) -> bool {
    &&& 0 <= i
    &&& i + p.len() <= s.len()
    &&& s.subrange(i, i + p.len()) == p
}

/// The first position at or after `i` where `p` occurs in `s`.
pub open spec fn bytes_find(s: Seq<u8>, p: Seq<u8>, i: int) -> Option<int>
    decreases s.len() + 1 - i,
{
    if i < 0 || i + p.len() > s.len() {
        None
    } else if bytes_at(s, p, i) {
        Some(i)
    } else {
        bytes_find(s, p, i + 1)
    }
}

/// `bytes_find` names the least position at or after `i` where the pattern occurs.
pub proof fn lemma_bytes_find(s: Seq<u8>, p: Seq<u8>, i: int)
    requires
        0 <= i,
    ensures
        bytes_find(s, p, i) matches Some(j) ==> i <= j && bytes_at(s, p, j) && (forall|k: int|
            i <= k < j ==> !bytes_at(s, p, k)),
        bytes_find(s, p, i) is None ==> forall|k: int| i <= k ==> !bytes_at(s, p, k),
    decreases s.len() + 1 - i,
{
    if i + p.len() <= s.len() && !bytes_at(s, p, i) {
        lemma_bytes_find(s, p, i + 1);
    }
}

/// The first occurrence of a pattern.
pub proof fn lemma_bytes_found_at(s: Seq<u8>, p: Seq<u8>, i: int)
    requires
        bytes_at(s, p, i),
        forall|k: int| 0 <= k < i ==> !bytes_at(s, p, k),
    ensures
        bytes_find(s, p, 0) == Some(i),
{
    lemma_bytes_find(s, p, 0);
}

/// Texts are encoded one after the other.
pub proof fn lemma_encode_concat(a: Seq<char>, b: Seq<char>)
    ensures
        encode_utf8(a + b) == encode_utf8(a) + encode_utf8(b),
    decreases a.len(),
{
    if a.len() == 0 {
        assert(a + b =~= b);
        assert(encode_utf8(a) + encode_utf8(b) =~= encode_utf8(b));
    } else {
        lemma_encode_concat(a.drop_first(), b);
        assert((a + b).drop_first() =~= a.drop_first() + b);
        let head = encode_scalar(a[0] as u32);
        assert(head + (encode_utf8(a.drop_first()) + encode_utf8(b)) =~= (head + encode_utf8(
            a.drop_first(),
        )) + encode_utf8(b));
    }
}

fn occurs_here(s: &[u8], p: &[u8], i: usize) -> (r: bool)
    requires
        i + p@.len() <= s@.len(),
    ensures
        r == bytes_at(s@, p@, i as int),
{
    let n: usize = s.len();
    let mut k: usize = 0;
    while k < p.len()
        invariant
            k <= p@.len(),
            i + p@.len() <= s@.len() == n,
            forall|j: int| 0 <= j < k ==> s@[i + j] == p@[j],
        decreases p@.len() - k,
    {
        if s[i + k] != p[k] {
            assert(s@.subrange(i as int, i + p@.len())[k as int] != p@[k as int]);
            return false;
        }
        k += 1;
    }
    assert(s@.subrange(i as int, i + p@.len()) =~= p@);
    true
}

/// The first position where a pattern occurs in bytes.
pub fn find_bytes(s: &[u8], p: &[u8]) -> (r: Option<usize>)
    ensures
        r matches Some(i) ==> bytes_find(s@, p@, 0) == Some(i as int) && i + p@.len() <= s@.len(),
        r is None ==> bytes_find(s@, p@, 0) is None,
{
    let n: usize = s.len();
    let mut i: usize = 0;
    while p.len() <= n - i
        invariant
            i <= s@.len() == n,
            bytes_find(s@, p@, 0) == bytes_find(s@, p@, i as int),
        decreases n - i,
    {
        if occurs_here(s, p, i) {
            return Some(i);
        }
        if i == n {
            assert(bytes_find(s@, p@, i + 1) is None);
            return None;
        }
        i += 1;
    }
    None
}

} // verus!
