//! Content identifiers: a CIDv1 envelope (dag-cbor codec, BLAKE3
//! multihash) around a 32-byte BLAKE3 digest.

use vstd::prelude::*;

use crate::bytes::{bytes_lt, digest_lt, push_bytes};
use crate::text::string_push;

verus! {

/// CIDv1 version byte.
pub const CID_VERSION: u8 = 0x01;

/// Multicodec `dag-cbor`.
pub const CODEC_DAG_CBOR: u8 = 0x71;

/// Multihash code for BLAKE3.
pub const MULTIHASH_BLAKE3: u8 = 0x1e;

/// Multihash digest length (32 bytes).
pub const DIGEST_LEN: u8 = 0x20;

/// The lower-case RFC 4648 base32 letter of a 5-bit value.
pub open spec fn base32_char(v: int) -> char {
    if v < 26 {
        (97 + v) as char
    } else {
        (50 + v - 26) as char
    }
}

/// The eight 5-bit values of five bytes, most significant bits first.
pub open spec fn quintets(b: Seq<u8>) -> Seq<int> {
    seq![
        b[0] as int / 8,
        (b[0] as int % 8) * 4 + b[1] as int / 64,
        (b[1] as int / 2) % 32,
        (b[1] as int % 2) * 16 + b[2] as int / 16,
        (b[2] as int % 16) * 2 + b[3] as int / 128,
        (b[3] as int / 4) % 32,
        (b[3] as int % 4) * 8 + b[4] as int / 32,
        b[4] as int % 32,
    ]
}

/// How many letters an unpadded base32 text gives a final group of `n`
/// bytes (`n < 5`).
pub open spec fn tail_letters(n: int) -> int {
    if n == 0 {
        0
    } else if n == 1 {
        2
    } else if n == 2 {
        4
    } else if n == 3 {
        5
    } else {
        7
    }
}

/// The letters of a group's values.
pub open spec fn letters(q: Seq<int>) -> Seq<char> {
    q.map_values(|v: int| base32_char(v))
}

/// Unpadded lower-case RFC 4648 base32 text of `s`: each group of five
/// bytes gives eight letters; a final shorter group is zero-filled and
/// gives only the letters its bits reach.
pub open spec fn base32_text(s: Seq<u8>) -> Seq<char>
    decreases s.len(),
{
    if s.len() >= 5 {
        letters(quintets(s.take(5))) + base32_text(s.skip(5))
    } else {
        letters(quintets(s + Seq::new((5 - s.len()) as nat, |i: int| 0u8)).take(
            tail_letters(s.len() as int),
        ))
    }
}

/// The binary CIDv1 bytes of `c`.
pub open spec fn cid_bytes_of(c: Cid) -> Seq<u8> {
    seq![CID_VERSION, CODEC_DAG_CBOR, MULTIHASH_BLAKE3, DIGEST_LEN] + c.digest@
}

/// The text form of `c`: the multibase prefix `b`, then the unpadded
/// lower-case base32 text of its binary bytes.
pub open spec fn cid_text(c: Cid) -> Seq<char> {
    seq!['b'] + base32_text(cid_bytes_of(c))
}

fn base32_letter(v: u8) -> (c: char)
    requires
        v < 32,
    ensures
        c == base32_char(v as int),
{
    if v < 26 {
        (97u8 + v) as char
    } else {
        (50u8 + (v - 26)) as char
    }
}

fn push_group(out: &mut String, b: &[u8; 5], n: usize)
    requires
        n <= 8,
    ensures
        final(out)@ == old(out)@ + letters(quintets(b@)).take(n as int),
{
    let q: [u8; 8] = [
        b[0] / 8,
        (b[0] % 8) * 4 + b[1] / 64,
        (b[1] / 2) % 32,
        (b[1] % 2) * 16 + b[2] / 16,
        (b[2] % 16) * 2 + b[3] / 128,
        (b[3] / 4) % 32,
        (b[3] % 4) * 8 + b[4] / 32,
        b[4] % 32,
    ];
    assert(forall|k: int| 0 <= k < 8 ==> q@[k] as int == quintets(b@)[k] && q@[k] < 32);
    let ghost start = out@;
    let mut k: usize = 0;
    while k < n
        invariant
            k <= n,
            n <= 8,
            forall|j: int| 0 <= j < 8 ==> q@[j] as int == quintets(b@)[j] && q@[j] < 32,
            out@ == start + letters(quintets(b@)).take(k as int),
        decreases n - k,
    {
        let c = base32_letter(q[k]);
        string_push(out, c);
        assert(letters(quintets(b@)).take(k + 1) =~= letters(quintets(b@)).take(k as int).push(c));
        k += 1;
    }
}

/// The order of content ids: by their digest bytes.
pub open spec fn cid_lt(a: Cid, b: Cid) -> bool {
    bytes_lt(a.digest@, b.digest@)
}

/// A content identifier over a BLAKE3 digest.
#[derive(Clone, Copy, Debug, PartialEq, Eq, Hash, PartialOrd, Ord)]
pub struct Cid {
    /// The 32-byte BLAKE3 digest.
    pub digest: [u8; 32],
}

impl Cid {
    /// Wrap a BLAKE3 digest.
    pub fn from_blake3_digest(digest: [u8; 32]) -> (c: Cid)
        ensures
            c.digest == digest,
    {
        Cid { digest }
    }

    /// The binary CIDv1 bytes: version, codec, multihash code, digest
    /// length, digest.
    pub fn to_bytes(&self) -> (b: Vec<u8>)
        ensures
            b@ == seq![CID_VERSION, CODEC_DAG_CBOR, MULTIHASH_BLAKE3, DIGEST_LEN] + self.digest@,
    {
        let mut b: Vec<u8> = Vec::new();
        b.push(CID_VERSION);
        b.push(CODEC_DAG_CBOR);
        b.push(MULTIHASH_BLAKE3);
        b.push(DIGEST_LEN);
        push_bytes(&mut b, &self.digest);
        assert(b@ =~= seq![CID_VERSION, CODEC_DAG_CBOR, MULTIHASH_BLAKE3, DIGEST_LEN]
            + self.digest@);
        b
    }

    /// The text form: `b` followed by the unpadded lower-case base32 text
    /// of the binary CIDv1 bytes.
    pub fn to_base32(&self) -> (t: String)
        ensures
            t@ == cid_text(*self),
    {
        let b = self.to_bytes();
        let n = b.len();
        let mut out = String::new();
        string_push(&mut out, 'b');
        let mut pos: usize = 0;
        assert(b@.skip(0) =~= b@);
        while n - pos >= 5
            invariant
                n == b@.len(),
                pos <= n,
                b@ == cid_bytes_of(*self),
                seq!['b'] + base32_text(b@) == out@ + base32_text(b@.skip(pos as int)),
            decreases n - pos,
        {
            let g: [u8; 5] = [b[pos], b[pos + 1], b[pos + 2], b[pos + 3], b[pos + 4]];
            let ghost rest = b@.skip(pos as int);
            assert(g@ =~= rest.take(5));
            assert(rest.skip(5) =~= b@.skip(pos + 5));
            let ghost before = out@;
            push_group(&mut out, &g, 8);
            assert(letters(quintets(g@)).take(8) =~= letters(quintets(g@)));
            assert(before + base32_text(rest) =~= out@ + base32_text(b@.skip(pos + 5)));
            pos += 5;
        }
        let r = n - pos;
        let mut g: [u8; 5] = [0u8; 5];
        let mut k: usize = 0;
        while k < r
            invariant
                r == n - pos,
                r < 5,
                k <= r,
                n == b@.len(),
                forall|j: int| 0 <= j < k ==> g@[j] == b@[pos + j],
                forall|j: int| k <= j < 5 ==> g@[j] == 0u8,
            decreases r - k,
        {
            g[k] = b[pos + k];
            k += 1;
        }
        let ghost rest = b@.skip(pos as int);
        assert(g@ =~= rest + Seq::new((5 - rest.len()) as nat, |i: int| 0u8));
        let t: usize = if r == 0 {
            0
        } else if r == 1 {
            2
        } else if r == 2 {
            4
        } else if r == 3 {
            5
        } else {
            7
        };
        push_group(&mut out, &g, t);
        out
    }

    /// Whether `self` sorts before `other`.
    pub fn before(&self, other: &Cid) -> (r: bool)
        ensures
            r == cid_lt(*self, *other),
    {
        digest_lt(&self.digest, &other.digest)
    }

    /// Whether `self` and `other` are the same content id.
    pub fn same_as(&self, other: &Cid) -> (r: bool)
        ensures
            r == (*self == *other),
    {
        let r = crate::bytes::bytes32_eq(&self.digest, &other.digest);
        proof {
            if r {
                assert(self.digest == other.digest);
            }
        }
        r
    }
}

} // verus!
