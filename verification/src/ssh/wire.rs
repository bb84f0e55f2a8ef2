//! The length-prefixed byte strings of the SSH wire format.

use vstd::prelude::*;

verus! {

/// Bytes as a value, for the models of traits.
pub type Bytes = Seq<u8>;

/// `n` as four bytes, most significant first.
pub open spec fn be32(n: nat) -> Seq<u8> {
    seq![
        (n / 0x100_0000 % 0x100) as u8,
        (n / 0x1_0000 % 0x100) as u8,
        (n / 0x100 % 0x100) as u8,
        (n % 0x100) as u8,
    ]
}

/// `b` behind its length, which is taken modulo 2^32.
pub open spec fn ssh_string(b: Seq<u8>) -> Seq<u8> {
    be32(b.len()) + b
}

/// The four bytes of a length, which is taken modulo 2^32.
pub fn length_bytes(n: usize) -> (r: Vec<u8>)
    ensures
        r@ == be32(n as nat),
{
    let wide: u64 = n as u64;
    let mut v: Vec<u8> = Vec::new();
    v.push((wide / 0x100_0000 % 0x100) as u8);
    v.push((wide / 0x1_0000 % 0x100) as u8);
    v.push((wide / 0x100 % 0x100) as u8);
    v.push((wide % 0x100) as u8);
    assert(v@ =~= be32(n as nat));
    v
}

/// A copy of `b`.
pub fn copied(b: &[u8]) -> (r: Vec<u8>)
    ensures
        r@ == b@,
{
    let mut v: Vec<u8> = Vec::new();
    v.extend_from_slice(b);
    assert(v@ =~= b@);
    v
}

/// Whether two byte strings are equal.
pub fn same_bytes(a: &[u8], b: &[u8]) -> (r: bool)
    ensures
        r == (a@ == b@),
{
    if a.len() != b.len() {
        return false;
    }
    let mut i: usize = 0;
    while i < a.len()
        invariant
            a@.len() == b@.len(),
            i <= a@.len(),
            forall|k: int| 0 <= k < i ==> a@[k] == b@[k],
        decreases a@.len() - i,
    {
        if a[i] != b[i] {
            return false;
        }
        i = i + 1;
    }
    assert(a@ =~= b@);
    true
}

/// The number that bytes stand for, most significant first.
pub open spec fn big_endian(b: Seq<u8>) -> nat
    decreases b.len(),
{
    if b.len() == 0 {
        0
    } else {
        0x100 * big_endian(b.drop_last()) + b.last() as nat
    }
}

/// The four bytes of a number stand for the number, taken modulo 2^32.
pub proof fn be32_reads_back(n: nat)
    ensures
        be32(n).len() == 4,
        big_endian(be32(n)) == n % 0x1_0000_0000,
{
    let b = be32(n);
    let b3 = b.drop_last();
    let b2 = b3.drop_last();
    let b1 = b2.drop_last();
    assert(b1.drop_last() =~= Seq::<u8>::empty());
    assert(big_endian(b1.drop_last()) == 0);
    assert(big_endian(b1) == b[0] as nat);
    assert(big_endian(b2) == 0x100 * b[0] as nat + b[1] as nat);
    assert(big_endian(b3) == 0x1_0000 * b[0] as nat + 0x100 * b[1] as nat + b[2] as nat);
    let q1 = n / 0x100;
    let q2 = q1 / 0x100;
    let q3 = q2 / 0x100;
    let q4 = q3 / 0x100;
    assert(n / 0x1_0000 == q2);
    assert(n / 0x100_0000 == q3);
    assert(n == 0x1_0000_0000 * q4 + 0x100_0000 * (q3 % 0x100) + 0x1_0000 * (q2 % 0x100) + 0x100 * (
    q1 % 0x100) + n % 0x100);
    assert(b[0] as nat == q3 % 0x100);
    assert(b[1] as nat == q2 % 0x100);
    assert(b[2] as nat == q1 % 0x100);
    assert(b[3] as nat == n % 0x100);
}

/// A wire string is four bytes that stand for the length of what follows, and then the bytes.
pub proof fn a_wire_string_tells_its_length(b: Seq<u8>)
    ensures
        ssh_string(b).len() == 4 + b.len(),
        big_endian(ssh_string(b).take(4)) == b.len() % 0x1_0000_0000,
        ssh_string(b).skip(4) == b,
{
    be32_reads_back(b.len());
    assert(ssh_string(b).take(4) =~= be32(b.len()));
    assert(ssh_string(b).skip(4) =~= b);
}

} // verus!
