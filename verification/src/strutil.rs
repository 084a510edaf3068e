use vstd::prelude::*;
use vstd::string::*;

verus! {

broadcast use
    vstd::seq_lib::lemma_seq_skip_index,
    vstd::seq_lib::lemma_seq_skip_len,
    vstd::seq_lib::lemma_seq_skip_nothing;

/// ASCII lower-casing of one byte, as `u8::to_ascii_lowercase` defines it:
/// `b'A'..=b'Z'` shift down by 32, everything else is unchanged.
pub open spec fn lower_byte(b: u8) -> u8 {
    if 65 <= b && b <= 90 {
        (b + 32) as u8
    } else {
        b
    }
}

fn to_lower_byte(b: u8) -> (r: u8)
    ensures
        r == lower_byte(b),
{
    if 65 <= b && b <= 90 {
        b + 32
    } else {
        b
    }
}

/// Two byte sequences are equal once ASCII case is ignored.
pub open spec fn bytes_eq_ignore_case(a: Seq<u8>, b: Seq<u8>) -> bool {
    a.len() == b.len() && (forall|i: int| 0 <= i < a.len() ==> lower_byte(a[i]) == lower_byte(b[i]))
}

/// Case-insensitive equality on the UTF-8 bytes of two string slices,
/// matching what `str::eq_ignore_ascii_case` computes.
pub fn eq_ignore_case(a: &str, b: &str) -> (r: bool)
    ensures
        r == bytes_eq_ignore_case(a.spec_bytes(), b.spec_bytes()),
{
    let ab = a.as_bytes();
    let bb = b.as_bytes();
    if ab.len() != bb.len() {
        return false;
    }
    let mut i: usize = 0;
    while i < ab.len()
        invariant
            ab@ == a.spec_bytes(),
            bb@ == b.spec_bytes(),
            ab@.len() == bb@.len(),
            0 <= i <= ab@.len(),
            forall|j: int| 0 <= j < i ==> lower_byte(ab@[j]) == lower_byte(bb@[j]),
        decreases ab@.len() - i,
    {
        if to_lower_byte(ab[i]) != to_lower_byte(bb[i]) {
            return false;
        }
        i = i + 1;
    }
    true
}

/// Byte-wise equality of two string slices.
pub fn str_bytes_eq(a: &str, b: &str) -> (r: bool)
    ensures
        r == (a.spec_bytes() == b.spec_bytes()),
{
    let ab = a.as_bytes();
    let bb = b.as_bytes();
    if ab.len() != bb.len() {
        return false;
    }
    let mut i: usize = 0;
    while i < ab.len()
        invariant
            ab@ == a.spec_bytes(),
            bb@ == b.spec_bytes(),
            ab@.len() == bb@.len(),
            0 <= i <= ab@.len(),
            forall|j: int| 0 <= j < i ==> ab@[j] == bb@[j],
        decreases ab@.len() - i,
    {
        if ab[i] != bb[i] {
            return false;
        }
        i = i + 1;
    }
    proof {
        assert(a.spec_bytes() =~= b.spec_bytes());
    }
    true
}

/// Lexicographic "less than or equal" on byte sequences: the empty sequence
/// comes first, otherwise the first differing byte decides, and a proper
/// prefix precedes its extensions.
pub open spec fn bytes_le(a: Seq<u8>, b: Seq<u8>) -> bool
    decreases a.len(),
{
    if a.len() == 0 {
        true
    } else if b.len() == 0 {
        false
    } else if a[0] < b[0] {
        true
    } else if a[0] > b[0] {
        false
    } else {
        bytes_le(a.skip(1), b.skip(1))
    }
}

/// The lexicographic order is total.
pub proof fn lemma_bytes_le_total(a: Seq<u8>, b: Seq<u8>)
    ensures
        bytes_le(a, b) || bytes_le(b, a),
    decreases a.len(),
{
    if a.len() != 0 && b.len() != 0 && a[0] == b[0] {
        lemma_bytes_le_total(a.skip(1), b.skip(1));
    }
}

/// The lexicographic order is antisymmetric.
pub proof fn lemma_bytes_le_antisym(a: Seq<u8>, b: Seq<u8>)
    requires
        bytes_le(a, b),
        bytes_le(b, a),
    ensures
        a == b,
    decreases a.len(),
{
    if a.len() == 0 {
        assert(b.len() == 0);
        assert(a =~= b);
    } else {
        assert(b.len() != 0);
        assert(a[0] == b[0]);
        lemma_bytes_le_antisym(a.skip(1), b.skip(1));
        assert(a.skip(1).len() == a.len() - 1);
        assert(b.skip(1).len() == b.len() - 1);
        assert(a.len() == b.len());
        assert forall|i: int| 0 <= i < a.len() implies a[i] == b[i] by {
            if i > 0 {
                assert(a.skip(1)[i - 1] == a[i]);
                assert(b.skip(1)[i - 1] == b[i]);
            }
        }
        assert(a =~= b);
    }
}

proof fn lemma_bytes_le_skip(a: Seq<u8>, b: Seq<u8>, i: int)
    requires
        0 <= i <= a.len(),
        i <= b.len(),
        forall|j: int| 0 <= j < i ==> a[j] == b[j],
    ensures
        bytes_le(a, b) == bytes_le(a.skip(i), b.skip(i)),
    decreases i,
{
    if i > 0 {
        assert(a.len() > 0 && b.len() > 0);
        assert(a[0] == b[0]);
        assert(forall|j: int| 0 <= j < i - 1 ==> a.skip(1)[j] == b.skip(1)[j]);
        lemma_bytes_le_skip(a.skip(1), b.skip(1), i - 1);
        assert(a.skip(1).skip(i - 1) =~= a.skip(i));
        assert(b.skip(1).skip(i - 1) =~= b.skip(i));
        assert(bytes_le(a, b) == bytes_le(a.skip(1), b.skip(1)));
    }
}

/// Lexicographic comparison of two string slices by their UTF-8 bytes.
pub fn str_le(a: &str, b: &str) -> (r: bool)
    ensures
        r == bytes_le(a.spec_bytes(), b.spec_bytes()),
{
    let ab = a.as_bytes();
    let bb = b.as_bytes();
    let n = if ab.len() < bb.len() {
        ab.len()
    } else {
        bb.len()
    };
    let mut i: usize = 0;
    while i < n
        invariant
            ab@ == a.spec_bytes(),
            bb@ == b.spec_bytes(),
            n <= ab@.len(),
            n <= bb@.len(),
            n == ab@.len() || n == bb@.len(),
            0 <= i <= n,
            forall|j: int| 0 <= j < i ==> ab@[j] == bb@[j],
        decreases n - i,
    {
        if ab[i] < bb[i] {
            proof {
                lemma_bytes_le_skip(ab@, bb@, i as int);
                assert(ab@.skip(i as int)[0] == ab@[i as int]);
                assert(bb@.skip(i as int)[0] == bb@[i as int]);
            }
            return true;
        }
        if ab[i] > bb[i] {
            proof {
                lemma_bytes_le_skip(ab@, bb@, i as int);
                assert(ab@.skip(i as int)[0] == ab@[i as int]);
                assert(bb@.skip(i as int)[0] == bb@[i as int]);
            }
            return false;
        }
        i = i + 1;
    }
    proof {
        lemma_bytes_le_skip(ab@, bb@, n as int);
    }
    ab.len() <= bb.len()
}

} // verus!
