use vstd::prelude::*;

verus! {

/// One observed block of the chain: its height, its 32-byte hash and its
/// production time in unix seconds.
#[derive(Clone, Copy, Debug)]
pub struct BlockRecord {
    pub number: u64,
    pub hash: [u8; 32],
    pub timestamp: u64,
}

/// Whether two hashes hold the same bytes, compared one by one.
pub fn hashes_equal(a: &[u8; 32], b: &[u8; 32]) -> (r: bool)
    ensures
        r == (a@ == b@),
{
    let mut i: usize = 0;
    while i < 32
        invariant
            0 <= i <= 32,
            a@.len() == 32,
            b@.len() == 32,
            forall|j: int| 0 <= j < i ==> a@[j] == b@[j],
        decreases 32 - i,
    {
        if a[i] != b[i] {
            return false;
        }
        i = i + 1;
    }
    assert(a@ =~= b@);
    true
}

/// The lower-case hexadecimal digit of a value below 16.
pub open spec fn hex_digit(n: int) -> char {
    "0123456789abcdef"@[n]
}

/// Two lower-case hexadecimal digits for each byte, high half first.
pub open spec fn hex_of_bytes(s: Seq<u8>) -> Seq<char>
    decreases s.len(),
{
    if s.len() == 0 {
        Seq::empty()
    } else {
        let last = s.last() as int;
        hex_of_bytes(s.drop_last()) + seq![hex_digit(last / 16), hex_digit(last % 16)]
    }
}

/// A hash as `0x` followed by its 64 lower-case hexadecimal digits.
pub fn hash_hex(hash: &[u8; 32]) -> (r: String)
    ensures
        r@ == "0x"@ + hex_of_bytes(hash@),
{
    let digits = "0123456789abcdef";
    proof {
        reveal_strlit("0123456789abcdef");
    }
    let mut out = String::from_str("0x");
    let mut i: usize = 0;
    while i < 32
        invariant
            0 <= i <= 32,
            hash@.len() == 32,
            digits@ == "0123456789abcdef"@,
            digits@.len() == 16,
            out@ == "0x"@ + hex_of_bytes(hash@.subrange(0, i as int)),
        decreases 32 - i,
    {
        let b = hash[i];
        let hi: usize = (b / 16) as usize;
        let lo: usize = (b % 16) as usize;
        out.append(digits.substring_char(hi, hi + 1));
        out.append(digits.substring_char(lo, lo + 1));
        proof {
            assert(hash@.subrange(0, i + 1).drop_last() =~= hash@.subrange(0, i as int));
            assert(hash@.subrange(0, i + 1).last() == b);
        }
        i = i + 1;
        assert(out@ =~= "0x"@ + hex_of_bytes(hash@.subrange(0, i as int)));
    }
    assert(hash@.subrange(0, 32) =~= hash@);
    out
}

impl PartialEq for BlockRecord {
    fn eq(&self, o: &BlockRecord) -> (r: bool) {
        self.number == o.number && self.timestamp == o.timestamp && hashes_equal(&self.hash, &o.hash)
    }
}

impl vstd::std_specs::cmp::PartialEqSpecImpl for BlockRecord {
    open spec fn obeys_eq_spec() -> bool {
        true
    }

    open spec fn eq_spec(&self, o: &BlockRecord) -> bool {
        self.number == o.number && self.hash@ == o.hash@ && self.timestamp == o.timestamp
    }
}

impl Eq for BlockRecord {
}

} // verus!
