use vstd::prelude::*;
use vstd::string::StringSliceAdditionalSpecFns;
use vstd::string::StringExecFns;

use crate::hashing::{hash_sha256, sha256_of};

verus! {

/// Node identifier.
pub type NodeId = u32;

/// Ant agent identifier.
pub type AntId = u64;

/// Seconds since the Unix epoch.
pub type Timestamp = u64;

/// The value nodes try to agree on, known by the SHA-256 digest of its payload.
#[derive(Debug, Clone, Copy, PartialEq, Eq, Hash)]
pub struct ConsensusValue {
    pub hash: [u8; 32],
}

/// The lowercase hexadecimal digit for `n` (below 16).
pub open spec fn hex_digit(n: u8) -> char {
    if n < 10 {
        (('0' as u8) + n) as char
    } else {
        (('a' as u8) + (n - 10)) as char
    }
}

/// Two lowercase hexadecimal digits per byte, most significant first.
pub open spec fn hex_text(b: Seq<u8>) -> Seq<char>
    decreases b.len(),
{
    if b.len() == 0 {
        Seq::empty()
    } else {
        let last = b.last();
        hex_text(b.drop_last()) + seq![hex_digit(last / 16), hex_digit(last % 16)]
    }
}

fn hex_digit_str(n: u8) -> (r: &'static str)
    requires
        n < 16,
    ensures
        r@ == seq![hex_digit(n)],
{
    proof {
        reveal_strlit("0");
        reveal_strlit("1");
        reveal_strlit("2");
        reveal_strlit("3");
        reveal_strlit("4");
        reveal_strlit("5");
        reveal_strlit("6");
        reveal_strlit("7");
        reveal_strlit("8");
        reveal_strlit("9");
        reveal_strlit("a");
        reveal_strlit("b");
        reveal_strlit("c");
        reveal_strlit("d");
        reveal_strlit("e");
        reveal_strlit("f");
    }
    let r = match n {
        0 => "0",
        1 => "1",
        2 => "2",
        3 => "3",
        4 => "4",
        5 => "5",
        6 => "6",
        7 => "7",
        8 => "8",
        9 => "9",
        10 => "a",
        11 => "b",
        12 => "c",
        13 => "d",
        14 => "e",
        _ => "f",
    };
    assert(r@ =~= seq![hex_digit(n)]);
    r
}

impl ConsensusValue {
    /// The value whose payload is `data`.
    pub fn from_bytes(data: &[u8]) -> (r: Self)
        ensures
            r.hash@ == sha256_of(data@),
    {
        ConsensusValue { hash: hash_sha256(data) }
    }

    /// The value whose payload is the UTF-8 bytes of `s`.
    pub fn from_string(s: &str) -> (r: Self)
        ensures
            r.hash@ == sha256_of(s.spec_bytes()),
    {
        Self::from_bytes(s.as_bytes())
    }

    /// The digest as 64 lowercase hexadecimal digits.
    pub fn to_hex(&self) -> (r: String)
        ensures
            r@ == hex_text(self.hash@),
    {
        let mut out = String::new();
        let mut i: usize = 0;
        while i < 32
            invariant
                i <= 32,
                self.hash@.len() == 32,
                out@ == hex_text(self.hash@.subrange(0, i as int)),
            decreases 32 - i,
        {
            let b = self.hash[i];
            out.append(hex_digit_str(b / 16));
            out.append(hex_digit_str(b % 16));
            assert(self.hash@.subrange(0, i + 1).drop_last() =~= self.hash@.subrange(0, i as int));
            i = i + 1;
        }
        assert(self.hash@.subrange(0, 32) =~= self.hash@);
        out
    }

    /// Whether two values have the same digest.
    pub fn same_as(&self, other: &ConsensusValue) -> (r: bool)
        ensures
            r == (self.hash@ == other.hash@),
    {
        let mut i: usize = 0;
        while i < 32
            invariant
                i <= 32,
                self.hash@.len() == 32,
                other.hash@.len() == 32,
                self.hash@.subrange(0, i as int) =~= other.hash@.subrange(0, i as int),
            decreases 32 - i,
        {
            if self.hash[i] != other.hash[i] {
                assert(self.hash@[i as int] != other.hash@[i as int]);
                return false;
            }
            assert(self.hash@.subrange(0, i + 1) =~= other.hash@.subrange(0, i + 1));
            i = i + 1;
        }
        assert(self.hash@ =~= self.hash@.subrange(0, 32));
        assert(other.hash@ =~= other.hash@.subrange(0, 32));
        true
    }
}

/// Values built from the same payload are equal.
pub proof fn lemma_same_payload_same_value(a: ConsensusValue, b: ConsensusValue, payload: Seq<u8>)
    requires
        a.hash@ == sha256_of(payload),
        b.hash@ == sha256_of(payload),
    ensures
        a.hash@ == b.hash@,
{
}

/// What can go wrong in the consensus system.
#[derive(Debug)]
pub enum ConsensusError {
    Network(String),
    Crypto(String),
    InvalidMessage(String),
    Timeout,
    NodeNotFound(NodeId),
    Internal(String),
}

} // verus!
