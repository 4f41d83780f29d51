//! The persisted layout of the state account: a fixed-size record holding
//! the owner, the amount and both bumps, behind an eight-byte tag the host
//! uses to identify the record type.

use vstd::prelude::*;

use crate::keys::Pubkey;
use crate::vault::VaultState;

verus! {

broadcast use vstd::array::axiom_array_ext_equal;

/// The length of the whole record in bytes: the tag, the 32-byte owner, the
/// 8-byte amount and the two bumps.
pub const RECORD_LEN: usize = 50;

/// The record's type tag.
pub open spec fn record_tag() -> Seq<u8> {
    seq![228u8, 196u8, 82u8, 165u8, 98u8, 210u8, 235u8, 152u8]
}

/// The eight bytes of the amount, least significant first.
pub open spec fn u64_le(x: u64) -> Seq<u8> {
    seq![
        (x & 0xff) as u8,
        ((x >> 8) & 0xff) as u8,
        ((x >> 16) & 0xff) as u8,
        ((x >> 24) & 0xff) as u8,
        ((x >> 32) & 0xff) as u8,
        ((x >> 40) & 0xff) as u8,
        ((x >> 48) & 0xff) as u8,
        ((x >> 56) & 0xff) as u8,
    ]
}

/// The bytes of a state record: the tag, then the owner, the amount and the
/// two bumps.
pub open spec fn record_bytes(s: VaultState) -> Seq<u8> {
    record_tag() + s.vault_owner@ + u64_le(s.vault_amount) + seq![s.vault_bump, s.state_bump]
}

impl VaultState {
    /// Writes the record in its persisted layout.
    pub fn to_bytes(&self) -> (r: Vec<u8>)
        ensures
            r@ == record_bytes(*self),
            r@.len() == RECORD_LEN,
    {
        let mut v: Vec<u8> = Vec::new();
        v.push(228u8);
        v.push(196u8);
        v.push(82u8);
        v.push(165u8);
        v.push(98u8);
        v.push(210u8);
        v.push(235u8);
        v.push(152u8);
        proof {
            assert(v@ =~= record_tag());
        }
        let mut i: usize = 0;
        while i < 32
            invariant
                0 <= i <= 32,
                v@ =~= record_tag() + self.vault_owner@.take(i as int),
            decreases 32 - i,
        {
            v.push(self.vault_owner.bytes[i]);
            i += 1;
            proof {
                assert(v@ =~= record_tag() + self.vault_owner@.take(i as int));
            }
        }
        proof {
            assert(self.vault_owner@.take(32) =~= self.vault_owner@);
        }
        let x = self.vault_amount;
        v.push((x & 0xff) as u8);
        v.push(((x >> 8) & 0xff) as u8);
        v.push(((x >> 16) & 0xff) as u8);
        v.push(((x >> 24) & 0xff) as u8);
        v.push(((x >> 32) & 0xff) as u8);
        v.push(((x >> 40) & 0xff) as u8);
        v.push(((x >> 48) & 0xff) as u8);
        v.push(((x >> 56) & 0xff) as u8);
        v.push(self.vault_bump);
        v.push(self.state_bump);
        proof {
            assert(v@ =~= record_bytes(*self));
        }
        v
    }

    /// Reads a record back from its persisted layout: exactly the images of
    /// `to_bytes` are accepted.
    pub fn from_bytes(data: &[u8]) -> (r: Option<VaultState>)
        ensures
            match r {
                Some(s) => data@ == record_bytes(s),
                None => forall|s: VaultState| data@ != record_bytes(s),
            },
    {
        if data.len() != RECORD_LEN {
            proof {
                assert forall|s: VaultState| data@ != record_bytes(s) by {
                    assert(record_bytes(s).len() == RECORD_LEN);
                }
            }
            return None;
        }
        let tag: [u8; 8] = [228u8, 196u8, 82u8, 165u8, 98u8, 210u8, 235u8, 152u8];
        proof {
            assert(tag@ =~= record_tag());
        }
        let mut tag_ok = true;
        let mut i: usize = 0;
        while i < 8
            invariant
                0 <= i <= 8,
                tag@ =~= record_tag(),
                data@.len() == RECORD_LEN,
                tag_ok == forall|j: int| 0 <= j < i ==> data@[j] == record_tag()[j],
            decreases 8 - i,
        {
            if data[i] != tag[i] {
                tag_ok = false;
            }
            i += 1;
        }
        if !tag_ok {
            proof {
                assert forall|s: VaultState| data@ != record_bytes(s) by {
                    assert(forall|j: int| 0 <= j < 8 ==> record_bytes(s)[j] == record_tag()[j]);
                }
            }
            return None;
        }
        let mut owner: [u8; 32] = [0u8; 32];
        let mut i: usize = 0;
        while i < 32
            invariant
                0 <= i <= 32,
                data@.len() == RECORD_LEN,
                forall|j: int| 0 <= j < i ==> owner@[j] == data@[8 + j],
            decreases 32 - i,
        {
            owner[i] = data[8 + i];
            i += 1;
        }
        let amount = (data[40] as u64) | ((data[41] as u64) << 8) | ((data[42] as u64) << 16) | ((
        data[43] as u64) << 24) | ((data[44] as u64) << 32) | ((data[45] as u64) << 40) | ((
        data[46] as u64) << 48) | ((data[47] as u64) << 56);
        let s = VaultState {
            vault_owner: Pubkey { bytes: owner },
            vault_amount: amount,
            vault_bump: data[48],
            state_bump: data[49],
        };
        proof {
            lemma_u64_le_bytes_of(amount, data@.subrange(40, 48));
            assert(data@ =~= record_bytes(s));
        }
        Some(s)
    }
}

/// Eight bytes that recombine to `x` are exactly `x`'s little-endian bytes.
proof fn lemma_u64_le_bytes_of(x: u64, b: Seq<u8>)
    requires
        b.len() == 8,
        x == (b[0] as u64) | ((b[1] as u64) << 8) | ((b[2] as u64) << 16) | ((b[3] as u64) << 24)
            | ((b[4] as u64) << 32) | ((b[5] as u64) << 40) | ((b[6] as u64) << 48) | ((
        b[7] as u64) << 56),
    ensures
        u64_le(x) =~= b,
{
    let b0 = b[0];
    let b1 = b[1];
    let b2 = b[2];
    let b3 = b[3];
    let b4 = b[4];
    let b5 = b[5];
    let b6 = b[6];
    let b7 = b[7];
    let y = (b0 as u64) | ((b1 as u64) << 8) | ((b2 as u64) << 16) | ((b3 as u64) << 24) | ((
    b4 as u64) << 32) | ((b5 as u64) << 40) | ((b6 as u64) << 48) | ((b7 as u64) << 56);
    assert({
        let y2 = (b0 as u64) | ((b1 as u64) << 8) | ((b2 as u64) << 16) | ((b3 as u64) << 24) | ((
        b4 as u64) << 32) | ((b5 as u64) << 40) | ((b6 as u64) << 48) | ((b7 as u64) << 56);
        (y2 & 0xff) as u8 == b0 && ((y2 >> 8) & 0xff) as u8 == b1 && ((y2 >> 16) & 0xff) as u8 == b2
            && ((y2 >> 24) & 0xff) as u8 == b3 && ((y2 >> 32) & 0xff) as u8 == b4 && ((y2 >> 40)
            & 0xff) as u8 == b5 && ((y2 >> 48) & 0xff) as u8 == b6 && ((y2 >> 56) & 0xff) as u8
            == b7
    }) by (bit_vector);
    assert(u64_le(x) =~= b);
}

/// Two amounts with the same little-endian bytes are equal.
proof fn lemma_u64_le_agree(x: u64, y: u64)
    requires
        u64_le(x) == u64_le(y),
    ensures
        x == y,
{
    assert(u64_le(x)[0] == u64_le(y)[0]);
    assert(u64_le(x)[1] == u64_le(y)[1]);
    assert(u64_le(x)[2] == u64_le(y)[2]);
    assert(u64_le(x)[3] == u64_le(y)[3]);
    assert(u64_le(x)[4] == u64_le(y)[4]);
    assert(u64_le(x)[5] == u64_le(y)[5]);
    assert(u64_le(x)[6] == u64_le(y)[6]);
    assert(u64_le(x)[7] == u64_le(y)[7]);
    assert(((x & 0xff) as u8 == (y & 0xff) as u8 && ((x >> 8) & 0xff) as u8 == ((y >> 8)
        & 0xff) as u8 && ((x >> 16) & 0xff) as u8 == ((y >> 16) & 0xff) as u8 && ((x >> 24)
        & 0xff) as u8 == ((y >> 24) & 0xff) as u8 && ((x >> 32) & 0xff) as u8 == ((y >> 32)
        & 0xff) as u8 && ((x >> 40) & 0xff) as u8 == ((y >> 40) & 0xff) as u8 && ((x >> 48)
        & 0xff) as u8 == ((y >> 48) & 0xff) as u8 && ((x >> 56) & 0xff) as u8 == ((y >> 56)
        & 0xff) as u8) ==> x == y) by (bit_vector);
}

/// Law: the persisted record determines the state: two states with the same
/// record bytes are the same state, so reading a written record gives the
/// written state back.
pub proof fn lemma_record_round_trip(s: VaultState, data: Seq<u8>)
    requires
        data == record_bytes(s),
    ensures
        forall|s2: VaultState| data == record_bytes(s2) ==> s2 == s,
{
    assert forall|s2: VaultState| data == record_bytes(s2) implies s2 == s by {
        assert(s2.vault_owner@ =~= s.vault_owner@) by {
            assert forall|j: int| 0 <= j < 32 implies s2.vault_owner@[j] == s.vault_owner@[j] by {
                assert(record_bytes(s2)[8 + j] == s2.vault_owner@[j]);
                assert(record_bytes(s)[8 + j] == s.vault_owner@[j]);
            }
        }
        assert(s2.vault_owner.bytes == s.vault_owner.bytes);
        assert(u64_le(s2.vault_amount) =~= u64_le(s.vault_amount)) by {
            assert forall|j: int| 0 <= j < 8 implies u64_le(s2.vault_amount)[j] == u64_le(
                s.vault_amount,
            )[j] by {
                assert(record_bytes(s2)[40 + j] == u64_le(s2.vault_amount)[j]);
                assert(record_bytes(s)[40 + j] == u64_le(s.vault_amount)[j]);
            }
        }
        lemma_u64_le_agree(s2.vault_amount, s.vault_amount);
        assert(record_bytes(s2)[48] == s2.vault_bump && record_bytes(s)[48] == s.vault_bump);
        assert(record_bytes(s2)[49] == s2.state_bump && record_bytes(s)[49] == s.state_bump);
    }
}

} // verus!
