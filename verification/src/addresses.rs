//! Deterministic derivation of the vault's two account addresses.
//!
//! The state account's address is derived from the tag `"state"` and the
//! owner's key; the funds account's address from the tag `"vault"` and the
//! state account's address. A derivation appends a one-byte *bump* to the
//! seeds; the canonical bump is the largest one (searched downward from 255)
//! for which the derived address is valid, i.e. off the signing curve, so
//! that no private key can ever control the account.

use vstd::prelude::*;

use crate::keys::Pubkey;

verus! {

/// What the ledger's address derivation returns for a seed list and a
/// program id: the derived address, or nothing when the candidate would be
/// a spendable (on-curve) key or the seeds are unusable.
pub uninterp spec fn derived_address(seeds: Seq<Seq<u8>>, program_id: Seq<u8>) -> Option<Seq<u8>>;

/// The seed list of one derivation: a domain tag, a parent key, and the
/// disambiguation bump.
pub open spec fn pda_seeds(tag: Seq<u8>, parent: Seq<u8>, bump: u8) -> Seq<Seq<u8>> {
    seq![tag, parent, seq![bump]]
}

/// The domain tag of the state account: the bytes of `"state"`.
pub open spec fn state_tag() -> Seq<u8> {
    seq![115u8, 116u8, 97u8, 116u8, 101u8]
}

/// The domain tag of the funds account: the bytes of `"vault"`.
pub open spec fn vault_tag() -> Seq<u8> {
    seq![118u8, 97u8, 117u8, 108u8, 116u8]
}

/// The id under which the vault program is deployed; every derivation is
/// relative to it.
pub open spec fn program_id_bytes() -> Seq<u8> {
    seq![
        243u8, 26u8, 19u8, 84u8, 243u8, 244u8, 138u8, 47u8,
        214u8, 173u8, 24u8, 174u8, 82u8, 16u8, 203u8, 110u8,
        209u8, 164u8, 221u8, 227u8, 106u8, 199u8, 198u8, 153u8,
        200u8, 244u8, 124u8, 55u8, 49u8, 118u8, 58u8, 246u8,
    ]
}

/// The bytes of `"state"` as a value.
pub fn state_tag_bytes() -> (r: Vec<u8>)
    ensures
        r@ == state_tag(),
{
    let mut v: Vec<u8> = Vec::new();
    v.push(115u8);
    v.push(116u8);
    v.push(97u8);
    v.push(116u8);
    v.push(101u8);
    proof {
        assert(v@ =~= state_tag());
    }
    v
}

/// The bytes of `"vault"` as a value.
pub fn vault_tag_bytes() -> (r: Vec<u8>)
    ensures
        r@ == vault_tag(),
{
    let mut v: Vec<u8> = Vec::new();
    v.push(118u8);
    v.push(97u8);
    v.push(117u8);
    v.push(108u8);
    v.push(116u8);
    proof {
        assert(v@ =~= vault_tag());
    }
    v
}

/// The program id as a key value.
pub fn program_id() -> (r: Pubkey)
    ensures
        r@ == program_id_bytes(),
{
    let r = Pubkey {
        bytes: [
            243u8, 26u8, 19u8, 84u8, 243u8, 244u8, 138u8, 47u8,
            214u8, 173u8, 24u8, 174u8, 82u8, 16u8, 203u8, 110u8,
            209u8, 164u8, 221u8, 227u8, 106u8, 199u8, 198u8, 153u8,
            200u8, 244u8, 124u8, 55u8, 49u8, 118u8, 58u8, 246u8,
        ],
    };
    proof {
        assert(r@ =~= program_id_bytes());
    }
    r
}

/// Relies on `Pubkey::create_program_address` (anchor_lang's re-export of
/// the ledger's address derivation): the result is a function of the seeds
/// and the program id alone; it is an error exactly when those seeds yield
/// no valid (off-curve) address.
#[verifier::external_body]
fn create_program_address_raw(tag: &Vec<u8>, parent: &Pubkey, bump: u8, program: &Pubkey) -> (r: Option<
    Pubkey,
>)
    ensures
        match r {
            Some(k) => derived_address(pda_seeds(tag@, parent@, bump), program@) == Some(k@),
            None => derived_address(pda_seeds(tag@, parent@, bump), program@) is None,
        },
{
    let pid = anchor_lang::prelude::Pubkey::new_from_array(program.bytes);
    let seeds: &[&[u8]] = &[tag.as_slice(), &parent.bytes, &[bump]];
    match anchor_lang::prelude::Pubkey::create_program_address(seeds, &pid) {
        Ok(k) => Some(Pubkey { bytes: k.to_bytes() }),
        Err(_) => None,
    }
}

/// Relies on `Pubkey::try_find_program_address` (anchor_lang's re-export):
/// it tries bumps from 255 down to 1 and returns the first whose derivation
/// succeeds, together with the derived address; `None` when no bump in that
/// range works.
#[verifier::external_body]
fn try_find_program_address_raw(tag: &Vec<u8>, parent: &Pubkey, program: &Pubkey) -> (r: Option<
    (Pubkey, u8),
>)
    ensures
        match r {
            Some(kb) => {
                &&& kb.1 >= 1
                &&& derived_address(pda_seeds(tag@, parent@, kb.1), program@) == Some(kb.0@)
                &&& forall|b: u8|
                    b > kb.1 ==> #[trigger] derived_address(
                        pda_seeds(tag@, parent@, b),
                        program@,
                    ) is None
            },
            None => forall|b: u8|
                b >= 1 ==> #[trigger] derived_address(pda_seeds(tag@, parent@, b), program@) is None,
        },
{
    let pid = anchor_lang::prelude::Pubkey::new_from_array(program.bytes);
    match anchor_lang::prelude::Pubkey::try_find_program_address(
        &[tag.as_slice(), &parent.bytes],
        &pid,
    ) {
        Some((k, b)) => Some((Pubkey { bytes: k.to_bytes() }, b)),
        None => None,
    }
}

/// Whether the derivation for this tag, parent and bump succeeds.
pub open spec fn derivation_ok(tag: Seq<u8>, parent: Seq<u8>, bump: u8) -> bool {
    derived_address(pda_seeds(tag, parent, bump), program_id_bytes()) is Some
}

/// The address the derivation yields for this tag, parent and bump.
pub open spec fn derivation_address(tag: Seq<u8>, parent: Seq<u8>, bump: u8) -> Seq<u8> {
    derived_address(pda_seeds(tag, parent, bump), program_id_bytes())->Some_0
}

/// Whether `bump` is the canonical bump for this tag and parent: the
/// largest bump in the searched range whose derivation succeeds.
pub open spec fn is_canonical_bump(tag: Seq<u8>, parent: Seq<u8>, bump: u8) -> bool {
    &&& bump >= 1
    &&& derivation_ok(tag, parent, bump)
    &&& forall|b: u8| b > bump ==> !#[trigger] derivation_ok(tag, parent, b)
}

/// Whether some bump in the searched range derives an address for this tag
/// and parent.
pub open spec fn canonically_derivable(tag: Seq<u8>, parent: Seq<u8>) -> bool {
    exists|b: u8| #[trigger] is_canonical_bump(tag, parent, b)
}

/// The canonical bump for this tag and parent.
pub open spec fn canonical_bump(tag: Seq<u8>, parent: Seq<u8>) -> u8 {
    choose|b: u8| is_canonical_bump(tag, parent, b)
}

/// The canonical bump is unique: any bump satisfying its definition is it.
pub proof fn lemma_canonical_bump_unique(tag: Seq<u8>, parent: Seq<u8>, bump: u8)
    requires
        is_canonical_bump(tag, parent, bump),
    ensures
        canonically_derivable(tag, parent),
        canonical_bump(tag, parent) == bump,
{
    assert(canonically_derivable(tag, parent));
    let b2 = canonical_bump(tag, parent);
    assert(is_canonical_bump(tag, parent, b2));
    if b2 > bump {
        assert(!derivation_ok(tag, parent, b2));
    } else if bump > b2 {
        assert(!derivation_ok(tag, parent, bump));
    }
}

/// Derives an address for a tag and parent by searching for the canonical
/// bump, as `initialize` does when it creates the two accounts.
pub fn derive_address(tag: &Vec<u8>, parent: &Pubkey) -> (r: Option<(Pubkey, u8)>)
    ensures
        match r {
            Some(kb) => {
                &&& is_canonical_bump(tag@, parent@, kb.1)
                &&& kb.1 == canonical_bump(tag@, parent@)
                &&& canonically_derivable(tag@, parent@)
                &&& kb.0@ == derivation_address(tag@, parent@, kb.1)
            },
            None => !canonically_derivable(tag@, parent@),
        },
{
    let pid = program_id();
    let found = try_find_program_address_raw(tag, parent, &pid);
    match found {
        Some((k, b)) => {
            proof {
                lemma_canonical_bump_unique(tag@, parent@, b);
            }
            Some((k, b))
        },
        None => {
            proof {
                assert forall|b: u8| !is_canonical_bump(tag@, parent@, b) by {
                    if b >= 1 {
                        assert(derived_address(
                            pda_seeds(tag@, parent@, b),
                            program_id_bytes(),
                        ) is None);
                    }
                }
            }
            None
        },
    }
}

/// Checks that `supplied` is exactly the address derived from this tag,
/// parent and recorded bump, as every operation after `initialize` must.
pub fn check_derived(tag: &Vec<u8>, parent: &Pubkey, bump: u8, supplied: &Pubkey) -> (r: bool)
    ensures
        r == (derivation_ok(tag@, parent@, bump) && derivation_address(tag@, parent@, bump)
            == supplied@),
{
    let pid = program_id();
    match create_program_address_raw(tag, parent, bump, &pid) {
        Some(k) => crate::keys::key_eq(&k, supplied),
        None => false,
    }
}

} // verus!
