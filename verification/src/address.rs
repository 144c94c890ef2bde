//! The address scheme: storage addresses are 32-byte values derived
//! deterministically from an ordered list of seed byte-strings plus the
//! owning program's identity.

use vstd::prelude::*;

use crate::bytes::{u64_be_bytes, u64_be_vec};
use crate::host::{derived_address, find_derived_address};

verus! {

/// A 32-byte storage address or identity in the shared account space.
#[derive(Clone, Copy, Debug)]
pub struct Address {
    pub bytes: [u8; 32],
}

impl View for Address {
    type V = Seq<u8>;

    open spec fn view(&self) -> Seq<u8> {
        self.bytes@
    }
}

impl Address {
    /// Two addresses are the same exactly when their 32 bytes agree.
    pub fn equals(&self, other: &Address) -> (r: bool)
        ensures
            r <==> self@ == other@,
    {
        let mut i: usize = 0;
        while i < 32
            invariant
                i <= 32,
                forall|j: int| 0 <= j < i ==> self.bytes[j] == other.bytes[j],
            decreases 32 - i,
        {
            if self.bytes[i] != other.bytes[i] {
                assert(self@[i as int] != other@[i as int]);
                return false;
            }
            i += 1;
        }
        proof {
            assert(self@ =~= other@);
        }
        true
    }

    /// The address as a fresh byte vector, for use as a derivation seed.
    pub fn to_seed(&self) -> (r: Vec<u8>)
        ensures
            r@ == self@,
    {
        let mut v: Vec<u8> = Vec::new();
        let mut i: usize = 0;
        while i < 32
            invariant
                i <= 32,
                v@ == self.bytes@.subrange(0, i as int),
            decreases 32 - i,
        {
            v.push(self.bytes[i]);
            i += 1;
            proof {
                assert(v@ =~= self.bytes@.subrange(0, i as int));
            }
        }
        proof {
            assert(v@ =~= self@);
        }
        v
    }
}

/// The fixed tag that derives a review's comment counter (the bytes of
/// `"comment"`).
pub open spec fn comment_counter_tag() -> Seq<u8> {
    seq![0x63u8, 0x6fu8, 0x6du8, 0x6du8, 0x65u8, 0x6eu8, 0x74u8]
}

/// The fixed tag that derives the singleton mint (the bytes of
/// `"token_mint"`).
pub open spec fn mint_tag() -> Seq<u8> {
    seq![0x74u8, 0x6fu8, 0x6bu8, 0x65u8, 0x6eu8, 0x5fu8, 0x6du8, 0x69u8, 0x6eu8, 0x74u8]
}

/// The fixed tag that derives the singleton mint authority (the bytes of
/// `"token_auth"`).
pub open spec fn mint_authority_tag() -> Seq<u8> {
    seq![0x74u8, 0x6fu8, 0x6bu8, 0x65u8, 0x6eu8, 0x5fu8, 0x61u8, 0x75u8, 0x74u8, 0x68u8]
}

pub fn comment_counter_tag_bytes() -> (r: Vec<u8>)
    ensures
        r@ == comment_counter_tag(),
{
    let mut v: Vec<u8> = Vec::new();
    v.push(0x63);
    v.push(0x6f);
    v.push(0x6d);
    v.push(0x6d);
    v.push(0x65);
    v.push(0x6e);
    v.push(0x74);
    proof {
        assert(v@ =~= comment_counter_tag());
    }
    v
}

pub fn mint_tag_bytes() -> (r: Vec<u8>)
    ensures
        r@ == mint_tag(),
{
    let mut v: Vec<u8> = Vec::new();
    v.push(0x74);
    v.push(0x6f);
    v.push(0x6b);
    v.push(0x65);
    v.push(0x6e);
    v.push(0x5f);
    v.push(0x6d);
    v.push(0x69);
    v.push(0x6e);
    v.push(0x74);
    proof {
        assert(v@ =~= mint_tag());
    }
    v
}

pub fn mint_authority_tag_bytes() -> (r: Vec<u8>)
    ensures
        r@ == mint_authority_tag(),
{
    let mut v: Vec<u8> = Vec::new();
    v.push(0x74);
    v.push(0x6f);
    v.push(0x6b);
    v.push(0x65);
    v.push(0x6e);
    v.push(0x5f);
    v.push(0x61);
    v.push(0x75);
    v.push(0x74);
    v.push(0x68);
    proof {
        assert(v@ =~= mint_authority_tag());
    }
    v
}

/// Seeds of a review cell: the author identity and the review's name.
pub open spec fn review_seed_views(author: Seq<u8>, name: Seq<u8>) -> Seq<Seq<u8>> {
    seq![author, name]
}

/// Seeds of a review's comment counter cell.
pub open spec fn counter_seed_views(review: Seq<u8>) -> Seq<Seq<u8>> {
    seq![review, comment_counter_tag()]
}

/// Seeds of the comment cell with ordering value `count`.
pub open spec fn comment_seed_views(review: Seq<u8>, count: u64) -> Seq<Seq<u8>> {
    seq![review, u64_be_bytes(count)]
}

/// Seeds of the singleton mint cell.
pub open spec fn mint_seed_views() -> Seq<Seq<u8>> {
    seq![mint_tag()]
}

/// Seeds of the singleton mint authority.
pub open spec fn mint_authority_seed_views() -> Seq<Seq<u8>> {
    seq![mint_authority_tag()]
}

/// Derives the storage address of the review `(author, name)`.
pub fn derive_review_address(program_id: &Address, author: &Address, name: &Vec<u8>) -> (r: Option<
    (Address, u8),
>)
    ensures
        match r {
            Some((a, b)) => derived_address(review_seed_views(author@, name@), program_id@)
                == Some((a@, b)),
            None => derived_address(review_seed_views(author@, name@), program_id@) is None,
        },
{
    let mut seeds: Vec<Vec<u8>> = Vec::new();
    seeds.push(author.to_seed());
    seeds.push(crate::bytes::copy_range(name, 0, name.len()));
    proof {
        assert(name@.subrange(0, name@.len() as int) =~= name@);
        assert(seeds@.map_values(|s: Vec<u8>| s@) =~= review_seed_views(author@, name@));
    }
    find_derived_address(&seeds, program_id)
}

/// Derives the comment counter address of a review.
pub fn derive_counter_address(program_id: &Address, review: &Address) -> (r: Option<(Address, u8)>)
    ensures
        match r {
            Some((a, b)) => derived_address(counter_seed_views(review@), program_id@) == Some(
                (a@, b),
            ),
            None => derived_address(counter_seed_views(review@), program_id@) is None,
        },
{
    let mut seeds: Vec<Vec<u8>> = Vec::new();
    seeds.push(review.to_seed());
    seeds.push(comment_counter_tag_bytes());
    proof {
        assert(seeds@.map_values(|s: Vec<u8>| s@) =~= counter_seed_views(review@));
    }
    find_derived_address(&seeds, program_id)
}

/// Derives the address of the comment with ordering value `count`.
pub fn derive_comment_address(program_id: &Address, review: &Address, count: u64) -> (r: Option<
    (Address, u8),
>)
    ensures
        match r {
            Some((a, b)) => derived_address(comment_seed_views(review@, count), program_id@)
                == Some((a@, b)),
            None => derived_address(comment_seed_views(review@, count), program_id@) is None,
        },
{
    let mut seeds: Vec<Vec<u8>> = Vec::new();
    seeds.push(review.to_seed());
    seeds.push(u64_be_vec(count));
    proof {
        assert(seeds@.map_values(|s: Vec<u8>| s@) =~= comment_seed_views(review@, count));
    }
    find_derived_address(&seeds, program_id)
}

/// Derives the canonical singleton mint address.
pub fn derive_mint_address(program_id: &Address) -> (r: Option<(Address, u8)>)
    ensures
        match r {
            Some((a, b)) => derived_address(mint_seed_views(), program_id@) == Some((a@, b)),
            None => derived_address(mint_seed_views(), program_id@) is None,
        },
{
    let mut seeds: Vec<Vec<u8>> = Vec::new();
    seeds.push(mint_tag_bytes());
    proof {
        assert(seeds@.map_values(|s: Vec<u8>| s@) =~= mint_seed_views());
    }
    find_derived_address(&seeds, program_id)
}

/// Derives the canonical associated token account of a wallet for a mint:
/// the only destination the reward minter will ever be pointed at.
pub fn derive_associated_token_account(wallet: &Address, mint: &Address) -> (r: Address)
    ensures
        r@ == crate::host::associated_token_address(wallet@, mint@),
{
    crate::host::find_associated_token_address(wallet, mint)
}

/// Derives the canonical singleton mint authority address: a keyless
/// identity this program can sign for by presenting the same seeds.
pub fn derive_mint_authority_address(program_id: &Address) -> (r: Option<(Address, u8)>)
    ensures
        match r {
            Some((a, b)) => derived_address(mint_authority_seed_views(), program_id@) == Some(
                (a@, b),
            ),
            None => derived_address(mint_authority_seed_views(), program_id@) is None,
        },
{
    let mut seeds: Vec<Vec<u8>> = Vec::new();
    seeds.push(mint_authority_tag_bytes());
    proof {
        assert(seeds@.map_values(|s: Vec<u8>| s@) =~= mint_authority_seed_views());
    }
    find_derived_address(&seeds, program_id)
}

} // verus!
