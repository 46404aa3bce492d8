//! Ledger addresses and the deterministic derivation of record locations.

use vstd::prelude::*;
use anchor_lang::prelude::Pubkey;

verus! {

/// A 32-byte ledger address: the identity of an owner, the identity of the
/// program, or the location of a record.
#[derive(Clone, Copy, Debug, PartialEq, Eq, Hash)]
pub struct Address {
    pub bytes: [u8; 32],
}

impl View for Address {
    type V = Seq<u8>;

    open spec fn view(&self) -> Seq<u8> {
        self.bytes@
    }
}

/// The namespace tag of profile records: the ASCII text `USER_STATE`.
pub open spec fn user_tag_bytes() -> Seq<u8> {
    seq![85u8, 83u8, 69u8, 82u8, 95u8, 83u8, 84u8, 65u8, 84u8, 69u8]
}

/// The namespace tag of todo records: the ASCII text `TODO_STATE`.
pub open spec fn todo_tag_bytes() -> Seq<u8> {
    seq![84u8, 79u8, 68u8, 79u8, 95u8, 83u8, 84u8, 65u8, 84u8, 69u8]
}

/// The bytes of the identity under which this program is deployed.
pub open spec fn program_id_bytes() -> Seq<u8> {
    seq![
        26u8, 208u8, 159u8, 67u8, 20u8, 220u8, 56u8, 143u8,
        36u8, 224u8, 161u8, 19u8, 102u8, 61u8, 196u8, 109u8,
        7u8, 235u8, 231u8, 247u8, 40u8, 167u8, 86u8, 145u8,
        33u8, 144u8, 205u8, 58u8, 79u8, 97u8, 136u8, 248u8,
    ]
}

/// The seed list that locates the profile record of `owner`.
pub open spec fn user_profile_seeds(owner: Seq<u8>) -> Seq<Seq<u8>> {
    seq![user_tag_bytes(), owner]
}

/// The seed list that locates the todo record of `owner` with index `idx`.
pub open spec fn todo_seeds(owner: Seq<u8>, idx: u8) -> Seq<Seq<u8>> {
    seq![todo_tag_bytes(), owner, seq![idx]]
}

/// The byte strings held by a list of seeds.
pub open spec fn seeds_view(seeds: Seq<&[u8]>) -> Seq<Seq<u8>> {
    seeds.map_values(|s: &[u8]| s@)
}

/// An optional address with its nonce, by the bytes of the address.
pub open spec fn derived_view(d: Option<(Address, u8)>) -> Option<(Seq<u8>, u8)> {
    match d {
        Some((a, nonce)) => Some((a@, nonce)),
        None => None,
    }
}

/// The program-derived address and nonce that the ledger runtime assigns to a
/// seed list under a program identity, or `None` where it assigns none.
pub uninterp spec fn program_address(seeds: Seq<Seq<u8>>, program_id: Seq<u8>) -> Option<(Seq<u8>, u8)>;

/// The location and nonce of the profile record of `owner`.
pub open spec fn user_profile_location(owner: Seq<u8>) -> Option<(Seq<u8>, u8)> {
    program_address(user_profile_seeds(owner), program_id_bytes())
}

/// The location and nonce of the todo record of `owner` with index `idx`.
pub open spec fn todo_location(owner: Seq<u8>, idx: u8) -> Option<(Seq<u8>, u8)> {
    program_address(todo_seeds(owner, idx), program_id_bytes())
}

/// Calls `Pubkey::try_find_program_address` of `anchor_lang` (the address type
/// of `solana_address`). Trusted: the result is a function of the seed bytes
/// and the program identity alone, named `program_address`; nothing else is
/// claimed of it. The outside function returns `None` rather than panic when
/// the seeds are too many or too long or when no nonce gives an address.
#[verifier::external_body]
fn find_program_address(seeds: &Vec<&[u8]>, program_id: &Address) -> (r: Option<(Address, u8)>)
    ensures
        derived_view(r) == program_address(seeds_view(seeds@), program_id@),
{
    match Pubkey::try_find_program_address(seeds, &Pubkey::new_from_array(program_id.bytes)) {
        Some((key, nonce)) => Some((Address { bytes: key.to_bytes() }, nonce)),
        None => None,
    }
}

impl Address {
    /// Whether two addresses hold the same bytes.
    pub fn same(&self, other: &Address) -> (r: bool)
        ensures
            r == (self@ == other@),
    {
        let mut i: usize = 0;
        while i < 32
            invariant
                i <= 32,
                forall|j: int| 0 <= j < i ==> self.bytes@[j] == other.bytes@[j],
            decreases 32 - i,
        {
            if self.bytes[i] != other.bytes[i] {
                assert(self@[i as int] != other@[i as int]);
                return false;
            }
            i += 1;
        }
        assert(self@ =~= other@);
        true
    }

    /// The bytes of the address as a seed.
    pub fn to_seed(&self) -> (r: Vec<u8>)
        ensures
            r@ == self@,
    {
        let mut out: Vec<u8> = Vec::new();
        let mut i: usize = 0;
        while i < 32
            invariant
                i <= 32,
                out@.len() == i,
                forall|j: int| 0 <= j < i ==> out@[j] == self.bytes@[j],
            decreases 32 - i,
        {
            out.push(self.bytes[i]);
            i += 1;
        }
        assert(out@ =~= self@);
        out
    }
}

/// The namespace tag of profile records.
pub fn user_tag() -> (r: Vec<u8>)
    ensures
        r@ == user_tag_bytes(),
{
    let r: Vec<u8> = vec![85u8, 83u8, 69u8, 82u8, 95u8, 83u8, 84u8, 65u8, 84u8, 69u8];
    assert(r@ =~= user_tag_bytes());
    r
}

/// The namespace tag of todo records.
pub fn todo_tag() -> (r: Vec<u8>)
    ensures
        r@ == todo_tag_bytes(),
{
    let r: Vec<u8> = vec![84u8, 79u8, 68u8, 79u8, 95u8, 83u8, 84u8, 65u8, 84u8, 69u8];
    assert(r@ =~= todo_tag_bytes());
    r
}

/// The identity under which this program is deployed.
pub fn program_id() -> (r: Address)
    ensures
        r@ == program_id_bytes(),
{
    let r = Address {
        bytes: [
            26u8, 208u8, 159u8, 67u8, 20u8, 220u8, 56u8, 143u8,
            36u8, 224u8, 161u8, 19u8, 102u8, 61u8, 196u8, 109u8,
            7u8, 235u8, 231u8, 247u8, 40u8, 167u8, 86u8, 145u8,
            33u8, 144u8, 205u8, 58u8, 79u8, 97u8, 136u8, 248u8,
        ],
    };
    assert(r@ =~= program_id_bytes());
    r
}

/// Derives the location of the profile record of `owner`, with its nonce.
/// `None` where the ledger runtime assigns no address to the seeds.
pub fn user_profile_address(owner: &Address) -> (r: Option<(Address, u8)>)
    ensures
        derived_view(r) == user_profile_location(owner@),
{
    let tag = user_tag();
    let who = owner.to_seed();
    let mut seeds: Vec<&[u8]> = Vec::new();
    seeds.push(tag.as_slice());
    seeds.push(who.as_slice());
    assert(seeds_view(seeds@) =~= user_profile_seeds(owner@));
    find_program_address(&seeds, &program_id())
}

/// Derives the location of the todo record of `owner` with index `idx`, with
/// its nonce. `None` where the ledger runtime assigns no address to the seeds.
pub fn todo_address(owner: &Address, idx: u8) -> (r: Option<(Address, u8)>)
    ensures
        derived_view(r) == todo_location(owner@, idx),
{
    let tag = todo_tag();
    let who = owner.to_seed();
    let mut index_seed: Vec<u8> = Vec::new();
    index_seed.push(idx);
    assert(index_seed@ =~= seq![idx]);
    let mut seeds: Vec<&[u8]> = Vec::new();
    seeds.push(tag.as_slice());
    seeds.push(who.as_slice());
    seeds.push(index_seed.as_slice());
    assert(seeds_view(seeds@) =~= todo_seeds(owner@, idx));
    find_program_address(&seeds, &program_id())
}

} // verus!
