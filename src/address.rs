//! Account addresses and deterministic (program-derived) address computation.
use vstd::prelude::*;

verus! {

/// A 32-byte ledger address (an account key).
#[derive(Clone, Copy, Debug)]
pub struct Address {
    pub bytes: [u8; 32],
}

impl View for Address {
    type V = Seq<u8>;

    open spec fn view(&self) -> Seq<u8> {
        self.bytes@
    }
}

/// The derived address for `seeds` under `program`, with its bump seed,
/// or `None` where no valid address exists for them.
pub uninterp spec fn program_address(seeds: Seq<Seq<u8>>, program: Seq<u8>) -> Option<(Seq<u8>, u8)>;

/// The byte views of a list of seeds.
pub open spec fn seeds_view(seeds: Seq<Vec<u8>>) -> Seq<Seq<u8>> {
    seeds.map_values(|s: Vec<u8>| s@)
}

/// The view of a derivation result.
pub open spec fn derived_view(r: Option<(Address, u8)>) -> Option<(Seq<u8>, u8)> {
    match r {
        Some(p) => Some((p.0@, p.1)),
        None => None,
    }
}

/// Does `supplied` equal the address that a derivation produced?
pub open spec fn matches_derived(supplied: Seq<u8>, derived: Option<(Seq<u8>, u8)>) -> bool {
    match derived {
        Some(p) => p.0 == supplied,
        None => false,
    }
}

impl Address {
    pub fn new(bytes: [u8; 32]) -> (r: Address)
        ensures
            r@ == bytes@,
    {
        Address { bytes }
    }

    /// Byte-wise equality of two addresses.
    pub fn same_as(&self, other: &Address) -> (r: bool)
        ensures
            r == (self@ == other@),
    {
        let mut i: usize = 0;
        while i < 32
            invariant
                0 <= i <= 32,
                self@.len() == 32,
                other@.len() == 32,
                forall|j: int| 0 <= j < i ==> self@[j] == other@[j],
            decreases 32 - i,
        {
            if self.bytes[i] != other.bytes[i] {
                return false;
            }
            i = i + 1;
        }
        assert(self@ =~= other@);
        true
    }

    pub fn to_vec(&self) -> (r: Vec<u8>)
        ensures
            r@ == self@,
    {
        let mut v: Vec<u8> = Vec::new();
        let mut i: usize = 0;
        while i < 32
            invariant
                0 <= i <= 32,
                self@.len() == 32,
                v@ == self@.subrange(0, i as int),
            decreases 32 - i,
        {
            v.push(self.bytes[i]);
            i = i + 1;
            assert(v@ =~= self@.subrange(0, i as int));
        }
        assert(v@ =~= self@);
        v
    }
}

/// Relies on solana_program's `Pubkey::try_find_program_address`: a search for
/// the first bump seed that yields an off-curve address, a function of the
/// seeds and the program id alone.
#[verifier::external_body]
fn find_address(seeds: &Vec<Vec<u8>>, program_id: &Address) -> (r: Option<(Address, u8)>)
    ensures
        derived_view(r) == program_address(seeds_view(seeds@), program_id@),
{
    let slices: Vec<&[u8]> = seeds.iter().map(|s| s.as_slice()).collect();
    let program = solana_program::pubkey::Pubkey::new_from_array(program_id.bytes);
    solana_program::pubkey::Pubkey::try_find_program_address(&slices, &program)
        .map(|(key, bump)| (Address { bytes: key.to_bytes() }, bump))
}

/// The seed label of a per-authority vault.
pub open spec fn vault_label() -> Seq<u8> {
    seq![118u8, 97u8, 117u8, 108u8, 116u8]
}

/// The seed label of a per-buyer ticket record.
pub open spec fn ticket_label() -> Seq<u8> {
    seq![116u8, 105u8, 99u8, 107u8, 101u8, 116u8]
}

/// The seeds of the vault of `authority`.
pub open spec fn vault_seeds(authority: Seq<u8>) -> Seq<Seq<u8>> {
    seq![vault_label(), authority]
}

/// The seeds of the ticket record of `buyer` in the lottery at `lottery`.
pub open spec fn ticket_seeds(lottery: Seq<u8>, buyer: Seq<u8>) -> Seq<Seq<u8>> {
    seq![ticket_label(), lottery, buyer]
}

fn vault_label_bytes() -> (r: Vec<u8>)
    ensures
        r@ == vault_label(),
{
    let r: Vec<u8> = vec![118u8, 97u8, 117u8, 108u8, 116u8];
    assert(r@ =~= vault_label());
    r
}

fn ticket_label_bytes() -> (r: Vec<u8>)
    ensures
        r@ == ticket_label(),
{
    let r: Vec<u8> = vec![116u8, 105u8, 99u8, 107u8, 101u8, 116u8];
    assert(r@ =~= ticket_label());
    r
}

/// Derives the vault address of `authority`.
pub fn derive_vault(authority: &Address, program_id: &Address) -> (r: Option<(Address, u8)>)
    ensures
        derived_view(r) == program_address(vault_seeds(authority@), program_id@),
{
    let seeds: Vec<Vec<u8>> = vec![vault_label_bytes(), authority.to_vec()];
    assert(seeds_view(seeds@) =~= vault_seeds(authority@));
    find_address(&seeds, program_id)
}

/// Derives the ticket-record address of `buyer` in the lottery at `lottery`.
pub fn derive_ticket(lottery: &Address, buyer: &Address, program_id: &Address) -> (r: Option<(Address, u8)>)
    ensures
        derived_view(r) == program_address(ticket_seeds(lottery@, buyer@), program_id@),
{
    let seeds: Vec<Vec<u8>> = vec![ticket_label_bytes(), lottery.to_vec(), buyer.to_vec()];
    assert(seeds_view(seeds@) =~= ticket_seeds(lottery@, buyer@));
    find_address(&seeds, program_id)
}

/// Checks a supplied address against a derivation result.
pub fn is_derived(supplied: &Address, derived: &Option<(Address, u8)>) -> (r: bool)
    ensures
        r == matches_derived(supplied@, derived_view(*derived)),
{
    match derived {
        Some(p) => p.0.same_as(supplied),
        None => false,
    }
}

} // verus!
