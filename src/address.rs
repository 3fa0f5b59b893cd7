//! Account identities and deterministic custody-address derivation.

use vstd::prelude::*;

verus! {

/// A 32-byte account identity (a wallet, a token account or a derived
/// custody account).
#[derive(Clone, Copy, Debug, PartialEq, Eq)]
pub struct Address {
    pub bytes: [u8; 32],
}

impl Address {
    pub fn new(bytes: [u8; 32]) -> (r: Address)
        ensures
            r.bytes == bytes,
    {
        Address { bytes }
    }

    /// The all-zero address, used where no participant is set.
    pub fn zero() -> (r: Address)
        ensures
            forall|i: int| 0 <= i < 32 ==> #[trigger] r.bytes@[i] == 0u8,
    {
        Address { bytes: [0u8; 32] }
    }

    /// Byte-wise comparison of two identities.
    pub fn same_as(&self, other: &Address) -> (r: bool)
        ensures
            r == (*self == *other),
    {
        let mut i: usize = 0;
        while i < 32
            invariant
                i <= 32,
                forall|j: int| 0 <= j < i ==> self.bytes@[j] == other.bytes@[j],
            decreases 32 - i,
        {
            if self.bytes[i] != other.bytes[i] {
                return false;
            }
            i = i + 1;
        }
        proof {
            assert(self.bytes =~= other.bytes);
        }
        true
    }
}


/// The little-endian encoding of `x` on `n` bytes.
pub open spec fn le_bytes(x: nat, n: nat) -> Seq<u8>
    decreases n,
{
    if n == 0 {
        Seq::empty()
    } else {
        seq![(x % 256) as u8] + le_bytes(x / 256, (n - 1) as nat)
    }
}

/// The eight little-endian bytes of a 64-bit identifier, as used in seeds.
pub fn id_seed(x: u64) -> (r: Vec<u8>)
    ensures
        r@ == le_bytes(x as nat, 8),
{
    let mut out: Vec<u8> = Vec::new();
    let mut v: u64 = x;
    let mut i: usize = 0;
    while i < 8
        invariant
            i <= 8,
            out@ + le_bytes(v as nat, (8 - i) as nat) == le_bytes(x as nat, 8),
        decreases 8 - i,
    {
        let ghost before = out@;
        out.push((v % 256) as u8);
        proof {
            assert(le_bytes(v as nat, (8 - i) as nat) == seq![(v % 256) as u8] + le_bytes(
                (v / 256) as nat,
                (8 - i - 1) as nat,
            ));
            assert(out@ + le_bytes((v / 256) as nat, (8 - i - 1) as nat) =~= before + le_bytes(
                v as nat,
                (8 - i) as nat,
            ));
        }
        v = v / 256;
        i = i + 1;
    }
    proof {
        assert(out@ =~= out@ + le_bytes(v as nat, 0));
    }
    out
}


/// The seed prefix that separates one kind of derived account from another.
#[derive(Clone, Copy, Debug, PartialEq, Eq)]
pub enum SeedTag {
    /// `state`: a platform configuration.
    State,
    /// `game`: a wager or a game room.
    Game,
    /// `escrow`: the custody account of a wager or a game room.
    Escrow,
    /// `event`: a ticketed event.
    Event,
    /// `event_escrow`: the custody account of an event's revenue.
    EventEscrow,
    /// `registration`: an attendee's tickets for an event.
    Registration,
    /// `tip`: the record of one tip.
    Tip,
    /// `stats`: a user's tipping statistics.
    Stats,
    /// `config`: the subscription configuration.
    Config,
    /// `subscription`: a subscriber's subscription.
    Subscription,
    /// `payment_request`: one billing cycle's payment request.
    PaymentRequest,
}

/// The ASCII text of each seed prefix.
pub open spec fn tag_text(tag: SeedTag) -> Seq<u8> {
    match tag {
        SeedTag::State => seq![115u8, 116, 97, 116, 101],
        SeedTag::Game => seq![103u8, 97, 109, 101],
        SeedTag::Escrow => seq![101u8, 115, 99, 114, 111, 119],
        SeedTag::Event => seq![101u8, 118, 101, 110, 116],
        SeedTag::EventEscrow => seq![
            101u8, 118, 101, 110, 116, 95, 101, 115, 99, 114, 111, 119
        ],
        SeedTag::Registration => seq![
            114u8, 101, 103, 105, 115, 116, 114, 97, 116, 105, 111, 110
        ],
        SeedTag::Tip => seq![116u8, 105, 112],
        SeedTag::Stats => seq![115u8, 116, 97, 116, 115],
        SeedTag::Config => seq![99u8, 111, 110, 102, 105, 103],
        SeedTag::Subscription => seq![
            115u8, 117, 98, 115, 99, 114, 105, 112, 116, 105, 111, 110
        ],
        SeedTag::PaymentRequest => seq![
            112u8, 97, 121, 109, 101, 110, 116, 95, 114, 101, 113, 117, 101, 115, 116
        ],
    }
}

pub fn tag_bytes(tag: SeedTag) -> (r: Vec<u8>)
    ensures
        r@ == tag_text(tag),
{
    let r = match tag {
        SeedTag::State => vec![115u8, 116, 97, 116, 101],
        SeedTag::Game => vec![103u8, 97, 109, 101],
        SeedTag::Escrow => vec![101u8, 115, 99, 114, 111, 119],
        SeedTag::Event => vec![101u8, 118, 101, 110, 116],
        SeedTag::EventEscrow => vec![101u8, 118, 101, 110, 116, 95, 101, 115, 99, 114, 111, 119],
        SeedTag::Registration => vec![114u8, 101, 103, 105, 115, 116, 114, 97, 116, 105, 111, 110],
        SeedTag::Tip => vec![116u8, 105, 112],
        SeedTag::Stats => vec![115u8, 116, 97, 116, 115],
        SeedTag::Config => vec![99u8, 111, 110, 102, 105, 103],
        SeedTag::Subscription => vec![115u8, 117, 98, 115, 99, 114, 105, 112, 116, 105, 111, 110],
        SeedTag::PaymentRequest => vec![112u8, 97, 121, 109, 101, 110, 116, 95, 114, 101, 113, 117, 101, 115, 116],
    };
    proof {
        assert(r@ =~= tag_text(tag));
    }
    r
}


/// What `Pubkey::try_find_program_address` yields for the given seeds and
/// program id: the derived address and its bump, or nothing.
pub uninterp spec fn program_address(seeds: Seq<Seq<u8>>, program_id: Seq<u8>) -> Option<(Seq<u8>, u8)>;

/// The most seeds that a derivation takes, the bump included.
pub const MAX_SEEDS: usize = 16;

/// The longest seed, in bytes.
pub const MAX_SEED_LEN: usize = 32;

/// Whether a seed list can be handed to the derivation: fewer than
/// `MAX_SEEDS` seeds (the bump is appended), none longer than `MAX_SEED_LEN`.
pub open spec fn seeds_well_formed(seeds: Seq<Seq<u8>>) -> bool {
    &&& seeds.len() < MAX_SEEDS
    &&& forall|i: int| 0 <= i < seeds.len() ==> #[trigger] seeds[i].len() <= MAX_SEED_LEN
}

pub open spec fn seeds_view(seeds: Seq<Vec<u8>>) -> Seq<Seq<u8>> {
    seeds.map_values(|s: Vec<u8>| s@)
}

/// Relies on `Pubkey::try_find_program_address` of solana-program (re-exported
/// by anchor-lang): it searches the bumps from 255 down for a hash of the
/// seeds, the bump, the program id and a fixed marker that is off the ed25519
/// curve; the outcome depends on its arguments alone, and it returns `None`
/// when the seeds with the bump appended exceed the limits.
#[verifier::external_body]
fn find_program_address(seeds: &Vec<Vec<u8>>, program_id: &Address) -> (r: Option<(Address, u8)>)
    ensures
        !seeds_well_formed(seeds_view(seeds@)) ==> r is None,
        program_address(seeds_view(seeds@), program_id.bytes@) == (match r {
            Some(found) => Some((found.0.bytes@, found.1)),
            None => None,
        }),
{
    let refs: Vec<&[u8]> = seeds.iter().map(|s| s.as_slice()).collect();
    let id = anchor_lang::prelude::Pubkey::new_from_array(program_id.bytes);
    anchor_lang::prelude::Pubkey::try_find_program_address(&refs, &id).map(
        |(key, bump)| (Address { bytes: key.to_bytes() }, bump),
    )
}

/// A derived account: its address and the bump that makes it off-curve.
/// Only code that holds the same seeds and program id can reproduce it.
#[derive(Clone, Copy, Debug, PartialEq, Eq)]
pub struct Custody {
    pub address: Address,
    pub bump: u8,
}

/// The seed list of a derived account: the tag, then the identifiers.
pub open spec fn custody_seeds(tag: SeedTag, parts: Seq<Seq<u8>>) -> Seq<Seq<u8>> {
    seq![tag_text(tag)] + parts
}

/// Derives the account that `program_id` controls for the given tag and
/// identifiers. Fails closed: malformed identifiers (too many, or one longer
/// than `MAX_SEED_LEN`) yield `None`, never a degenerate address.
pub fn derive_address(tag: SeedTag, parts: &Vec<Vec<u8>>, program_id: &Address) -> (r: Option<Custody>)
    ensures
        !seeds_well_formed(custody_seeds(tag, seeds_view(parts@))) ==> r is None,
        program_address(custody_seeds(tag, seeds_view(parts@)), program_id.bytes@) == (match r {
            Some(c) => Some((c.address.bytes@, c.bump)),
            None => None,
        }),
{
    let mut seeds: Vec<Vec<u8>> = Vec::new();
    seeds.push(tag_bytes(tag));
    let mut i: usize = 0;
    while i < parts.len()
        invariant
            i <= parts.len(),
            seeds_view(seeds@) == custody_seeds(tag, seeds_view(parts@.subrange(0, i as int))),
        decreases parts.len() - i,
    {
        let part = parts[i].clone();
        proof {
            assert(part@ =~= parts@[i as int]@);
        }
        let ghost prev = seeds@;
        seeds.push(part);
        proof {
            assert(seeds_view(seeds@) =~= seeds_view(prev).push(part@));
            assert(seeds_view(parts@.subrange(0, i + 1)) =~= seeds_view(
                parts@.subrange(0, i as int),
            ).push(part@));
            assert(parts@.subrange(0, i + 1) =~= parts@.subrange(0, i as int).push(parts@[i as int]));
            assert(seeds_view(seeds@) =~= custody_seeds(tag, seeds_view(parts@.subrange(0, i + 1))));
        }
        i = i + 1;
    }
    proof {
        assert(parts@.subrange(0, parts@.len() as int) =~= parts@);
    }
    match find_program_address(&seeds, program_id) {
        Some(found) => Some(Custody { address: found.0, bump: found.1 }),
        None => None,
    }
}

/// The bytes of an address, as a seed.
pub fn key_seed(key: &Address) -> (r: Vec<u8>)
    ensures
        r@ == key.bytes@,
{
    let mut out: Vec<u8> = Vec::new();
    let mut i: usize = 0;
    while i < 32
        invariant
            i <= 32,
            out@ == key.bytes@.subrange(0, i as int),
        decreases 32 - i,
    {
        out.push(key.bytes[i]);
        proof {
            assert(key.bytes@.subrange(0, i + 1) =~= key.bytes@.subrange(0, i as int).push(
                key.bytes@[i as int],
            ));
        }
        i = i + 1;
    }
    proof {
        assert(key.bytes@.subrange(0, 32) =~= key.bytes@);
    }
    out
}

/// The account derived from a tag and a 64-bit identifier, as the seeds
/// `[tag, id in little-endian]`: a wager or room by its number, an event
/// escrow by its event number.
pub fn derive_for_id(tag: SeedTag, id: u64, program_id: &Address) -> (r: Option<Custody>)
    ensures
        program_address(seq![tag_text(tag), le_bytes(id as nat, 8)], program_id.bytes@) == (match r {
            Some(c) => Some((c.address.bytes@, c.bump)),
            None => None,
        }),
{
    let mut parts: Vec<Vec<u8>> = Vec::new();
    parts.push(id_seed(id));
    proof {
        assert(custody_seeds(tag, seeds_view(parts@)) =~= seq![tag_text(tag), le_bytes(id as nat, 8)]);
    }
    derive_address(tag, &parts, program_id)
}

/// The account derived from a tag and another account's address, as the
/// seeds `[tag, key]`: a wager's escrow by the wager's account.
pub fn derive_for_key(tag: SeedTag, key: &Address, program_id: &Address) -> (r: Option<Custody>)
    ensures
        program_address(seq![tag_text(tag), key.bytes@], program_id.bytes@) == (match r {
            Some(c) => Some((c.address.bytes@, c.bump)),
            None => None,
        }),
{
    let mut parts: Vec<Vec<u8>> = Vec::new();
    parts.push(key_seed(key));
    proof {
        assert(custody_seeds(tag, seeds_view(parts@)) =~= seq![tag_text(tag), key.bytes@]);
    }
    derive_address(tag, &parts, program_id)
}

} // verus!
