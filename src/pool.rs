use vstd::prelude::*;

verus! {

/// The decimal precision the pool hands to the curve, whatever the decimals
/// of the two traded assets are. Pairs whose assets use other decimals get the
/// same value.
pub const PRECISION: u8 = 6;

/// The durable record of one trading pair.
#[derive(Clone, Copy, Debug)]
pub struct Config {
    /// Distinguishes pools over the same pair of assets.
    pub seed: u64,
    /// The asset sold or bought as side X.
    pub mint_x: [u8; 32],
    /// The asset sold or bought as side Y.
    pub mint_y: [u8; 32],
    /// The swap fee in basis points.
    pub fee: u16,
    /// While set, swaps and withdrawals are refused.
    pub locked: bool,
    /// The salt that, with `seed`, re-derives the authority owning the reserves.
    pub config_bump: u8,
    /// The salt of the share mint's address.
    pub lp_bump: u8,
}

/// The fixed tag that starts every reserve-authority seed list: "config".
pub open spec fn config_tag() -> Seq<u8> {
    seq![99u8, 111u8, 110u8, 102u8, 105u8, 103u8]
}

/// The `len` low bytes of `n`, least significant first.
pub open spec fn le_bytes(n: nat, len: nat) -> Seq<u8>
    decreases len,
{
    if len == 0 {
        Seq::empty()
    } else {
        seq![(n % 256) as u8] + le_bytes(n / 256, (len - 1) as nat)
    }
}

/// The bytes that identify the reserve authority of a pool: the tag, the
/// seed in little-endian order, then the salt.
pub open spec fn authority_bytes(seed: u64, bump: u8) -> Seq<u8> {
    config_tag() + le_bytes(seed as nat, 8) + seq![bump]
}

/// The eight little-endian bytes of `n`.
pub fn u64_le_bytes(n: u64) -> (r: Vec<u8>)
    ensures
        r@ == le_bytes(n as nat, 8),
{
    let mut out: Vec<u8> = Vec::new();
    let mut v: u64 = n;
    let mut i: usize = 0;
    while i < 8
        invariant
            i <= 8,
            out@ + le_bytes(v as nat, (8 - i) as nat) == le_bytes(n as nat, 8),
        decreases 8 - i,
    {
        let ghost before = out@;
        let b: u8 = (v % 256) as u8;
        out.push(b);
        proof {
            let rest = le_bytes((v / 256) as nat, (8 - i - 1) as nat);
            assert(le_bytes(v as nat, (8 - i) as nat) == seq![b] + rest);
            assert(before + (seq![b] + rest) =~= out@ + rest);
        }
        v = v / 256;
        i = i + 1;
    }
    assert(out@ + le_bytes(v as nat, 0) =~= out@);
    out
}

impl Config {
    /// Sets the lock flag.
    pub fn lock(&mut self)
        ensures
            *final(self) == (Config { locked: true, ..*old(self) }),
    {
        self.locked = true;
    }

    /// Clears the lock flag.
    pub fn unlock(&mut self)
        ensures
            *final(self) == (Config { locked: false, ..*old(self) }),
    {
        self.locked = false;
    }

    /// The seeds that sign for the pool's reserves: the tag, the seed's
    /// little-endian bytes and the salt, one entry each.
    pub fn signer_seeds(&self) -> (r: Vec<Vec<u8>>)
        ensures
            r@.len() == 3,
            r@[0]@ == config_tag(),
            r@[1]@ == le_bytes(self.seed as nat, 8),
            r@[2]@ == seq![self.config_bump],
            r@[0]@ + r@[1]@ + r@[2]@ == authority_bytes(self.seed, self.config_bump),
    {
        let tag: Vec<u8> = vec![99u8, 111u8, 110u8, 102u8, 105u8, 103u8];
        let salt: Vec<u8> = vec![self.config_bump];
        let mut seeds: Vec<Vec<u8>> = Vec::new();
        seeds.push(tag);
        seeds.push(u64_le_bytes(self.seed));
        seeds.push(salt);
        assert(seeds@[0]@ =~= config_tag());
        assert(seeds@[2]@ =~= seq![self.config_bump]);
        seeds
    }
}

} // verus!
