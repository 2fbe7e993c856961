//! The pool's configuration record and the lock controller.
use vstd::prelude::*;
use crate::error::AmmError;

verus! {

/// A 32-byte principal: an asset identity, a signer or an authority.
#[derive(Debug, Clone, Copy)]
pub struct Pubkey {
    pub bytes: [u8; 32],
}

impl View for Pubkey {
    type V = Seq<u8>;

    open spec fn view(&self) -> Seq<u8> {
        self.bytes@
    }
}

impl Pubkey {
    pub fn new(bytes: [u8; 32]) -> (r: Pubkey)
        ensures
            r.bytes == bytes,
    {
        Pubkey { bytes }
    }

    /// Whether two principals are the same, byte for byte.
    pub fn same(&self, other: &Pubkey) -> (r: bool)
        ensures
            r == (self@ == other@),
    {
        let mut i: usize = 0;
        while i < 32
            invariant
                0 <= i <= 32,
                self@.len() == 32,
                other@.len() == 32,
                forall|j: int| 0 <= j < i ==> self@[j] == other@[j],
            decreases 32 - i,
        {
            if self.bytes[i] != other.bytes[i] {
                return false;
            }
            i = i + 1;
        }
        assert(self@ =~= other@);
        true
    }
}

/// The durable record of one pool.
#[derive(Debug, Clone, Copy)]
pub struct Config {
    /// Tells apart pools of the same asset pair.
    pub seed: u64,
    /// Who may lock and unlock the pool; nobody when absent.
    pub authority: Option<Pubkey>,
    pub mint_x: Pubkey,
    pub mint_y: Pubkey,
    /// Swap fee in basis points of the input.
    pub fee: u16,
    pub locked: bool,
    pub config_bump: u8,
    pub lp_bump: u8,
}

/// Whether `caller` is the pool's authority.
pub open spec fn is_authority(c: Config, caller: Pubkey) -> bool {
    c.authority is Some && c.authority->Some_0@ == caller@
}

/// The record with its lock flag set to `locked`.
pub open spec fn with_lock(c: Config, locked: bool) -> Config {
    Config { locked, ..c }
}

impl Config {
    /// A fee of at most 10000 basis points, and two different assets.
    pub open spec fn wf(&self) -> bool {
        self.fee <= 10000 && self.mint_x@ != self.mint_y@
    }

    /// A new, unlocked pool record. A fee above 10000 basis points is
    /// refused first, then the same asset on both sides.
    pub fn create(
        seed: u64,
        fee: u16,
        authority: Option<Pubkey>,
        mint_x: Pubkey,
        mint_y: Pubkey,
        config_bump: u8,
        lp_bump: u8,
    ) -> (r: Result<Config, AmmError>)
        ensures
            r is Err <==> fee > 10000 || mint_x@ == mint_y@,
            fee > 10000 ==> r == Err::<Config, AmmError>(AmmError::InvalidFee),
            fee <= 10000 && mint_x@ == mint_y@ ==> r == Err::<Config, AmmError>(
                AmmError::IdenticalAssets,
            ),
            r is Ok ==> r->Ok_0 == (Config {
                seed,
                authority,
                mint_x,
                mint_y,
                fee,
                locked: false,
                config_bump,
                lp_bump,
            }),
            r is Ok ==> r->Ok_0.wf(),
    {
        if fee > 10000 {
            return Err(AmmError::InvalidFee);
        }
        if mint_x.same(&mint_y) {
            return Err(AmmError::IdenticalAssets);
        }
        Ok(Config { seed, authority, mint_x, mint_y, fee, locked: false, config_bump, lp_bump })
    }

    /// Whether `caller` may lock or unlock the pool.
    pub fn is_authority(&self, caller: &Pubkey) -> (r: bool)
        ensures
            r == is_authority(*self, *caller),
    {
        match &self.authority {
            Some(a) => a.same(caller),
            None => false,
        }
    }

    /// Sets the lock flag, for the pool's authority only.
    pub fn set_lock(&mut self, caller: &Pubkey, locked: bool) -> (r: Result<(), AmmError>)
        ensures
            r is Ok <==> is_authority(*old(self), *caller),
            r is Err ==> r->Err_0 == AmmError::Unauthorized && *final(self) == *old(self),
            r is Ok ==> *final(self) == with_lock(*old(self), locked),
    {
        if !self.is_authority(caller) {
            return Err(AmmError::Unauthorized);
        }
        self.locked = locked;
        Ok(())
    }
}

/// Locking and then unlocking an unlocked pool gives back the very same
/// record, so every operation behaves as it did before.
pub proof fn lemma_lock_round_trip(c: Config)
    requires
        !c.locked,
    ensures
        with_lock(with_lock(c, true), false) == c,
{
}

/// The bump seeds found for the accounts that initialization creates.
#[derive(Debug, Clone, Copy)]
pub struct InitializeBumps {
    pub config: u8,
    pub mint_lp: u8,
}

/// What initialization reads: the two assets, and the record it fills.
#[derive(Debug, Clone, Copy)]
pub struct Initialize {
    pub initializer: Pubkey,
    pub mint_x: Pubkey,
    pub mint_y: Pubkey,
    pub config: Config,
}

impl Initialize {
    /// Fills the pool record for the two assets. A fee above 10000 basis
    /// points, or the same asset on both sides, is refused and leaves
    /// everything unchanged.
    pub fn init(&mut self, seed: u64, fee: u16, authority: Option<Pubkey>, bumps: InitializeBumps) -> (r:
        Result<(), AmmError>)
        ensures
            r is Err <==> fee > 10000 || old(self).mint_x@ == old(self).mint_y@,
            fee > 10000 ==> r == Err::<(), AmmError>(AmmError::InvalidFee),
            fee <= 10000 && old(self).mint_x@ == old(self).mint_y@ ==> r == Err::<(), AmmError>(
                AmmError::IdenticalAssets,
            ),
            r is Err ==> *final(self) == *old(self),
            r is Ok ==> final(self).config.wf(),
            r is Ok ==> final(self).config == (Config {
                seed,
                authority,
                mint_x: old(self).mint_x,
                mint_y: old(self).mint_y,
                fee,
                locked: false,
                config_bump: bumps.config,
                lp_bump: bumps.mint_lp,
            }),
            r is Ok ==> final(self).initializer == old(self).initializer && final(self).mint_x == old(
                self,
            ).mint_x && final(self).mint_y == old(self).mint_y,
    {
        let c = Config::create(seed, fee, authority, self.mint_x, self.mint_y, bumps.config, bumps.mint_lp)?;
        self.config = c;
        Ok(())
    }
}

/// What a lock update reads: the signer and the pool record.
#[derive(Debug, Clone, Copy)]
pub struct Update {
    pub user: Pubkey,
    pub config: Config,
}

impl Update {
    /// Locks the pool; only its authority may.
    pub fn lock(&mut self) -> (r: Result<(), AmmError>)
        ensures
            r is Ok <==> is_authority(old(self).config, old(self).user),
            r is Err ==> r->Err_0 == AmmError::Unauthorized && *final(self) == *old(self),
            r is Ok ==> final(self).config == with_lock(old(self).config, true),
            final(self).user == old(self).user,
    {
        let user = self.user;
        self.config.set_lock(&user, true)
    }

    /// Unlocks the pool; only its authority may.
    pub fn unlock(&mut self) -> (r: Result<(), AmmError>)
        ensures
            r is Ok <==> is_authority(old(self).config, old(self).user),
            r is Err ==> r->Err_0 == AmmError::Unauthorized && *final(self) == *old(self),
            r is Ok ==> final(self).config == with_lock(old(self).config, false),
            final(self).user == old(self).user,
    {
        let user = self.user;
        self.config.set_lock(&user, false)
    }
}

} // verus!
