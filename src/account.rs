use vstd::prelude::*;

use std::collections::BTreeMap;

verus! {

/// The identity of a player or of a deployed program: 32 opaque bytes,
/// compared for equality only.
#[derive(Debug, Clone, Copy, PartialEq, Eq, Hash)]
pub struct AccountId(pub [u8; 32]);

impl AccountId {
    /// Whether two identities hold the same bytes.
    pub fn same_as(&self, other: &AccountId) -> (r: bool)
        ensures
            r == (*self == *other),
    {
        let mut i: usize = 0;
        while i < 32
            invariant
                i <= 32,
                forall|j: int| 0 <= j < i ==> self.0[j] == other.0[j],
            decreases 32 - i,
        {
            if self.0[i] != other.0[i] {
                return false;
            }
            i = i + 1;
        }
        assert(self.0 =~= other.0);
        true
    }
}

/// What a player account holds, as mathematical values.
pub struct PlayerAccountView {
    /// The first level that the player has not passed yet.
    pub level: u32,
    /// The program submitted for each level.
    pub level_contracts: Map<u32, AccountId>,
}

impl PlayerAccountView {
    /// The account of a player who has just joined.
    pub open spec fn fresh() -> PlayerAccountView {
        PlayerAccountView { level: 0, level_contracts: Map::empty() }
    }

    /// Every submission is for a level already reached, and the level never
    /// exceeds the cap.
    pub open spec fn wf(self, max_level: u32) -> bool {
        &&& self.level <= max_level
        &&& forall|k: u32| #[trigger] self.level_contracts.contains_key(k) ==> k <= self.level
    }

    /// The account after `program` was recorded for `level`.
    pub open spec fn with_submission(self, level: u32, program: AccountId) -> PlayerAccountView {
        PlayerAccountView { level: self.level, level_contracts: self.level_contracts.insert(level, program) }
    }

    /// The account after a program for `level` passed verification: the
    /// player moves on only from the frontier level, and never past the cap.
    pub open spec fn after_pass(self, level: u32, max_level: u32) -> PlayerAccountView {
        if level == self.level && self.level < max_level {
            PlayerAccountView { level: (self.level + 1) as u32, level_contracts: self.level_contracts }
        } else {
            self
        }
    }
}

/// A player's progress: the current level and the program submitted for each
/// level reached so far.
#[derive(Debug)]
pub struct PlayerAccount {
    level: u32,
    level_contracts: BTreeMap<u32, AccountId>,
}

impl View for PlayerAccount {
    type V = PlayerAccountView;

    closed spec fn view(&self) -> PlayerAccountView {
        PlayerAccountView { level: self.level, level_contracts: self.level_contracts@ }
    }
}

impl Clone for PlayerAccount {
    fn clone(&self) -> (r: PlayerAccount)
        ensures
            r@ == self@,
    {
        PlayerAccount { level: self.level, level_contracts: self.level_contracts.clone() }
    }
}

impl PlayerAccount {
    /// A fresh account: level 0, nothing submitted.
    pub fn default() -> (r: PlayerAccount)
        ensures
            r@ == PlayerAccountView::fresh(),
    {
        PlayerAccount { level: 0, level_contracts: BTreeMap::new() }
    }

    /// An account at `level` with nothing submitted.
    pub fn with_level(level: u32) -> (r: PlayerAccount)
        ensures
            r@ == (PlayerAccountView { level, level_contracts: Map::empty() }),
    {
        PlayerAccount { level, level_contracts: BTreeMap::new() }
    }

    /// Moves the player one level up.
    pub fn level_up(&mut self)
        requires
            old(self)@.level < u32::MAX,
        ensures
            final(self)@ == (PlayerAccountView {
                level: (old(self)@.level + 1) as u32,
                level_contracts: old(self)@.level_contracts,
            }),
    {
        self.level = self.level + 1;
    }

    /// Records `program` as the submission for `level`, replacing any earlier
    /// one.
    pub fn record_submission(&mut self, level: u32, program: AccountId)
        ensures
            final(self)@ == old(self)@.with_submission(level, program),
    {
        self.level_contracts.insert(level, program);
    }

    /// The level that the player has reached.
    pub fn level(&self) -> (r: u32)
        ensures
            r == self@.level,
    {
        self.level
    }

    /// The program submitted for `level`, if any.
    pub fn level_contract(&self, level: u32) -> (r: Option<AccountId>)
        ensures
            r == (if self@.level_contracts.contains_key(level) {
                Some(self@.level_contracts[level])
            } else {
                None::<AccountId>
            }),
    {
        match self.level_contracts.get(&level) {
            Some(program) => Some(*program),
            None => None,
        }
    }
}

} // verus!
