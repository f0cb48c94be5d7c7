//! The account store and the operations that players call on it.

use vstd::prelude::*;

use crate::account::{AccountId, PlayerAccount, PlayerAccountView};
use crate::error::Error;
use crate::probe::Verdict;

verus! {

/// The highest level of the game as it ships: levels 0, 1 and 2.
pub const MAX_LEVEL: u32 = 2;

/// The whole game state, as mathematical values.
pub struct GameView {
    /// The account of each player that has joined.
    pub accounts: Map<AccountId, PlayerAccountView>,
    /// No player advances past this level.
    pub max_level: u32,
}

/// The view of an operation's result that carries an account.
pub open spec fn viewed(r: Result<PlayerAccount, Error>) -> Result<PlayerAccountView, Error> {
    match r {
        Ok(account) => Ok(account@),
        Err(e) => Err(e),
    }
}

impl GameView {
    /// Every account respects the cap and holds submissions only for levels it
    /// has reached.
    pub open spec fn wf(self) -> bool {
        forall|id: AccountId| #[trigger]
            self.accounts.contains_key(id) ==> self.accounts[id].wf(self.max_level)
    }

    /// The game with `account` stored for `id`.
    pub open spec fn with_account(self, id: AccountId, account: PlayerAccountView) -> GameView {
        GameView { accounts: self.accounts.insert(id, account), max_level: self.max_level }
    }

    /// Creating the account of `id`: the game afterwards, and the result.
    pub open spec fn create(self, id: AccountId) -> (GameView, Result<PlayerAccountView, Error>) {
        if self.accounts.contains_key(id) {
            (self, Err(Error::AccountExists))
        } else {
            (self.with_account(id, PlayerAccountView::fresh()), Ok(PlayerAccountView::fresh()))
        }
    }

    /// Looking up the account of `id`.
    pub open spec fn account(self, id: AccountId) -> Result<PlayerAccountView, Error> {
        if self.accounts.contains_key(id) {
            Ok(self.accounts[id])
        } else {
            Err(Error::AccountNotExists)
        }
    }

    /// Submitting `program` for `level` on behalf of `id`: allowed only for a
    /// level that the player has reached, and replacing any earlier submission.
    pub open spec fn submit(self, id: AccountId, level: u32, program: AccountId) -> (
        GameView,
        Result<AccountId, Error>,
    ) {
        if !self.accounts.contains_key(id) {
            (self, Err(Error::AccountNotExists))
        } else if level > self.accounts[id].level {
            (self, Err(Error::SubmittedGreaterLevel))
        } else {
            (self.with_account(id, self.accounts[id].with_submission(level, program)), Ok(program))
        }
    }

    /// The program that `id` submitted for `level`.
    pub open spec fn level_contract(self, id: AccountId, level: u32) -> Result<AccountId, Error> {
        if !self.accounts.contains_key(id) {
            Err(Error::AccountNotExists)
        } else if !self.accounts[id].level_contracts.contains_key(level) {
            Err(Error::LevelContractNotExists)
        } else {
            Ok(self.accounts[id].level_contracts[level])
        }
    }

    /// Running `level` for `id`, where verifying the submitted program ended
    /// with `verdict`.
    pub open spec fn run(self, id: AccountId, level: u32, verdict: Verdict) -> (
        GameView,
        Result<bool, Error>,
    ) {
        match self.level_contract(id, level) {
            Err(e) => (self, Err(e)),
            Ok(_) => if verdict == Verdict::Pass {
                (
                    self.with_account(id, self.accounts[id].after_pass(level, self.max_level)),
                    Ok(true),
                )
            } else {
                (self, Err(Error::LevelContractCallFailed))
            },
        }
    }
}

/// The game: one account per player identity, and the level cap.
pub struct Game {
    player_accounts: Vec<(AccountId, PlayerAccount)>,
    max_level: u32,
    accounts: Ghost<Map<AccountId, PlayerAccountView>>,
}

impl View for Game {
    type V = GameView;

    closed spec fn view(&self) -> GameView {
        GameView { accounts: self.accounts@, max_level: self.max_level }
    }
}

/// Applies the leveling policy to the account whose submission for `level`
/// was verified with `verdict`.
fn dispatch_level(
    player_account: &mut PlayerAccount,
    level: u32,
    max_level: u32,
    verdict: Verdict,
) -> (r: Result<bool, Error>)
    requires
        old(player_account)@.wf(max_level),
        level <= old(player_account)@.level,
    ensures
        verdict == Verdict::Pass ==> r == Ok::<bool, Error>(true) && final(player_account)@
            == old(player_account)@.after_pass(level, max_level),
        verdict != Verdict::Pass ==> r == Err::<bool, Error>(Error::LevelContractCallFailed)
            && final(player_account)@ == old(player_account)@,
{
    match verdict {
        Verdict::Pass => {
            let current = player_account.level();
            if level == current && current < max_level {
                player_account.level_up();
            }
            Ok(true)
        },
        _ => Err(Error::LevelContractCallFailed),
    }
}

impl Game {
    /// The entries and the ghost map agree, and each identity has one entry.
    pub closed spec fn wf(&self) -> bool {
        &&& self@.wf()
        &&& forall|i: int|
            0 <= i < self.player_accounts.len() ==> {
                let entry = #[trigger] self.player_accounts@[i];
                &&& self.accounts@.contains_key(entry.0)
                &&& self.accounts@[entry.0] == entry.1@
            }
        &&& forall|id: AccountId| #[trigger]
            self.accounts@.contains_key(id) ==> exists|i: int|
                0 <= i < self.player_accounts.len() && (#[trigger] self.player_accounts@[i]).0 == id
        &&& forall|i: int, j: int|
            0 <= i < j < self.player_accounts.len() ==> (#[trigger] self.player_accounts@[i]).0
                != (#[trigger] self.player_accounts@[j]).0
    }

    /// In a well-formed game every account is within the cap and holds
    /// submissions only for levels it has reached.
    pub proof fn lemma_view_wf(&self)
        requires
            self.wf(),
        ensures
            self@.wf(),
    {
    }

    /// A game with no players, capped at `max_level`.
    pub fn with_max_level(max_level: u32) -> (r: Game)
        ensures
            r.wf(),
            r@ == (GameView { accounts: Map::empty(), max_level }),
    {
        Game { player_accounts: Vec::new(), max_level, accounts: Ghost(Map::empty()) }
    }

    /// A game with no players, capped at `MAX_LEVEL`.
    pub fn default() -> (r: Game)
        ensures
            r.wf(),
            r@ == (GameView { accounts: Map::empty(), max_level: MAX_LEVEL }),
    {
        Game::with_max_level(MAX_LEVEL)
    }

    /// The index of the entry of `id`.
    fn find(&self, id: &AccountId) -> (r: Option<usize>)
        requires
            self.wf(),
        ensures
            match r {
                Some(i) => i < self.player_accounts.len() && self.player_accounts@[i as int].0
                    == *id,
                None => !self@.accounts.contains_key(*id),
            },
    {
        let mut i: usize = 0;
        while i < self.player_accounts.len()
            invariant
                self.wf(),
                i <= self.player_accounts.len(),
                forall|j: int| 0 <= j < i ==> (#[trigger] self.player_accounts@[j]).0 != *id,
            decreases self.player_accounts.len() - i,
        {
            if self.player_accounts[i].0.same_as(id) {
                return Some(i);
            }
            i = i + 1;
        }
        None
    }

    /// Whether `account` has joined the game.
    pub fn have_player_account(&self, account: AccountId) -> (r: bool)
        requires
            self.wf(),
        ensures
            r == self@.accounts.contains_key(account),
    {
        self.find(&account).is_some()
    }

    /// Stores a fresh account for `account`, which has none yet.
    fn create_a_captain(&mut self, account: AccountId) -> (r: Result<PlayerAccount, Error>)
        requires
            old(self).wf(),
            !old(self)@.accounts.contains_key(account),
        ensures
            final(self).wf(),
            final(self)@ == old(self)@.with_account(account, PlayerAccountView::fresh()),
            viewed(r) == Ok::<PlayerAccountView, Error>(PlayerAccountView::fresh()),
    {
        let new_player_account = PlayerAccount::default();
        self.player_accounts.push((account, new_player_account.clone()));
        self.accounts = Ghost(self.accounts@.insert(account, PlayerAccountView::fresh()));
        proof {
            let n = self.player_accounts.len() - 1;
            assert forall|id: AccountId| #[trigger]
                self.accounts@.contains_key(id) implies exists|i: int|
                0 <= i < self.player_accounts.len() && (#[trigger] self.player_accounts@[i]).0
                    == id by {
                if id != account {
                    let i = choose|i: int|
                        0 <= i < old(self).player_accounts.len()
                            && (#[trigger] old(self).player_accounts@[i]).0 == id;
                    assert(self.player_accounts@[i] == old(self).player_accounts@[i]);
                } else {
                    assert(self.player_accounts@[n].0 == id);
                }
            }
        }
        Ok(new_player_account)
    }

    /// Opens an account for `caller`, unless it has one already.
    pub fn create_player_account(&mut self, caller: AccountId) -> (r: Result<PlayerAccount, Error>)
        requires
            old(self).wf(),
        ensures
            final(self).wf(),
            final(self)@ == old(self)@.create(caller).0,
            viewed(r) == old(self)@.create(caller).1,
    {
        if self.have_player_account(caller) {
            Err(Error::AccountExists)
        } else {
            self.create_a_captain(caller)
        }
    }

    /// A copy of the account of `account`.
    pub fn get_player_account(&self, account: AccountId) -> (r: Result<PlayerAccount, Error>)
        requires
            self.wf(),
        ensures
            viewed(r) == self@.account(account),
    {
        match self.find(&account) {
            Some(i) => Ok(self.player_accounts[i].1.clone()),
            None => Err(Error::AccountNotExists),
        }
    }

    /// Replacing the account of entry `i`, with the ghost map following, keeps
    /// the entries and the map in step.
    proof fn lemma_entry_replaced(&self, before: &Game, i: int)
        requires
            before.wf(),
            0 <= i < before.player_accounts.len(),
            self.player_accounts.len() == before.player_accounts.len(),
            self.player_accounts@ == before.player_accounts@.update(i, self.player_accounts@[i]),
            self.player_accounts@[i].0 == before.player_accounts@[i].0,
            self.accounts@ == before.accounts@.insert(
                self.player_accounts@[i].0,
                self.player_accounts@[i].1@,
            ),
            self.max_level == before.max_level,
            self.player_accounts@[i].1@.wf(self.max_level),
        ensures
            self.wf(),
    {
        let id = self.player_accounts@[i].0;
        assert forall|j: int| 0 <= j < self.player_accounts.len() && j != i implies (
        #[trigger] self.player_accounts@[j]).0 != id by {
            assert(before.player_accounts@[j] == self.player_accounts@[j]);
            if j < i {
                assert(before.player_accounts@[j].0 != before.player_accounts@[i].0);
            } else {
                assert(before.player_accounts@[i].0 != before.player_accounts@[j].0);
            }
        }
        assert forall|j: int| 0 <= j < self.player_accounts.len() implies {
            let entry = #[trigger] self.player_accounts@[j];
            &&& self.accounts@.contains_key(entry.0)
            &&& self.accounts@[entry.0] == entry.1@
        } by {
            if j != i {
                assert(self.player_accounts@[j] == before.player_accounts@[j]);
            }
        }
        assert forall|k: AccountId| #[trigger] self.accounts@.contains_key(k) implies self.accounts@[k].wf(
            self.max_level,
        ) by {
            if k != id {
                assert(before@.accounts.contains_key(k));
                assert(before@.accounts[k].wf(before@.max_level));
            }
        }
        assert forall|k: AccountId| #[trigger]
            self.accounts@.contains_key(k) implies exists|j: int|
            0 <= j < self.player_accounts.len() && (#[trigger] self.player_accounts@[j]).0
                == k by {
            if k == id {
                assert(self.player_accounts@[i].0 == k);
            } else {
                let j = choose|j: int|
                    0 <= j < before.player_accounts.len()
                        && (#[trigger] before.player_accounts@[j]).0 == k;
                assert(self.player_accounts@[j] == before.player_accounts@[j]);
            }
        }
        assert forall|a: int, b: int| 0 <= a < b < self.player_accounts.len() implies (
        #[trigger] self.player_accounts@[a]).0 != (#[trigger] self.player_accounts@[b]).0 by {
            assert(before.player_accounts@[a].0 != before.player_accounts@[b].0);
            if a != i {
                assert(self.player_accounts@[a] == before.player_accounts@[a]);
            }
            if b != i {
                assert(self.player_accounts@[b] == before.player_accounts@[b]);
            }
        }
    }

    /// Submits `level_contract` as `caller`'s program for `level`, which the
    /// caller must have reached; an earlier submission for it is replaced.
    pub fn submit_level(&mut self, caller: AccountId, level: u32, level_contract: AccountId) -> (r:
        Result<AccountId, Error>)
        requires
            old(self).wf(),
        ensures
            final(self).wf(),
            (final(self)@, r) == old(self)@.submit(caller, level, level_contract),
    {
        match self.find(&caller) {
            None => Err(Error::AccountNotExists),
            Some(i) => {
                if level <= self.player_accounts[i].1.level() {
                    let ghost updated = self@.accounts[caller].with_submission(level, level_contract);
                    self.player_accounts[i].1.record_submission(level, level_contract);
                    self.accounts = Ghost(self.accounts@.insert(caller, updated));
                    proof {
                        self.lemma_entry_replaced(old(self), i as int);
                    }
                    Ok(level_contract)
                } else {
                    Err(Error::SubmittedGreaterLevel)
                }
            },
        }
    }
    /// The program that `caller` submitted for `level`: the one that running
    /// the level verifies.
    pub fn level_contract(&self, caller: AccountId, level: u32) -> (r: Result<AccountId, Error>)
        requires
            self.wf(),
        ensures
            r == self@.level_contract(caller, level),
    {
        match self.find(&caller) {
            None => Err(Error::AccountNotExists),
            Some(i) => match self.player_accounts[i].1.level_contract(level) {
                Some(program) => Ok(program),
                None => Err(Error::LevelContractNotExists),
            },
        }
    }

    /// Runs `level` for `caller`, whose submitted program was verified with
    /// `verdict`. A pass at the caller's frontier level moves the caller up
    /// one level, unless the cap is reached; a pass at an earlier level, or at
    /// the cap, changes nothing. Any other verdict fails the run.
    pub fn run_level(&mut self, caller: AccountId, level: u32, verdict: Verdict) -> (r: Result<
        bool,
        Error,
    >)
        requires
            old(self).wf(),
        ensures
            final(self).wf(),
            (final(self)@, r) == old(self)@.run(caller, level, verdict),
    {
        match self.find(&caller) {
            None => Err(Error::AccountNotExists),
            Some(i) => {
                if self.player_accounts[i].1.level_contract(level).is_none() {
                    return Err(Error::LevelContractNotExists);
                }
                proof {
                    assert(self@.accounts.contains_key(caller));
                    assert(self@.accounts[caller].level_contracts.contains_key(level));
                }
                let ghost updated = if verdict == Verdict::Pass {
                    self@.accounts[caller].after_pass(level, self.max_level)
                } else {
                    self@.accounts[caller]
                };
                let max_level = self.max_level;
                let r = dispatch_level(&mut self.player_accounts[i].1, level, max_level, verdict);
                self.accounts = Ghost(self.accounts@.insert(caller, updated));
                proof {
                    self.lemma_entry_replaced(old(self), i as int);
                    if verdict != Verdict::Pass {
                        assert(self.accounts@ =~= old(self).accounts@);
                    }
                }
                r
            },
        }
    }
    /// A fixed greeting, showing that the game is up.
    pub fn game_ready(&self) -> (r: String)
        ensures
            r@ == "heck, yeah"@,
    {
        "heck, yeah".to_string()
    }

    /// The level past which no player advances.
    pub fn max_level(&self) -> (r: u32)
        ensures
            r == self@.max_level,
    {
        self.max_level
    }
}

} // verus!
