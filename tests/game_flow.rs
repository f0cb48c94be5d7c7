use game::probe::{probe_start, probe_step, read_event, toggle_event};
use game::{AccountId, Error, Game, PlayerAccount, ProbeAction, Verdict, MAX_LEVEL};

fn id(byte: u8) -> AccountId {
    AccountId([byte; 32])
}

/// A stand-in for a deployed level program.
struct FakeProgram {
    state: bool,
    toggles: bool,
    fail_call: Option<usize>,
    calls: usize,
}

impl FakeProgram {
    fn flipper(state: bool) -> FakeProgram {
        FakeProgram { state, toggles: true, fail_call: None, calls: 0 }
    }

    fn stuck(state: bool) -> FakeProgram {
        FakeProgram { state, toggles: false, fail_call: None, calls: 0 }
    }

    fn failing_at(call: usize) -> FakeProgram {
        FakeProgram { state: false, toggles: true, fail_call: Some(call), calls: 0 }
    }

    fn read(&mut self) -> Result<bool, ink_env::Error> {
        self.calls += 1;
        if self.fail_call == Some(self.calls) {
            return Err(ink_env::Error::CalleeTrapped);
        }
        Ok(self.state)
    }

    fn toggle(&mut self) -> Result<(), ink_env::Error> {
        self.calls += 1;
        if self.fail_call == Some(self.calls) {
            return Err(ink_env::Error::CalleeReverted);
        }
        if self.toggles {
            self.state = !self.state;
        }
        Ok(())
    }
}

/// Drives the verification protocol against `program`.
fn verify(program: &mut FakeProgram) -> Verdict {
    let (mut state, mut action) = probe_start();
    loop {
        let event = match action {
            ProbeAction::CallRead => read_event(&program.read()),
            ProbeAction::CallToggle => toggle_event(&program.toggle()),
            ProbeAction::Finish(verdict) => return verdict,
        };
        let (next_state, next_action) = probe_step(state, event);
        state = next_state;
        action = next_action;
    }
}

fn run(game: &mut Game, caller: AccountId, level: u32, program: &mut FakeProgram) -> Result<bool, Error> {
    let verdict = verify(program);
    game.run_level(caller, level, verdict)
}

#[test]
fn game_ready_greets() {
    let game = Game::default();
    assert_eq!(game.game_ready(), "heck, yeah");
    assert_eq!(game.max_level(), 2);
    assert_eq!(MAX_LEVEL, 2);
}

#[test]
fn player_account_default_is_fresh() {
    let account = PlayerAccount::default();
    assert_eq!(account.level(), 0);
    assert_eq!(account.level_contract(0), None);
}

#[test]
fn player_account_level_up_and_submission() {
    let mut account = PlayerAccount::with_level(1);
    account.level_up();
    assert_eq!(account.level(), 2);
    account.record_submission(1, id(9));
    assert_eq!(account.level_contract(1), Some(id(9)));
    account.record_submission(1, id(8));
    assert_eq!(account.level_contract(1), Some(id(8)));
    let copy = account.clone();
    assert_eq!(copy.level(), 2);
    assert_eq!(copy.level_contract(1), Some(id(8)));
}

#[test]
fn account_ids_compare_by_bytes() {
    let mut bytes = [7u8; 32];
    assert!(AccountId(bytes).same_as(&id(7)));
    bytes[31] = 8;
    assert!(!AccountId(bytes).same_as(&id(7)));
}

#[test]
fn create_account_once_per_identity() {
    let mut game = Game::default();
    assert!(!game.have_player_account(id(1)));
    let created = game.create_player_account(id(1)).unwrap();
    assert_eq!(created.level(), 0);
    assert_eq!(created.level_contract(0), None);
    assert!(game.have_player_account(id(1)));
    assert!(!game.have_player_account(id(2)));

    game.submit_level(id(1), 0, id(50)).unwrap();
    assert_eq!(game.create_player_account(id(1)).unwrap_err(), Error::AccountExists);
    let stored = game.get_player_account(id(1)).unwrap();
    assert_eq!(stored.level(), 0);
    assert_eq!(stored.level_contract(0), Some(id(50)));
}

#[test]
fn get_account_of_stranger_fails() {
    let mut game = Game::default();
    game.create_player_account(id(1)).unwrap();
    assert_eq!(game.get_player_account(id(2)).unwrap_err(), Error::AccountNotExists);
}

#[test]
fn submit_without_account_fails() {
    let mut game = Game::default();
    assert_eq!(game.submit_level(id(1), 0, id(50)), Err(Error::AccountNotExists));
    assert!(!game.have_player_account(id(1)));
}

#[test]
fn submit_is_gated_by_level() {
    let mut game = Game::default();
    game.create_player_account(id(1)).unwrap();
    assert_eq!(game.submit_level(id(1), 1, id(50)), Err(Error::SubmittedGreaterLevel));
    assert_eq!(game.submit_level(id(1), 7, id(50)), Err(Error::SubmittedGreaterLevel));
    assert_eq!(game.get_player_account(id(1)).unwrap().level_contract(1), None);
    assert_eq!(game.submit_level(id(1), 0, id(50)), Ok(id(50)));

    run(&mut game, id(1), 0, &mut FakeProgram::flipper(false)).unwrap();
    assert_eq!(game.submit_level(id(1), 1, id(51)), Ok(id(51)));
    assert_eq!(game.submit_level(id(1), 2, id(52)), Err(Error::SubmittedGreaterLevel));
}

#[test]
fn resubmission_keeps_last_program() {
    let mut game = Game::default();
    game.create_player_account(id(1)).unwrap();
    assert_eq!(game.submit_level(id(1), 0, id(50)), Ok(id(50)));
    assert_eq!(game.submit_level(id(1), 0, id(60)), Ok(id(60)));
    assert_eq!(game.level_contract(id(1), 0), Ok(id(60)));
    assert_eq!(game.get_player_account(id(1)).unwrap().level_contract(0), Some(id(60)));
}

#[test]
fn level_contract_lookup_errors() {
    let mut game = Game::default();
    assert_eq!(game.level_contract(id(1), 0), Err(Error::AccountNotExists));
    game.create_player_account(id(1)).unwrap();
    assert_eq!(game.level_contract(id(1), 0), Err(Error::LevelContractNotExists));
}

#[test]
fn frontier_pass_advances_level() {
    for start in [false, true] {
        let mut game = Game::default();
        game.create_player_account(id(1)).unwrap();
        game.submit_level(id(1), 0, id(50)).unwrap();
        assert_eq!(run(&mut game, id(1), 0, &mut FakeProgram::flipper(start)), Ok(true));
        assert_eq!(game.get_player_account(id(1)).unwrap().level(), 1);
    }
}

#[test]
fn unchanged_state_does_not_advance() {
    let mut game = Game::default();
    game.create_player_account(id(1)).unwrap();
    game.submit_level(id(1), 0, id(50)).unwrap();
    assert_eq!(
        run(&mut game, id(1), 0, &mut FakeProgram::stuck(true)),
        Err(Error::LevelContractCallFailed)
    );
    assert_eq!(game.get_player_account(id(1)).unwrap().level(), 0);
}

#[test]
fn failed_call_does_not_advance() {
    for call in 1..=3 {
        let mut game = Game::default();
        game.create_player_account(id(1)).unwrap();
        game.submit_level(id(1), 0, id(50)).unwrap();
        let mut program = FakeProgram::failing_at(call);
        assert_eq!(run(&mut game, id(1), 0, &mut program), Err(Error::LevelContractCallFailed));
        assert_eq!(program.calls, call);
        assert_eq!(game.get_player_account(id(1)).unwrap().level(), 0);
    }
}

#[test]
fn replaying_passed_level_does_not_advance() {
    let mut game = Game::default();
    game.create_player_account(id(1)).unwrap();
    game.submit_level(id(1), 0, id(50)).unwrap();
    run(&mut game, id(1), 0, &mut FakeProgram::flipper(false)).unwrap();
    assert_eq!(run(&mut game, id(1), 0, &mut FakeProgram::flipper(true)), Ok(true));
    assert_eq!(game.get_player_account(id(1)).unwrap().level(), 1);
}

#[test]
fn cap_stops_advancement() {
    let mut game = Game::default();
    game.create_player_account(id(1)).unwrap();
    for level in 0..=MAX_LEVEL {
        game.submit_level(id(1), level, id(50 + level as u8)).unwrap();
        assert_eq!(run(&mut game, id(1), level, &mut FakeProgram::flipper(false)), Ok(true));
    }
    assert_eq!(game.get_player_account(id(1)).unwrap().level(), MAX_LEVEL);
    assert_eq!(run(&mut game, id(1), MAX_LEVEL, &mut FakeProgram::flipper(true)), Ok(true));
    assert_eq!(game.get_player_account(id(1)).unwrap().level(), MAX_LEVEL);
    assert_eq!(game.submit_level(id(1), MAX_LEVEL + 1, id(99)), Err(Error::SubmittedGreaterLevel));
}

#[test]
fn configurable_cap() {
    let mut game = Game::with_max_level(0);
    game.create_player_account(id(1)).unwrap();
    game.submit_level(id(1), 0, id(50)).unwrap();
    assert_eq!(game.run_level(id(1), 0, Verdict::Pass), Ok(true));
    assert_eq!(game.get_player_account(id(1)).unwrap().level(), 0);
}

#[test]
fn missing_submission_fails_run() {
    let mut game = Game::default();
    game.create_player_account(id(1)).unwrap();
    assert_eq!(game.run_level(id(1), 0, Verdict::Pass), Err(Error::LevelContractNotExists));
    assert_eq!(game.run_level(id(1), 1, Verdict::Pass), Err(Error::LevelContractNotExists));
    assert_eq!(game.get_player_account(id(1)).unwrap().level(), 0);
}

#[test]
fn run_without_account_fails() {
    let mut game = Game::default();
    assert_eq!(game.run_level(id(1), 0, Verdict::Pass), Err(Error::AccountNotExists));
}

#[test]
fn accounts_are_independent() {
    let mut game = Game::default();
    game.create_player_account(id(1)).unwrap();
    game.create_player_account(id(2)).unwrap();
    game.submit_level(id(1), 0, id(50)).unwrap();
    run(&mut game, id(1), 0, &mut FakeProgram::flipper(false)).unwrap();
    assert_eq!(game.get_player_account(id(1)).unwrap().level(), 1);
    assert_eq!(game.get_player_account(id(2)).unwrap().level(), 0);
    assert_eq!(game.level_contract(id(2), 0), Err(Error::LevelContractNotExists));
}

#[test]
fn end_to_end_two_levels() {
    let player = id(1);
    let prog_a = id(0xA);
    let prog_b = id(0xB);
    let mut game = Game::default();
    assert_eq!(game.create_player_account(player).unwrap().level(), 0);
    assert_eq!(game.submit_level(player, 0, prog_a), Ok(prog_a));
    assert_eq!(run(&mut game, player, 0, &mut FakeProgram::flipper(false)), Ok(true));
    assert_eq!(game.get_player_account(player).unwrap().level(), 1);
    assert_eq!(game.submit_level(player, 1, prog_b), Ok(prog_b));
    assert_eq!(
        run(&mut game, player, 1, &mut FakeProgram::stuck(false)),
        Err(Error::LevelContractCallFailed)
    );
    assert_eq!(game.get_player_account(player).unwrap().level(), 1);
}
