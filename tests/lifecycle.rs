use ciem::fsm::{CiemFsm, FsmError, KeyState};

fn fsm_in(state: KeyState) -> CiemFsm {
    let mut fsm = CiemFsm::new();
    match state {
        KeyState::Empty => {}
        KeyState::Created => {
            fsm.on_generate().unwrap();
        }
        KeyState::Bound => {
            fsm.on_generate().unwrap();
            fsm.on_bind().unwrap();
        }
        KeyState::Active => {
            fsm.on_generate().unwrap();
            fsm.on_bind().unwrap();
            fsm.on_authorize().unwrap();
        }
        KeyState::Expired => {
            fsm.on_generate().unwrap();
            fsm.on_bind().unwrap();
            fsm.on_authorize().unwrap();
            for _ in 0..CiemFsm::MAX_USAGE {
                fsm.on_use().unwrap();
            }
            assert_eq!(fsm.on_use(), Err(FsmError::UsageExceeded));
        }
        KeyState::Revoked => {
            fsm.on_generate().unwrap();
            fsm.on_bind().unwrap();
            fsm.on_authorize().unwrap();
            fsm.on_revoke().unwrap();
        }
        KeyState::Zeroized => {
            fsm.on_zeroize();
        }
    }
    assert_eq!(fsm.state(), state);
    fsm
}

const ALL_STATES: [KeyState; 7] = [
    KeyState::Empty,
    KeyState::Created,
    KeyState::Bound,
    KeyState::Active,
    KeyState::Expired,
    KeyState::Revoked,
    KeyState::Zeroized,
];

#[test]
fn new_fsm_is_empty() {
    let fsm = CiemFsm::new();
    assert_eq!(fsm.state(), KeyState::Empty);
    assert_eq!(CiemFsm::default().state(), KeyState::Empty);
}

#[test]
fn generate_only_from_empty() {
    for s in ALL_STATES {
        let mut fsm = fsm_in(s);
        let r = fsm.on_generate();
        if s == KeyState::Empty {
            assert_eq!(r, Ok(()));
            assert_eq!(fsm.state(), KeyState::Created);
        } else {
            assert_eq!(r, Err(FsmError::InvalidTransition));
            assert_eq!(fsm.state(), s);
        }
    }
}

#[test]
fn bind_only_from_created() {
    for s in ALL_STATES {
        let mut fsm = fsm_in(s);
        let r = fsm.on_bind();
        if s == KeyState::Created {
            assert_eq!(r, Ok(()));
            assert_eq!(fsm.state(), KeyState::Bound);
        } else {
            assert_eq!(r, Err(FsmError::InvalidTransition));
            assert_eq!(fsm.state(), s);
        }
    }
}

#[test]
fn authorize_only_from_bound() {
    for s in ALL_STATES {
        let mut fsm = fsm_in(s);
        let r = fsm.on_authorize();
        if s == KeyState::Bound {
            assert_eq!(r, Ok(()));
            assert_eq!(fsm.state(), KeyState::Active);
        } else {
            assert_eq!(r, Err(FsmError::InvalidTransition));
            assert_eq!(fsm.state(), s);
        }
    }
}

#[test]
fn use_only_from_active() {
    for s in ALL_STATES {
        let mut fsm = fsm_in(s);
        let r = fsm.on_use();
        if s == KeyState::Active {
            assert_eq!(r, Ok(()));
            assert_eq!(fsm.state(), KeyState::Active);
        } else {
            assert_eq!(r, Err(FsmError::InvalidTransition));
            assert_eq!(fsm.state(), s);
        }
    }
}

#[test]
fn revoke_only_from_active() {
    for s in ALL_STATES {
        let mut fsm = fsm_in(s);
        let r = fsm.on_revoke();
        if s == KeyState::Active {
            assert_eq!(r, Ok(()));
            assert_eq!(fsm.state(), KeyState::Revoked);
        } else {
            assert_eq!(r, Err(FsmError::InvalidTransition));
            assert_eq!(fsm.state(), s);
        }
    }
}

#[test]
fn zeroize_from_every_state() {
    for s in ALL_STATES {
        let mut fsm = fsm_in(s);
        fsm.on_zeroize();
        assert_eq!(fsm.state(), KeyState::Zeroized);
        // Zeroized is final: only zeroize itself is accepted.
        assert_eq!(fsm.on_generate(), Err(FsmError::InvalidTransition));
        assert_eq!(fsm.on_use(), Err(FsmError::InvalidTransition));
        assert_eq!(fsm.state(), KeyState::Zeroized);
    }
}

#[test]
fn event_sequence_follows_table() {
    let mut fsm = CiemFsm::new();
    assert_eq!(fsm.on_bind(), Err(FsmError::InvalidTransition));
    assert_eq!(fsm.on_generate(), Ok(()));
    assert_eq!(fsm.on_authorize(), Err(FsmError::InvalidTransition));
    assert_eq!(fsm.on_bind(), Ok(()));
    assert_eq!(fsm.on_use(), Err(FsmError::InvalidTransition));
    assert_eq!(fsm.on_authorize(), Ok(()));
    assert_eq!(fsm.on_authorize(), Err(FsmError::InvalidTransition));
    assert_eq!(fsm.on_use(), Ok(()));
    assert_eq!(fsm.on_revoke(), Ok(()));
    assert_eq!(fsm.on_use(), Err(FsmError::InvalidTransition));
    assert_eq!(fsm.state(), KeyState::Revoked);
    fsm.on_zeroize();
    assert_eq!(fsm.state(), KeyState::Zeroized);
}

#[test]
fn usage_budget_expires_key() {
    let mut fsm = fsm_in(KeyState::Active);
    assert_eq!(CiemFsm::MAX_USAGE, 1000);
    for _ in 0..1000 {
        assert_eq!(fsm.on_use(), Ok(()));
        assert_eq!(fsm.state(), KeyState::Active);
    }
    assert_eq!(fsm.on_use(), Err(FsmError::UsageExceeded));
    assert_eq!(fsm.state(), KeyState::Expired);
    assert_eq!(fsm.on_use(), Err(FsmError::InvalidTransition));
    assert_eq!(fsm.on_use(), Err(FsmError::InvalidTransition));
    assert_eq!(fsm.state(), KeyState::Expired);
}

#[test]
fn zeroize_resets_usage() {
    let mut fsm = fsm_in(KeyState::Active);
    for _ in 0..10 {
        fsm.on_use().unwrap();
    }
    fsm.on_zeroize();
    assert_eq!(fsm.state(), KeyState::Zeroized);
}
