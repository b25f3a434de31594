use on_chain_calculator::{
    authorize, Calculator, CalculatorAccount, CalculatorError, CalculatorEvent, EventLog, Identity,
    Mutation, Operation,
};

fn alice() -> Identity {
    Identity::new([1u8; 32])
}

fn bob() -> Identity {
    Identity::new([2u8; 32])
}

#[test]
fn a_new_account_holds_no_record() {
    let account = CalculatorAccount::new();
    assert!(!account.is_initialized());
    assert_eq!(account.read(), Err(CalculatorError::NotFound));
}

#[test]
fn create_stores_the_operands_and_the_creator() {
    let mut account = CalculatorAccount::new();
    assert_eq!(account.create(10, 5, alice()), Ok(()));
    assert!(account.is_initialized());
    assert_eq!(account.read(), Ok(Calculator { x: 10, y: 5, update_authority: alice() }));
}

#[test]
fn create_refuses_a_populated_account() {
    let mut account = CalculatorAccount::new();
    assert_eq!(account.create(10, 5, alice()), Ok(()));
    assert_eq!(account.create(1, 2, bob()), Err(CalculatorError::AlreadyExists));
    assert_eq!(account.create(10, 5, alice()), Err(CalculatorError::AlreadyExists));
    assert_eq!(account.read(), Ok(Calculator { x: 10, y: 5, update_authority: alice() }));
}

#[test]
fn write_overwrites_one_field() {
    let mut account = CalculatorAccount::new();
    assert_eq!(account.create(10, 5, alice()), Ok(()));
    assert_eq!(account.write(Mutation::SetX(-3)), Ok(()));
    assert_eq!(account.read(), Ok(Calculator { x: -3, y: 5, update_authority: alice() }));
    assert_eq!(account.write(Mutation::SetY(i64::MIN)), Ok(()));
    assert_eq!(account.read(), Ok(Calculator { x: -3, y: i64::MIN, update_authority: alice() }));
    assert_eq!(account.write(Mutation::SetAuthority(bob())), Ok(()));
    assert_eq!(account.read(), Ok(Calculator { x: -3, y: i64::MIN, update_authority: bob() }));
}

#[test]
fn write_needs_a_record() {
    let mut account = CalculatorAccount::new();
    assert_eq!(account.write(Mutation::SetX(1)), Err(CalculatorError::NotFound));
    assert!(!account.is_initialized());
    assert_eq!(account.read(), Err(CalculatorError::NotFound));
}

#[test]
fn a_mutation_changes_only_its_field() {
    let before = Calculator { x: 10, y: 5, update_authority: alice() };
    assert_eq!(
        Mutation::SetX(7).updated(before),
        Calculator { x: 7, y: 5, update_authority: alice() }
    );
    assert_eq!(
        Mutation::SetY(7).updated(before),
        Calculator { x: 10, y: 7, update_authority: alice() }
    );
    assert_eq!(
        Mutation::SetAuthority(bob()).updated(before),
        Calculator { x: 10, y: 5, update_authority: bob() }
    );
}

#[test]
fn only_the_authority_is_authorized() {
    let state = Calculator { x: 0, y: 0, update_authority: alice() };
    assert_eq!(authorize(&state, &alice()), Ok(()));
    assert_eq!(authorize(&state, &bob()), Err(CalculatorError::WrongPrivileges));
}

#[test]
fn a_new_log_is_empty() {
    let log = EventLog::new();
    assert_eq!(log.len(), 0);
    assert_eq!(log.get(0), None);
    assert!(log.events().is_empty());
}

#[test]
fn emit_appends_in_order() {
    let mut log = EventLog::new();
    log.emit(1, 2, Some(3), Operation::Addition);
    log.emit(4, 0, None, Operation::Division);
    let first = CalculatorEvent { x: 1, y: 2, result: Some(3), op: Operation::Addition };
    let second = CalculatorEvent { x: 4, y: 0, result: None, op: Operation::Division };
    assert_eq!(log.len(), 2);
    assert_eq!(log.get(0), Some(first));
    assert_eq!(log.get(1), Some(second));
    assert_eq!(log.get(2), None);
    assert_eq!(log.events(), [first, second].as_slice());
}
