use pro_balance::{
    deposit, deposit_token, init_ata, init_master, process, send_withdraw, send_withdraw_token,
    set_admin, set_operator, withdraw, withdraw_token, AdminWithdrawEvent, Deposit, DepositEvent,
    DepositToken, Errors, Event, Identity, InitAta, InitMaster, Master, MasterAccount, Request,
    SendWithdraw, SendWithdrawToken, SetAdmin, SetOperator, Withdraw, WithdrawEvent,
    WithdrawToken,
};

const FLOOR: u64 = 890_880;

fn id(b: u8) -> Identity {
    Identity::new([b; 32])
}

fn vault() -> Identity {
    id(1)
}
fn admin() -> Identity {
    id(2)
}
fn operator() -> Identity {
    id(3)
}
fn user_a() -> Identity {
    id(4)
}
fn vault_ata() -> Identity {
    id(5)
}
fn mint() -> Identity {
    id(6)
}
fn receiver() -> Identity {
    id(7)
}

fn created() -> MasterAccount {
    let mut m = MasterAccount::new(vault());
    let accounts = InitMaster { payer: user_a(), admin: admin(), operator: operator() };
    assert_eq!(init_master(&mut m, &accounts), Ok(()));
    m
}

fn bound() -> MasterAccount {
    let mut m = created();
    let accounts = InitAta { master_ata: vault_ata(), token_mint: mint(), user: admin() };
    assert_eq!(init_ata(&mut m, &accounts), Ok(()));
    m
}

fn record(m: &MasterAccount) -> Master {
    m.data.expect("record exists")
}

fn deposit_native(m: &mut MasterAccount, amount: u64) -> Result<DepositEvent, Errors> {
    deposit(m, &Deposit { user: user_a() }, amount, 100)
}

fn deposit_tokens(m: &mut MasterAccount, amount: u64) -> Result<DepositEvent, Errors> {
    let accounts = DepositToken { master_ata: vault_ata(), from: id(8), user: user_a() };
    deposit_token(m, &accounts, amount, 100)
}

fn admin_token_accounts() -> WithdrawToken {
    WithdrawToken { master_ata: vault_ata(), admin: admin(), admin_ata: id(9) }
}

fn operator_token_accounts(signer: Identity) -> SendWithdrawToken {
    SendWithdrawToken {
        master_ata: vault_ata(),
        operator: signer,
        receiver_ata: id(10),
        receiver: receiver(),
    }
}

#[test]
fn identity_equality_compares_every_byte() {
    let mut bytes = [9u8; 32];
    let a = Identity::new(bytes);
    bytes[31] = 10;
    let b = Identity::new(bytes);
    assert!(a.same(&a));
    assert!(!a.same(&b));
    assert!(a == Identity::new([9u8; 32]));
    assert!(a != b);
}

#[test]
fn init_master_starts_empty() {
    let m = created();
    let r = record(&m);
    assert_eq!(r.balance, 0);
    assert_eq!(r.token_balance, 0);
    assert_eq!(r.token_account, None);
    assert_eq!(r.last_withdraw_time, 0);
    assert_eq!(r.admin, admin());
    assert_eq!(r.operator, operator());
    assert_eq!(m.key, vault());
}

#[test]
fn init_master_twice_is_refused() {
    let mut m = created();
    let before = record(&m);
    let again = InitMaster { payer: id(20), admin: id(21), operator: id(22) };
    assert_eq!(init_master(&mut m, &again), Err(Errors::MasterAlreadyCreated));
    assert_eq!(record(&m), before);
}

#[test]
fn native_deposit_then_admin_withdrawals() {
    let mut m = created();
    let ev = deposit_native(&mut m, 1_000_000).unwrap();
    assert_eq!(
        ev,
        DepositEvent { user: user_a(), holder: vault(), amount: 1_000_000, time: 100 }
    );
    assert_eq!(record(&m).balance, 1_000_000);

    let all = withdraw(&mut m, &Withdraw { admin: admin() }, 1_000_000, FLOOR, 101);
    assert_eq!(all, Err(Errors::NotEnoughBalance));
    assert_eq!(record(&m).balance, 1_000_000);

    let part = withdraw(&mut m, &Withdraw { admin: admin() }, 50_000, FLOOR, 102).unwrap();
    assert_eq!(
        part,
        AdminWithdrawEvent { user: admin(), holder: vault(), amount: 50_000, time: 102 }
    );
    assert_eq!(record(&m).balance, 950_000);
}

#[test]
fn send_withdraw_on_missing_record_fails() {
    let mut m = MasterAccount::new(vault());
    let accounts = SendWithdraw { operator: operator(), receiver: receiver() };
    assert_eq!(
        send_withdraw(&mut m, &accounts, 10, FLOOR, 50),
        Err(Errors::MasterNotInitialized)
    );
    assert_eq!(m.data, None);
}

#[test]
fn deposit_token_before_binding_fails() {
    let mut m = created();
    assert_eq!(deposit_tokens(&mut m, 500), Err(Errors::TokenAccountNotInitialized));
    assert_eq!(record(&m).token_balance, 0);
}

#[test]
fn deposit_token_to_other_account_fails() {
    let mut m = bound();
    let accounts = DepositToken { master_ata: id(30), from: id(8), user: user_a() };
    assert_eq!(deposit_token(&mut m, &accounts, 500, 1), Err(Errors::TokenAccountMismatch));
    assert_eq!(record(&m).token_balance, 0);
}

#[test]
fn token_deposit_and_withdrawals() {
    let mut m = bound();
    let ev = deposit_tokens(&mut m, 500).unwrap();
    assert_eq!(ev, DepositEvent { user: user_a(), holder: vault_ata(), amount: 500, time: 100 });
    assert_eq!(record(&m).token_balance, 500);
    assert_eq!(record(&m).balance, 0);

    let ev = withdraw_token(&mut m, &admin_token_accounts(), 200, 110).unwrap();
    assert_eq!(
        ev,
        AdminWithdrawEvent { user: admin(), holder: vault_ata(), amount: 200, time: 110 }
    );
    assert_eq!(record(&m).token_balance, 300);

    let ev = send_withdraw_token(&mut m, &operator_token_accounts(operator()), 300, 120).unwrap();
    assert_eq!(
        ev,
        WithdrawEvent { user: receiver(), holder: vault_ata(), amount: 300, time: 120 }
    );
    assert_eq!(record(&m).token_balance, 0);
    assert_eq!(record(&m).last_withdraw_time, 120);
}

#[test]
fn token_withdrawal_beyond_balance_underflows() {
    let mut m = bound();
    deposit_tokens(&mut m, 10).unwrap();
    assert_eq!(
        withdraw_token(&mut m, &admin_token_accounts(), 11, 5),
        Err(Errors::MathUnderflowOrOverflow)
    );
    assert_eq!(record(&m).token_balance, 10);
    assert_eq!(record(&m).last_withdraw_time, 0);
}

#[test]
fn operator_token_underflow_still_records_attempt() {
    let mut m = bound();
    deposit_tokens(&mut m, 10).unwrap();
    assert_eq!(
        send_withdraw_token(&mut m, &operator_token_accounts(operator()), 11, 77),
        Err(Errors::MathUnderflowOrOverflow)
    );
    assert_eq!(record(&m).token_balance, 10);
    assert_eq!(record(&m).last_withdraw_time, 77);
}

#[test]
fn operator_native_withdrawal() {
    let mut m = created();
    deposit_native(&mut m, 2_000_000).unwrap();
    let accounts = SendWithdraw { operator: operator(), receiver: receiver() };
    let ev = send_withdraw(&mut m, &accounts, 1_000_000, FLOOR, 300).unwrap();
    assert_eq!(
        ev,
        WithdrawEvent { user: receiver(), holder: vault(), amount: 1_000_000, time: 300 }
    );
    assert_eq!(record(&m).balance, 1_000_000);
    assert_eq!(record(&m).last_withdraw_time, 300);
}

#[test]
fn operator_short_of_floor_records_attempt_only() {
    let mut m = created();
    deposit_native(&mut m, 1_000_000).unwrap();
    let accounts = SendWithdraw { operator: operator(), receiver: receiver() };
    assert_eq!(
        send_withdraw(&mut m, &accounts, 109_120, FLOOR, 400),
        Err(Errors::NotEnoughBalance)
    );
    assert_eq!(record(&m).balance, 1_000_000);
    assert_eq!(record(&m).last_withdraw_time, 400);
    // one unit less leaves exactly one unit above the floor
    assert!(send_withdraw(&mut m, &accounts, 109_119, FLOOR, 401).is_ok());
    assert_eq!(record(&m).balance, 890_881);
}

#[test]
fn floor_overflow_is_a_math_error() {
    let mut m = created();
    deposit_native(&mut m, 1_000).unwrap();
    assert_eq!(
        withdraw(&mut m, &Withdraw { admin: admin() }, u64::MAX, 1, 1),
        Err(Errors::MathUnderflowOrOverflow)
    );
    assert_eq!(record(&m).balance, 1_000);
}

#[test]
fn deposits_that_would_wrap_are_refused() {
    let mut m = bound();
    deposit_native(&mut m, u64::MAX).unwrap();
    assert_eq!(deposit_native(&mut m, 1), Err(Errors::MathUnderflowOrOverflow));
    assert_eq!(record(&m).balance, u64::MAX);
    deposit_tokens(&mut m, u64::MAX).unwrap();
    assert_eq!(deposit_tokens(&mut m, 1), Err(Errors::MathUnderflowOrOverflow));
    assert_eq!(record(&m).token_balance, u64::MAX);
}

#[test]
fn wrong_callers_are_unauthorized_and_change_nothing() {
    let mut m = bound();
    deposit_native(&mut m, 5_000_000).unwrap();
    deposit_tokens(&mut m, 5_000).unwrap();
    let before = record(&m);
    let stranger = id(40);

    assert_eq!(
        withdraw(&mut m, &Withdraw { admin: stranger }, 1, FLOOR, 9),
        Err(Errors::Unauthorized)
    );
    let mut tok = admin_token_accounts();
    tok.admin = operator();
    assert_eq!(withdraw_token(&mut m, &tok, 1, 9), Err(Errors::Unauthorized));
    let native = SendWithdraw { operator: admin(), receiver: receiver() };
    assert_eq!(send_withdraw(&mut m, &native, 1, FLOOR, 9), Err(Errors::Unauthorized));
    assert_eq!(
        send_withdraw_token(&mut m, &operator_token_accounts(stranger), 1, 9),
        Err(Errors::Unauthorized)
    );
    let rot = SetOperator { admin: operator(), new_operator: stranger };
    assert_eq!(set_operator(&mut m, &rot), Err(Errors::Unauthorized));
    let rot = SetAdmin { admin: stranger, new_admin: stranger };
    assert_eq!(set_admin(&mut m, &rot), Err(Errors::Unauthorized));
    let bind = InitAta { master_ata: id(41), token_mint: mint(), user: stranger };
    assert_eq!(init_ata(&mut m, &bind), Err(Errors::Unauthorized));

    assert_eq!(record(&m), before);
}

#[test]
fn token_account_is_bound_once() {
    let mut m = bound();
    let again = InitAta { master_ata: id(50), token_mint: mint(), user: admin() };
    assert_eq!(init_ata(&mut m, &again), Err(Errors::TokenAccountAlreadyCreated));
    assert_eq!(record(&m).token_account, Some(vault_ata()));
}

#[test]
fn init_ata_without_record_fails() {
    let mut m = MasterAccount::new(vault());
    let bind = InitAta { master_ata: vault_ata(), token_mint: mint(), user: admin() };
    assert_eq!(init_ata(&mut m, &bind), Err(Errors::MasterNotInitialized));
}

#[test]
fn operator_rotation_takes_effect_at_once() {
    let mut m = created();
    deposit_native(&mut m, 2_000_000).unwrap();
    let new_op = id(60);
    let rot = SetOperator { admin: admin(), new_operator: new_op };
    assert_eq!(set_operator(&mut m, &rot), Ok(()));
    assert_eq!(record(&m).operator, new_op);

    let old = SendWithdraw { operator: operator(), receiver: receiver() };
    assert_eq!(send_withdraw(&mut m, &old, 10, FLOOR, 1), Err(Errors::Unauthorized));
    let new = SendWithdraw { operator: new_op, receiver: receiver() };
    assert!(send_withdraw(&mut m, &new, 10, FLOOR, 2).is_ok());
    assert_eq!(record(&m).balance, 1_999_990);
}

#[test]
fn admin_rotation_takes_effect_at_once() {
    let mut m = created();
    deposit_native(&mut m, 2_000_000).unwrap();
    let new_admin = id(61);
    assert_eq!(set_admin(&mut m, &SetAdmin { admin: admin(), new_admin }), Ok(()));
    assert_eq!(
        withdraw(&mut m, &Withdraw { admin: admin() }, 10, FLOOR, 1),
        Err(Errors::Unauthorized)
    );
    assert!(withdraw(&mut m, &Withdraw { admin: new_admin }, 10, FLOOR, 1).is_ok());
}

#[test]
fn balances_follow_accepted_requests() {
    let mut m = MasterAccount::new(vault());
    let reqs = vec![
        Request::Deposit(Deposit { user: user_a() }, 7, 1),
        Request::InitMaster(InitMaster { payer: user_a(), admin: admin(), operator: operator() }),
        Request::Deposit(Deposit { user: user_a() }, 3_000_000, 2),
        Request::DepositToken(
            DepositToken { master_ata: vault_ata(), from: id(8), user: user_a() },
            40,
            3,
        ),
        Request::InitAta(InitAta { master_ata: vault_ata(), token_mint: mint(), user: admin() }),
        Request::DepositToken(
            DepositToken { master_ata: vault_ata(), from: id(8), user: user_a() },
            900,
            4,
        ),
        Request::Withdraw(Withdraw { admin: admin() }, 500_000, FLOOR, 5),
        Request::SendWithdraw(
            SendWithdraw { operator: operator(), receiver: receiver() },
            3_000_000,
            FLOOR,
            6,
        ),
        Request::WithdrawToken(admin_token_accounts(), 100, 7),
        Request::SendWithdrawToken(operator_token_accounts(operator()), 1_000, 8),
        Request::SendWithdrawToken(operator_token_accounts(operator()), 50, 9),
    ];
    let mut native_in: u64 = 0;
    let mut native_out: u64 = 0;
    let mut token_in: u64 = 0;
    let mut token_out: u64 = 0;
    let mut events = 0;
    for req in &reqs {
        if let Ok(Some(ev)) = process(&mut m, req) {
            events += 1;
            match ev {
                Event::Deposit(d) if d.holder == vault() => native_in += d.amount,
                Event::Deposit(d) => token_in += d.amount,
                Event::Withdraw(w) if w.holder == vault() => native_out += w.amount,
                Event::Withdraw(w) => token_out += w.amount,
                Event::AdminWithdraw(w) if w.holder == vault() => native_out += w.amount,
                Event::AdminWithdraw(w) => token_out += w.amount,
            }
        }
    }
    assert_eq!(events, 5);
    assert_eq!((native_in, native_out, token_in, token_out), (3_000_000, 500_000, 900, 150));
    let r = record(&m);
    assert_eq!(r.balance, 2_500_000);
    assert_eq!(r.token_balance, 750);
    assert_eq!(r.last_withdraw_time, 9);
}

#[test]
fn process_reports_no_event_for_role_changes() {
    let mut m = created();
    let req = Request::SetOperator(SetOperator { admin: admin(), new_operator: id(70) });
    assert_eq!(process(&mut m, &req), Ok(None));
    let req = Request::SetAdmin(SetAdmin { admin: admin(), new_admin: id(71) });
    assert_eq!(process(&mut m, &req), Ok(None));
    assert_eq!(record(&m).admin, id(71));
    assert_eq!(record(&m).operator, id(70));
}
