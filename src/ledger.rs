use vstd::prelude::*;

use crate::identity::Identity;
use crate::state::{
    AdminWithdrawEvent, Deposit, DepositEvent, DepositToken, Errors, InitAta, InitMaster, Master,
    MasterAccount, SendWithdraw, SendWithdrawToken, SetAdmin, SetOperator, Withdraw,
    WithdrawEvent, WithdrawToken,
};

verus! {

/// The largest value of a `u64`, as a mathematical integer.
pub open spec fn u64_max() -> int {
    u64::MAX as int
}

/// What a native withdrawal of `amount` must leave behind: it is allowed
/// only when the balance is strictly greater than `amount + floor`.
pub open spec fn native_floor_check(m: Master, amount: u64, floor: u64) -> Result<(), Errors> {
    if amount + floor > u64_max() {
        Err(Errors::MathUnderflowOrOverflow)
    } else if m.balance <= amount + floor {
        Err(Errors::NotEnoughBalance)
    } else {
        Ok(())
    }
}

/// Whether `ata` is the vault token account bound to `m`.
pub open spec fn token_binding(m: Master, ata: Identity) -> Result<(), Errors> {
    match m.token_account {
        None => Err(Errors::TokenAccountNotInitialized),
        Some(t) => if t == ata {
            Ok(())
        } else {
            Err(Errors::TokenAccountMismatch)
        },
    }
}

/// The record that a withdrawal by the operator leaves, whatever its outcome
/// once the caller and the accounts were accepted: the attempt time.
pub open spec fn stamped(m: Master, now: i64) -> Master {
    Master { last_withdraw_time: now, ..m }
}

/// Admin withdrawal of native units: record after, and the outcome.
pub open spec fn withdraw_spec(
    data: Option<Master>,
    key: Identity,
    accounts: Withdraw,
    amount: u64,
    floor: u64,
    now: i64,
) -> (Option<Master>, Result<AdminWithdrawEvent, Errors>) {
    match data {
        None => (data, Err(Errors::MasterNotInitialized)),
        Some(m) => if accounts.admin != m.admin {
            (data, Err(Errors::Unauthorized))
        } else {
            match native_floor_check(m, amount, floor) {
                Err(e) => (data, Err(e)),
                Ok(()) => (
                    Some(Master { balance: (m.balance - amount) as u64, ..m }),
                    Ok(AdminWithdrawEvent { user: accounts.admin, holder: key, amount, time: now }),
                ),
            }
        },
    }
}

/// Operator withdrawal of native units to a receiver: record after, and the
/// outcome. Once the operator is accepted the attempt time is recorded, also
/// when the withdrawal itself is then refused.
pub open spec fn send_withdraw_spec(
    data: Option<Master>,
    key: Identity,
    accounts: SendWithdraw,
    amount: u64,
    floor: u64,
    now: i64,
) -> (Option<Master>, Result<WithdrawEvent, Errors>) {
    match data {
        None => (data, Err(Errors::MasterNotInitialized)),
        Some(m) => if accounts.operator != m.operator {
            (data, Err(Errors::Unauthorized))
        } else {
            match native_floor_check(m, amount, floor) {
                Err(e) => (Some(stamped(m, now)), Err(e)),
                Ok(()) => (
                    Some(Master { balance: (m.balance - amount) as u64, ..stamped(m, now) }),
                    Ok(WithdrawEvent { user: accounts.receiver, holder: key, amount, time: now }),
                ),
            }
        },
    }
}

/// Admin withdrawal of tokens: record after, and the outcome.
pub open spec fn withdraw_token_spec(
    data: Option<Master>,
    accounts: WithdrawToken,
    amount: u64,
    now: i64,
) -> (Option<Master>, Result<AdminWithdrawEvent, Errors>) {
    match data {
        None => (data, Err(Errors::MasterNotInitialized)),
        Some(m) => if accounts.admin != m.admin {
            (data, Err(Errors::Unauthorized))
        } else {
            match token_binding(m, accounts.master_ata) {
                Err(e) => (data, Err(e)),
                Ok(()) => if m.token_balance < amount {
                    (data, Err(Errors::MathUnderflowOrOverflow))
                } else {
                    (
                        Some(Master { token_balance: (m.token_balance - amount) as u64, ..m }),
                        Ok(
                            AdminWithdrawEvent {
                                user: accounts.admin,
                                holder: accounts.master_ata,
                                amount,
                                time: now,
                            },
                        ),
                    )
                },
            }
        },
    }
}

/// Operator withdrawal of tokens to a receiver: record after, and the
/// outcome. Once the operator and the vault token account are accepted the
/// attempt time is recorded, also when the withdrawal is then refused.
pub open spec fn send_withdraw_token_spec(
    data: Option<Master>,
    accounts: SendWithdrawToken,
    amount: u64,
    now: i64,
) -> (Option<Master>, Result<WithdrawEvent, Errors>) {
    match data {
        None => (data, Err(Errors::MasterNotInitialized)),
        Some(m) => if accounts.operator != m.operator {
            (data, Err(Errors::Unauthorized))
        } else {
            match token_binding(m, accounts.master_ata) {
                Err(e) => (data, Err(e)),
                Ok(()) => if m.token_balance < amount {
                    (Some(stamped(m, now)), Err(Errors::MathUnderflowOrOverflow))
                } else {
                    (
                        Some(
                            Master {
                                token_balance: (m.token_balance - amount) as u64,
                                ..stamped(m, now)
                            },
                        ),
                        Ok(
                            WithdrawEvent {
                                user: accounts.receiver,
                                holder: accounts.master_ata,
                                amount,
                                time: now,
                            },
                        ),
                    )
                },
            }
        },
    }
}

/// Native deposit by anyone: record after, and the outcome.
pub open spec fn deposit_spec(
    data: Option<Master>,
    key: Identity,
    accounts: Deposit,
    amount: u64,
    now: i64,
) -> (Option<Master>, Result<DepositEvent, Errors>) {
    match data {
        None => (data, Err(Errors::MasterNotInitialized)),
        Some(m) => if m.balance + amount > u64_max() {
            (data, Err(Errors::MathUnderflowOrOverflow))
        } else {
            (
                Some(Master { balance: (m.balance + amount) as u64, ..m }),
                Ok(DepositEvent { user: accounts.user, holder: key, amount, time: now }),
            )
        },
    }
}

/// Token deposit by anyone into the bound vault token account: record after,
/// and the outcome.
pub open spec fn deposit_token_spec(
    data: Option<Master>,
    accounts: DepositToken,
    amount: u64,
    now: i64,
) -> (Option<Master>, Result<DepositEvent, Errors>) {
    match data {
        None => (data, Err(Errors::MasterNotInitialized)),
        Some(m) => match token_binding(m, accounts.master_ata) {
            Err(e) => (data, Err(e)),
            Ok(()) => if m.token_balance + amount > u64_max() {
                (data, Err(Errors::MathUnderflowOrOverflow))
            } else {
                (
                    Some(Master { token_balance: (m.token_balance + amount) as u64, ..m }),
                    Ok(
                        DepositEvent {
                            user: accounts.user,
                            holder: accounts.master_ata,
                            amount,
                            time: now,
                        },
                    ),
                )
            },
        },
    }
}

/// The record as first created: no funds, no token account, the given roles.
pub open spec fn fresh_master(admin: Identity, operator: Identity) -> Master {
    Master {
        balance: 0,
        token_balance: 0,
        token_account: None,
        last_withdraw_time: 0,
        operator,
        admin,
    }
}

/// Creation of the record: record after, and the outcome.
pub open spec fn init_master_spec(data: Option<Master>, accounts: InitMaster) -> (
    Option<Master>,
    Result<(), Errors>,
) {
    match data {
        Some(_) => (data, Err(Errors::MasterAlreadyCreated)),
        None => (Some(fresh_master(accounts.admin, accounts.operator)), Ok(())),
    }
}

/// Binding of the vault token account by the admin: record after, and the
/// outcome.
pub open spec fn init_ata_spec(data: Option<Master>, accounts: InitAta) -> (
    Option<Master>,
    Result<(), Errors>,
) {
    match data {
        None => (data, Err(Errors::MasterNotInitialized)),
        Some(m) => if accounts.user != m.admin {
            (data, Err(Errors::Unauthorized))
        } else if m.token_account is Some {
            (data, Err(Errors::TokenAccountAlreadyCreated))
        } else {
            (Some(Master { token_account: Some(accounts.master_ata), ..m }), Ok(()))
        },
    }
}

/// Rotation of the operator by the admin: record after, and the outcome.
pub open spec fn set_operator_spec(data: Option<Master>, accounts: SetOperator) -> (
    Option<Master>,
    Result<(), Errors>,
) {
    match data {
        None => (data, Err(Errors::MasterNotInitialized)),
        Some(m) => if accounts.admin != m.admin {
            (data, Err(Errors::Unauthorized))
        } else {
            (Some(Master { operator: accounts.new_operator, ..m }), Ok(()))
        },
    }
}

/// Rotation of the admin by the admin: record after, and the outcome.
pub open spec fn set_admin_spec(data: Option<Master>, accounts: SetAdmin) -> (
    Option<Master>,
    Result<(), Errors>,
) {
    match data {
        None => (data, Err(Errors::MasterNotInitialized)),
        Some(m) => if accounts.admin != m.admin {
            (data, Err(Errors::Unauthorized))
        } else {
            (Some(Master { admin: accounts.new_admin, ..m }), Ok(()))
        },
    }
}

/// Checks the floor rule of a native withdrawal.
fn check_native_floor(m: &Master, amount: u64, floor: u64) -> (r: Result<(), Errors>)
    ensures
        r == native_floor_check(*m, amount, floor),
{
    match amount.checked_add(floor) {
        None => Err(Errors::MathUnderflowOrOverflow),
        Some(needed) => if m.balance > needed {
            Ok(())
        } else {
            Err(Errors::NotEnoughBalance)
        },
    }
}

/// The admin withdraws `amount` native units to itself. `floor` is the
/// reserve that the vault must keep; `now` is the current time.
pub fn withdraw(
    master: &mut MasterAccount,
    accounts: &Withdraw,
    amount: u64,
    floor: u64,
    now: i64,
) -> (r: Result<AdminWithdrawEvent, Errors>)
    ensures
        (final(master).data, r) == withdraw_spec(old(master).data, old(master).key, *accounts, amount, floor, now),
        final(master).key == old(master).key,
{
    let m = match master.data {
        None => return Err(Errors::MasterNotInitialized),
        Some(m) => m,
    };
    if !accounts.admin.same(&m.admin) {
        return Err(Errors::Unauthorized);
    }
    check_native_floor(&m, amount, floor)?;
    let balance = match m.balance.checked_sub(amount) {
        None => return Err(Errors::MathUnderflowOrOverflow),
        Some(b) => b,
    };
    master.data = Some(Master { balance, ..m });
    Ok(AdminWithdrawEvent { user: accounts.admin, holder: master.key, amount, time: now })
}

/// The operator sends `amount` native units to the receiver. The attempt
/// time `now` is recorded once the operator is accepted, also when the
/// withdrawal is then refused.
pub fn send_withdraw(
    master: &mut MasterAccount,
    accounts: &SendWithdraw,
    amount: u64,
    floor: u64,
    now: i64,
) -> (r: Result<WithdrawEvent, Errors>)
    ensures
        (final(master).data, r) == send_withdraw_spec(old(master).data, old(master).key, *accounts, amount, floor, now),
        final(master).key == old(master).key,
{
    let mut m = match master.data {
        None => return Err(Errors::MasterNotInitialized),
        Some(m) => m,
    };
    if !accounts.operator.same(&m.operator) {
        return Err(Errors::Unauthorized);
    }
    m.last_withdraw_time = now;
    master.data = Some(m);
    check_native_floor(&m, amount, floor)?;
    let balance = match m.balance.checked_sub(amount) {
        None => return Err(Errors::MathUnderflowOrOverflow),
        Some(b) => b,
    };
    master.data = Some(Master { balance, ..m });
    Ok(WithdrawEvent { user: accounts.receiver, holder: master.key, amount, time: now })
}

/// Checks that `ata` is the vault token account bound to `m`.
fn check_token_binding(m: &Master, ata: &Identity) -> (r: Result<(), Errors>)
    ensures
        r == token_binding(*m, *ata),
{
    match m.token_account {
        None => Err(Errors::TokenAccountNotInitialized),
        Some(t) => if t.same(ata) {
            Ok(())
        } else {
            Err(Errors::TokenAccountMismatch)
        },
    }
}

/// The admin withdraws `amount` tokens from the vault token account to its
/// own token account.
pub fn withdraw_token(
    master: &mut MasterAccount,
    accounts: &WithdrawToken,
    amount: u64,
    now: i64,
) -> (r: Result<AdminWithdrawEvent, Errors>)
    ensures
        (final(master).data, r) == withdraw_token_spec(old(master).data, *accounts, amount, now),
        final(master).key == old(master).key,
{
    let m = match master.data {
        None => return Err(Errors::MasterNotInitialized),
        Some(m) => m,
    };
    if !accounts.admin.same(&m.admin) {
        return Err(Errors::Unauthorized);
    }
    check_token_binding(&m, &accounts.master_ata)?;
    let token_balance = match m.token_balance.checked_sub(amount) {
        None => return Err(Errors::MathUnderflowOrOverflow),
        Some(b) => b,
    };
    master.data = Some(Master { token_balance, ..m });
    Ok(
        AdminWithdrawEvent {
            user: accounts.admin,
            holder: accounts.master_ata,
            amount,
            time: now,
        },
    )
}

/// The operator sends `amount` tokens from the vault token account to the
/// receiver's token account. The attempt time `now` is recorded once the
/// operator and the vault token account are accepted, also when the
/// withdrawal is then refused.
pub fn send_withdraw_token(
    master: &mut MasterAccount,
    accounts: &SendWithdrawToken,
    amount: u64,
    now: i64,
) -> (r: Result<WithdrawEvent, Errors>)
    ensures
        (final(master).data, r) == send_withdraw_token_spec(old(master).data, *accounts, amount, now),
        final(master).key == old(master).key,
{
    let mut m = match master.data {
        None => return Err(Errors::MasterNotInitialized),
        Some(m) => m,
    };
    if !accounts.operator.same(&m.operator) {
        return Err(Errors::Unauthorized);
    }
    check_token_binding(&m, &accounts.master_ata)?;
    m.last_withdraw_time = now;
    master.data = Some(m);
    let token_balance = match m.token_balance.checked_sub(amount) {
        None => return Err(Errors::MathUnderflowOrOverflow),
        Some(b) => b,
    };
    master.data = Some(Master { token_balance, ..m });
    Ok(
        WithdrawEvent {
            user: accounts.receiver,
            holder: accounts.master_ata,
            amount,
            time: now,
        },
    )
}

/// Anyone deposits `amount` native units into the vault.
pub fn deposit(master: &mut MasterAccount, accounts: &Deposit, amount: u64, now: i64) -> (r:
    Result<DepositEvent, Errors>)
    ensures
        (final(master).data, r) == deposit_spec(old(master).data, old(master).key, *accounts, amount, now),
        final(master).key == old(master).key,
{
    let m = match master.data {
        None => return Err(Errors::MasterNotInitialized),
        Some(m) => m,
    };
    let balance = match m.balance.checked_add(amount) {
        None => return Err(Errors::MathUnderflowOrOverflow),
        Some(b) => b,
    };
    master.data = Some(Master { balance, ..m });
    Ok(DepositEvent { user: accounts.user, holder: master.key, amount, time: now })
}

/// Anyone deposits `amount` tokens into the bound vault token account.
pub fn deposit_token(
    master: &mut MasterAccount,
    accounts: &DepositToken,
    amount: u64,
    now: i64,
) -> (r: Result<DepositEvent, Errors>)
    ensures
        (final(master).data, r) == deposit_token_spec(old(master).data, *accounts, amount, now),
        final(master).key == old(master).key,
{
    let m = match master.data {
        None => return Err(Errors::MasterNotInitialized),
        Some(m) => m,
    };
    check_token_binding(&m, &accounts.master_ata)?;
    let token_balance = match m.token_balance.checked_add(amount) {
        None => return Err(Errors::MathUnderflowOrOverflow),
        Some(b) => b,
    };
    master.data = Some(Master { token_balance, ..m });
    Ok(
        DepositEvent {
            user: accounts.user,
            holder: accounts.master_ata,
            amount,
            time: now,
        },
    )
}

/// Creates the master record with both balances zero and the given roles.
pub fn init_master(master: &mut MasterAccount, accounts: &InitMaster) -> (r: Result<(), Errors>)
    ensures
        (final(master).data, r) == init_master_spec(old(master).data, *accounts),
        final(master).key == old(master).key,
{
    if master.data.is_some() {
        return Err(Errors::MasterAlreadyCreated);
    }
    master.data = Some(
        Master {
            balance: 0,
            token_balance: 0,
            token_account: None,
            last_withdraw_time: 0,
            operator: accounts.operator,
            admin: accounts.admin,
        },
    );
    Ok(())
}

/// The admin binds the vault token account, once.
pub fn init_ata(master: &mut MasterAccount, accounts: &InitAta) -> (r: Result<(), Errors>)
    ensures
        (final(master).data, r) == init_ata_spec(old(master).data, *accounts),
        final(master).key == old(master).key,
{
    let m = match master.data {
        None => return Err(Errors::MasterNotInitialized),
        Some(m) => m,
    };
    if !accounts.user.same(&m.admin) {
        return Err(Errors::Unauthorized);
    }
    if m.token_account.is_some() {
        return Err(Errors::TokenAccountAlreadyCreated);
    }
    master.data = Some(Master { token_account: Some(accounts.master_ata), ..m });
    Ok(())
}

/// The admin hands the operator role to `new_operator`.
pub fn set_operator(master: &mut MasterAccount, accounts: &SetOperator) -> (r: Result<(), Errors>)
    ensures
        (final(master).data, r) == set_operator_spec(old(master).data, *accounts),
        final(master).key == old(master).key,
{
    let m = match master.data {
        None => return Err(Errors::MasterNotInitialized),
        Some(m) => m,
    };
    if !accounts.admin.same(&m.admin) {
        return Err(Errors::Unauthorized);
    }
    master.data = Some(Master { operator: accounts.new_operator, ..m });
    Ok(())
}

/// The admin hands the admin role to `new_admin`.
pub fn set_admin(master: &mut MasterAccount, accounts: &SetAdmin) -> (r: Result<(), Errors>)
    ensures
        (final(master).data, r) == set_admin_spec(old(master).data, *accounts),
        final(master).key == old(master).key,
{
    let m = match master.data {
        None => return Err(Errors::MasterNotInitialized),
        Some(m) => m,
    };
    if !accounts.admin.same(&m.admin) {
        return Err(Errors::Unauthorized);
    }
    master.data = Some(Master { admin: accounts.new_admin, ..m });
    Ok(())
}

} // verus!
