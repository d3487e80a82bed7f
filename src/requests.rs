use vstd::prelude::*;

use crate::identity::Identity;
use crate::ledger::{
    deposit, deposit_spec, deposit_token, deposit_token_spec, init_ata, init_ata_spec, init_master,
    init_master_spec, send_withdraw, send_withdraw_spec, send_withdraw_token,
    send_withdraw_token_spec, set_admin, set_admin_spec, set_operator, set_operator_spec, withdraw,
    withdraw_spec, withdraw_token, withdraw_token_spec,
};
use crate::state::{
    AdminWithdrawEvent, Deposit, DepositEvent, DepositToken, Errors, InitAta, InitMaster, Master,
    MasterAccount, SendWithdraw, SendWithdrawToken, SetAdmin, SetOperator, Withdraw,
    WithdrawEvent, WithdrawToken,
};

verus! {

/// One operation on the master record, with its arguments: the accounts,
/// the amount, the reserved floor of a native withdrawal, and the current
/// time.
#[derive(Clone, Copy, Debug)]
pub enum Request {
    InitMaster(InitMaster),
    InitAta(InitAta),
    Deposit(Deposit, u64, i64),
    DepositToken(DepositToken, u64, i64),
    SetOperator(SetOperator),
    SetAdmin(SetAdmin),
    Withdraw(Withdraw, u64, u64, i64),
    WithdrawToken(WithdrawToken, u64, i64),
    SendWithdraw(SendWithdraw, u64, u64, i64),
    SendWithdrawToken(SendWithdrawToken, u64, i64),
}

/// The event that a balance-changing operation emits.
#[derive(Clone, Copy, Debug, PartialEq, Eq)]
pub enum Event {
    Deposit(DepositEvent),
    Withdraw(WithdrawEvent),
    AdminWithdraw(AdminWithdrawEvent),
}

/// The amount that an event reports.
pub open spec fn event_amount(e: Event) -> u64 {
    match e {
        Event::Deposit(d) => d.amount,
        Event::Withdraw(w) => w.amount,
        Event::AdminWithdraw(w) => w.amount,
    }
}

/// The account that an event reports as holding the funds.
pub open spec fn event_holder(e: Event) -> Identity {
    match e {
        Event::Deposit(d) => d.holder,
        Event::Withdraw(w) => w.holder,
        Event::AdminWithdraw(w) => w.holder,
    }
}

/// Turns the outcome of a balance-changing operation into one of a request.
pub open spec fn emitted<E>(r: Result<E, Errors>, wrap: spec_fn(E) -> Event) -> Result<
    Option<Event>,
    Errors,
> {
    match r {
        Ok(e) => Ok(Some(wrap(e))),
        Err(err) => Err(err),
    }
}

/// Turns the outcome of an operation that moves no funds into one of a
/// request.
pub open spec fn silent(r: Result<(), Errors>) -> Result<Option<Event>, Errors> {
    match r {
        Ok(()) => Ok(None),
        Err(err) => Err(err),
    }
}

/// What a request does to the record stored at `key`: the record after, and
/// the outcome with the event emitted, if any.
pub open spec fn step(data: Option<Master>, key: Identity, req: Request) -> (
    Option<Master>,
    Result<Option<Event>, Errors>,
) {
    match req {
        Request::InitMaster(a) => {
            let (d, r) = init_master_spec(data, a);
            (d, silent(r))
        },
        Request::InitAta(a) => {
            let (d, r) = init_ata_spec(data, a);
            (d, silent(r))
        },
        Request::SetOperator(a) => {
            let (d, r) = set_operator_spec(data, a);
            (d, silent(r))
        },
        Request::SetAdmin(a) => {
            let (d, r) = set_admin_spec(data, a);
            (d, silent(r))
        },
        Request::Deposit(a, amount, now) => {
            let (d, r) = deposit_spec(data, key, a, amount, now);
            (d, emitted(r, |e| Event::Deposit(e)))
        },
        Request::DepositToken(a, amount, now) => {
            let (d, r) = deposit_token_spec(data, a, amount, now);
            (d, emitted(r, |e| Event::Deposit(e)))
        },
        Request::Withdraw(a, amount, floor, now) => {
            let (d, r) = withdraw_spec(data, key, a, amount, floor, now);
            (d, emitted(r, |e| Event::AdminWithdraw(e)))
        },
        Request::WithdrawToken(a, amount, now) => {
            let (d, r) = withdraw_token_spec(data, a, amount, now);
            (d, emitted(r, |e| Event::AdminWithdraw(e)))
        },
        Request::SendWithdraw(a, amount, floor, now) => {
            let (d, r) = send_withdraw_spec(data, key, a, amount, floor, now);
            (d, emitted(r, |e| Event::Withdraw(e)))
        },
        Request::SendWithdrawToken(a, amount, now) => {
            let (d, r) = send_withdraw_token_spec(data, a, amount, now);
            (d, emitted(r, |e| Event::Withdraw(e)))
        },
    }
}

/// Carries out one request on the master record.
pub fn process(master: &mut MasterAccount, req: &Request) -> (r: Result<Option<Event>, Errors>)
    ensures
        (final(master).data, r) == step(old(master).data, old(master).key, *req),
        final(master).key == old(master).key,
{
    match *req {
        Request::InitMaster(a) => match init_master(master, &a) {
            Ok(()) => Ok(None),
            Err(e) => Err(e),
        },
        Request::InitAta(a) => match init_ata(master, &a) {
            Ok(()) => Ok(None),
            Err(e) => Err(e),
        },
        Request::SetOperator(a) => match set_operator(master, &a) {
            Ok(()) => Ok(None),
            Err(e) => Err(e),
        },
        Request::SetAdmin(a) => match set_admin(master, &a) {
            Ok(()) => Ok(None),
            Err(e) => Err(e),
        },
        Request::Deposit(a, amount, now) => match deposit(master, &a, amount, now) {
            Ok(e) => Ok(Some(Event::Deposit(e))),
            Err(e) => Err(e),
        },
        Request::DepositToken(a, amount, now) => match deposit_token(master, &a, amount, now) {
            Ok(e) => Ok(Some(Event::Deposit(e))),
            Err(e) => Err(e),
        },
        Request::Withdraw(a, amount, floor, now) => match withdraw(master, &a, amount, floor, now) {
            Ok(e) => Ok(Some(Event::AdminWithdraw(e))),
            Err(e) => Err(e),
        },
        Request::WithdrawToken(a, amount, now) => match withdraw_token(master, &a, amount, now) {
            Ok(e) => Ok(Some(Event::AdminWithdraw(e))),
            Err(e) => Err(e),
        },
        Request::SendWithdraw(a, amount, floor, now) => match send_withdraw(
            master,
            &a,
            amount,
            floor,
            now,
        ) {
            Ok(e) => Ok(Some(Event::Withdraw(e))),
            Err(e) => Err(e),
        },
        Request::SendWithdrawToken(a, amount, now) => match send_withdraw_token(
            master,
            &a,
            amount,
            now,
        ) {
            Ok(e) => Ok(Some(Event::Withdraw(e))),
            Err(e) => Err(e),
        },
    }
}

} // verus!
