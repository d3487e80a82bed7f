use vstd::prelude::*;

use crate::identity::Identity;
use crate::ledger::{native_floor_check, send_withdraw_spec, set_operator_spec, withdraw_spec};
use crate::requests::{event_amount, event_holder, step, Event, Request};
use crate::state::{
    AdminWithdrawEvent, Errors, InitAta, Master, SendWithdraw, SetOperator, Withdraw, WithdrawEvent,
};

verus! {

/// The record after `reqs` were carried out in order on storage at `key`
/// that held no record.
pub open spec fn replay(key: Identity, reqs: Seq<Request>) -> Option<Master>
    decreases reqs.len(),
{
    if reqs.len() == 0 {
        None
    } else {
        step(replay(key, reqs.drop_last()), key, reqs.last()).0
    }
}

/// Native units that a request brings in if it is accepted.
pub open spec fn native_in(req: Request) -> nat {
    match req {
        Request::Deposit(_, amount, _) => amount as nat,
        _ => 0,
    }
}

/// Native units that a request takes out if it is accepted.
pub open spec fn native_out(req: Request) -> nat {
    match req {
        Request::Withdraw(_, amount, _, _) => amount as nat,
        Request::SendWithdraw(_, amount, _, _) => amount as nat,
        _ => 0,
    }
}

/// Token units that a request brings in if it is accepted.
pub open spec fn token_in(req: Request) -> nat {
    match req {
        Request::DepositToken(_, amount, _) => amount as nat,
        _ => 0,
    }
}

/// Token units that a request takes out if it is accepted.
pub open spec fn token_out(req: Request) -> nat {
    match req {
        Request::WithdrawToken(_, amount, _) => amount as nat,
        Request::SendWithdrawToken(_, amount, _) => amount as nat,
        _ => 0,
    }
}

/// The sum of `amount` over the requests of `reqs` that were accepted when
/// they were carried out in order on storage at `key` that held no record.
pub open spec fn accepted_sum(key: Identity, reqs: Seq<Request>, amount: spec_fn(Request) -> nat) -> nat
    decreases reqs.len(),
{
    if reqs.len() == 0 {
        0
    } else {
        let before = reqs.drop_last();
        let here: nat = if step(replay(key, before), key, reqs.last()).1 is Ok {
            amount(reqs.last())
        } else {
            0
        };
        accepted_sum(key, before, amount) + here
    }
}

/// For every sequence of requests, each balance equals the accepted deposits
/// of its asset minus the accepted withdrawals of it, and so never more is
/// withdrawn than was deposited.
pub proof fn lemma_balances_follow_history(key: Identity, reqs: Seq<Request>)
    ensures
        accepted_sum(key, reqs, |r| native_out(r)) <= accepted_sum(key, reqs, |r| native_in(r)),
        accepted_sum(key, reqs, |r| token_out(r)) <= accepted_sum(key, reqs, |r| token_in(r)),
        match replay(key, reqs) {
            Some(m) => {
                &&& m.balance == accepted_sum(key, reqs, |r| native_in(r)) - accepted_sum(
                    key,
                    reqs,
                    |r| native_out(r),
                )
                &&& m.token_balance == accepted_sum(key, reqs, |r| token_in(r)) - accepted_sum(
                    key,
                    reqs,
                    |r| token_out(r),
                )
            },
            None => {
                &&& accepted_sum(key, reqs, |r| native_in(r)) == 0
                &&& accepted_sum(key, reqs, |r| native_out(r)) == 0
                &&& accepted_sum(key, reqs, |r| token_in(r)) == 0
                &&& accepted_sum(key, reqs, |r| token_out(r)) == 0
            },
        },
    decreases reqs.len(),
{
    if reqs.len() > 0 {
        lemma_balances_follow_history(key, reqs.drop_last());
    }
}

/// A native withdrawal by the right role, whose amount plus the floor fits
/// in a `u64` and reaches the balance, fails with `NotEnoughBalance` and
/// leaves both balances as they were.
pub proof fn lemma_floor_is_kept(
    data: Option<Master>,
    key: Identity,
    admin: Withdraw,
    operator: SendWithdraw,
    amount: u64,
    floor: u64,
    now: i64,
)
    requires
        data is Some,
        amount + floor <= u64::MAX,
        amount + floor >= data->Some_0.balance,
    ensures
        admin.admin == data->Some_0.admin ==> withdraw_spec(data, key, admin, amount, floor, now)
            == (data, Err::<AdminWithdrawEvent, Errors>(Errors::NotEnoughBalance)),
        operator.operator == data->Some_0.operator ==> {
            let (after, r) = send_withdraw_spec(data, key, operator, amount, floor, now);
            &&& r == Err::<WithdrawEvent, Errors>(Errors::NotEnoughBalance)
            &&& after->Some_0.balance == data->Some_0.balance
            &&& after->Some_0.token_balance == data->Some_0.token_balance
        },
{
}

/// The identity that signs a request, and the role it must hold, if the
/// request is restricted to one.
pub open spec fn required_signer(m: Master, req: Request) -> Option<(Identity, Identity)> {
    match req {
        Request::InitAta(a) => Some((a.user, m.admin)),
        Request::SetOperator(a) => Some((a.admin, m.admin)),
        Request::SetAdmin(a) => Some((a.admin, m.admin)),
        Request::Withdraw(a, _, _, _) => Some((a.admin, m.admin)),
        Request::WithdrawToken(a, _, _) => Some((a.admin, m.admin)),
        Request::SendWithdraw(a, _, _, _) => Some((a.operator, m.operator)),
        Request::SendWithdrawToken(a, _, _) => Some((a.operator, m.operator)),
        _ => None,
    }
}

/// An admin-only or operator-only request signed by anyone else fails with
/// `Unauthorized`, changes nothing and emits no event.
pub proof fn lemma_wrong_caller_changes_nothing(m: Master, key: Identity, req: Request)
    requires
        required_signer(m, req) matches Some((signer, role)) && signer != role,
    ensures
        step(Some(m), key, req) == (Some(m), Err::<Option<Event>, Errors>(Errors::Unauthorized)),
{
}

/// Once the vault token account is bound, no request rebinds or unbinds it,
/// and a further binding by the admin fails with `TokenAccountAlreadyCreated`.
pub proof fn lemma_token_account_bound_once(m: Master, key: Identity, req: Request)
    requires
        m.token_account is Some,
    ensures
        step(Some(m), key, req).0 matches Some(after) && after.token_account == m.token_account,
        req matches Request::InitAta(a) && a.user == m.admin ==> step(Some(m), key, req) == (
            Some(m),
            Err::<Option<Event>, Errors>(Errors::TokenAccountAlreadyCreated),
        ),
{
}

/// A binding of the vault token account succeeds on a record without one,
/// when the admin asks, and only then.
pub proof fn lemma_token_account_binding(m: Master, key: Identity, a: InitAta)
    ensures
        (step(Some(m), key, Request::InitAta(a)).1 is Ok) <==> (m.token_account is None && a.user
            == m.admin),
        step(Some(m), key, Request::InitAta(a)).1 is Ok ==> step(
            Some(m),
            key,
            Request::InitAta(a),
        ).0 == Some(Master { token_account: Some(a.master_ata), ..m }),
{
}

/// A request that is accepted on an existing record emits exactly one event
/// if and only if it moves funds. The event's amount is the change of one
/// balance, the other balance is unchanged, and its holder is the vault for
/// the native currency and the bound vault token account for the token.
pub proof fn lemma_event_matches_change(m: Master, key: Identity, req: Request)
    requires
        step(Some(m), key, req).1 is Ok,
    ensures
        ({
            let (after, r) = step(Some(m), key, req);
            let n = after->Some_0;
            match r->Ok_0 {
                None => {
                    &&& n.balance == m.balance
                    &&& n.token_balance == m.token_balance
                    &&& native_in(req) + native_out(req) + token_in(req) + token_out(req) == 0
                },
                Some(e) => {
                    let amount = event_amount(e) as int;
                    ||| {
                        &&& event_holder(e) == key
                        &&& n.balance == m.balance + native_in(req) - native_out(req)
                        &&& amount == native_in(req) + native_out(req)
                        &&& n.token_balance == m.token_balance
                    }
                    ||| {
                        &&& m.token_account == Some(event_holder(e))
                        &&& n.token_balance == m.token_balance + token_in(req) - token_out(req)
                        &&& amount == token_in(req) + token_out(req)
                        &&& n.balance == m.balance
                    }
                },
            }
        }),
{
}

/// After the admin hands the operator role on, the previous operator is
/// refused and the new one is served at once.
pub proof fn lemma_operator_rotation_is_immediate(
    m: Master,
    key: Identity,
    rotation: SetOperator,
    receiver: Identity,
    amount: u64,
    floor: u64,
    now: i64,
)
    requires
        rotation.admin == m.admin,
        rotation.new_operator != m.operator,
    ensures
        ({
            let (after, _) = set_operator_spec(Some(m), rotation);
            let by_old = SendWithdraw { operator: m.operator, receiver };
            let by_new = SendWithdraw { operator: rotation.new_operator, receiver };
            &&& send_withdraw_spec(after, key, by_old, amount, floor, now).1 == Err::<
                WithdrawEvent,
                Errors,
            >(Errors::Unauthorized)
            &&& send_withdraw_spec(after, key, by_new, amount, floor, now).1 != Err::<
                WithdrawEvent,
                Errors,
            >(Errors::Unauthorized)
            &&& (native_floor_check(m, amount, floor) is Ok ==> send_withdraw_spec(
                after,
                key,
                by_new,
                amount,
                floor,
                now,
            ).1 is Ok)
        }),
{
}

} // verus!
