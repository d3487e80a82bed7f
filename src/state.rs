use vstd::prelude::*;

use crate::identity::Identity;

verus! {

/// Why an operation was refused. A refused operation changes no balance and
/// emits no event.
#[derive(Clone, Copy, Debug, PartialEq, Eq, Structural)]
pub enum Errors {
    /// The caller is not the role that the operation requires.
    Unauthorized,
    /// A native withdrawal would leave less than the reserved floor.
    NotEnoughBalance,
    /// The vault token account has already been bound.
    TokenAccountAlreadyCreated,
    /// A checked addition or subtraction would wrap.
    MathUnderflowOrOverflow,
    /// The master record has already been created.
    MasterAlreadyCreated,
    /// The master record has not been created yet.
    MasterNotInitialized,
    /// No vault token account has been bound yet.
    TokenAccountNotInitialized,
    /// The token account given is not the one bound to the master record.
    TokenAccountMismatch,
}

/// A deposit into the vault.
#[derive(Clone, Copy, Debug, PartialEq, Eq)]
pub struct DepositEvent {
    /// Who deposited.
    pub user: Identity,
    /// The account that now holds the deposit.
    pub holder: Identity,
    /// Native units or token units moved.
    pub amount: u64,
    /// When the deposit happened.
    pub time: i64,
}

/// A withdrawal that the operator sent to a recipient.
#[derive(Clone, Copy, Debug, PartialEq, Eq)]
pub struct WithdrawEvent {
    /// Who received the funds.
    pub user: Identity,
    /// The account the funds were taken from.
    pub holder: Identity,
    /// Native units or token units moved.
    pub amount: u64,
    /// When the withdrawal happened.
    pub time: i64,
}

/// A withdrawal that the admin made to itself.
#[derive(Clone, Copy, Debug, PartialEq, Eq)]
pub struct AdminWithdrawEvent {
    /// The admin that received the funds.
    pub user: Identity,
    /// The account the funds were taken from.
    pub holder: Identity,
    /// Native units or token units moved.
    pub amount: u64,
    /// When the withdrawal happened.
    pub time: i64,
}

/// The master record: both balances, the two roles and the bound vault
/// token account.
#[derive(Clone, Copy, Debug, PartialEq, Eq)]
pub struct Master {
    /// Native units deposited into the vault and not yet withdrawn.
    pub balance: u64,
    /// Token units held by the vault token account.
    pub token_balance: u64,
    /// The vault token account, once bound; never rebound.
    pub token_account: Option<Identity>,
    /// When the operator last dispatched a withdrawal.
    pub last_withdraw_time: i64,
    /// The role that sends withdrawals to recipients.
    pub operator: Identity,
    /// The role that withdraws to itself and rotates roles.
    pub admin: Identity,
}

/// The storage of the master record: its address, which is also the vault
/// of the native currency, and its contents once created.
///
/// Operations take it by `&mut`, so each one has the record to itself from
/// validation to the returned event.
#[derive(Clone, Copy, Debug)]
pub struct MasterAccount {
    /// The address of the record and of the native vault.
    pub key: Identity,
    /// The record, or `None` before it is created.
    pub data: Option<Master>,
}

impl MasterAccount {
    /// Storage at address `key` that holds no record yet.
    pub fn new(key: Identity) -> (r: MasterAccount)
        ensures
            r.key == key,
            r.data is None,
    {
        MasterAccount { key, data: None }
    }
}

/// Accounts of the creation of the master record.
#[derive(Clone, Copy, Debug)]
pub struct InitMaster {
    pub payer: Identity,
    pub admin: Identity,
    pub operator: Identity,
}

/// Accounts of the binding of the vault token account.
#[derive(Clone, Copy, Debug)]
pub struct InitAta {
    /// The vault token account being bound.
    pub master_ata: Identity,
    pub token_mint: Identity,
    /// The signer; must be the admin.
    pub user: Identity,
}

/// Accounts of an operator rotation.
#[derive(Clone, Copy, Debug)]
pub struct SetOperator {
    /// The signer; must be the admin.
    pub admin: Identity,
    pub new_operator: Identity,
}

/// Accounts of an admin rotation.
#[derive(Clone, Copy, Debug)]
pub struct SetAdmin {
    /// The signer; must be the admin.
    pub admin: Identity,
    pub new_admin: Identity,
}

/// Accounts of a native deposit.
#[derive(Clone, Copy, Debug)]
pub struct Deposit {
    /// The depositor, who signs.
    pub user: Identity,
}

/// Accounts of a token deposit.
#[derive(Clone, Copy, Debug)]
pub struct DepositToken {
    /// The vault token account; must be the bound one.
    pub master_ata: Identity,
    /// The depositor's token account.
    pub from: Identity,
    /// The depositor, who signs.
    pub user: Identity,
}

/// Accounts of an operator's native withdrawal.
#[derive(Clone, Copy, Debug)]
pub struct SendWithdraw {
    /// The signer; must be the operator.
    pub operator: Identity,
    pub receiver: Identity,
}

/// Accounts of an admin's native withdrawal.
#[derive(Clone, Copy, Debug)]
pub struct Withdraw {
    /// The signer; must be the admin.
    pub admin: Identity,
}

/// Accounts of an admin's token withdrawal.
#[derive(Clone, Copy, Debug)]
pub struct WithdrawToken {
    /// The vault token account; must be the bound one.
    pub master_ata: Identity,
    /// The signer; must be the admin.
    pub admin: Identity,
    /// The admin's token account, which receives the tokens.
    pub admin_ata: Identity,
}

/// Accounts of an operator's token withdrawal.
#[derive(Clone, Copy, Debug)]
pub struct SendWithdrawToken {
    /// The vault token account; must be the bound one.
    pub master_ata: Identity,
    /// The signer; must be the operator.
    pub operator: Identity,
    /// The recipient's token account, which receives the tokens.
    pub receiver_ata: Identity,
    pub receiver: Identity,
}

} // verus!
