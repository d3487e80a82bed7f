//! A custody ledger: users deposit a native currency and one fungible token
//! into a program-held vault, and only two privileged roles move funds out.
//!
//! Every operation is a guarded transition of the master record: authorize
//! the caller, validate the request, update the balances and hand back the
//! one event that describes the movement. A refused operation leaves the
//! balances as they were and emits nothing.

pub mod identity;
pub mod laws;
pub mod ledger;
pub mod requests;
pub mod state;

pub use identity::Identity;
pub use ledger::{
    deposit, deposit_token, init_ata, init_master, send_withdraw, send_withdraw_token, set_admin,
    set_operator, withdraw, withdraw_token,
};
pub use requests::{process, Event, Request};
pub use state::{
    AdminWithdrawEvent, Deposit, DepositEvent, DepositToken, Errors, InitAta, InitMaster, Master,
    MasterAccount, SendWithdraw, SendWithdrawToken, SetAdmin, SetOperator, Withdraw,
    WithdrawEvent, WithdrawToken,
};
