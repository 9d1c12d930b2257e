//! The entry points of a deployed contract: who may call what, what the engine's answer
//! becomes towards the host, and what the host has to transfer.
//!
//! Nothing here touches a ledger. Each entry point takes the caller that the host has
//! identified, decides, and returns either the amount that the host must now move to that
//! caller or the failure that it must report.

use crate::contract::VestingContract;
use crate::error::{Error, VestingError};
use crate::laws::{
    law_admin_release_keeps_valid, law_pause_keeps_valid, law_unpause_keeps_valid,
    law_withdraw_keeps_valid,
};
use crate::schedule::{Amount, Time, VestingRecord};
use crate::vesting::VestingTrait;
use vstd::prelude::*;

verus! {

/// The identity of an account, as the host gives it.
pub type AccountHash = [u8; 32];

/// Whether two accounts are the same.
pub fn same_account(a: &AccountHash, b: &AccountHash) -> (same: bool)
    ensures
        same == (a@ == b@),
{
    let mut i: usize = 0;
    while i < 32
        invariant
            0 <= i <= 32,
            forall|j: int| 0 <= j < i ==> a@[j] == b@[j],
        decreases 32 - i,
    {
        if a[i] != b[i] {
            return false;
        }
        i = i + 1;
    }
    assert(a@ =~= b@);
    true
}

/// Lets only the administrator pass.
pub fn verify_admin_account(admin: &AccountHash, caller: &AccountHash) -> (result: Result<
    (),
    Error,
>)
    ensures
        result == if admin@ == caller@ {
            Ok::<(), Error>(())
        } else {
            Err::<(), Error>(Error::NotTheAdminAccount)
        },
{
    if !same_account(admin, caller) {
        Err(Error::NotTheAdminAccount)
    } else {
        Ok(())
    }
}

/// Lets only the recipient pass.
pub fn verify_recipient_account(recipient: &AccountHash, caller: &AccountHash) -> (result:
    Result<(), Error>)
    ensures
        result == if recipient@ == caller@ {
            Ok::<(), Error>(())
        } else {
            Err::<(), Error>(Error::NotTheRecipientAccount)
        },
{
    if !same_account(recipient, caller) {
        Err(Error::NotTheRecipientAccount)
    } else {
        Ok(())
    }
}

/// A deployed contract: the two accounts that may call it, and the vesting contract with
/// the block time as its clock.
#[derive(Debug, Clone, Copy)]
pub struct Deployment {
    /// Who may pause, end a pause and reclaim.
    pub admin: AccountHash,
    /// Who may withdraw.
    pub recipient: AccountHash,
    /// The record and the block time.
    pub vesting: VestingContract,
}

impl Deployment {
    /// Whether the deployment is in a state that one reaches from `call` by the entry
    /// points and a block time that never runs backwards.
    pub open spec fn wf(self) -> bool {
        self.vesting.record.valid_at(self.vesting.current_timestamp as int)
    }

    /// Puts a deployment together again from what a host has stored and the block time it
    /// reads, if they make up a state that a deployment can be in.
    pub fn restore(
        admin: AccountHash,
        recipient: AccountHash,
        record: VestingRecord,
        block_time: Time,
    ) -> (restored: Option<Deployment>)
        ensures
            match restored {
                Some(deployment) => {
                    &&& record.valid_at(block_time as int)
                    &&& deployment.wf()
                    &&& deployment == (Deployment {
                        admin,
                        recipient,
                        vesting: VestingContract { record, current_timestamp: block_time },
                    })
                },
                None => !record.valid_at(block_time as int),
            },
    {
        let pauses_fit = if record.is_paused {
            record.last_pause_timestamp <= block_time && record.on_pause_duration
                <= record.last_pause_timestamp
        } else {
            record.on_pause_duration <= block_time
        };
        if record.released_amount <= record.total_amount && pauses_fit {
            Some(
                Deployment {
                    admin,
                    recipient,
                    vesting: VestingContract { record, current_timestamp: block_time },
                },
            )
        } else {
            None
        }
    }

    /// Moves the block time on.
    pub fn set_block_time(&mut self, block_time: Time)
        requires
            old(self).wf(),
            old(self).vesting.current_timestamp <= block_time,
        ensures
            final(self).wf(),
            *final(self) == (Deployment {
                vesting: VestingContract {
                    current_timestamp: block_time,
                    ..old(self).vesting
                },
                ..*old(self)
            }),
    {
        self.vesting.current_timestamp = block_time;
    }
}

/// Deploys: the accounts are set, the policy is written, nothing is released and nothing
/// paused, and the block time is zero.
pub fn call(
    admin: AccountHash,
    recipient: AccountHash,
    cliff_timestamp: Time,
    cliff_amount: Amount,
    drip_duration: Time,
    drip_amount: Amount,
    total_amount: Amount,
    admin_release_duration: Time,
) -> (deployment: Deployment)
    ensures
        deployment.wf(),
        deployment.admin == admin,
        deployment.recipient == recipient,
        deployment.vesting.current_timestamp == 0,
        deployment.vesting.record == VestingRecord::fresh(
            cliff_timestamp,
            cliff_amount,
            drip_duration,
            drip_amount,
            total_amount,
            admin_release_duration,
        ),
{
    let mut vesting = VestingContract::new();
    let ghost before = vesting;
    vesting.init(
        cliff_timestamp,
        cliff_amount,
        drip_duration,
        drip_amount,
        total_amount,
        admin_release_duration,
    );
    proof {
        before.lemma_record_after(
            vesting,
            VestingRecord::fresh(
                cliff_timestamp,
                cliff_amount,
                drip_duration,
                drip_amount,
                total_amount,
                admin_release_duration,
            ),
        );
    }
    Deployment { admin, recipient, vesting }
}

/// What a deployment is after the engine has moved its record to `next`.
pub open spec fn with_record(deployment: Deployment, next: VestingRecord) -> Deployment {
    Deployment { vesting: VestingContract { record: next, ..deployment.vesting }, ..deployment }
}

/// The administrator pauses the schedule.
pub fn pause(deployment: &mut Deployment, caller: &AccountHash) -> (result: Result<(), Error>)
    requires
        old(deployment).wf(),
    ensures
        final(deployment).wf(),
        if old(deployment).admin@ != caller@ {
            &&& result == Err::<(), Error>(Error::NotTheAdminAccount)
            &&& *final(deployment) == *old(deployment)
        } else if old(deployment).vesting.record.is_paused {
            &&& result == Err::<(), Error>(Error::AlreadyPaused)
            &&& *final(deployment) == *old(deployment)
        } else {
            result == Ok::<(), Error>(()) && *final(deployment) == with_record(
                *old(deployment),
                old(deployment).vesting.record.paused_at(
                    old(deployment).vesting.current_timestamp,
                ),
            )
        },
{
    match verify_admin_account(&deployment.admin, caller) {
        Err(e) => {
            return Err(e);
        },
        Ok(()) => {},
    }
    let ghost before = deployment.vesting;
    proof {
        before.lemma_store_holds_record();
        law_pause_keeps_valid(before.record, before.current_timestamp);
    }
    let outcome = deployment.vesting.pause();
    proof {
        if outcome is Ok {
            before.lemma_record_after(
                deployment.vesting,
                before.record.paused_at(before.current_timestamp),
            );
        } else {
            before.lemma_record_kept(deployment.vesting);
        }
    }
    match outcome {
        Ok(()) => Ok(()),
        Err(VestingError::AlreadyPaused) => Err(Error::AlreadyPaused),
        _ => Err(Error::UnexpectedVestingError),
    }
}

/// The administrator ends the pause.
pub fn unpause(deployment: &mut Deployment, caller: &AccountHash) -> (result: Result<(), Error>)
    requires
        old(deployment).wf(),
    ensures
        final(deployment).wf(),
        if old(deployment).admin@ != caller@ {
            &&& result == Err::<(), Error>(Error::NotTheAdminAccount)
            &&& *final(deployment) == *old(deployment)
        } else if !old(deployment).vesting.record.is_paused {
            &&& result == Err::<(), Error>(Error::AlreadyUnpaused)
            &&& *final(deployment) == *old(deployment)
        } else {
            result == Ok::<(), Error>(()) && *final(deployment) == with_record(
                *old(deployment),
                old(deployment).vesting.record.unpaused_at(
                    old(deployment).vesting.current_timestamp,
                ),
            )
        },
{
    match verify_admin_account(&deployment.admin, caller) {
        Err(e) => {
            return Err(e);
        },
        Ok(()) => {},
    }
    let ghost before = deployment.vesting;
    proof {
        before.lemma_store_holds_record();
        law_unpause_keeps_valid(before.record, before.current_timestamp);
    }
    let outcome = deployment.vesting.unpause();
    proof {
        if outcome is Ok {
            before.lemma_record_after(
                deployment.vesting,
                before.record.unpaused_at(before.current_timestamp),
            );
        } else {
            before.lemma_record_kept(deployment.vesting);
        }
    }
    match outcome {
        Ok(()) => Ok(()),
        Err(VestingError::AlreadyUnpaused) => Err(Error::AlreadyUnpaused),
        _ => Err(Error::UnexpectedVestingError),
    }
}

/// The recipient withdraws `amount`. On success the host moves `amount`, which is what is
/// returned, from the escrow to the caller.
pub fn withdraw(deployment: &mut Deployment, caller: &AccountHash, amount: Amount) -> (result:
    Result<Amount, Error>)
    requires
        old(deployment).wf(),
    ensures
        final(deployment).wf(),
        if old(deployment).recipient@ != caller@ {
            &&& result == Err::<Amount, Error>(Error::NotTheRecipientAccount)
            &&& *final(deployment) == *old(deployment)
        } else if old(deployment).vesting.record.available(
            old(deployment).vesting.current_timestamp as int,
        ) < amount {
            &&& result == Err::<Amount, Error>(Error::NotEnoughBalance)
            &&& *final(deployment) == *old(deployment)
        } else {
            result == Ok::<Amount, Error>(amount) && *final(deployment) == with_record(
                *old(deployment),
                old(deployment).vesting.record.withdrawn(amount),
            )
        },
{
    match verify_recipient_account(&deployment.recipient, caller) {
        Err(e) => {
            return Err(e);
        },
        Ok(()) => {},
    }
    let ghost before = deployment.vesting;
    proof {
        before.lemma_store_holds_record();
        law_withdraw_keeps_valid(before.record, before.current_timestamp, amount);
    }
    let outcome = deployment.vesting.withdraw(amount);
    proof {
        if outcome is Ok {
            before.lemma_record_after(deployment.vesting, before.record.withdrawn(amount));
        } else {
            before.lemma_record_kept(deployment.vesting);
        }
    }
    match outcome {
        Ok(()) => Ok(amount),
        Err(VestingError::NotEnoughBalance) => Err(Error::NotEnoughBalance),
        _ => Err(Error::UnexpectedVestingError),
    }
}

/// The failure that the host reports when the engine refuses a reclaim.
pub open spec fn admin_release_failure(e: VestingError) -> Error {
    match e {
        VestingError::AdminReleaseErrorNotPaused => Error::NotPaused,
        VestingError::AdminReleaseErrorNothingToWithdraw => Error::NothingToWithdraw,
        VestingError::AdminReleaseErrorNotEnoughTimeElapsed => Error::NotEnoughTimeElapsed,
        _ => Error::UnexpectedVestingError,
    }
}

/// The administrator reclaims what has not been released. On success the host moves the
/// returned amount from the escrow to the caller.
pub fn admin_release(deployment: &mut Deployment, caller: &AccountHash) -> (result: Result<
    Amount,
    Error,
>)
    requires
        old(deployment).wf(),
    ensures
        final(deployment).wf(),
        result != Err::<Amount, Error>(Error::UnexpectedVestingError),
        if old(deployment).admin@ != caller@ {
            &&& result == Err::<Amount, Error>(Error::NotTheAdminAccount)
            &&& *final(deployment) == *old(deployment)
        } else {
            match old(deployment).vesting.record.admin_release_step(
                old(deployment).vesting.current_timestamp,
            ) {
                Ok((next, amount)) => result == Ok::<Amount, Error>(amount) && *final(deployment)
                    == with_record(*old(deployment), next),
                Err(e) => {
                    &&& result == Err::<Amount, Error>(admin_release_failure(e))
                    &&& *final(deployment) == *old(deployment)
                },
            }
        },
{
    match verify_admin_account(&deployment.admin, caller) {
        Err(e) => {
            return Err(e);
        },
        Ok(()) => {},
    }
    let ghost before = deployment.vesting;
    proof {
        before.lemma_store_holds_record();
        law_admin_release_keeps_valid(before.record, before.current_timestamp);
    }
    let outcome = deployment.vesting.admin_release();
    proof {
        if outcome is Ok {
            before.lemma_record_after(deployment.vesting, before.record.reclaimed());
        } else {
            before.lemma_record_kept(deployment.vesting);
        }
    }
    match outcome {
        Ok(amount) => Ok(amount),
        Err(VestingError::AdminReleaseErrorNotPaused) => Err(Error::NotPaused),
        Err(VestingError::AdminReleaseErrorNothingToWithdraw) => Err(Error::NothingToWithdraw),
        Err(VestingError::AdminReleaseErrorNotEnoughTimeElapsed) => Err(
            Error::NotEnoughTimeElapsed,
        ),
        _ => Err(Error::UnexpectedVestingError),
    }
}

} // verus!
