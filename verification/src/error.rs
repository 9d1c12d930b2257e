//! The failures of the vesting engine, and the codes under which a host reports them.

use vstd::prelude::*;

verus! {

/// Why the engine refused an operation. A refused operation changes nothing.
#[derive(PartialEq, Eq, Structural, Debug, Clone, Copy)]
pub enum VestingError {
    /// A withdrawal asked for more than is available.
    NotEnoughBalance,
    /// The administrator tried to reclaim while the schedule was running.
    AdminReleaseErrorNotPaused,
    /// The administrator tried to reclaim when everything had been released.
    AdminReleaseErrorNothingToWithdraw,
    /// The administrator tried to reclaim before the pause had lasted long enough.
    AdminReleaseErrorNotEnoughTimeElapsed,
    /// A pause was asked for while paused.
    AlreadyPaused,
    /// An end of pause was asked for while running.
    AlreadyUnpaused,
}

/// Why a call into the contract was turned down. The host reports each under its code.
#[derive(PartialEq, Eq, Structural, Debug, Clone, Copy)]
pub enum Error {
    /// A pause was asked for while paused.
    AlreadyPaused,
    /// An end of pause was asked for while running.
    AlreadyUnpaused,
    /// The caller is not the administrator.
    NotTheAdminAccount,
    /// The caller is not the recipient.
    NotTheRecipientAccount,
    /// The engine refused for a reason that is not among those of the request, or what is
    /// stored is not a record that a contract can have.
    UnexpectedVestingError,
    /// A withdrawal asked for more than is available.
    NotEnoughBalance,
    /// The host could not move the motes.
    PurseTransferError,
    /// A reclaim was asked for while the schedule was running.
    NotPaused,
    /// A reclaim was asked for when everything had been released.
    NothingToWithdraw,
    /// A reclaim was asked for before the pause had lasted long enough.
    NotEnoughTimeElapsed,
    /// The contract's purse is not under its name.
    LocalPurseKeyMissing,
    /// A stored value is not of the type that its name holds.
    UnexpectedType,
    /// Nothing is stored under a name of the record.
    MissingKey,
}

impl Error {
    /// The code of each failure: they are numbered from one, in the order in which the
    /// failures are declared.
    pub open spec fn spec_code(self) -> u16 {
        match self {
            Error::AlreadyPaused => 1,
            Error::AlreadyUnpaused => 2,
            Error::NotTheAdminAccount => 3,
            Error::NotTheRecipientAccount => 4,
            Error::UnexpectedVestingError => 5,
            Error::NotEnoughBalance => 6,
            Error::PurseTransferError => 7,
            Error::NotPaused => 8,
            Error::NothingToWithdraw => 9,
            Error::NotEnoughTimeElapsed => 10,
            Error::LocalPurseKeyMissing => 11,
            Error::UnexpectedType => 12,
            Error::MissingKey => 13,
        }
    }

    /// The code under which the host reports the failure.
    #[verifier::when_used_as_spec(spec_code)]
    pub fn code(self) -> (code: u16)
        ensures
            code == self.spec_code(),
            1 <= code <= 13,
    {
        match self {
            Error::AlreadyPaused => 1,
            Error::AlreadyUnpaused => 2,
            Error::NotTheAdminAccount => 3,
            Error::NotTheRecipientAccount => 4,
            Error::UnexpectedVestingError => 5,
            Error::NotEnoughBalance => 6,
            Error::PurseTransferError => 7,
            Error::NotPaused => 8,
            Error::NothingToWithdraw => 9,
            Error::NotEnoughTimeElapsed => 10,
            Error::LocalPurseKeyMissing => 11,
            Error::UnexpectedType => 12,
            Error::MissingKey => 13,
        }
    }
}

/// No two failures share a code.
pub proof fn law_codes_differ(a: Error, b: Error)
    ensures
        a.spec_code() == b.spec_code() <==> a == b,
{
}

} // verus!
