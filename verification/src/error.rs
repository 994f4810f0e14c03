use vstd::prelude::*;

verus! {

/// The error type of `cosmwasm_std`, carried through unread: storage and
/// address validation report their failures in it.
#[verifier::external_type_specification]
#[verifier::external_body]
pub struct ExStdError(cosmwasm_std::StdError);

/// Why an operation was refused.
#[derive(Debug)]
pub enum ContractError {
    /// The storage or the address validation of the host failed.
    Std(cosmwasm_std::StdError),
    /// The caller is not the administrator.
    Unauthorized {  },
    /// No record is kept under the student's identity.
    NotRegistered {  },
    /// The student has not been approved yet.
    NotApproved {  },
    /// The student has been paid already.
    AlreadyClaimed {  },
}

/// A `ContractError` without what a host error carries.
#[derive(Clone, Copy, Debug, PartialEq, Eq, Structural)]
pub enum ErrorKind {
    Std,
    Unauthorized,
    NotRegistered,
    NotApproved,
    AlreadyClaimed,
}

impl ContractError {
    pub open spec fn spec_kind(&self) -> ErrorKind {
        match self {
            ContractError::Std(_) => ErrorKind::Std,
            ContractError::Unauthorized {  } => ErrorKind::Unauthorized,
            ContractError::NotRegistered {  } => ErrorKind::NotRegistered,
            ContractError::NotApproved {  } => ErrorKind::NotApproved,
            ContractError::AlreadyClaimed {  } => ErrorKind::AlreadyClaimed,
        }
    }

    /// Which of the five refusals this is.
    #[verifier::when_used_as_spec(spec_kind)]
    pub fn kind(&self) -> (kind: ErrorKind)
        ensures
            kind == self.spec_kind(),
    {
        match self {
            ContractError::Std(_) => ErrorKind::Std,
            ContractError::Unauthorized {  } => ErrorKind::Unauthorized,
            ContractError::NotRegistered {  } => ErrorKind::NotRegistered,
            ContractError::NotApproved {  } => ErrorKind::NotApproved,
            ContractError::AlreadyClaimed {  } => ErrorKind::AlreadyClaimed,
        }
    }
}

impl From<cosmwasm_std::StdError> for ContractError {
    fn from(source: cosmwasm_std::StdError) -> (e: ContractError) {
        ContractError::Std(source)
    }
}

impl vstd::std_specs::convert::FromSpecImpl<cosmwasm_std::StdError> for ContractError {
    open spec fn obeys_from_spec() -> bool {
        true
    }

    open spec fn from_spec(source: cosmwasm_std::StdError) -> ContractError {
        ContractError::Std(source)
    }
}

} // verus!
