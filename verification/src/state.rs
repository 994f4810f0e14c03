use vstd::prelude::*;
use crate::error::ContractError;

verus! {

/// Storage key of the configuration.
pub const CONFIG_KEY: &'static str = "config";

/// Storage namespace of the student records.
pub const STUDENTS_NAMESPACE: &'static str = "students";

/// The contract's settings, written once.
#[derive(Clone, Debug, PartialEq)]
pub struct Config {
    pub admin: String,
    pub scholarship_amount: u128,
    pub denom: String,
}

/// A `Config` as a mathematical value.
pub struct ConfigView {
    pub admin: Seq<char>,
    pub scholarship_amount: u128,
    pub denom: Seq<char>,
}

impl View for Config {
    type V = ConfigView;

    open spec fn view(&self) -> ConfigView {
        ConfigView {
            admin: self.admin@,
            scholarship_amount: self.scholarship_amount,
            denom: self.denom@,
        }
    }
}

/// One student's standing.
#[derive(Clone, Copy, Debug, PartialEq, Eq, Structural)]
pub struct Student {
    pub approved: bool,
    pub claimed: bool,
}

impl Student {
    /// The record of a student who was just registered.
    pub open spec fn spec_fresh() -> Student {
        Student { approved: false, claimed: false }
    }

    #[verifier::when_used_as_spec(spec_fresh)]
    pub fn fresh() -> (student: Student)
        ensures
            student == Student::spec_fresh(),
    {
        Student { approved: false, claimed: false }
    }

    /// No student is paid without approval.
    pub open spec fn consistent(self) -> bool {
        self.claimed ==> self.approved
    }

    /// The record as the pair that is kept in storage.
    pub open spec fn spec_flags(self) -> (bool, bool) {
        (self.approved, self.claimed)
    }

    /// The record that a stored pair stands for.
    pub open spec fn spec_from_flags(flags: (bool, bool)) -> Student {
        Student { approved: flags.0, claimed: flags.1 }
    }

    #[verifier::when_used_as_spec(spec_flags)]
    pub fn flags(self) -> (flags: (bool, bool))
        ensures
            flags == self.spec_flags(),
    {
        (self.approved, self.claimed)
    }

    #[verifier::when_used_as_spec(spec_from_flags)]
    pub fn from_flags(flags: (bool, bool)) -> (student: Student)
        ensures
            student == Student::spec_from_flags(flags),
    {
        Student { approved: flags.0, claimed: flags.1 }
    }
}

/// The two changes that a record can undergo once it exists.
#[derive(Clone, Copy, Debug, PartialEq, Eq, Structural)]
pub enum Step {
    Approve,
    Claim,
}

/// Approval of the record found under a key: a missing record is refused,
/// any other comes back approved, its claim untouched.
pub open spec fn approved_from(held: Option<Student>) -> Result<Student, ContractError> {
    match held {
        None => Err(ContractError::NotRegistered {  }),
        Some(student) => Ok(Student { approved: true, claimed: student.claimed }),
    }
}

/// A claim on the record found under a key: it passes once, on a record that
/// is approved and not yet claimed.
pub open spec fn claimed_from(held: Option<Student>) -> Result<Student, ContractError> {
    match held {
        None => Err(ContractError::NotRegistered {  }),
        Some(student) => if !student.approved {
            Err(ContractError::NotApproved {  })
        } else if student.claimed {
            Err(ContractError::AlreadyClaimed {  })
        } else {
            Ok(Student { approved: true, claimed: true })
        },
    }
}

/// What `step` makes of the record found under a key.
pub open spec fn advanced_from(step: Step, held: Option<Student>) -> Result<Student, ContractError> {
    match step {
        Step::Approve => approved_from(held),
        Step::Claim => claimed_from(held),
    }
}

/// Approves the record found under a key.
pub fn approve_record(held: Option<Student>) -> (r: Result<Student, ContractError>)
    ensures
        r == approved_from(held),
{
    match held {
        None => Err(ContractError::NotRegistered {  }),
        Some(student) => {
            let mut student = student;
            student.approved = true;
            Ok(student)
        },
    }
}

/// Claims on the record found under a key.
pub fn claim_record(held: Option<Student>) -> (r: Result<Student, ContractError>)
    ensures
        r == claimed_from(held),
{
    match held {
        None => Err(ContractError::NotRegistered {  }),
        Some(student) => {
            let mut student = student;
            if !student.approved {
                return Err(ContractError::NotApproved {  });
            }
            if student.claimed {
                return Err(ContractError::AlreadyClaimed {  });
            }
            student.claimed = true;
            Ok(student)
        },
    }
}

/// The record that takes the place of `held` when `step` is applied to it,
/// or the refusal.
pub fn advance(step: Step, held: Option<Student>) -> (r: Result<Student, ContractError>)
    ensures
        r == advanced_from(step, held),
{
    match step {
        Step::Approve => approve_record(held),
        Step::Claim => claim_record(held),
    }
}

} // verus!
