use vstd::prelude::*;
use crate::error::{ContractError, ErrorKind};
use crate::msg::ExecuteMsg;
use crate::response::{PaymentView, Response, ResponseView};
use crate::state::{advanced_from, ConfigView, Step, Student};

verus! {

/// What is found under one storage key.
pub enum Slot<T> {
    /// Nothing was ever written there.
    Empty,
    /// Bytes that do not decode.
    Unreadable,
    /// A value.
    Holds(T),
}

/// What a student table holds under `key`.
pub open spec fn slot_at(students: Map<Seq<char>, Option<Student>>, key: Seq<char>) -> Slot<
    Student,
> {
    if !students.contains_key(key) {
        Slot::Empty
    } else {
        match students[key] {
            Some(student) => Slot::Holds(student),
            None => Slot::Unreadable,
        }
    }
}

/// The persisted state as a mathematical value: the configuration slot and,
/// for each identity with bytes in the student table, its record, or `None`
/// where the bytes do not decode.
pub struct LedgerState {
    pub config: Slot<ConfigView>,
    pub students: Map<Seq<char>, Option<Student>>,
}

impl LedgerState {
    /// What the student table holds under `key`.
    pub open spec fn student(self, key: Seq<char>) -> Slot<Student> {
        slot_at(self.students, key)
    }

    /// The record under `key`, where the slot can be read at all.
    pub open spec fn record(self, key: Seq<char>) -> Option<Student>
        recommends
            !(self.student(key) is Unreadable),
    {
        if self.students.contains_key(key) {
            self.students[key]
        } else {
            None
        }
    }

    /// The state after `student` was written under `key`.
    pub open spec fn with_student(self, key: Seq<char>, student: Student) -> LedgerState {
        LedgerState { config: self.config, students: self.students.insert(key, Some(student)) }
    }

    /// The state after `config` was written.
    pub open spec fn with_config(self, config: ConfigView) -> LedgerState {
        LedgerState { config: Slot::Holds(config), students: self.students }
    }

    /// Every record that can be read is consistent: none is claimed without
    /// being approved.
    pub open spec fn consistent(self) -> bool {
        forall|key: Seq<char>| #[trigger]
            self.student(key) matches Slot::Holds(student) ==> student.consistent()
    }
}

/// What an operation comes to: the response, or the kind of refusal.
pub type Outcome = Result<ResponseView, ErrorKind>;

/// The outcome that a handler's result stands for.
pub open spec fn outcome_of(r: Result<Response, ContractError>) -> Outcome {
    match r {
        Ok(response) => Ok(response@),
        Err(refusal) => Err(refusal.kind()),
    }
}

/// What the host's validation made of an address: the accepted text, or
/// `None` where it refused.
pub open spec fn accepted<E>(validated: Result<String, E>) -> Option<Seq<char>> {
    match validated {
        Ok(address) => Some(address@),
        Err(_) => None,
    }
}

/// The audit event of an initialization, which names the administrator.
pub open spec fn instantiate_response(sender: Seq<char>) -> ResponseView {
    ResponseView::empty().with_attribute("action"@, "instantiate"@).with_attribute(
        "admin"@,
        sender,
    )
}

/// The audit event of a registration.
pub open spec fn register_response() -> ResponseView {
    ResponseView::empty().with_attribute("action"@, "register_student"@)
}

/// The audit event of an approval.
pub open spec fn approve_response() -> ResponseView {
    ResponseView::empty().with_attribute("action"@, "approve_student"@)
}

/// One payment of the configured amount to the claimant, and the audit
/// event that names the recipient.
pub open spec fn claim_response(sender: Seq<char>, config: ConfigView) -> ResponseView {
    ResponseView::empty().with_message(
        PaymentView {
            to_address: sender,
            amount: config.scholarship_amount,
            denom: config.denom,
        },
    ).with_attribute("action"@, "claim_scholarship"@).with_attribute("recipient"@, sender)
}

/// Initialization: the caller becomes the administrator.
pub open spec fn instantiate_step(
    pre: LedgerState,
    sender: Seq<char>,
    scholarship_amount: u128,
    denom: Seq<char>,
) -> (LedgerState, ResponseView) {
    (
        pre.with_config(ConfigView { admin: sender, scholarship_amount, denom }),
        instantiate_response(sender),
    )
}

/// Why `sender` may not act as the administrator, or `None` where the
/// configuration can be read and names `sender`.
pub open spec fn barred(pre: LedgerState, sender: Seq<char>) -> Option<ErrorKind> {
    match pre.config {
        Slot::Holds(config) => if sender == config.admin {
            None
        } else {
            Some(ErrorKind::Unauthorized)
        },
        _ => Some(ErrorKind::Std),
    }
}

/// One read-modify-write of the record under `key`: the state and the
/// record afterwards, or the refusal, with which nothing is written.
pub open spec fn update_step(pre: LedgerState, key: Seq<char>, step: Step) -> Result<
    (LedgerState, Student),
    ErrorKind,
> {
    if pre.student(key) is Unreadable {
        Err(ErrorKind::Std)
    } else {
        match advanced_from(step, pre.record(key)) {
            Ok(next) => Ok((pre.with_student(key, next), next)),
            Err(refusal) => Err(refusal.kind()),
        }
    }
}

/// Registration by `sender` of the address that the host made `validated`
/// of: a fresh record under the accepted address, whatever was there.
pub open spec fn register_step(
    pre: LedgerState,
    sender: Seq<char>,
    validated: Option<Seq<char>>,
) -> (LedgerState, Outcome) {
    match barred(pre, sender) {
        Some(refusal) => (pre, Err(refusal)),
        None => match validated {
            None => (pre, Err(ErrorKind::Std)),
            Some(key) => (pre.with_student(key, Student::spec_fresh()), Ok(register_response())),
        },
    }
}

/// Approval by `sender` of the student under the accepted address.
pub open spec fn approve_step(
    pre: LedgerState,
    sender: Seq<char>,
    validated: Option<Seq<char>>,
) -> (LedgerState, Outcome) {
    match barred(pre, sender) {
        Some(refusal) => (pre, Err(refusal)),
        None => match validated {
            None => (pre, Err(ErrorKind::Std)),
            Some(key) => match update_step(pre, key, Step::Approve) {
                Ok((post, _)) => (post, Ok(approve_response())),
                Err(refusal) => (pre, Err(refusal)),
            },
        },
    }
}

/// A claim by `sender` on the record under its own identity.
pub open spec fn claim_step(pre: LedgerState, sender: Seq<char>) -> (LedgerState, Outcome) {
    match pre.config {
        Slot::Holds(config) => match update_step(pre, sender, Step::Claim) {
            Ok((post, _)) => (post, Ok(claim_response(sender, config))),
            Err(refusal) => (pre, Err(refusal)),
        },
        _ => (pre, Err(ErrorKind::Std)),
    }
}

/// What a registration that asks the host about `address` may come to:
/// the step on the address accepted, or the step on it refused.
pub open spec fn registered(
    pre: LedgerState,
    sender: Seq<char>,
    address: Seq<char>,
    post: LedgerState,
    outcome: Outcome,
) -> bool {
    ||| (post, outcome) == register_step(pre, sender, Some(address))
    ||| (post, outcome) == register_step(pre, sender, None)
}

/// What an approval that asks the host about `address` may come to.
pub open spec fn approved(
    pre: LedgerState,
    sender: Seq<char>,
    address: Seq<char>,
    post: LedgerState,
    outcome: Outcome,
) -> bool {
    ||| (post, outcome) == approve_step(pre, sender, Some(address))
    ||| (post, outcome) == approve_step(pre, sender, None)
}

/// One call of the contract, with what the host made of the address where
/// one is validated.
pub enum Operation {
    Instantiate { sender: Seq<char>, scholarship_amount: u128, denom: Seq<char> },
    Register { sender: Seq<char>, validated: Option<Seq<char>> },
    Approve { sender: Seq<char>, validated: Option<Seq<char>> },
    Claim { sender: Seq<char> },
}

/// The state after one operation, and what the operation came to.
pub open spec fn apply(pre: LedgerState, operation: Operation) -> (LedgerState, Outcome) {
    match operation {
        Operation::Instantiate { sender, scholarship_amount, denom } => {
            let (post, response) = instantiate_step(pre, sender, scholarship_amount, denom);
            (post, Ok(response))
        },
        Operation::Register { sender, validated } => register_step(pre, sender, validated),
        Operation::Approve { sender, validated } => approve_step(pre, sender, validated),
        Operation::Claim { sender } => claim_step(pre, sender),
    }
}

/// The operation that `msg` asks for on behalf of `sender`, where the host
/// accepts the address in it (`accepts`) or refuses it.
pub open spec fn operation_of(msg: ExecuteMsg, sender: Seq<char>, accepts: bool) -> Operation {
    match msg {
        ExecuteMsg::RegisterStudent { address } => Operation::Register {
            sender,
            validated: if accepts {
                Some(address@)
            } else {
                None
            },
        },
        ExecuteMsg::ApproveStudent { address } => Operation::Approve {
            sender,
            validated: if accepts {
                Some(address@)
            } else {
                None
            },
        },
        ExecuteMsg::ClaimScholarship {  } => Operation::Claim { sender },
    }
}

/// What carrying out `msg` may come to: the operation with the address
/// accepted, or the operation with the address refused.
pub open spec fn performed(
    pre: LedgerState,
    sender: Seq<char>,
    msg: ExecuteMsg,
    post: LedgerState,
    outcome: Outcome,
) -> bool {
    ||| (post, outcome) == apply(pre, operation_of(msg, sender, true))
    ||| (post, outcome) == apply(pre, operation_of(msg, sender, false))
}

/// The state after a sequence of operations, carried out in order.
pub open spec fn run(pre: LedgerState, operations: Seq<Operation>) -> LedgerState
    decreases operations.len(),
{
    if operations.len() == 0 {
        pre
    } else {
        apply(run(pre, operations.drop_last()), operations.last()).0
    }
}

/// Does `operation`, carried out on `pre`, write a fresh record under
/// `key`?
pub open spec fn registers(pre: LedgerState, operation: Operation, key: Seq<char>) -> bool {
    operation matches Operation::Register { sender, validated } && validated == Some(key)
        && barred(pre, sender) is None
}

/// Does a response order a payment to `recipient`?
pub open spec fn pays(outcome: Outcome, recipient: Seq<char>) -> bool {
    outcome matches Ok(response) && exists|i: int|
        0 <= i < response.messages.len() && (#[trigger] response.messages[i]).to_address
            == recipient
}

} // verus!
