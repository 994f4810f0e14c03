use vstd::prelude::*;
use crate::error::{ContractError, ErrorKind};
use crate::model::{
    accepted, approve_response, approve_step, approved, barred, claim_step, instantiate_step,
    outcome_of, performed, register_response, register_step, registered, slot_at, update_step,
    Slot,
};
use crate::msg::{ExecuteMsg, InstantiateMsg, QueryMsg};
use crate::response::{Payment, Response, ResponseView};
use crate::state::{Config, Step, Student};
use crate::store::{Ledger, Snapshot};

verus! {

/// Sets the contract up: the configuration is written with `sender` as its
/// administrator, over whatever the configuration key held, and the student
/// table stays as it was. Never refused.
pub fn instantiate(ledger: &mut Ledger<'_>, sender: &str, msg: InstantiateMsg) -> (r: Result<
    Response,
    cosmwasm_std::StdError,
>)
    ensures
        r is Ok,
        (final(ledger)@, r.unwrap()@) == instantiate_step(
            old(ledger)@,
            sender@,
            msg.scholarship_amount,
            msg.denom@,
        ),
{
    let config = Config {
        admin: sender.to_owned(),
        scholarship_amount: msg.scholarship_amount,
        denom: msg.denom,
    };
    match ledger.save_config(&config) {
        Ok(()) => {},
        Err(fault) => {
            return Err(fault);
        },
    }
    Ok(Response::new().add_attribute("action", "instantiate").add_attribute("admin", sender))
}

/// Carries out the operation that `msg` asks for on behalf of `sender`:
/// a registration, an approval or a claim.
pub fn execute(ledger: &mut Ledger<'_>, sender: &str, msg: ExecuteMsg) -> (r: Result<
    Response,
    ContractError,
>)
    ensures
        performed(old(ledger)@, sender@, msg, final(ledger)@, outcome_of(r)),
        r is Err ==> final(ledger)@ == old(ledger)@,
{
    match msg {
        ExecuteMsg::RegisterStudent { address } => register_student(ledger, sender, address),
        ExecuteMsg::ApproveStudent { address } => approve_student(ledger, sender, address),
        ExecuteMsg::ClaimScholarship {  } => claim_scholarship(ledger, sender),
    }
}

/// Looks a student up. Anyone may ask; the record comes back where the
/// table holds one under the address that can be read, an error of the
/// host otherwise.
pub fn query(snapshot: &Snapshot<'_>, msg: QueryMsg) -> (r: Result<Student, cosmwasm_std::StdError>)
    ensures
        match msg {
            QueryMsg::GetStudent { address } => match slot_at(snapshot@, address@) {
                Slot::Holds(student) => r == Ok::<Student, cosmwasm_std::StdError>(student),
                _ => r is Err,
            },
        },
{
    match msg {
        QueryMsg::GetStudent { address } => snapshot.load_student(address.as_str()),
    }
}

/// Lets the administrator through: `Ok` where the configuration can be read
/// and names `sender`, else the refusal.
fn authorize(ledger: &Ledger<'_>, sender: &str) -> (r: Result<(), ContractError>)
    ensures
        match r {
            Ok(()) => barred(ledger@, sender@) is None,
            Err(refusal) => barred(ledger@, sender@) == Some(refusal.kind()),
        },
{
    let config = match ledger.load_config() {
        Ok(config) => config,
        Err(fault) => {
            return Err(ContractError::Std(fault));
        },
    };
    let caller = sender.to_owned();
    if !(caller == config.admin) {
        return Err(ContractError::Unauthorized {  });
    }
    Ok(())
}

/// Writes the fresh record of a registration that was let through, under
/// the address that the host accepted; hands the host's refusal on.
fn enroll(ledger: &mut Ledger<'_>, validated: Result<String, cosmwasm_std::StdError>) -> (r: Result<
    Response,
    ContractError,
>)
    ensures
        match validated {
            Ok(key) => {
                &&& final(ledger)@ == old(ledger)@.with_student(key@, Student::spec_fresh())
                &&& outcome_of(r) == Ok::<ResponseView, ErrorKind>(register_response())
            },
            Err(fault) => {
                &&& final(ledger)@ == old(ledger)@
                &&& r matches Err(ContractError::Std(handed)) && handed == fault
            },
        },
{
    let key = match validated {
        Ok(key) => key,
        Err(fault) => {
            return Err(ContractError::Std(fault));
        },
    };
    match ledger.save_student(key.as_str(), Student::fresh()) {
        Ok(()) => {},
        Err(fault) => {
            return Err(ContractError::Std(fault));
        },
    }
    assert(ledger@.students =~= old(ledger)@.students.insert(key@, Some(Student::spec_fresh())));
    Ok(Response::new().add_attribute("action", "register_student"))
}

/// Marks the student under the address that the host accepted as approved;
/// hands the host's refusal on.
fn endorse(ledger: &mut Ledger<'_>, validated: Result<String, cosmwasm_std::StdError>) -> (r: Result<
    Response,
    ContractError,
>)
    ensures
        match validated {
            Ok(key) => match update_step(old(ledger)@, key@, Step::Approve) {
                Ok((post, _)) => {
                    &&& final(ledger)@ == post
                    &&& outcome_of(r) == Ok::<ResponseView, ErrorKind>(approve_response())
                },
                Err(refusal) => {
                    &&& final(ledger)@ == old(ledger)@
                    &&& outcome_of(r) == Err::<ResponseView, ErrorKind>(refusal)
                },
            },
            Err(fault) => {
                &&& final(ledger)@ == old(ledger)@
                &&& r matches Err(ContractError::Std(handed)) && handed == fault
            },
        },
{
    let key = match validated {
        Ok(key) => key,
        Err(fault) => {
            return Err(ContractError::Std(fault));
        },
    };
    let next = match ledger.update_student(key.as_str(), Step::Approve) {
        Ok(next) => next,
        Err(refusal) => {
            return Err(refusal);
        },
    };
    assert(ledger@.students =~= old(ledger)@.students.insert(key@, Some(next)));
    Ok(Response::new().add_attribute("action", "approve_student"))
}

/// Registration of `address` by `sender`. The administrator alone is let
/// through; the host is then asked whether `address` is one, and where it
/// accepts, a fresh record is written under it, over any record that was
/// there. In every other case the ledger stays as it was.
pub fn register_student(ledger: &mut Ledger<'_>, sender: &str, address: String) -> (r: Result<
    Response,
    ContractError,
>)
    ensures
        registered(old(ledger)@, sender@, address@, final(ledger)@, outcome_of(r)),
        r is Ok ==> barred(old(ledger)@, sender@) is None,
        r is Err ==> final(ledger)@ == old(ledger)@,
{
    match authorize(ledger, sender) {
        Ok(()) => {},
        Err(refusal) => {
            return Err(refusal);
        },
    }
    let validated = ledger.validate_address(address.as_str());
    enroll(ledger, validated)
}

/// Registration by `sender` of the address of which the host's validation
/// made `validated`: `register_student` after the host has answered.
pub fn register_validated(
    ledger: &mut Ledger<'_>,
    sender: &str,
    validated: Result<String, cosmwasm_std::StdError>,
) -> (r: Result<Response, ContractError>)
    ensures
        (final(ledger)@, outcome_of(r)) == register_step(
            old(ledger)@,
            sender@,
            accepted(validated),
        ),
        r is Ok <==> barred(old(ledger)@, sender@) is None && validated is Ok,
        r is Err ==> final(ledger)@ == old(ledger)@,
        barred(old(ledger)@, sender@) is None ==> (validated matches Err(fault) ==> r matches Err(
            ContractError::Std(handed),
        ) && handed == fault),
{
    match authorize(ledger, sender) {
        Ok(()) => {},
        Err(refusal) => {
            return Err(refusal);
        },
    }
    enroll(ledger, validated)
}

/// Approval of the student at `address` by `sender`. The administrator
/// alone is let through; the host is then asked whether `address` is one,
/// and where it accepts and a record is kept under it, the record is marked
/// as approved, its claim untouched. In every other case the ledger stays
/// as it was.
pub fn approve_student(ledger: &mut Ledger<'_>, sender: &str, address: String) -> (r: Result<
    Response,
    ContractError,
>)
    ensures
        approved(old(ledger)@, sender@, address@, final(ledger)@, outcome_of(r)),
        r is Ok ==> barred(old(ledger)@, sender@) is None && old(ledger)@.student(address@) is Holds,
        r is Err ==> final(ledger)@ == old(ledger)@,
{
    match authorize(ledger, sender) {
        Ok(()) => {},
        Err(refusal) => {
            return Err(refusal);
        },
    }
    let validated = ledger.validate_address(address.as_str());
    endorse(ledger, validated)
}

/// Approval by `sender` of the student at the address of which the host's
/// validation made `validated`: `approve_student` after the host has
/// answered.
pub fn approve_validated(
    ledger: &mut Ledger<'_>,
    sender: &str,
    validated: Result<String, cosmwasm_std::StdError>,
) -> (r: Result<Response, ContractError>)
    ensures
        (final(ledger)@, outcome_of(r)) == approve_step(
            old(ledger)@,
            sender@,
            accepted(validated),
        ),
        r is Ok <==> barred(old(ledger)@, sender@) is None && (validated matches Ok(key)
            && old(ledger)@.student(key@) is Holds),
        r is Err ==> final(ledger)@ == old(ledger)@,
        barred(old(ledger)@, sender@) is None ==> (validated matches Err(fault) ==> r matches Err(
            ContractError::Std(handed),
        ) && handed == fault),
{
    match authorize(ledger, sender) {
        Ok(()) => {},
        Err(refusal) => {
            return Err(refusal);
        },
    }
    endorse(ledger, validated)
}

/// A claim of the scholarship by `sender`, on the record kept under its own
/// identity. Where the configuration can be read and the record is approved
/// and not yet claimed, the record is marked as claimed and the response
/// carries the one payment of the configured amount to `sender`; in every
/// other case the ledger stays as it was and the refusal says why.
pub fn claim_scholarship(ledger: &mut Ledger<'_>, sender: &str) -> (r: Result<
    Response,
    ContractError,
>)
    ensures
        (final(ledger)@, outcome_of(r)) == claim_step(old(ledger)@, sender@),
        r is Ok <==> old(ledger)@.config is Holds && old(ledger)@.student(sender@) == Slot::Holds(
            Student { approved: true, claimed: false },
        ),
        r is Err ==> final(ledger)@ == old(ledger)@,
{
    let config = match ledger.load_config() {
        Ok(config) => config,
        Err(fault) => {
            return Err(ContractError::Std(fault));
        },
    };
    let next = match ledger.update_student(sender, Step::Claim) {
        Ok(next) => next,
        Err(refusal) => {
            return Err(refusal);
        },
    };
    assert(ledger@.students =~= old(ledger)@.students.insert(sender@, Some(next)));
    let payment = Payment {
        to_address: sender.to_owned(),
        amount: config.scholarship_amount,
        denom: config.denom,
    };
    Ok(
        Response::new().add_message(payment).add_attribute(
            "action",
            "claim_scholarship",
        ).add_attribute("recipient", sender),
    )
}

} // verus!
