use vstd::prelude::*;
use crate::error::ErrorKind;
use crate::model::{
    apply, approve_response, approve_step, claim_response, claim_step, pays, register_step,
    registers, run, LedgerState, Operation, Slot,
};
use crate::response::ResponseView;
use crate::state::Student;

verus! {

/// Whoever is not the administrator is refused as unauthorized, by
/// registration and by approval alike, whatever the address and whatever
/// the host makes of it, and the ledger stays as it was.
pub proof fn strangers_are_refused(
    pre: LedgerState,
    sender: Seq<char>,
    validated: Option<Seq<char>>,
)
    requires
        pre.config matches Slot::Holds(config) && sender != config.admin,
    ensures
        register_step(pre, sender, validated) == (
            pre,
            Err::<ResponseView, ErrorKind>(ErrorKind::Unauthorized),
        ),
        approve_step(pre, sender, validated) == (
            pre,
            Err::<ResponseView, ErrorKind>(ErrorKind::Unauthorized),
        ),
{
}

/// An identity without a record can neither be approved by the
/// administrator nor claim: both are refused as not registered, and the
/// ledger stays as it was.
pub proof fn unregistered_is_refused(pre: LedgerState, student: Seq<char>)
    requires
        pre.config is Holds,
        pre.student(student) is Empty,
    ensures
        approve_step(pre, pre.config->Holds_0.admin, Some(student)) == (
            pre,
            Err::<ResponseView, ErrorKind>(ErrorKind::NotRegistered),
        ),
        claim_step(pre, student) == (
            pre,
            Err::<ResponseView, ErrorKind>(ErrorKind::NotRegistered),
        ),
{
}

/// Approval is idempotent: where one approval of a student went through,
/// the same approval right after it goes through as well and leaves the
/// ledger as the first left it, the student approved and its claim as it
/// was before the first.
pub proof fn approval_is_idempotent(pre: LedgerState, sender: Seq<char>, student: Seq<char>)
    requires
        approve_step(pre, sender, Some(student)).1 is Ok,
    ensures
        ({
            let once = approve_step(pre, sender, Some(student));
            let twice = approve_step(once.0, sender, Some(student));
            &&& twice == (once.0, Ok::<ResponseView, ErrorKind>(approve_response()))
            &&& pre.student(student) matches Slot::Holds(before)
            &&& once.0.student(student) == Slot::Holds(
                Student { approved: true, claimed: before.claimed },
            )
        }),
{
    let once = approve_step(pre, sender, Some(student)).0;
    assert(approve_step(once, sender, Some(student)).0.students =~= once.students);
}

/// A claim passes once: right after a claim by a student went through, a
/// second claim by the same student is refused as already claimed and
/// orders no payment.
pub proof fn claim_passes_once(pre: LedgerState, student: Seq<char>)
    requires
        claim_step(pre, student).1 is Ok,
    ensures
        ({
            let once = claim_step(pre, student);
            &&& once.1 == Ok::<ResponseView, ErrorKind>(
                claim_response(student, pre.config->Holds_0),
            )
            &&& once.0.student(student) == Slot::Holds(Student { approved: true, claimed: true })
            &&& claim_step(once.0, student) == (
                once.0,
                Err::<ResponseView, ErrorKind>(ErrorKind::AlreadyClaimed),
            )
        }),
{
}

/// A claim stays spent. Once a student's record is claimed, then after any
/// sequence of operations of which none registers that student anew, the
/// record is still claimed: a further claim by the student is refused as
/// already claimed, and no operation of the sequence has ordered a payment
/// to the student.
pub proof fn claim_stays_spent(pre: LedgerState, student: Seq<char>, operations: Seq<Operation>)
    requires
        pre.config is Holds,
        pre.student(student) == Slot::Holds(Student { approved: true, claimed: true }),
        forall|i: int|
            0 <= i < operations.len() ==> !registers(
                run(pre, operations.take(i)),
                #[trigger] operations[i],
                student,
            ),
    ensures
        run(pre, operations).config is Holds,
        run(pre, operations).student(student) == Slot::Holds(
            Student { approved: true, claimed: true },
        ),
        claim_step(run(pre, operations), student) == (
            run(pre, operations),
            Err::<ResponseView, ErrorKind>(ErrorKind::AlreadyClaimed),
        ),
        forall|i: int|
            0 <= i < operations.len() ==> !pays(
                apply(run(pre, operations.take(i)), #[trigger] operations[i]).1,
                student,
            ),
    decreases operations.len(),
{
    if operations.len() > 0 {
        let earlier = operations.drop_last();
        assert(earlier =~= operations.take(operations.len() - 1));
        assert forall|i: int| 0 <= i < earlier.len() implies !registers(
            run(pre, earlier.take(i)),
            #[trigger] earlier[i],
            student,
        ) by {
            assert(earlier.take(i) =~= operations.take(i));
            assert(earlier[i] == operations[i]);
        }
        claim_stays_spent(pre, student, earlier);
        let before = run(pre, earlier);
        let last = operations.last();
        assert(!registers(before, last, student)) by {
            let i = operations.len() - 1;
            assert(operations[i] == last);
        }
        step_keeps_claim_spent(before, student, last);
        assert forall|i: int| 0 <= i < operations.len() implies !pays(
            apply(run(pre, operations.take(i)), #[trigger] operations[i]).1,
            student,
        ) by {
            if i < earlier.len() {
                assert(earlier.take(i) =~= operations.take(i));
                assert(earlier[i] == operations[i]);
            }
        }
    }
}

/// One operation that does not register a claimed student anew leaves the
/// student's record claimed and orders no payment to the student.
pub proof fn step_keeps_claim_spent(pre: LedgerState, student: Seq<char>, operation: Operation)
    requires
        pre.config is Holds,
        pre.student(student) == Slot::Holds(Student { approved: true, claimed: true }),
        !registers(pre, operation, student),
    ensures
        apply(pre, operation).0.config is Holds,
        apply(pre, operation).0.student(student) == Slot::Holds(
            Student { approved: true, claimed: true },
        ),
        !pays(apply(pre, operation).1, student),
{
    let (post, outcome) = apply(pre, operation);
    match operation {
        Operation::Claim { sender } => {
            if outcome is Ok {
                assert(outcome->Ok_0.messages.len() == 1);
            }
        },
        _ => {
            if outcome is Ok {
                assert(outcome->Ok_0.messages.len() == 0);
            }
        },
    }
}

/// A claim waits for approval: right after the administrator registered a
/// student, a claim by that student is refused as not approved, and the
/// ledger stays as the registration left it.
pub proof fn claim_waits_for_approval(pre: LedgerState, sender: Seq<char>, student: Seq<char>)
    requires
        register_step(pre, sender, Some(student)).1 is Ok,
    ensures
        ({
            let registered = register_step(pre, sender, Some(student)).0;
            &&& registered.student(student) == Slot::Holds(Student::spec_fresh())
            &&& claim_step(registered, student) == (
                registered,
                Err::<ResponseView, ErrorKind>(ErrorKind::NotApproved),
            )
        }),
{
}

/// What a claim comes to is decided by the claimant's record alone, once
/// the configuration can be read: refused as not approved while the record
/// is not approved, let through on an approved record that is not claimed,
/// refused as already claimed on one that is.
pub proof fn claim_goes_by_the_record(pre: LedgerState, student: Seq<char>)
    requires
        pre.config is Holds,
        pre.student(student) is Holds,
    ensures
        ({
            let record = pre.student(student)->Holds_0;
            let outcome = claim_step(pre, student).1;
            &&& !record.approved ==> outcome == Err::<ResponseView, ErrorKind>(
                ErrorKind::NotApproved,
            )
            &&& record.approved && record.claimed ==> outcome == Err::<ResponseView, ErrorKind>(
                ErrorKind::AlreadyClaimed,
            )
            &&& record.approved && !record.claimed ==> outcome == Ok::<ResponseView, ErrorKind>(
                claim_response(student, pre.config->Holds_0),
            )
        }),
{
}

/// No operation removes a record, none lets a record lapse into bytes that
/// cannot be read, and none claims without approval: where every readable
/// record was consistent before, every one is after.
pub proof fn records_last(pre: LedgerState, operation: Operation, key: Seq<char>)
    ensures
        !(pre.student(key) is Empty) ==> !(apply(pre, operation).0.student(key) is Empty),
        pre.student(key) is Holds ==> apply(pre, operation).0.student(key) is Holds,
        pre.consistent() ==> apply(pre, operation).0.consistent(),
{
    let post = apply(pre, operation).0;
    if pre.consistent() {
        assert forall|other: Seq<char>| #[trigger]
            post.student(other) is Holds implies post.student(other)->Holds_0.consistent() by {
            assert(pre.student(other) matches Slot::Holds(record) ==> record.consistent());
        }
    }
}

/// A record comes into being by registration alone: where an operation
/// leaves a record under a key that held nothing, the operation was a
/// registration of that key that was let through, and the record is fresh.
pub proof fn records_come_by_registration(pre: LedgerState, operation: Operation, key: Seq<char>)
    requires
        pre.student(key) is Empty,
        !(apply(pre, operation).0.student(key) is Empty),
    ensures
        registers(pre, operation, key),
        apply(pre, operation).0.student(key) == Slot::Holds(Student::spec_fresh()),
{
}

/// A refused operation leaves the ledger as it was.
pub proof fn refusal_changes_nothing(pre: LedgerState, operation: Operation)
    requires
        apply(pre, operation).1 is Err,
    ensures
        apply(pre, operation).0 == pre,
{
}

/// Only initialization writes the configuration: every other operation
/// leaves it, and with it the administrator, as it was.
pub proof fn config_is_kept(pre: LedgerState, operation: Operation)
    requires
        !(operation is Instantiate),
    ensures
        apply(pre, operation).0.config == pre.config,
{
}

} // verus!
