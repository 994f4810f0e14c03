use vstd::prelude::*;
use crate::error::ContractError;
use crate::model::{LedgerState, Slot};
use crate::state::{
    advance, advanced_from, Config, ConfigView, Step, Student, CONFIG_KEY, STUDENTS_NAMESPACE,
};

verus! {

/// The host's storage and address validation, as the contract is handed
/// them for a call that may write. An entry point wraps the `DepsMut` it is
/// given, which is why the field is public.
///
/// The configuration is kept under `CONFIG_KEY` as the JSON triple of
/// admin, amount and denomination; a record is kept in the namespace
/// `STUDENTS_NAMESPACE`, under the student's identity, as the JSON pair of
/// its approved and claimed flags. Verus does not look inside: what the
/// storage holds is known to it by `stored_config` and `stored_students`.
#[verifier::external_body]
pub struct Ledger<'a> {
    pub deps: cosmwasm_std::DepsMut<'a>,
}

/// What the storage of `ledger` holds under the configuration key:
/// `None` for nothing, `Some(None)` for bytes that do not decode as a
/// triple of text, amount and text, else admin, amount and denomination.
pub uninterp spec fn stored_config(ledger: Ledger<'_>) -> Option<Option<(Seq<char>, u128, Seq<char>)>>;

/// What the storage of `ledger` holds in the student table. An identity is
/// a key of the map where storage has bytes under it in the namespace; it
/// maps to the approved and claimed flags that the bytes decode to, or to
/// `None` where they do not decode as a pair of booleans.
pub uninterp spec fn stored_students(ledger: Ledger<'_>) -> Map<Seq<char>, Option<(bool, bool)>>;

/// The student table with each stored pair of flags read as a record.
pub open spec fn records_of(held: Map<Seq<char>, Option<(bool, bool)>>) -> Map<
    Seq<char>,
    Option<Student>,
> {
    Map::new(
        |key: Seq<char>| held.contains_key(key),
        |key: Seq<char>|
            match held[key] {
                Some(flags) => Some(Student::spec_from_flags(flags)),
                None => None,
            },
    )
}

impl View for Ledger<'_> {
    type V = LedgerState;

    open spec fn view(&self) -> LedgerState {
        LedgerState {
            config: match stored_config(*self) {
                None => Slot::Empty,
                Some(None) => Slot::Unreadable,
                Some(Some(held)) => Slot::Holds(
                    ConfigView { admin: held.0, scholarship_amount: held.1, denom: held.2 },
                ),
            },
            students: records_of(stored_students(*self)),
        }
    }
}

impl<'a> Ledger<'a> {
    /// `Item::load` of `cw_storage_plus` on the configuration key: `Ok` with
    /// what the key holds where its bytes decode, an error where it holds
    /// nothing or bytes that do not decode.
    #[verifier::external_body]
    pub(crate) fn load_config(&self) -> (r: Result<Config, cosmwasm_std::StdError>)
        ensures
            match r {
                Ok(config) => stored_config(*self) == Some(
                    Some((config.admin@, config.scholarship_amount, config.denom@)),
                ),
                Err(_) => stored_config(*self) is None || stored_config(*self) == Some(
                    None::<(Seq<char>, u128, Seq<char>)>,
                ),
            },
    {
        cw_storage_plus::Item::<(String, u128, String)>::new(CONFIG_KEY)
            .load(self.deps.storage)
            .map(|held| Config { admin: held.0, scholarship_amount: held.1, denom: held.2 })
    }

    /// `Item::save` of `cw_storage_plus` on the configuration key. The call
    /// encodes the three values as JSON and sets the key. The encoder has no
    /// failing path for text and unsigned integers, so the result is `Ok`;
    /// what is read back afterwards is what was written, and no key of the
    /// student table is touched, since each of those begins with the
    /// length-prefixed namespace.
    #[verifier::external_body]
    pub(crate) fn save_config(&mut self, config: &Config) -> (r: Result<(), cosmwasm_std::StdError>)
        ensures
            r is Ok,
            stored_config(*final(self)) == Some(
                Some((config.admin@, config.scholarship_amount, config.denom@)),
            ),
            stored_students(*final(self)) == stored_students(*old(self)),
    {
        cw_storage_plus::Item::<(String, u128, String)>::new(CONFIG_KEY).save(
            self.deps.storage,
            &(config.admin.clone(), config.scholarship_amount, config.denom.clone()),
        )
    }

    /// `Map::save` of `cw_storage_plus` on the student table: the record
    /// under `key` is replaced or created, every other key keeps what it
    /// held, and the result is `Ok`, two booleans always being encoded.
    #[verifier::external_body]
    pub(crate) fn save_student(&mut self, key: &str, student: Student) -> (r: Result<
        (),
        cosmwasm_std::StdError,
    >)
        ensures
            r is Ok,
            stored_students(*final(self)) == stored_students(*old(self)).insert(
                key@,
                Some(student.flags()),
            ),
            stored_config(*final(self)) == stored_config(*old(self)),
    {
        cw_storage_plus::Map::<&str, (bool, bool)>::new(STUDENTS_NAMESPACE).save(
            self.deps.storage,
            key,
            &student.flags(),
        )
    }

    /// `Map::update` of `cw_storage_plus` on the student table, with
    /// `advance` as the action. The call reads the key, fails with the
    /// host's error where the bytes do not decode, hands the record or
    /// `None` to the action, and writes what the action returns; where the
    /// action refuses, it returns the refusal and writes nothing.
    #[verifier::external_body]
    pub(crate) fn update_student(&mut self, key: &str, step: Step) -> (r: Result<
        Student,
        ContractError,
    >)
        ensures
            stored_config(*final(self)) == stored_config(*old(self)),
            ({
                let before = stored_students(*old(self));
                let after = stored_students(*final(self));
                if before.contains_key(key@) && before[key@] is None {
                    &&& r matches Err(ContractError::Std(_))
                    &&& after == before
                } else {
                    let held = if before.contains_key(key@) {
                        Some(Student::spec_from_flags(before[key@].unwrap()))
                    } else {
                        None
                    };
                    match advanced_from(step, held) {
                        Ok(next) => {
                            &&& r == Ok::<Student, ContractError>(next)
                            &&& after == before.insert(key@, Some(next.flags()))
                        },
                        Err(refusal) => {
                            &&& r == Err::<Student, ContractError>(refusal)
                            &&& after == before
                        },
                    }
                }
            }),
    {
        cw_storage_plus::Map::<&str, (bool, bool)>::new(STUDENTS_NAMESPACE)
            .update(
                self.deps.storage,
                key,
                |held| advance(step, held.map(Student::from_flags)).map(Student::flags),
            )
            .map(Student::from_flags)
    }

    /// `Api::addr_validate` of `cosmwasm_std`. Which texts the host accepts
    /// is its own affair; an accepted address is the text that was handed in.
    #[verifier::external_body]
    pub(crate) fn validate_address(&self, address: &str) -> (r: Result<
        String,
        cosmwasm_std::StdError,
    >)
        ensures
            r matches Ok(validated) ==> validated@ == address@,
    {
        self.deps.api.addr_validate(address).map(|validated| validated.into_string())
    }
}

/// The host's storage as the contract is handed it for a call that only
/// reads. An entry point wraps the `Deps` it is given.
#[verifier::external_body]
pub struct Snapshot<'a> {
    pub deps: cosmwasm_std::Deps<'a>,
}

/// What the student table of a snapshot holds, as `stored_students` says it
/// of a ledger.
pub uninterp spec fn seen_students(snapshot: Snapshot<'_>) -> Map<Seq<char>, Option<(bool, bool)>>;

impl View for Snapshot<'_> {
    type V = Map<Seq<char>, Option<Student>>;

    open spec fn view(&self) -> Map<Seq<char>, Option<Student>> {
        records_of(seen_students(*self))
    }
}

impl<'a> Snapshot<'a> {
    /// `Map::load` of `cw_storage_plus` on the student table: `Ok` with the
    /// record where `key` holds bytes that decode, an error where it holds
    /// nothing or bytes that do not decode.
    #[verifier::external_body]
    pub(crate) fn load_student(&self, key: &str) -> (r: Result<Student, cosmwasm_std::StdError>)
        ensures
            match r {
                Ok(student) => seen_students(*self).contains_key(key@) && seen_students(
                    *self,
                )[key@] == Some(student.flags()),
                Err(_) => !seen_students(*self).contains_key(key@) || seen_students(
                    *self,
                )[key@] is None,
            },
    {
        cw_storage_plus::Map::<&str, (bool, bool)>::new(STUDENTS_NAMESPACE)
            .load(self.deps.storage, key)
            .map(Student::from_flags)
    }
}

} // verus!
