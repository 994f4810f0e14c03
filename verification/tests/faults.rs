use cosmwasm_std::testing::{mock_dependencies, MockApi, MockQuerier, MockStorage};
use cosmwasm_std::{OwnedDeps, StdError, Storage};
use cw_storage_plus::Item;
use scholarship_contract::contract::{
    approve_validated, claim_scholarship, instantiate, query, register_validated,
};
use scholarship_contract::error::{ContractError, ErrorKind};
use scholarship_contract::msg::{InstantiateMsg, QueryMsg};
use scholarship_contract::state::{Student, CONFIG_KEY, STUDENTS_NAMESPACE};
use scholarship_contract::store::{Ledger, Snapshot};

type Host = OwnedDeps<MockStorage, MockApi, MockQuerier>;

fn ready() -> Host {
    let mut host = mock_dependencies();
    let msg = InstantiateMsg { scholarship_amount: 1000, denom: "ustake".to_string() };
    instantiate(&mut Ledger { deps: host.as_mut() }, "admin_user", msg).unwrap();
    host
}

fn look_up(host: &Host, address: &str) -> Result<Student, StdError> {
    let snapshot = Snapshot { deps: host.as_ref() };
    query(&snapshot, QueryMsg::GetStudent { address: address.to_string() })
}

fn garble_student(host: &mut Host, address: &str) {
    let table: cw_storage_plus::Map<&str, String> = cw_storage_plus::Map::new(STUDENTS_NAMESPACE);
    table.save(&mut host.storage, address, &"neither here nor there".to_string()).unwrap();
}

#[test]
fn the_config_sits_under_its_key() {
    let host = ready();
    let bytes = host.storage.get(CONFIG_KEY.as_bytes()).unwrap();
    assert_eq!(bytes, b"[\"admin_user\",\"1000\",\"ustake\"]".to_vec());
}

#[test]
fn a_record_sits_in_the_student_namespace() {
    let mut host = ready();
    let mut ledger = Ledger { deps: host.as_mut() };
    register_validated(&mut ledger, "admin_user", Ok("student_1".to_string())).unwrap();
    approve_validated(&mut ledger, "admin_user", Ok("student_1".to_string())).unwrap();
    let table: cw_storage_plus::Map<&str, (bool, bool)> =
        cw_storage_plus::Map::new(STUDENTS_NAMESPACE);
    assert_eq!(table.load(&host.storage, "student_1").unwrap(), (true, false));
    let mut key = vec![0u8, 8u8];
    key.extend_from_slice(b"students");
    key.extend_from_slice(b"student_1");
    assert_eq!(host.storage.get(&key).unwrap(), b"[true,false]".to_vec());
}

#[test]
fn a_config_that_does_not_decode_stops_everything() {
    let mut host = ready();
    {
        let mut ledger = Ledger { deps: host.as_mut() };
        register_validated(&mut ledger, "admin_user", Ok("student_1".to_string())).unwrap();
        approve_validated(&mut ledger, "admin_user", Ok("student_1".to_string())).unwrap();
    }
    let slot: Item<String> = Item::new(CONFIG_KEY);
    slot.save(&mut host.storage, &"admin_user".to_string()).unwrap();
    let mut ledger = Ledger { deps: host.as_mut() };
    let refused = register_validated(&mut ledger, "admin_user", Ok("student_2".to_string()));
    assert!(matches!(refused, Err(ContractError::Std(_))));
    let refused = approve_validated(&mut ledger, "admin_user", Ok("student_1".to_string()));
    assert!(matches!(refused, Err(ContractError::Std(_))));
    let refused = claim_scholarship(&mut ledger, "student_1");
    assert!(matches!(refused, Err(ContractError::Std(_))));
    assert_eq!(look_up(&host, "student_1").unwrap(), Student { approved: true, claimed: false });
    assert!(look_up(&host, "student_2").is_err());
}

#[test]
fn a_record_that_does_not_decode_is_a_fault() {
    let mut host = ready();
    garble_student(&mut host, "student_1");
    let mut ledger = Ledger { deps: host.as_mut() };
    let refused = approve_validated(&mut ledger, "admin_user", Ok("student_1".to_string()));
    assert_eq!(refused.unwrap_err().kind(), ErrorKind::Std);
    let refused = claim_scholarship(&mut ledger, "student_1");
    assert_eq!(refused.unwrap_err().kind(), ErrorKind::Std);
    assert!(look_up(&host, "student_1").is_err());
    let table: cw_storage_plus::Map<&str, String> = cw_storage_plus::Map::new(STUDENTS_NAMESPACE);
    assert_eq!(table.load(&host.storage, "student_1").unwrap(), "neither here nor there");
}

#[test]
fn registration_writes_over_what_does_not_decode() {
    let mut host = ready();
    garble_student(&mut host, "student_1");
    let mut ledger = Ledger { deps: host.as_mut() };
    register_validated(&mut ledger, "admin_user", Ok("student_1".to_string())).unwrap();
    assert_eq!(look_up(&host, "student_1").unwrap(), Student { approved: false, claimed: false });
}

#[test]
fn instantiate_writes_over_what_does_not_decode() {
    let mut host = mock_dependencies();
    let slot: Item<bool> = Item::new(CONFIG_KEY);
    slot.save(&mut host.storage, &true).unwrap();
    let mut ledger = Ledger { deps: host.as_mut() };
    let refused = register_validated(&mut ledger, "admin_user", Ok("student_1".to_string()));
    assert_eq!(refused.unwrap_err().kind(), ErrorKind::Std);
    let msg = InstantiateMsg { scholarship_amount: 3, denom: "ustake".to_string() };
    instantiate(&mut ledger, "admin_user", msg).unwrap();
    register_validated(&mut ledger, "admin_user", Ok("student_1".to_string())).unwrap();
}

#[test]
fn instantiate_leaves_the_students_alone() {
    let mut host = ready();
    {
        let mut ledger = Ledger { deps: host.as_mut() };
        register_validated(&mut ledger, "admin_user", Ok("student_1".to_string())).unwrap();
        approve_validated(&mut ledger, "admin_user", Ok("student_1".to_string())).unwrap();
        register_validated(&mut ledger, "admin_user", Ok("config".to_string())).unwrap();
        let msg = InstantiateMsg { scholarship_amount: 1, denom: "uother".to_string() };
        instantiate(&mut ledger, "admin_user", msg).unwrap();
    }
    assert_eq!(look_up(&host, "student_1").unwrap(), Student { approved: true, claimed: false });
    assert_eq!(look_up(&host, "config").unwrap(), Student { approved: false, claimed: false });
}

#[test]
fn a_refused_claim_writes_nothing() {
    let mut host = ready();
    {
        let mut ledger = Ledger { deps: host.as_mut() };
        register_validated(&mut ledger, "admin_user", Ok("student_1".to_string())).unwrap();
    }
    let before: Vec<(Vec<u8>, Vec<u8>)> =
        host.storage.range(None, None, cosmwasm_std::Order::Ascending).collect();
    {
        let mut ledger = Ledger { deps: host.as_mut() };
        assert!(claim_scholarship(&mut ledger, "student_1").is_err());
        assert!(claim_scholarship(&mut ledger, "student_2").is_err());
        assert!(approve_validated(&mut ledger, "admin_user", Ok("student_2".to_string())).is_err());
        assert!(approve_validated(&mut ledger, "student_1", Ok("student_1".to_string())).is_err());
        assert!(register_validated(&mut ledger, "student_1", Ok("student_3".to_string())).is_err());
    }
    let after: Vec<(Vec<u8>, Vec<u8>)> =
        host.storage.range(None, None, cosmwasm_std::Order::Ascending).collect();
    assert_eq!(before, after);
}
