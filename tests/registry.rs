use blood_donation::ids::IdGenerator;
use blood_donation::records::{Error, MASK};
use blood_donation::registry::{
    DonorPayload, EditHospitalPayload, EditPatientPayload, HospitalPayload, PatientPayload,
    PledgePayload, Registry,
};
use blood_donation::text::matches_lowered;

fn hospital_payload(name: &str, address: &str, password: &str, city: &str) -> HospitalPayload {
    HospitalPayload {
        name: name.to_string(),
        address: address.to_string(),
        password: password.to_string(),
        city: city.to_string(),
    }
}

fn patient_payload(needed_pints: u32, password: &str) -> PatientPayload {
    PatientPayload {
        name: "Jane Roe".to_string(),
        blood_group: "A-".to_string(),
        description: "needs surgery".to_string(),
        password: password.to_string(),
        hospital: "City Gen".to_string(),
        needed_pints,
    }
}

fn donor_payload(name: &str, group: &str, password: &str) -> DonorPayload {
    DonorPayload {
        name: name.to_string(),
        blood_group: group.to_string(),
        password: password.to_string(),
    }
}

fn pledge(donor_id: u64, recipient_id: u64, pints_pledge: u32, password: &str) -> PledgePayload {
    PledgePayload { donor_id, recipient_id, pints_pledge, password: password.to_string() }
}

#[test]
fn add_ids_are_unique_and_increasing() {
    let mut reg = Registry::new().unwrap();
    let h = reg.add_hospital(hospital_payload("City Gen", "1 Main St", "pw1", "Metro")).unwrap();
    let p = reg.add_patient(patient_payload(3, "ppw")).unwrap();
    let d = reg.add_donor(donor_payload("Alex", "O+", "pw22")).unwrap();
    let h2 = reg.add_hospital(hospital_payload("North Care", "9 Elm Rd", "pw3", "Uptown")).unwrap();
    assert_eq!(h.id, 0);
    assert_eq!(p.id, 1);
    assert_eq!(d.id, 2);
    assert_eq!(h2.id, 3);
}

#[test]
fn failed_add_issues_no_id() {
    let mut reg = Registry::new().unwrap();
    let bad = reg.add_hospital(hospital_payload("CG", "1 Main St", "pw1", "Metro"));
    assert!(matches!(bad, Err(Error::InvalidPayload { .. })));
    let h = reg.add_hospital(hospital_payload("City Gen", "1 Main St", "pw1", "Metro")).unwrap();
    assert_eq!(h.id, 0);
}

#[test]
fn created_records_keep_their_fields() {
    let mut reg = Registry::new().unwrap();
    let h = reg.add_hospital(hospital_payload("City Gen", "1 Main St", "pw1", "Metro")).unwrap();
    assert_eq!(h.name, "City Gen");
    assert_eq!(h.address, "1 Main St");
    assert_eq!(h.password, "pw1");
    assert_eq!(h.city, "Metro");
    assert_eq!(h.donations, 0);
    assert!(h.donors_ids.is_empty());
    let p = reg.add_patient(patient_payload(5, "ppw")).unwrap();
    assert_eq!(p.needed_pints, 5);
    assert_eq!(p.donations, 0);
    assert!(!p.is_complete);
    assert_eq!(p.hospital, "City Gen");
    let d = reg.add_donor(donor_payload("Alex", "O+", "pw22")).unwrap();
    assert_eq!(d.blood_group, "O+");
    assert!(d.beneficiaries.is_empty());
}

#[test]
fn invalid_payloads_are_rejected() {
    let mut reg = Registry::new().unwrap();
    assert!(matches!(
        reg.add_hospital(hospital_payload("City Gen", "1A", "pw1", "Metro")),
        Err(Error::InvalidPayload { .. })
    ));
    let mut p = patient_payload(2, "ppw");
    p.description = "short".to_string();
    assert!(matches!(reg.add_patient(p), Err(Error::InvalidPayload { .. })));
    let mut p = patient_payload(2, "ppw");
    p.name = "Jo".to_string();
    assert!(matches!(reg.add_patient(p), Err(Error::InvalidPayload { .. })));
    // the credential has no length rule
    assert!(reg.add_donor(donor_payload("Alex", "O+", "pw2")).is_ok());
    assert!(matches!(
        reg.add_donor(donor_payload("Al", "O+", "pw22")),
        Err(Error::InvalidPayload { .. })
    ));
    // lengths count characters, not bytes
    assert!(reg.add_donor(donor_payload("Zoë", "O+", "pässe")).is_ok());
}

#[test]
fn pledge_to_patient_updates_both_records() {
    let mut reg = Registry::new().unwrap();
    let p = reg.add_patient(patient_payload(10, "ppw")).unwrap();
    let first = reg.add_donor(donor_payload("Sam", "A-", "pw33")).unwrap();
    let d = reg.add_donor(donor_payload("Alex", "O+", "pw22")).unwrap();
    reg.pledge_to_patient(pledge(first.id, p.id, 4, "ppw")).unwrap();
    assert_eq!(reg.get_patient(p.id).unwrap().donations, 4);

    reg.pledge_to_patient(pledge(d.id, p.id, 3, "ppw")).unwrap();
    let after = reg.get_patient(p.id).unwrap();
    assert_eq!(after.donations, 7);
    assert!(!after.is_complete);
    assert_eq!(after.donors_ids, vec![first.id, d.id]);
    assert_eq!(reg.get_donor_by_id(d.id).unwrap().beneficiaries, vec![p.id]);

    reg.pledge_to_patient(pledge(d.id, p.id, 5, "ppw")).unwrap();
    let done = reg.get_patient(p.id).unwrap();
    assert_eq!(done.donations, 12);
    assert!(done.is_complete);
    assert_eq!(reg.get_donor_by_id(d.id).unwrap().beneficiaries, vec![p.id, p.id]);
}

#[test]
fn pledge_to_complete_patient_is_rejected() {
    let mut reg = Registry::new().unwrap();
    let p = reg.add_patient(patient_payload(2, "ppw")).unwrap();
    let d = reg.add_donor(donor_payload("Alex", "O+", "pw22")).unwrap();
    reg.pledge_to_patient(pledge(d.id, p.id, 2, "ppw")).unwrap();
    let patient_before = reg.get_patient(p.id).unwrap();
    let donor_before = reg.get_donor_by_id(d.id).unwrap();
    let r = reg.pledge_to_patient(pledge(d.id, p.id, 1, "ppw"));
    assert!(matches!(r, Err(Error::InvalidPayload { .. })));
    assert_eq!(reg.get_patient(p.id).unwrap(), patient_before);
    assert_eq!(reg.get_donor_by_id(d.id).unwrap(), donor_before);
}

#[test]
fn patient_with_zero_target_takes_no_pledge() {
    let mut reg = Registry::new().unwrap();
    let p = reg.add_patient(patient_payload(0, "ppw")).unwrap();
    assert!(p.is_complete);
    assert!(matches!(reg.get_incomplete_donation_patients(), Err(Error::NotFound { .. })));
    let d = reg.add_donor(donor_payload("Alex", "O+", "pw22")).unwrap();
    let r = reg.pledge_to_patient(pledge(d.id, p.id, 1, "ppw"));
    assert!(matches!(r, Err(Error::InvalidPayload { .. })));
}

#[test]
fn pledge_that_overflows_is_rejected() {
    let mut reg = Registry::new().unwrap();
    let p = reg.add_patient(patient_payload(u32::MAX, "ppw")).unwrap();
    let d = reg.add_donor(donor_payload("Alex", "O+", "pw22")).unwrap();
    reg.pledge_to_patient(pledge(d.id, p.id, 1, "ppw")).unwrap();
    let r = reg.pledge_to_patient(pledge(d.id, p.id, u32::MAX, "ppw"));
    assert!(matches!(r, Err(Error::InvalidPayload { .. })));
    assert_eq!(reg.get_patient(p.id).unwrap().donations, 1);
    assert_eq!(reg.get_donor_by_id(d.id).unwrap().beneficiaries, vec![p.id]);
}

#[test]
fn pledge_errors_come_in_order() {
    let mut reg = Registry::new().unwrap();
    let p = reg.add_patient(patient_payload(5, "ppw")).unwrap();
    let h = reg.add_hospital(hospital_payload("City Gen", "1 Main St", "pw1", "Metro")).unwrap();
    let d = reg.add_donor(donor_payload("Alex", "O+", "pw22")).unwrap();
    assert!(matches!(
        reg.pledge_to_patient(pledge(d.id, 99, 1, "ppw")),
        Err(Error::NotFound { .. })
    ));
    assert!(matches!(
        reg.pledge_to_patient(pledge(99, p.id, 1, "wrong")),
        Err(Error::Unauthorized { .. })
    ));
    assert!(matches!(
        reg.pledge_to_patient(pledge(99, p.id, 1, "ppw")),
        Err(Error::NotFound { .. })
    ));
    // a hospital's id is not a patient's
    assert!(matches!(
        reg.pledge_to_patient(pledge(d.id, h.id, 1, "pw1")),
        Err(Error::NotFound { .. })
    ));
    assert!(matches!(
        reg.pledge_to_hospital(pledge(d.id, 99, 1, "pw1")),
        Err(Error::NotFound { .. })
    ));
    assert!(matches!(
        reg.pledge_to_hospital(pledge(d.id, h.id, 1, "pw2")),
        Err(Error::Unauthorized { .. })
    ));
    assert!(matches!(
        reg.pledge_to_hospital(pledge(99, h.id, 1, "pw1")),
        Err(Error::NotFound { .. })
    ));
    assert!(reg.get_donor_by_id(d.id).unwrap().beneficiaries.is_empty());
    assert!(reg.get_hospital_by_id(h.id).unwrap().donors_ids.is_empty());
    assert!(reg.get_patient(p.id).unwrap().donors_ids.is_empty());
}

#[test]
fn reads_mask_credentials() {
    let mut reg = Registry::new().unwrap();
    let h = reg.add_hospital(hospital_payload("City Gen", "1 Main St", "pw1", "Metro")).unwrap();
    let p = reg.add_patient(patient_payload(2, "ppw")).unwrap();
    let d = reg.add_donor(donor_payload("Alex", "O+", "pw22")).unwrap();
    assert_eq!(MASK, "******");
    assert_eq!(reg.get_hospital_by_id(h.id).unwrap().password, "******");
    assert_eq!(reg.get_patient(p.id).unwrap().password, "******");
    assert_eq!(reg.get_donor_by_id(d.id).unwrap().password, "******");
    for x in reg.get_all_hospitals().unwrap() {
        assert_eq!(x.password, "******");
    }
    for x in reg.get_hospital_by_city_and_name("metro".to_string()).unwrap() {
        assert_eq!(x.password, "******");
    }
    for x in reg.get_incomplete_donation_patients().unwrap() {
        assert_eq!(x.password, "******");
    }
    // the stored credential still authorizes
    assert!(reg.pledge_to_hospital(pledge(d.id, h.id, 1, "pw1")).is_ok());
}

#[test]
fn edit_with_wrong_credential_is_unauthorized() {
    let mut reg = Registry::new().unwrap();
    let h = reg.add_hospital(hospital_payload("City Gen", "1 Main St", "pw1", "Metro")).unwrap();
    let p = reg.add_patient(patient_payload(2, "ppw")).unwrap();
    let h_before = reg.get_hospital_by_id(h.id).unwrap();
    let p_before = reg.get_patient(p.id).unwrap();
    let r = reg.edit_hospital(EditHospitalPayload {
        hospital_id: h.id,
        name: "Renamed".to_string(),
        password: "nope".to_string(),
    });
    assert!(matches!(r, Err(Error::Unauthorized { .. })));
    let r = reg.edit_patient(EditPatientPayload {
        patient_id: p.id,
        needed_pints: 9,
        password: "nope".to_string(),
        is_complete: true,
    });
    assert!(matches!(r, Err(Error::Unauthorized { .. })));
    assert_eq!(reg.get_hospital_by_id(h.id).unwrap(), h_before);
    assert_eq!(reg.get_patient(p.id).unwrap(), p_before);
    // the original credentials still work
    assert!(reg.pledge_to_hospital(pledge(99, h.id, 1, "pw1")).is_err());
    let r = reg.edit_hospital(EditHospitalPayload {
        hospital_id: h.id,
        name: "Renamed".to_string(),
        password: "pw1".to_string(),
    });
    assert!(r.is_ok());
}

#[test]
fn edits_change_only_their_fields() {
    let mut reg = Registry::new().unwrap();
    let h = reg.add_hospital(hospital_payload("City Gen", "1 Main St", "pw1", "Metro")).unwrap();
    let p = reg.add_patient(patient_payload(2, "ppw")).unwrap();
    let e = reg
        .edit_hospital(EditHospitalPayload {
            hospital_id: h.id,
            name: "City General".to_string(),
            password: "pw1".to_string(),
        })
        .unwrap();
    assert_eq!(e.name, "City General");
    assert_eq!(e.address, "1 Main St");
    assert_eq!(e.city, "Metro");
    assert_eq!(reg.get_hospital_by_id(h.id).unwrap().name, "City General");
    let e = reg
        .edit_patient(EditPatientPayload {
            patient_id: p.id,
            needed_pints: 6,
            password: "ppw".to_string(),
            is_complete: false,
        })
        .unwrap();
    assert_eq!(e.needed_pints, 6);
    assert_eq!(e.name, "Jane Roe");
    assert!(matches!(
        reg.edit_patient(EditPatientPayload {
            patient_id: 42,
            needed_pints: 6,
            password: "ppw".to_string(),
            is_complete: false,
        }),
        Err(Error::NotFound { .. })
    ));
    assert!(matches!(
        reg.edit_hospital(EditHospitalPayload {
            hospital_id: p.id,
            name: "Other".to_string(),
            password: "ppw".to_string(),
        }),
        Err(Error::NotFound { .. })
    ));
}

#[test]
fn pledge_to_hospital_scenario() {
    let mut reg = Registry::new().unwrap();
    let h = reg.add_hospital(hospital_payload("City Gen", "1 Main St", "pw1", "Metro")).unwrap();
    let d = reg.add_donor(donor_payload("Alex", "O+", "pw2")).unwrap();
    assert!(d.id > h.id);
    let msg = reg.pledge_to_hospital(pledge(d.id, h.id, 1, "pw1")).unwrap();
    assert!(msg.contains("City Gen"));
    assert!(msg.contains("1 Main St"));
    assert_eq!(msg, "Successfully pledged to hospital City Gen, visit address: 1 Main St to donate");
    let after = reg.get_hospital_by_id(h.id).unwrap();
    assert!(after.donors_ids.contains(&d.id));
    // the hospital's own tally is left alone
    assert_eq!(after.donations, 0);
    assert_eq!(reg.get_donor_by_id(d.id).unwrap().beneficiaries, vec![h.id]);
}

#[test]
fn pledge_until_complete_scenario() {
    let mut reg = Registry::new().unwrap();
    let p = reg.add_patient(patient_payload(2, "ppw")).unwrap();
    let d = reg.add_donor(donor_payload("Alex", "O+", "pw22")).unwrap();
    let msg = reg.pledge_to_patient(pledge(d.id, p.id, 2, "ppw")).unwrap();
    assert_eq!(msg, "Successfully pledged to patient Jane Roe, visit hospital: City Gen to donate");
    assert!(reg.get_patient(p.id).unwrap().is_complete);
    for pints in [0u32, 1, 7] {
        let r = reg.pledge_to_patient(pledge(d.id, p.id, pints, "ppw"));
        assert!(matches!(r, Err(Error::InvalidPayload { .. })));
    }
}

#[test]
fn empty_lists_are_not_found() {
    let reg = Registry::new().unwrap();
    assert!(matches!(reg.get_all_hospitals(), Err(Error::NotFound { .. })));
    assert!(matches!(
        reg.get_hospital_by_city_and_name("a".to_string()),
        Err(Error::NotFound { .. })
    ));
    assert!(matches!(reg.get_incomplete_donation_patients(), Err(Error::NotFound { .. })));
    assert!(matches!(reg.get_hospital_by_id(0), Err(Error::NotFound { .. })));
    assert!(matches!(reg.get_patient(0), Err(Error::NotFound { .. })));
    assert!(matches!(reg.get_donor_by_id(0), Err(Error::NotFound { .. })));
}

#[test]
fn lists_keep_insertion_order() {
    let mut reg = Registry::new().unwrap();
    reg.add_hospital(hospital_payload("City Gen", "1 Main St", "pw1", "Metro")).unwrap();
    reg.add_hospital(hospital_payload("North Care", "9 Elm Rd", "pw3", "Uptown")).unwrap();
    reg.add_hospital(hospital_payload("Metro Clinic", "3 Oak Av", "pw4", "Harbor")).unwrap();
    let all = reg.get_all_hospitals().unwrap();
    let names: Vec<&str> = all.iter().map(|h| h.name.as_str()).collect();
    assert_eq!(names, vec!["City Gen", "North Care", "Metro Clinic"]);
}

#[test]
fn search_ignores_case_on_city_and_name() {
    let mut reg = Registry::new().unwrap();
    reg.add_hospital(hospital_payload("City Gen", "1 Main St", "pw1", "Metro")).unwrap();
    reg.add_hospital(hospital_payload("North Care", "9 Elm Rd", "pw3", "Uptown")).unwrap();
    reg.add_hospital(hospital_payload("Metro Clinic", "3 Oak Av", "pw4", "Harbor")).unwrap();
    let hits = reg.get_hospital_by_city_and_name("METRO".to_string()).unwrap();
    let names: Vec<&str> = hits.iter().map(|h| h.name.as_str()).collect();
    assert_eq!(names, vec!["City Gen", "Metro Clinic"]);
    let hits = reg.get_hospital_by_city_and_name("uptown".to_string()).unwrap();
    assert_eq!(hits.len(), 1);
    assert_eq!(hits[0].name, "North Care");
    assert!(matches!(
        reg.get_hospital_by_city_and_name("Main St".to_string()),
        Err(Error::NotFound { .. })
    ));
}

#[test]
fn incomplete_patients_are_listed() {
    let mut reg = Registry::new().unwrap();
    let a = reg.add_patient(patient_payload(1, "ppw")).unwrap();
    let b = reg.add_patient(patient_payload(4, "ppw")).unwrap();
    let d = reg.add_donor(donor_payload("Alex", "O+", "pw22")).unwrap();
    reg.pledge_to_patient(pledge(d.id, a.id, 1, "ppw")).unwrap();
    let list = reg.get_incomplete_donation_patients().unwrap();
    assert_eq!(list.len(), 1);
    assert_eq!(list[0].id, b.id);
    reg.pledge_to_patient(pledge(d.id, b.id, 4, "ppw")).unwrap();
    assert!(matches!(reg.get_incomplete_donation_patients(), Err(Error::NotFound { .. })));
}

#[test]
fn matching_on_lowered_text() {
    assert!(matches_lowered("gen", "metro", "city gen"));
    assert!(matches_lowered("tro", "metro", "city gen"));
    assert!(matches_lowered("", "metro", "city gen"));
    assert!(!matches_lowered("Gen", "metro", "city gen"));
    assert!(!matches_lowered("x", "", ""));
}

#[test]
fn counter_counts_up_from_zero() {
    let mut ids = IdGenerator::new().unwrap();
    assert_eq!(ids.next().unwrap(), 0);
    assert_eq!(ids.next().unwrap(), 1);
    assert_eq!(ids.next().unwrap(), 2);
}

#[test]
fn empty_search_returns_every_hospital() {
    let mut reg = Registry::new().unwrap();
    reg.add_hospital(hospital_payload("City Gen", "1 Main St", "pw1", "Metro")).unwrap();
    reg.add_hospital(hospital_payload("North Care", "9 Elm Rd", "pw3", "Uptown")).unwrap();
    assert_eq!(reg.get_hospital_by_city_and_name(String::new()).unwrap().len(), 2);
}
