use vstd::prelude::*;

verus! {

/// The placeholder that stands for a credential on every read path.
pub const MASK: &'static str = "******";

pub open spec fn mask() -> Seq<char> {
    MASK@
}

/// Every failure of an operation, with a message for people.
#[derive(Clone, Debug, PartialEq, Eq)]
pub enum Error {
    NotFound { msg: String },
    AlreadyInit { msg: String },
    InvalidPayload { msg: String },
    Unauthorized { msg: String },
}

impl Error {
    pub fn not_found(msg: &str) -> (r: Error)
        ensures
            r matches Error::NotFound { .. },
    {
        Error::NotFound { msg: String::from_str(msg) }
    }

    pub fn invalid_payload(msg: &str) -> (r: Error)
        ensures
            r matches Error::InvalidPayload { .. },
    {
        Error::InvalidPayload { msg: String::from_str(msg) }
    }

    pub fn unauthorized(msg: &str) -> (r: Error)
        ensures
            r matches Error::Unauthorized { .. },
    {
        Error::Unauthorized { msg: String::from_str(msg) }
    }
}

#[derive(Clone, Debug, PartialEq, Eq, Default)]
pub struct Hospital {
    pub id: u64,
    pub name: String,
    pub address: String,
    pub password: String,
    pub city: String,
    pub donations: u32,
    pub donors_ids: Vec<u64>,
}

pub struct HospitalView {
    pub id: u64,
    pub name: Seq<char>,
    pub address: Seq<char>,
    pub password: Seq<char>,
    pub city: Seq<char>,
    pub donations: u32,
    pub donors_ids: Seq<u64>,
}

impl View for Hospital {
    type V = HospitalView;

    open spec fn view(&self) -> HospitalView {
        HospitalView {
            id: self.id,
            name: self.name@,
            address: self.address@,
            password: self.password@,
            city: self.city@,
            donations: self.donations,
            donors_ids: self.donors_ids@,
        }
    }
}

impl HospitalView {
    pub open spec fn redacted(self) -> HospitalView {
        HospitalView { password: mask(), ..self }
    }
}

impl Hospital {
    /// A field-by-field copy.
    pub fn duplicate(&self) -> (r: Hospital)
        ensures
            r@ == self@,
    {
        Hospital {
            id: self.id,
            name: self.name.clone(),
            address: self.address.clone(),
            password: self.password.clone(),
            city: self.city.clone(),
            donations: self.donations,
            donors_ids: self.donors_ids.clone(),
        }
    }

    /// A copy of the record under a new name.
    pub fn with_name(&self, name: String) -> (r: Hospital)
        ensures
            r@ == (HospitalView { name: name@, ..self@ }),
    {
        let mut r = self.duplicate();
        r.name = name;
        r
    }

    /// A copy of the record whose list of donors gains `donor` at the end.
    pub fn with_donor(&self, donor: u64) -> (r: Hospital)
        ensures
            r@ == (HospitalView { donors_ids: self@.donors_ids.push(donor), ..self@ }),
    {
        let mut r = self.duplicate();
        r.donors_ids.push(donor);
        r
    }

    /// A copy of the record whose credential is replaced by the mask.
    pub fn redacted(&self) -> (r: Hospital)
        ensures
            r@ == self@.redacted(),
    {
        Hospital {
            id: self.id,
            name: self.name.clone(),
            address: self.address.clone(),
            password: String::from_str(MASK),
            city: self.city.clone(),
            donations: self.donations,
            donors_ids: self.donors_ids.clone(),
        }
    }
}

#[derive(Clone, Debug, PartialEq, Eq, Default)]
pub struct Patient {
    pub id: u64,
    pub name: String,
    pub blood_group: String,
    pub hospital: String,
    pub description: String,
    pub needed_pints: u32,
    pub donations: u32,
    pub password: String,
    pub is_complete: bool,
    pub donors_ids: Vec<u64>,
}

pub struct PatientView {
    pub id: u64,
    pub name: Seq<char>,
    pub blood_group: Seq<char>,
    pub hospital: Seq<char>,
    pub description: Seq<char>,
    pub needed_pints: u32,
    pub donations: u32,
    pub password: Seq<char>,
    pub is_complete: bool,
    pub donors_ids: Seq<u64>,
}

impl View for Patient {
    type V = PatientView;

    open spec fn view(&self) -> PatientView {
        PatientView {
            id: self.id,
            name: self.name@,
            blood_group: self.blood_group@,
            hospital: self.hospital@,
            description: self.description@,
            needed_pints: self.needed_pints,
            donations: self.donations,
            password: self.password@,
            is_complete: self.is_complete,
            donors_ids: self.donors_ids@,
        }
    }
}

impl PatientView {
    pub open spec fn redacted(self) -> PatientView {
        PatientView { password: mask(), ..self }
    }
}

impl Patient {
    /// A field-by-field copy.
    pub fn duplicate(&self) -> (r: Patient)
        ensures
            r@ == self@,
    {
        Patient {
            id: self.id,
            name: self.name.clone(),
            blood_group: self.blood_group.clone(),
            hospital: self.hospital.clone(),
            description: self.description.clone(),
            needed_pints: self.needed_pints,
            donations: self.donations,
            password: self.password.clone(),
            is_complete: self.is_complete,
            donors_ids: self.donors_ids.clone(),
        }
    }

    /// A copy of the record with a new target and completion flag.
    pub fn with_target(&self, needed_pints: u32, is_complete: bool) -> (r: Patient)
        ensures
            r@ == (PatientView { needed_pints, is_complete, ..self@ }),
    {
        let mut r = self.duplicate();
        r.needed_pints = needed_pints;
        r.is_complete = is_complete;
        r
    }

    /// A copy of the record after `donor` pledged `pints`: the donations
    /// grow by `pints`, completion is recomputed from the new total, and the
    /// list of donors gains `donor` at the end.
    pub fn with_pledge(&self, donor: u64, pints: u32) -> (r: Patient)
        requires
            self.donations + pints <= u32::MAX,
        ensures
            r@ == (PatientView {
                donations: (self.donations + pints) as u32,
                is_complete: self.donations + pints >= self.needed_pints,
                donors_ids: self@.donors_ids.push(donor),
                ..self@
            }),
    {
        let mut r = self.duplicate();
        let total: u32 = self.donations + pints;
        r.donations = total;
        r.is_complete = total >= self.needed_pints;
        r.donors_ids.push(donor);
        r
    }

    /// A copy of the record whose credential is replaced by the mask.
    pub fn redacted(&self) -> (r: Patient)
        ensures
            r@ == self@.redacted(),
    {
        Patient {
            id: self.id,
            name: self.name.clone(),
            blood_group: self.blood_group.clone(),
            hospital: self.hospital.clone(),
            description: self.description.clone(),
            needed_pints: self.needed_pints,
            donations: self.donations,
            password: String::from_str(MASK),
            is_complete: self.is_complete,
            donors_ids: self.donors_ids.clone(),
        }
    }
}

#[derive(Clone, Debug, PartialEq, Eq, Default)]
pub struct Donor {
    pub id: u64,
    pub name: String,
    pub password: String,
    pub blood_group: String,
    pub beneficiaries: Vec<u64>,
}

pub struct DonorView {
    pub id: u64,
    pub name: Seq<char>,
    pub password: Seq<char>,
    pub blood_group: Seq<char>,
    pub beneficiaries: Seq<u64>,
}

impl View for Donor {
    type V = DonorView;

    open spec fn view(&self) -> DonorView {
        DonorView {
            id: self.id,
            name: self.name@,
            password: self.password@,
            blood_group: self.blood_group@,
            beneficiaries: self.beneficiaries@,
        }
    }
}

impl DonorView {
    pub open spec fn redacted(self) -> DonorView {
        DonorView { password: mask(), ..self }
    }
}

impl Donor {
    /// A field-by-field copy.
    pub fn duplicate(&self) -> (r: Donor)
        ensures
            r@ == self@,
    {
        Donor {
            id: self.id,
            name: self.name.clone(),
            password: self.password.clone(),
            blood_group: self.blood_group.clone(),
            beneficiaries: self.beneficiaries.clone(),
        }
    }

    /// A copy of the record whose list of beneficiaries gains `recipient` at the end.
    pub fn with_beneficiary(&self, recipient: u64) -> (r: Donor)
        ensures
            r@ == (DonorView { beneficiaries: self@.beneficiaries.push(recipient), ..self@ }),
    {
        let mut r = self.duplicate();
        r.beneficiaries.push(recipient);
        r
    }

    /// A copy of the record whose credential is replaced by the mask.
    pub fn redacted(&self) -> (r: Donor)
        ensures
            r@ == self@.redacted(),
    {
        Donor {
            id: self.id,
            name: self.name.clone(),
            password: String::from_str(MASK),
            blood_group: self.blood_group.clone(),
            beneficiaries: self.beneficiaries.clone(),
        }
    }
}

} // verus!
