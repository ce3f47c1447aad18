use vstd::prelude::*;
use crate::ids::IdGenerator;
use crate::records::{mask, Donor, DonorView, Error, Hospital, HospitalView, Patient, PatientView};
use crate::store::{EntityStore, has_key, keys_unique, lookup};
use crate::text::{is_infix, lower_of, lowercase, matches_lowered};

verus! {

/// Fields of a new hospital.
#[derive(Clone, Debug, Default)]
pub struct HospitalPayload {
    pub name: String,
    pub address: String,
    pub password: String,
    pub city: String,
}

impl HospitalPayload {
    /// Name and address have at least three characters each.
    pub open spec fn valid(&self) -> bool {
        self.name@.len() >= 3 && self.address@.len() >= 3
    }
}

/// Fields of a new patient.
#[derive(Clone, Debug, Default)]
pub struct PatientPayload {
    pub name: String,
    pub blood_group: String,
    pub description: String,
    pub password: String,
    pub hospital: String,
    pub needed_pints: u32,
}

impl PatientPayload {
    /// The name has at least three characters, the description at least six.
    pub open spec fn valid(&self) -> bool {
        self.name@.len() >= 3 && self.description@.len() >= 6
    }
}

/// Fields of a new donor.
#[derive(Clone, Debug, Default)]
pub struct DonorPayload {
    pub name: String,
    pub blood_group: String,
    pub password: String,
}

impl DonorPayload {
    /// The name has at least three characters.
    pub open spec fn valid(&self) -> bool {
        self.name@.len() >= 3
    }
}

/// A new name for a hospital, with the hospital's credential.
#[derive(Clone, Debug, Default)]
pub struct EditHospitalPayload {
    pub hospital_id: u64,
    pub name: String,
    pub password: String,
}

/// A new target and completion flag for a patient, with the patient's credential.
#[derive(Clone, Debug, Default)]
pub struct EditPatientPayload {
    pub patient_id: u64,
    pub needed_pints: u32,
    pub password: String,
    pub is_complete: bool,
}

/// A donor's pledge of pints to a recipient, with the recipient's credential.
#[derive(Clone, Debug, Default)]
pub struct PledgePayload {
    pub donor_id: u64,
    pub recipient_id: u64,
    pub pints_pledge: u32,
    pub password: String,
}

/// Every key of `s` is below `n`.
pub open spec fn keys_below<T>(s: Seq<(u64, T)>, n: u64) -> bool {
    forall|i: int| 0 <= i < s.len() ==> #[trigger] s[i].0 < n
}

/// Keys grow strictly along the scan order.
pub open spec fn keys_increasing<T>(s: Seq<(u64, T)>) -> bool {
    forall|i: int, j: int| 0 <= i < j < s.len() ==> #[trigger] s[i].0 < #[trigger] s[j].0
}

/// No key occurs in both `a` and `b`.
pub open spec fn keys_disjoint<A, B>(a: Seq<(u64, A)>, b: Seq<(u64, B)>) -> bool {
    forall|i: int, j: int|
        0 <= i < a.len() && 0 <= j < b.len() ==> #[trigger] a[i].0 != #[trigger] b[j].0
}

pub open spec fn hospitals_keyed(s: Seq<(u64, Hospital)>) -> bool {
    forall|i: int| 0 <= i < s.len() ==> #[trigger] s[i].1.id == s[i].0
}

pub open spec fn patients_keyed(s: Seq<(u64, Patient)>) -> bool {
    forall|i: int| 0 <= i < s.len() ==> #[trigger] s[i].1.id == s[i].0
}

pub open spec fn donors_keyed(s: Seq<(u64, Donor)>) -> bool {
    forall|i: int| 0 <= i < s.len() ==> #[trigger] s[i].1.id == s[i].0
}

/// The confirmation of a pledge to a hospital: its name and the address to visit.
pub open spec fn hospital_pledge_message(name: Seq<char>, address: Seq<char>) -> Seq<char> {
    "Successfully pledged to hospital "@ + name + ", visit address: "@ + address + " to donate"@
}

/// The confirmation of a pledge to a patient: its name and the hospital to visit.
pub open spec fn patient_pledge_message(name: Seq<char>, hospital: Seq<char>) -> Seq<char> {
    "Successfully pledged to patient "@ + name + ", visit hospital: "@ + hospital + " to donate"@
}

/// The views of a sequence of hospitals.
pub open spec fn hospital_views(v: Seq<Hospital>) -> Seq<HospitalView> {
    v.map_values(|h: Hospital| h@)
}

/// The views of a sequence of patients.
pub open spec fn patient_views(v: Seq<Patient>) -> Seq<PatientView> {
    v.map_values(|p: Patient| p@)
}

/// A hospital answers a search when the lower-cased query occurs in its
/// lower-cased city or in its lower-cased name.
pub open spec fn hospital_hit(h: HospitalView, q: Seq<char>) -> bool {
    is_infix(lower_of(q), lower_of(h.city)) || is_infix(lower_of(q), lower_of(h.name))
}

/// The hospitals that answer `q`, in scan order, with credentials masked.
pub open spec fn search_hits(s: Seq<(u64, Hospital)>, q: Seq<char>) -> Seq<HospitalView>
    decreases s.len(),
{
    if s.len() == 0 {
        Seq::empty()
    } else {
        let rest = search_hits(s.drop_last(), q);
        let h = s.last().1@;
        if hospital_hit(h, q) {
            rest.push(h.redacted())
        } else {
            rest
        }
    }
}

/// The patients whose donations are not complete, in scan order, with
/// credentials masked.
pub open spec fn incomplete_patients(s: Seq<(u64, Patient)>) -> Seq<PatientView>
    decreases s.len(),
{
    if s.len() == 0 {
        Seq::empty()
    } else {
        let rest = incomplete_patients(s.drop_last());
        let p = s.last().1@;
        if !p.is_complete {
            rest.push(p.redacted())
        } else {
            rest
        }
    }
}

/// The three record stores and the identifier counter that they share.
pub struct Registry {
    ids: IdGenerator,
    hospitals: EntityStore<Hospital>,
    patients: EntityStore<Patient>,
    donors: EntityStore<Donor>,
}

impl Registry {
    /// The identifier that the next record created receives.
    pub closed spec fn next_id(&self) -> u64 {
        self.ids.peek()
    }

    /// Hospitals as (identifier, record), in scan order.
    pub closed spec fn hospital_entries(&self) -> Seq<(u64, Hospital)> {
        self.hospitals@
    }

    /// Patients as (identifier, record), in scan order.
    pub closed spec fn patient_entries(&self) -> Seq<(u64, Patient)> {
        self.patients@
    }

    /// Donors as (identifier, record), in scan order.
    pub closed spec fn donor_entries(&self) -> Seq<(u64, Donor)> {
        self.donors@
    }

    pub open spec fn hospital(&self, k: u64) -> Option<HospitalView> {
        match lookup(self.hospital_entries(), k) {
            Some(h) => Some(h@),
            None => None,
        }
    }

    pub open spec fn patient(&self, k: u64) -> Option<PatientView> {
        match lookup(self.patient_entries(), k) {
            Some(p) => Some(p@),
            None => None,
        }
    }

    pub open spec fn donor(&self, k: u64) -> Option<DonorView> {
        match lookup(self.donor_entries(), k) {
            Some(d) => Some(d@),
            None => None,
        }
    }

    /// Keys are unique within each store, grow along each scan order, and
    /// are unique across the three stores; each
    /// record carries its own key, and every key was issued by the counter.
    pub open spec fn wf(&self) -> bool {
        let h = self.hospital_entries();
        let p = self.patient_entries();
        let d = self.donor_entries();
        &&& keys_unique(h)
        &&& keys_unique(p)
        &&& keys_unique(d)
        &&& keys_increasing(h)
        &&& keys_increasing(p)
        &&& keys_increasing(d)
        &&& keys_below(h, self.next_id())
        &&& keys_below(p, self.next_id())
        &&& keys_below(d, self.next_id())
        &&& keys_disjoint(h, p)
        &&& keys_disjoint(h, d)
        &&& keys_disjoint(p, d)
        &&& hospitals_keyed(h)
        &&& patients_keyed(p)
        &&& donors_keyed(d)
    }

    /// An empty registry whose counter resumes from stable memory (zero on
    /// fresh memory).  Fails when the counter cannot be set up there.
    pub fn new() -> (r: Result<Registry, Error>)
        ensures
            match r {
                Ok(g) => {
                    &&& g.wf()
                    &&& g.hospital_entries().len() == 0
                    &&& g.patient_entries().len() == 0
                    &&& g.donor_entries().len() == 0
                },
                Err(e) => e matches Error::InvalidPayload { .. },
            },
    {
        let ids = match IdGenerator::new() {
            Ok(ids) => ids,
            Err(e) => return Err(e),
        };
        Ok(Registry {
            ids,
            hospitals: EntityStore::new(),
            patients: EntityStore::new(),
            donors: EntityStore::new(),
        })
    }

    /// Creates a hospital with no donations and no donors under a fresh identifier.
    pub fn add_hospital(&mut self, payload: HospitalPayload) -> (r: Result<Hospital, Error>)
        requires
            old(self).wf(),
        ensures
            final(self).wf(),
            r.is_ok() <==> payload.valid() && old(self).next_id() < u64::MAX,
            match r {
                Ok(h) => {
                    &&& h@ == (HospitalView {
                        id: old(self).next_id(),
                        name: payload.name@,
                        address: payload.address@,
                        password: payload.password@,
                        city: payload.city@,
                        donations: 0,
                        donors_ids: Seq::empty(),
                    })
                    &&& final(self).next_id() == old(self).next_id() + 1
                    &&& final(self).hospital_entries().len() == old(self).hospital_entries().len() + 1
                    &&& final(self).hospital_entries().drop_last() == old(self).hospital_entries()
                    &&& final(self).hospital_entries().last().0 == h.id
                    &&& final(self).hospital_entries().last().1@ == h@
                    &&& final(self).hospital(h.id) == Some(h@)
                    &&& forall|k: u64| k != h.id ==> #[trigger] final(self).hospital(k) == old(self).hospital(k)
                    &&& final(self).patient_entries() == old(self).patient_entries()
                    &&& final(self).donor_entries() == old(self).donor_entries()
                },
                Err(e) => {
                    &&& e matches Error::InvalidPayload { .. }
                    &&& final(self).next_id() == old(self).next_id()
                    &&& final(self).hospital_entries() == old(self).hospital_entries()
                    &&& final(self).patient_entries() == old(self).patient_entries()
                    &&& final(self).donor_entries() == old(self).donor_entries()
                },
            },
    {
        if !(crate::text::has_min_chars(payload.name.as_str(), 3)
            && crate::text::has_min_chars(payload.address.as_str(), 3)) {
            return Err(Error::invalid_payload("hospital name and address need three characters"));
        }
        let id = match self.ids.next() {
            Ok(id) => id,
            Err(e) => return Err(e),
        };
        let hospital = Hospital {
            id,
            name: payload.name,
            address: payload.address,
            password: payload.password,
            city: payload.city,
            donations: 0,
            donors_ids: Vec::new(),
        };
        let created = hospital.duplicate();
        let ghost h0 = self.hospitals@;
        assert(!has_key(h0, id));
        let ghost before = *self;
        let prev = self.hospitals.upsert(id, hospital);
        assert forall|k: u64| k != id implies #[trigger] self.hospital(k) == before.hospital(k) by {
            assert(self.hospitals.spec_get(k) == before.hospitals.spec_get(k));
        }
        assert(self.hospitals@.drop_last() =~= h0);
        match prev {
            None => Ok(created),
            Some(_) => {
                proof {
                    assert(false);
                }
                Err(Error::invalid_payload("could not add hospital"))
            },
        }
    }

    /// Creates a patient with no donations and no donors under a fresh
    /// identifier; it is complete exactly when it needs no pints.
    pub fn add_patient(&mut self, payload: PatientPayload) -> (r: Result<Patient, Error>)
        requires
            old(self).wf(),
        ensures
            final(self).wf(),
            r.is_ok() <==> payload.valid() && old(self).next_id() < u64::MAX,
            match r {
                Ok(p) => {
                    &&& p@ == (PatientView {
                        id: old(self).next_id(),
                        name: payload.name@,
                        blood_group: payload.blood_group@,
                        hospital: payload.hospital@,
                        description: payload.description@,
                        needed_pints: payload.needed_pints,
                        donations: 0,
                        password: payload.password@,
                        is_complete: payload.needed_pints == 0,
                        donors_ids: Seq::empty(),
                    })
                    &&& final(self).next_id() == old(self).next_id() + 1
                    &&& final(self).patient_entries().len() == old(self).patient_entries().len() + 1
                    &&& final(self).patient_entries().drop_last() == old(self).patient_entries()
                    &&& final(self).patient_entries().last().0 == p.id
                    &&& final(self).patient_entries().last().1@ == p@
                    &&& final(self).patient(p.id) == Some(p@)
                    &&& forall|k: u64| k != p.id ==> #[trigger] final(self).patient(k) == old(self).patient(k)
                    &&& final(self).hospital_entries() == old(self).hospital_entries()
                    &&& final(self).donor_entries() == old(self).donor_entries()
                },
                Err(e) => {
                    &&& e matches Error::InvalidPayload { .. }
                    &&& final(self).next_id() == old(self).next_id()
                    &&& final(self).hospital_entries() == old(self).hospital_entries()
                    &&& final(self).patient_entries() == old(self).patient_entries()
                    &&& final(self).donor_entries() == old(self).donor_entries()
                },
            },
    {
        if !(crate::text::has_min_chars(payload.name.as_str(), 3)
            && crate::text::has_min_chars(payload.description.as_str(), 6)) {
            return Err(
                Error::invalid_payload(
                    "patient name needs three characters and description six",
                ),
            );
        }
        let id = match self.ids.next() {
            Ok(id) => id,
            Err(e) => return Err(e),
        };
        let patient = Patient {
            id,
            name: payload.name,
            blood_group: payload.blood_group,
            hospital: payload.hospital,
            description: payload.description,
            needed_pints: payload.needed_pints,
            donations: 0,
            password: payload.password,
            is_complete: payload.needed_pints == 0,
            donors_ids: Vec::new(),
        };
        let created = patient.duplicate();
        let ghost p0 = self.patients@;
        assert(!has_key(p0, id));
        let ghost before = *self;
        let prev = self.patients.upsert(id, patient);
        assert forall|k: u64| k != id implies #[trigger] self.patient(k) == before.patient(k) by {
            assert(self.patients.spec_get(k) == before.patients.spec_get(k));
        }
        assert(self.patients@.drop_last() =~= p0);
        match prev {
            None => Ok(created),
            Some(_) => {
                proof {
                    assert(false);
                }
                Err(Error::invalid_payload("could not add patient"))
            },
        }
    }

    /// Creates a donor with no beneficiaries under a fresh identifier.
    pub fn add_donor(&mut self, payload: DonorPayload) -> (r: Result<Donor, Error>)
        requires
            old(self).wf(),
        ensures
            final(self).wf(),
            r.is_ok() <==> payload.valid() && old(self).next_id() < u64::MAX,
            match r {
                Ok(d) => {
                    &&& d@ == (DonorView {
                        id: old(self).next_id(),
                        name: payload.name@,
                        password: payload.password@,
                        blood_group: payload.blood_group@,
                        beneficiaries: Seq::empty(),
                    })
                    &&& final(self).next_id() == old(self).next_id() + 1
                    &&& final(self).donor_entries().len() == old(self).donor_entries().len() + 1
                    &&& final(self).donor_entries().drop_last() == old(self).donor_entries()
                    &&& final(self).donor_entries().last().0 == d.id
                    &&& final(self).donor_entries().last().1@ == d@
                    &&& final(self).donor(d.id) == Some(d@)
                    &&& forall|k: u64| k != d.id ==> #[trigger] final(self).donor(k) == old(self).donor(k)
                    &&& final(self).hospital_entries() == old(self).hospital_entries()
                    &&& final(self).patient_entries() == old(self).patient_entries()
                },
                Err(e) => {
                    &&& e matches Error::InvalidPayload { .. }
                    &&& final(self).next_id() == old(self).next_id()
                    &&& final(self).hospital_entries() == old(self).hospital_entries()
                    &&& final(self).patient_entries() == old(self).patient_entries()
                    &&& final(self).donor_entries() == old(self).donor_entries()
                },
            },
    {
        if !crate::text::has_min_chars(payload.name.as_str(), 3) {
            return Err(Error::invalid_payload("donor name needs three characters"));
        }
        let id = match self.ids.next() {
            Ok(id) => id,
            Err(e) => return Err(e),
        };
        let donor = Donor {
            id,
            name: payload.name,
            password: payload.password,
            blood_group: payload.blood_group,
            beneficiaries: Vec::new(),
        };
        let created = donor.duplicate();
        let ghost d0 = self.donors@;
        assert(!has_key(d0, id));
        let ghost before = *self;
        let prev = self.donors.upsert(id, donor);
        assert forall|k: u64| k != id implies #[trigger] self.donor(k) == before.donor(k) by {
            assert(self.donors.spec_get(k) == before.donors.spec_get(k));
        }
        assert(self.donors@.drop_last() =~= d0);
        match prev {
            None => Ok(created),
            Some(_) => {
                proof {
                    assert(false);
                }
                Err(Error::invalid_payload("could not add donor"))
            },
        }
    }

    /// The hospital stored under `id`, with its credential masked.
    pub fn get_hospital_by_id(&self, id: u64) -> (r: Result<Hospital, Error>)
        requires
            self.wf(),
        ensures
            match self.hospital(id) {
                Some(h) => r.is_ok() && r->Ok_0@ == h.redacted(),
                None => r matches Err(Error::NotFound { .. }),
            },
    {
        match self.hospitals.get(id) {
            Some(h) => Ok(h.redacted()),
            None => Err(Error::not_found("hospital not found")),
        }
    }

    /// The patient stored under `id`, with its credential masked.
    pub fn get_patient(&self, id: u64) -> (r: Result<Patient, Error>)
        requires
            self.wf(),
        ensures
            match self.patient(id) {
                Some(p) => r.is_ok() && r->Ok_0@ == p.redacted(),
                None => r matches Err(Error::NotFound { .. }),
            },
    {
        match self.patients.get(id) {
            Some(p) => Ok(p.redacted()),
            None => Err(Error::not_found("patient not found")),
        }
    }

    /// The donor stored under `id`, with its credential masked.
    pub fn get_donor_by_id(&self, id: u64) -> (r: Result<Donor, Error>)
        requires
            self.wf(),
        ensures
            match self.donor(id) {
                Some(d) => r.is_ok() && r->Ok_0@ == d.redacted(),
                None => r matches Err(Error::NotFound { .. }),
            },
    {
        match self.donors.get(id) {
            Some(d) => Ok(d.redacted()),
            None => Err(Error::not_found("donor not found")),
        }
    }

    /// Every hospital, in scan order, with credentials masked.  An empty
    /// store answers `NotFound`.
    pub fn get_all_hospitals(&self) -> (r: Result<Vec<Hospital>, Error>)
        requires
            self.wf(),
        ensures
            r.is_err() <==> self.hospital_entries().len() == 0,
            match r {
                Ok(v) => {
                    &&& v@.len() == self.hospital_entries().len()
                    &&& forall|i: int|
                        0 <= i < v@.len() ==> #[trigger] v@[i]@
                            == self.hospital_entries()[i].1@.redacted()
                },
                Err(e) => e matches Error::NotFound { .. },
            },
    {
        let n = self.hospitals.len();
        let mut out: Vec<Hospital> = Vec::new();
        let mut i: usize = 0;
        while i < n
            invariant
                i <= n,
                n == self.hospital_entries().len(),
                out@.len() == i,
                forall|j: int|
                    0 <= j < i ==> #[trigger] out@[j]@ == self.hospital_entries()[j].1@.redacted(),
            decreases n - i,
        {
            let (_, h) = self.hospitals.entry_at(i);
            out.push(h.redacted());
            i = i + 1;
        }
        if out.len() == 0 {
            Err(Error::not_found("no hospitals found"))
        } else {
            Ok(out)
        }
    }

    /// The hospitals whose city or name contains the query, ignoring case,
    /// in scan order and with credentials masked.  No match answers `NotFound`.
    pub fn get_hospital_by_city_and_name(&self, search: String) -> (r: Result<Vec<Hospital>, Error>)
        requires
            self.wf(),
        ensures
            match r {
                Ok(v) => hospital_views(v@) == search_hits(self.hospital_entries(), search@)
                    && v@.len() > 0,
                Err(e) => e matches Error::NotFound { .. } && search_hits(
                    self.hospital_entries(),
                    search@,
                ).len() == 0,
            },
            search@.len() == 0 && self.hospital_entries().len() > 0 ==> r.is_ok(),
    {
        let query = lowercase(search.as_str());
        proof {
            if search@.len() == 0 && self.hospital_entries().len() > 0 {
                lemma_empty_query_hits(self.hospital_entries(), search@);
            }
        }
        let n = self.hospitals.len();
        let mut out: Vec<Hospital> = Vec::new();
        let mut i: usize = 0;
        while i < n
            invariant
                i <= n,
                n == self.hospital_entries().len(),
                query@ == lower_of(search@),
                hospital_views(out@) == search_hits(self.hospital_entries().subrange(0, i as int), search@),
            decreases n - i,
        {
            let (_, h) = self.hospitals.entry_at(i);
            let city = lowercase(h.city.as_str());
            let name = lowercase(h.name.as_str());
            let ghost s = self.hospital_entries();
            let ghost before = out@;
            if matches_lowered(query.as_str(), city.as_str(), name.as_str()) {
                out.push(h.redacted());
                assert(hospital_views(out@) =~= hospital_views(before).push(h@.redacted()));
            }
            assert(s.subrange(0, i + 1).drop_last() =~= s.subrange(0, i as int));
            i = i + 1;
        }
        assert(self.hospital_entries().subrange(0, n as int) =~= self.hospital_entries());
        if out.len() == 0 {
            Err(Error::not_found("no hospitals match the city or name"))
        } else {
            Ok(out)
        }
    }

    /// The patients whose donations are not complete, in scan order, with
    /// credentials masked.  None answers `NotFound`.
    pub fn get_incomplete_donation_patients(&self) -> (r: Result<Vec<Patient>, Error>)
        requires
            self.wf(),
        ensures
            match r {
                Ok(v) => patient_views(v@) == incomplete_patients(self.patient_entries())
                    && v@.len() > 0,
                Err(e) => e matches Error::NotFound { .. } && incomplete_patients(
                    self.patient_entries(),
                ).len() == 0,
            },
    {
        let n = self.patients.len();
        let mut out: Vec<Patient> = Vec::new();
        let mut i: usize = 0;
        while i < n
            invariant
                i <= n,
                n == self.patient_entries().len(),
                patient_views(out@) == incomplete_patients(self.patient_entries().subrange(0, i as int)),
            decreases n - i,
        {
            let (_, p) = self.patients.entry_at(i);
            let ghost s = self.patient_entries();
            let ghost before = out@;
            if !p.is_complete {
                out.push(p.redacted());
                assert(patient_views(out@) =~= patient_views(before).push(p@.redacted()));
            }
            assert(s.subrange(0, i + 1).drop_last() =~= s.subrange(0, i as int));
            i = i + 1;
        }
        assert(self.patient_entries().subrange(0, n as int) =~= self.patient_entries());
        if out.len() == 0 {
            Err(Error::not_found("no patients need donations"))
        } else {
            Ok(out)
        }
    }

    /// Renames a hospital, given its credential.
    pub fn edit_hospital(&mut self, payload: EditHospitalPayload) -> (r: Result<Hospital, Error>)
        requires
            old(self).wf(),
        ensures
            final(self).wf(),
            match old(self).hospital(payload.hospital_id) {
                None => r matches Err(Error::NotFound { .. }) && *final(self) == *old(self),
                Some(h) => if h.password != payload.password@ {
                    r matches Err(Error::Unauthorized { .. }) && *final(self) == *old(self)
                } else {
                    &&& r.is_ok()
                    &&& r->Ok_0@ == (HospitalView { name: payload.name@, ..h })
                    &&& final(self).hospital(payload.hospital_id) == Some(r->Ok_0@)
                    &&& forall|k: u64|
                        k != payload.hospital_id ==> #[trigger] final(self).hospital(k) == old(
                            self,
                        ).hospital(k)
                    &&& final(self).patient_entries() == old(self).patient_entries()
                    &&& final(self).donor_entries() == old(self).donor_entries()
                    &&& final(self).next_id() == old(self).next_id()
                },
            },
    {
        let id = payload.hospital_id;
        let updated = match self.hospitals.get(id) {
            None => return Err(Error::not_found("hospital not found")),
            Some(h) => {
                if !(h.password == payload.password) {
                    return Err(Error::unauthorized("credential does not match"));
                }
                h.with_name(payload.name)
            },
        };
        let result = updated.duplicate();
        self.replace_hospital(id, updated);
        Ok(result)
    }

    /// Sets a patient's target and completion flag, given its credential.
    pub fn edit_patient(&mut self, payload: EditPatientPayload) -> (r: Result<Patient, Error>)
        requires
            old(self).wf(),
        ensures
            final(self).wf(),
            match old(self).patient(payload.patient_id) {
                None => r matches Err(Error::NotFound { .. }) && *final(self) == *old(self),
                Some(p) => if p.password != payload.password@ {
                    r matches Err(Error::Unauthorized { .. }) && *final(self) == *old(self)
                } else {
                    &&& r.is_ok()
                    &&& r->Ok_0@ == (PatientView {
                        needed_pints: payload.needed_pints,
                        is_complete: payload.is_complete,
                        ..p
                    })
                    &&& final(self).patient(payload.patient_id) == Some(r->Ok_0@)
                    &&& forall|k: u64|
                        k != payload.patient_id ==> #[trigger] final(self).patient(k) == old(
                            self,
                        ).patient(k)
                    &&& final(self).hospital_entries() == old(self).hospital_entries()
                    &&& final(self).donor_entries() == old(self).donor_entries()
                    &&& final(self).next_id() == old(self).next_id()
                },
            },
    {
        let id = payload.patient_id;
        let updated = match self.patients.get(id) {
            None => return Err(Error::not_found("patient not found")),
            Some(p) => {
                if !(p.password == payload.password) {
                    return Err(Error::unauthorized("credential does not match"));
                }
                p.with_target(payload.needed_pints, payload.is_complete)
            },
        };
        let result = updated.duplicate();
        self.replace_patient(id, updated);
        Ok(result)
    }

    /// Links a donor to a hospital, given the hospital's credential: the
    /// donor's beneficiaries gain the hospital and the hospital's donors gain
    /// the donor.  Both records are written, or neither.
    pub fn pledge_to_hospital(&mut self, payload: PledgePayload) -> (r: Result<String, Error>)
        requires
            old(self).wf(),
        ensures
            final(self).wf(),
            match old(self).hospital(payload.recipient_id) {
                None => r matches Err(Error::NotFound { .. }) && *final(self) == *old(self),
                Some(h) => if h.password != payload.password@ {
                    r matches Err(Error::Unauthorized { .. }) && *final(self) == *old(self)
                } else {
                    match old(self).donor(payload.donor_id) {
                        None => r matches Err(Error::NotFound { .. }) && *final(self) == *old(
                            self,
                        ),
                        Some(d) => {
                            &&& r.is_ok()
                            &&& r->Ok_0@ == hospital_pledge_message(h.name, h.address)
                            &&& final(self).hospital(payload.recipient_id) == Some(
                                HospitalView { donors_ids: h.donors_ids.push(payload.donor_id), ..h },
                            )
                            &&& final(self).donor(payload.donor_id) == Some(
                                DonorView {
                                    beneficiaries: d.beneficiaries.push(payload.recipient_id),
                                    ..d
                                },
                            )
                            &&& forall|k: u64|
                                k != payload.recipient_id ==> #[trigger] final(self).hospital(k)
                                    == old(self).hospital(k)
                            &&& forall|k: u64|
                                k != payload.donor_id ==> #[trigger] final(self).donor(k) == old(
                                    self,
                                ).donor(k)
                            &&& final(self).patient_entries() == old(self).patient_entries()
                            &&& final(self).next_id() == old(self).next_id()
                        },
                    }
                },
            },
    {
        let hid = payload.recipient_id;
        let did = payload.donor_id;
        let (new_hospital, message) = match self.hospitals.get(hid) {
            None => return Err(Error::not_found("hospital not found")),
            Some(h) => {
                if !(h.password == payload.password) {
                    return Err(Error::unauthorized("credential does not match"));
                }
                let mut message = String::from_str("Successfully pledged to hospital ");
                message.append(h.name.as_str());
                message.append(", visit address: ");
                message.append(h.address.as_str());
                message.append(" to donate");
                (h.with_donor(did), message)
            },
        };
        let new_donor = match self.donors.get(did) {
            None => return Err(Error::not_found("donor not found")),
            Some(d) => d.with_beneficiary(hid),
        };
        let ghost s0 = *self;
        self.replace_donor(did, new_donor);
        let ghost s1 = *self;
        self.replace_hospital(hid, new_hospital);
        assert forall|k: u64| k != did implies #[trigger] self.donor(k) == s0.donor(k) by {
            assert(self.donor(k) == s1.donor(k));
        }
        Ok(message)
    }

    /// Links a donor to a patient, given the patient's credential, and adds
    /// the pledged pints to the patient's donations.  A patient whose
    /// donations already reach the target takes no pledge.  Both records are
    /// written, or neither.
    pub fn pledge_to_patient(&mut self, payload: PledgePayload) -> (r: Result<String, Error>)
        requires
            old(self).wf(),
        ensures
            final(self).wf(),
            match old(self).patient(payload.recipient_id) {
                None => r matches Err(Error::NotFound { .. }) && *final(self) == *old(self),
                Some(p) => if p.password != payload.password@ {
                    r matches Err(Error::Unauthorized { .. }) && *final(self) == *old(self)
                } else {
                    match old(self).donor(payload.donor_id) {
                        None => r matches Err(Error::NotFound { .. }) && *final(self) == *old(
                            self,
                        ),
                        Some(d) => if p.donations >= p.needed_pints || p.donations
                            + payload.pints_pledge > u32::MAX {
                            r matches Err(Error::InvalidPayload { .. }) && *final(self) == *old(
                                self,
                            )
                        } else {
                            &&& r.is_ok()
                            &&& r->Ok_0@ == patient_pledge_message(p.name, p.hospital)
                            &&& final(self).patient(payload.recipient_id) == Some(
                                PatientView {
                                    donations: (p.donations + payload.pints_pledge) as u32,
                                    is_complete: p.donations + payload.pints_pledge
                                        >= p.needed_pints,
                                    donors_ids: p.donors_ids.push(payload.donor_id),
                                    ..p
                                },
                            )
                            &&& final(self).donor(payload.donor_id) == Some(
                                DonorView {
                                    beneficiaries: d.beneficiaries.push(payload.recipient_id),
                                    ..d
                                },
                            )
                            &&& forall|k: u64|
                                k != payload.recipient_id ==> #[trigger] final(self).patient(k)
                                    == old(self).patient(k)
                            &&& forall|k: u64|
                                k != payload.donor_id ==> #[trigger] final(self).donor(k) == old(
                                    self,
                                ).donor(k)
                            &&& final(self).hospital_entries() == old(self).hospital_entries()
                            &&& final(self).next_id() == old(self).next_id()
                        },
                    }
                },
            },
    {
        let pid = payload.recipient_id;
        let did = payload.donor_id;
        let (donations, needed) = match self.patients.get(pid) {
            None => return Err(Error::not_found("patient not found")),
            Some(p) => {
                if !(p.password == payload.password) {
                    return Err(Error::unauthorized("credential does not match"));
                }
                (p.donations, p.needed_pints)
            },
        };
        let new_donor = match self.donors.get(did) {
            None => return Err(Error::not_found("donor not found")),
            Some(d) => d.with_beneficiary(pid),
        };
        if donations >= needed {
            return Err(Error::invalid_payload("patient has already reached the donation target"));
        }
        if payload.pints_pledge > u32::MAX - donations {
            return Err(Error::invalid_payload("pledge would overflow the donation count"));
        }
        let (new_patient, message) = match self.patients.get(pid) {
            None => return Err(Error::not_found("patient not found")),
            Some(p) => {
                let mut message = String::from_str("Successfully pledged to patient ");
                message.append(p.name.as_str());
                message.append(", visit hospital: ");
                message.append(p.hospital.as_str());
                message.append(" to donate");
                (p.with_pledge(did, payload.pints_pledge), message)
            },
        };
        let ghost s0 = *self;
        self.replace_donor(did, new_donor);
        let ghost s1 = *self;
        self.replace_patient(pid, new_patient);
        assert forall|k: u64| k != did implies #[trigger] self.donor(k) == s0.donor(k) by {
            assert(self.donor(k) == s1.donor(k));
        }
        Ok(message)
    }

    /// Overwrites the hospital stored under `k`.
    fn replace_hospital(&mut self, k: u64, h: Hospital)
        requires
            old(self).wf(),
            old(self).hospital(k).is_some(),
            h.id == k,
        ensures
            final(self).wf(),
            final(self).hospital(k) == Some(h@),
            forall|j: u64| j != k ==> #[trigger] final(self).hospital(j) == old(self).hospital(j),
            final(self).patient_entries() == old(self).patient_entries(),
            final(self).donor_entries() == old(self).donor_entries(),
            final(self).next_id() == old(self).next_id(),
    {
        let ghost before = *self;
        let ghost s0 = self.hospitals@;
        let ghost hv = h;
        let _prev = self.hospitals.upsert(k, h);
        proof {
            let s1 = self.hospitals@;
            let i = choose|i: int| 0 <= i < s0.len() && s0[i].0 == k && s1 == s0.update(i, (k, hv));
            assert forall|j: int| 0 <= j < s1.len() implies #[trigger] s1[j].0 == s0[j].0 by {}
            assert forall|j: u64| j != k implies #[trigger] self.hospital(j) == before.hospital(j) by {
                assert(self.hospitals.spec_get(j) == before.hospitals.spec_get(j));
            }
        }
    }

    /// Overwrites the patient stored under `k`.
    fn replace_patient(&mut self, k: u64, p: Patient)
        requires
            old(self).wf(),
            old(self).patient(k).is_some(),
            p.id == k,
        ensures
            final(self).wf(),
            final(self).patient(k) == Some(p@),
            forall|j: u64| j != k ==> #[trigger] final(self).patient(j) == old(self).patient(j),
            final(self).hospital_entries() == old(self).hospital_entries(),
            final(self).donor_entries() == old(self).donor_entries(),
            final(self).next_id() == old(self).next_id(),
    {
        let ghost before = *self;
        let ghost s0 = self.patients@;
        let ghost pv = p;
        let _prev = self.patients.upsert(k, p);
        proof {
            let s1 = self.patients@;
            let i = choose|i: int| 0 <= i < s0.len() && s0[i].0 == k && s1 == s0.update(i, (k, pv));
            assert forall|j: int| 0 <= j < s1.len() implies #[trigger] s1[j].0 == s0[j].0 by {}
            assert forall|j: u64| j != k implies #[trigger] self.patient(j) == before.patient(j) by {
                assert(self.patients.spec_get(j) == before.patients.spec_get(j));
            }
        }
    }

    /// Overwrites the donor stored under `k`.
    fn replace_donor(&mut self, k: u64, d: Donor)
        requires
            old(self).wf(),
            old(self).donor(k).is_some(),
            d.id == k,
        ensures
            final(self).wf(),
            final(self).donor(k) == Some(d@),
            forall|j: u64| j != k ==> #[trigger] final(self).donor(j) == old(self).donor(j),
            final(self).hospital_entries() == old(self).hospital_entries(),
            final(self).patient_entries() == old(self).patient_entries(),
            final(self).next_id() == old(self).next_id(),
    {
        let ghost before = *self;
        let ghost s0 = self.donors@;
        let ghost dv = d;
        let _prev = self.donors.upsert(k, d);
        proof {
            let s1 = self.donors@;
            let i = choose|i: int| 0 <= i < s0.len() && s0[i].0 == k && s1 == s0.update(i, (k, dv));
            assert forall|j: int| 0 <= j < s1.len() implies #[trigger] s1[j].0 == s0[j].0 by {}
            assert forall|j: u64| j != k implies #[trigger] self.donor(j) == before.donor(j) by {
                assert(self.donors.spec_get(j) == before.donors.spec_get(j));
            }
        }
    }
}

/// The identifier that the next successful add receives (each add returns
/// the counter and advances it) is greater than every identifier held in any
/// store, and within each store identifiers grow along the scan order.  So
/// the identifiers that a run of adds returns are unique across all three
/// kinds of record and strictly increasing.
pub proof fn lemma_next_id_fresh(r: Registry)
    requires
        r.wf(),
    ensures
        forall|k: u64| #[trigger] has_key(r.hospital_entries(), k) ==> k < r.next_id(),
        forall|k: u64| #[trigger] has_key(r.patient_entries(), k) ==> k < r.next_id(),
        forall|k: u64| #[trigger] has_key(r.donor_entries(), k) ==> k < r.next_id(),
        keys_increasing(r.hospital_entries()),
        keys_increasing(r.patient_entries()),
        keys_increasing(r.donor_entries()),
        forall|k: u64|
            !(#[trigger] has_key(r.hospital_entries(), k) && has_key(r.patient_entries(), k)),
        forall|k: u64|
            !(#[trigger] has_key(r.hospital_entries(), k) && has_key(r.donor_entries(), k)),
        forall|k: u64|
            !(#[trigger] has_key(r.patient_entries(), k) && has_key(r.donor_entries(), k)),
{
}

/// A query that lower-cases to nothing answers every hospital, so a
/// non-empty store has a hit.
proof fn lemma_empty_query_hits(s: Seq<(u64, Hospital)>, q: Seq<char>)
    requires
        lower_of(q).len() == 0,
        s.len() > 0,
    ensures
        search_hits(s, q).len() > 0,
{
    let city = lower_of(s.last().1@.city);
    assert(city.subrange(0, 0 + lower_of(q).len() as int) =~= lower_of(q));
}

/// Every hospital that a search returns carries the mask as its credential.
pub proof fn lemma_search_hits_masked(s: Seq<(u64, Hospital)>, q: Seq<char>)
    ensures
        forall|i: int|
            0 <= i < search_hits(s, q).len() ==> (#[trigger] search_hits(s, q)[i]).password
                == mask(),
    decreases s.len(),
{
    if s.len() > 0 {
        let rest = search_hits(s.drop_last(), q);
        lemma_search_hits_masked(s.drop_last(), q);
        assert forall|i: int| 0 <= i < search_hits(s, q).len() implies (#[trigger] search_hits(
            s,
            q,
        )[i]).password == mask() by {
            if i < rest.len() {
                assert(rest[i].password == mask());
            }
        }
    }
}

/// Every patient in the list of incomplete ones carries the mask as its credential.
pub proof fn lemma_incomplete_patients_masked(s: Seq<(u64, Patient)>)
    ensures
        forall|i: int|
            0 <= i < incomplete_patients(s).len() ==> (#[trigger] incomplete_patients(s)[i]).password
                == mask(),
    decreases s.len(),
{
    if s.len() > 0 {
        let rest = incomplete_patients(s.drop_last());
        lemma_incomplete_patients_masked(s.drop_last());
        assert forall|i: int| 0 <= i < incomplete_patients(s).len() implies (
        #[trigger] incomplete_patients(s)[i]).password == mask() by {
            if i < rest.len() {
                assert(rest[i].password == mask());
            }
        }
    }
}

} // verus!
