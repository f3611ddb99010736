//! The manufacturer key registry: governance-owned data that the verifier
//! reads and never mutates.

use vstd::prelude::*;

verus! {

/// One manufacturer (hardware-class) entry: its verification key and the
/// allow-listed measurement for that hardware class.
pub struct ManufacturerRecord {
    pub id: u32,
    pub key: Vec<u8>,
    pub measurement: Vec<u8>,
}

impl ManufacturerRecord {
    /// Keys and measurements are 32 bytes.
    pub open spec fn wf(&self) -> bool {
        self.key@.len() == 32 && self.measurement@.len() == 32
    }
}

/// The mathematical form of a manufacturer entry.
#[verifier::ext_equal]
pub struct ManufacturerModel {
    pub key: Seq<u8>,
    pub measurement: Seq<u8>,
}

/// The model of a record.
pub open spec fn manufacturer_model(r: ManufacturerRecord) -> ManufacturerModel {
    ManufacturerModel { key: r.key@, measurement: r.measurement@ }
}

/// Whether some record in `s` carries `id`; the first such record governs.
pub open spec fn registry_contains(s: Seq<ManufacturerRecord>, id: u32) -> bool
    decreases s.len(),
{
    if s.len() == 0 {
        false
    } else if s[0].id == id {
        true
    } else {
        registry_contains(s.subrange(1, s.len() as int), id)
    }
}

/// The model of the first record in `s` that carries `id`.
pub open spec fn registry_record(s: Seq<ManufacturerRecord>, id: u32) -> ManufacturerModel
    recommends
        registry_contains(s, id),
    decreases s.len(),
{
    if s.len() == 0 {
        arbitrary()
    } else if s[0].id == id {
        manufacturer_model(s[0])
    } else {
        registry_record(s.subrange(1, s.len() as int), id)
    }
}

/// The registry as a map from manufacturer identifier to entry model.
pub open spec fn registry_map(s: Seq<ManufacturerRecord>) -> Map<u32, ManufacturerModel> {
    Map::new(|id: u32| registry_contains(s, id), |id: u32| registry_record(s, id))
}

/// When every record is well formed, so is the entry that governs `id`.
pub proof fn lemma_registry_record_wf(s: Seq<ManufacturerRecord>, id: u32)
    requires
        forall|i: int| 0 <= i < s.len() ==> (#[trigger] s[i]).wf(),
        registry_contains(s, id),
    ensures
        registry_record(s, id).key.len() == 32,
        registry_record(s, id).measurement.len() == 32,
    decreases s.len(),
{
    if s.len() > 0 && s[0].id != id {
        let s1 = s.subrange(1, s.len() as int);
        assert(forall|i: int| 0 <= i < s1.len() ==> s1[i] == s[i + 1]);
        lemma_registry_record_wf(s1, id);
    }
}

/// Finds the record that governs `id`, if any.
pub fn find_manufacturer(records: &Vec<ManufacturerRecord>, id: u32) -> (r: Option<
    &ManufacturerRecord,
>)
    ensures
        r is Some <==> registry_contains(records@, id),
        r is Some ==> r->0.id == id && manufacturer_model(*r->0) == registry_record(records@, id),
{
    let n = records.len();
    let mut i: usize = 0;
    proof {
        assert(records@.skip(0) =~= records@);
    }
    while i < n
        invariant
            i <= n,
            n == records@.len(),
            registry_contains(records@, id) == registry_contains(records@.skip(i as int), id),
            registry_contains(records@, id) ==> registry_record(records@, id) == registry_record(
                records@.skip(i as int),
                id,
            ),
        decreases n - i,
    {
        let rec = &records[i];
        if rec.id == id {
            proof {
                let t = records@.skip(i as int);
                assert(t[0] == records@[i as int]);
            }
            return Some(rec);
        }
        proof {
            let t = records@.skip(i as int);
            assert(t[0] == records@[i as int]);
            assert(t.subrange(1, t.len() as int) =~= records@.skip(i as int + 1));
        }
        i += 1;
    }
    proof {
        assert(records@.skip(n as int) =~= Seq::<ManufacturerRecord>::empty());
    }
    None
}

} // verus!
