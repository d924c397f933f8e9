use vstd::prelude::*;

verus! {

/// One emission claim for a company or a product.
#[derive(Clone, Debug, PartialEq, Eq)]
pub struct CarbonRecord {
    pub entity_id: u64,
    pub entity_name: String,
    /// "Company" or "Product".
    pub entity_type: String,
    /// In kilograms of CO2.
    pub carbon_emission: i128,
    pub verification_status: bool,
    pub timestamp: u64,
}

/// Aggregate figures over every record of the ledger.
#[derive(Clone, Copy, Debug, PartialEq, Eq, Structural)]
pub struct PlatformStats {
    pub total_records: u64,
    pub verified_records: u64,
    pub total_emissions_tracked: i128,
    pub company_count: u64,
    pub product_count: u64,
}

/// Storage key of a record, by its entity id.
#[derive(Clone, Copy, Debug, PartialEq, Eq, Structural, Hash)]
pub enum RecordBook {
    Record(u64),
}

/// Why a ledger operation was rejected.
#[derive(Clone, Copy, Debug, PartialEq, Eq, Structural)]
pub enum LedgerError {
    /// An emission value below zero.
    NegativeEmission,
    /// An entity type other than "Company" or "Product".
    InvalidEntityType,
    /// A record that is verified already.
    AlreadyVerified,
    /// No record has the given entity id.
    NotFound,
}

pub open spec fn company_type() -> Seq<char> {
    "Company"@
}

pub open spec fn product_type() -> Seq<char> {
    "Product"@
}

/// The two entity types are different strings.
pub proof fn lemma_entity_types_differ()
    ensures
        company_type() != product_type(),
{
    reveal_strlit("Company");
    reveal_strlit("Product");
    assert(company_type()[0] != product_type()[0]);
}

/// Whether `t` is one of the two accepted entity types.
pub open spec fn is_entity_type(t: Seq<char>) -> bool {
    t == company_type() || t == product_type()
}

pub open spec fn not_found_name() -> Seq<char> {
    "Not_Found"@
}

/// Whether `r` is the record that a lookup of an unknown entity id returns.
pub open spec fn is_not_found_record(r: CarbonRecord) -> bool {
    &&& r.entity_id == 0
    &&& r.entity_name@ == not_found_name()
    &&& r.entity_type@ == not_found_name()
    &&& r.carbon_emission == 0
    &&& !r.verification_status
    &&& r.timestamp == 0
}

/// The statistics of an empty ledger.
pub open spec fn zero_stats() -> PlatformStats {
    PlatformStats {
        total_records: 0,
        verified_records: 0,
        total_emissions_tracked: 0,
        company_count: 0,
        product_count: 0,
    }
}

/// The sum of `f` over the records of `s`.
pub open spec fn total(s: Seq<CarbonRecord>, f: spec_fn(CarbonRecord) -> int) -> int
    decreases s.len(),
{
    if s.len() == 0 {
        0
    } else {
        total(s.drop_last(), f) + f(s.last())
    }
}

/// A record's emission.
pub open spec fn emission_of() -> spec_fn(CarbonRecord) -> int {
    |r: CarbonRecord| r.carbon_emission as int
}

/// 1 for a verified record, else 0.
pub open spec fn verified_of() -> spec_fn(CarbonRecord) -> int {
    |r: CarbonRecord| if r.verification_status { 1int } else { 0int }
}

/// 1 for a record of entity type `t`, else 0.
pub open spec fn of_type(t: Seq<char>) -> spec_fn(CarbonRecord) -> int {
    |r: CarbonRecord| if r.entity_type@ == t { 1int } else { 0int }
}

/// The sum of the current emissions of all records in `s`.
pub open spec fn emission_sum(s: Seq<CarbonRecord>) -> int {
    total(s, emission_of())
}

/// How many records of `s` are verified.
pub open spec fn verified_count(s: Seq<CarbonRecord>) -> int {
    total(s, verified_of())
}

/// How many records of `s` are of entity type `t`.
pub open spec fn type_count(s: Seq<CarbonRecord>, t: Seq<char>) -> int {
    total(s, of_type(t))
}

pub proof fn lemma_total_push(s: Seq<CarbonRecord>, f: spec_fn(CarbonRecord) -> int, r: CarbonRecord)
    ensures
        total(s.push(r), f) == total(s, f) + f(r),
{
    assert(s.push(r).drop_last() =~= s);
}

pub proof fn lemma_total_update(
    s: Seq<CarbonRecord>,
    f: spec_fn(CarbonRecord) -> int,
    i: int,
    r: CarbonRecord,
)
    requires
        0 <= i < s.len(),
    ensures
        total(s.update(i, r), f) == total(s, f) - f(s[i]) + f(r),
    decreases s.len(),
{
    let u = s.update(i, r);
    if i == s.len() - 1 {
        assert(u.drop_last() =~= s.drop_last());
    } else {
        assert(u.drop_last() =~= s.drop_last().update(i, r));
        lemma_total_update(s.drop_last(), f, i, r);
    }
}

/// A sum of values within `[0, 1]` lies within `[0, len]`.
pub proof fn lemma_total_bounds(s: Seq<CarbonRecord>, f: spec_fn(CarbonRecord) -> int)
    requires
        forall|i: int| 0 <= i < s.len() ==> 0 <= #[trigger] f(s[i]) <= 1,
    ensures
        0 <= total(s, f) <= s.len(),
    decreases s.len(),
{
    if s.len() > 0 {
        let t = s.drop_last();
        assert forall|i: int| 0 <= i < t.len() implies 0 <= #[trigger] f(t[i]) <= 1 by {
            assert(t[i] == s[i]);
        }
        lemma_total_bounds(t, f);
        assert(0 <= f(s[s.len() - 1]) <= 1);
    }
}

/// A sum of nonnegative emissions is nonnegative.
pub proof fn lemma_emission_sum_nonnegative(s: Seq<CarbonRecord>)
    requires
        forall|i: int| 0 <= i < s.len() ==> #[trigger] s[i].carbon_emission >= 0,
    ensures
        emission_sum(s) >= 0,
    decreases s.len(),
{
    if s.len() > 0 {
        let t = s.drop_last();
        assert forall|i: int| 0 <= i < t.len() implies #[trigger] t[i].carbon_emission >= 0 by {
            assert(t[i] == s[i]);
        }
        lemma_emission_sum_nonnegative(t);
        assert(s[s.len() - 1].carbon_emission >= 0);
    }
}

/// Where every record is a company or a product, the two type counts add up
/// to the number of records.
pub proof fn lemma_type_counts_cover(s: Seq<CarbonRecord>)
    requires
        forall|i: int| 0 <= i < s.len() ==> is_entity_type(#[trigger] s[i].entity_type@),
    ensures
        type_count(s, company_type()) + type_count(s, product_type()) == s.len(),
    decreases s.len(),
{
    if s.len() > 0 {
        let t = s.drop_last();
        assert forall|i: int| 0 <= i < t.len() implies is_entity_type(
            #[trigger] t[i].entity_type@,
        ) by {
            assert(t[i] == s[i]);
        }
        lemma_type_counts_cover(t);
        lemma_entity_types_differ();
        assert(is_entity_type(s[s.len() - 1].entity_type@));
    }
}

/// Over nonnegative emissions, a prefix never sums to more than the whole.
pub proof fn lemma_emission_sum_prefix(s: Seq<CarbonRecord>, i: int)
    requires
        0 <= i <= s.len(),
        forall|j: int| 0 <= j < s.len() ==> #[trigger] s[j].carbon_emission >= 0,
    ensures
        emission_sum(s.take(i)) <= emission_sum(s),
    decreases s.len(),
{
    if i == s.len() {
        assert(s.take(i) =~= s);
    } else {
        let t = s.drop_last();
        assert forall|j: int| 0 <= j < t.len() implies #[trigger] t[j].carbon_emission >= 0 by {
            assert(t[j] == s[j]);
        }
        lemma_emission_sum_prefix(t, i);
        assert(t.take(i) =~= s.take(i));
        assert(s[s.len() - 1].carbon_emission >= 0);
    }
}

impl CarbonRecord {
    /// A copy of this record.
    pub fn clone_record(&self) -> (r: CarbonRecord)
        ensures
            r == *self,
    {
        CarbonRecord {
            entity_id: self.entity_id,
            entity_name: self.entity_name.clone(),
            entity_type: self.entity_type.clone(),
            carbon_emission: self.carbon_emission,
            verification_status: self.verification_status,
            timestamp: self.timestamp,
        }
    }
}

} // verus!
