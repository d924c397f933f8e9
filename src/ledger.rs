use vstd::prelude::*;

use crate::record::{
    company_type, emission_of, lemma_entity_types_differ, emission_sum, of_type, verified_of, is_entity_type, is_not_found_record, lemma_total_bounds,
    lemma_total_push, lemma_emission_sum_nonnegative, lemma_type_counts_cover, lemma_emission_sum_prefix, lemma_total_update, product_type, type_count, verified_count, zero_stats,
    CarbonRecord, LedgerError, PlatformStats,
};

verus! {

/// The whole state of the ledger: every record ever registered, in order of
/// registration, and the statistics kept alongside them.
///
/// The record with entity id `n` sits at position `n - 1`, so ids are handed
/// out one after another from 1, and 0 never names a record.
pub struct GreenScoreLedger {
    records: Vec<CarbonRecord>,
    stats: PlatformStats,
}

/// Whether `stats` is what a full recount over `s` gives.
pub open spec fn stats_match(stats: PlatformStats, s: Seq<CarbonRecord>) -> bool {
    &&& stats.total_records == s.len()
    &&& stats.verified_records == verified_count(s)
    &&& stats.total_emissions_tracked == emission_sum(s)
    &&& stats.company_count == type_count(s, company_type())
    &&& stats.product_count == type_count(s, product_type())
}

/// Whether `r` may stand at position `i` of the ledger.
pub open spec fn record_at_ok(r: CarbonRecord, i: int) -> bool {
    &&& r.entity_id == i + 1
    &&& r.carbon_emission >= 0
    &&& is_entity_type(r.entity_type@)
}

/// Whether `id` names a record of `s`.
pub open spec fn has_record(s: Seq<CarbonRecord>, id: u64) -> bool {
    1 <= id <= s.len()
}

/// The position of the record with entity id `id`.
pub open spec fn slot(id: u64) -> int {
    id - 1
}

impl GreenScoreLedger {
    /// The records, in order of registration.
    pub closed spec fn records(&self) -> Seq<CarbonRecord> {
        self.records@
    }

    /// The statistics as stored.
    pub closed spec fn stats(&self) -> PlatformStats {
        self.stats
    }

    /// Each record sits at the position its entity id names, with a
    /// nonnegative emission and an accepted type, and the statistics equal a
    /// recount over the records.
    pub closed spec fn wf(&self) -> bool {
        &&& forall|i: int| 0 <= i < self.records@.len() ==> record_at_ok(#[trigger] self.records@[i], i)
        &&& stats_match(self.stats, self.records@)
    }

    /// An empty ledger.
    pub fn new() -> (r: Self)
        ensures
            r.wf(),
            r.records() == Seq::<CarbonRecord>::empty(),
            r.stats() == zero_stats(),
    {
        let r = GreenScoreLedger {
            records: Vec::new(),
            stats: PlatformStats {
                total_records: 0,
                verified_records: 0,
                total_emissions_tracked: 0,
                company_count: 0,
                product_count: 0,
            },
        };
        assert(r.records@ =~= Seq::<CarbonRecord>::empty());
        r
    }

    /// Rebuilds a ledger from its records, recounting the statistics.
    ///
    /// Gives `None` unless the records carry the entity ids 1, 2, 3, ... in
    /// order, each has a nonnegative emission and the type "Company" or
    /// "Product", and their emissions sum to a value that fits in `i128`.
    pub fn from_records(records: Vec<CarbonRecord>) -> (r: Option<Self>)
        ensures
            r is Some <==> (forall|i: int|
                0 <= i < records@.len() ==> record_at_ok(#[trigger] records@[i], i))
                && emission_sum(records@) <= i128::MAX,
            r matches Some(l) ==> l.wf() && l.records() == records@ && stats_match(
                l.stats(),
                records@,
            ),
    {
        let company = "Company".to_owned();
        let product = "Product".to_owned();
        let mut stats = PlatformStats {
            total_records: 0,
            verified_records: 0,
            total_emissions_tracked: 0,
            company_count: 0,
            product_count: 0,
        };
        let ghost s = records@;
        let mut i: usize = 0;
        while i < records.len()
            invariant
                s == records@,
                0 <= i <= s.len(),
                company@ == company_type(),
                product@ == product_type(),
                forall|j: int| 0 <= j < i ==> record_at_ok(#[trigger] s[j], j),
                stats_match(stats, s.take(i as int)),
            decreases s.len() - i,
        {
            let ghost t = s.take(i as int);
            let record = &records[i];
            assert(s.take(i + 1) =~= t.push(*record));
            if record.entity_id != i as u64 + 1 || record.carbon_emission < 0 {
                return None;
            }
            let is_company = record.entity_type == company;
            let is_product = record.entity_type == product;
            if !is_company && !is_product {
                return None;
            }
            proof {
                lemma_emission_sum_nonnegative(t);
                lemma_total_push(t, emission_of(), *record);
                lemma_total_push(t, verified_of(), *record);
                lemma_total_push(t, of_type(company_type()), *record);
                lemma_total_push(t, of_type(product_type()), *record);
                lemma_entity_types_differ();
                lemma_total_bounds(t, verified_of());
                lemma_total_bounds(t, of_type(company_type()));
                lemma_total_bounds(t, of_type(product_type()));
            }
            if record.carbon_emission > i128::MAX - stats.total_emissions_tracked {
                proof {
                    if forall|j: int| 0 <= j < s.len() ==> record_at_ok(#[trigger] s[j], j) {
                        assert forall|j: int| 0 <= j < s.len() implies #[trigger] s[j].carbon_emission
                            >= 0 by {
                            assert(record_at_ok(s[j], j));
                        }
                        lemma_emission_sum_prefix(s, i + 1);
                    }
                }
                return None;
            }
            stats.total_records = stats.total_records + 1;
            stats.total_emissions_tracked = stats.total_emissions_tracked + record.carbon_emission;
            if record.verification_status {
                stats.verified_records = stats.verified_records + 1;
            }
            if is_company {
                stats.company_count = stats.company_count + 1;
            } else {
                stats.product_count = stats.product_count + 1;
            }
            i = i + 1;
        }
        assert(s.take(s.len() as int) =~= s);
        Some(GreenScoreLedger { records, stats })
    }

    /// The platform statistics; all zero on an empty ledger.
    pub fn get_platform_stats(&self) -> (r: PlatformStats)
        ensures
            r == self.stats(),
    {
        self.stats
    }

    /// Registers a claim of `carbon_emission` for an entity and returns the
    /// new record's entity id.
    ///
    /// A negative emission is rejected first, then an entity type other than
    /// "Company" or "Product"; a rejected call changes nothing.
    pub fn register_carbon_record(
        &mut self,
        entity_name: String,
        entity_type: String,
        carbon_emission: i128,
        timestamp: u64,
    ) -> (r: Result<u64, LedgerError>)
        requires
            old(self).wf(),
            old(self).stats().total_records < u64::MAX,
            old(self).stats().total_emissions_tracked + carbon_emission <= i128::MAX,
        ensures
            final(self).wf(),
            carbon_emission < 0 ==> r == Err::<u64, LedgerError>(LedgerError::NegativeEmission),
            carbon_emission >= 0 && !is_entity_type(entity_type@) ==> r == Err::<u64, LedgerError>(
                LedgerError::InvalidEntityType,
            ),
            r is Err ==> *final(self) == *old(self),
            carbon_emission >= 0 && is_entity_type(entity_type@) ==> {
                let id = old(self).records().len() + 1;
                &&& r == Ok::<u64, LedgerError>(id as u64)
                &&& final(self).records() == old(self).records().push(
                    (CarbonRecord {
                        entity_id: id as u64,
                        entity_name,
                        entity_type,
                        carbon_emission,
                        verification_status: false,
                        timestamp,
                    }),
                )
                &&& final(self).stats() == (PlatformStats {
                    total_records: (old(self).stats().total_records + 1) as u64,
                    total_emissions_tracked: (old(self).stats().total_emissions_tracked
                        + carbon_emission) as i128,
                    company_count: if entity_type@ == company_type() {
                        (old(self).stats().company_count + 1) as u64
                    } else {
                        old(self).stats().company_count
                    },
                    product_count: if entity_type@ == product_type() {
                        (old(self).stats().product_count + 1) as u64
                    } else {
                        old(self).stats().product_count
                    },
                    ..old(self).stats()
                })
            },
    {
        if carbon_emission < 0 {
            return Err(LedgerError::NegativeEmission);
        }
        let company = "Company".to_owned();
        let product = "Product".to_owned();
        let is_company = entity_type == company;
        if !is_company && entity_type != product {
            return Err(LedgerError::InvalidEntityType);
        }
        let ghost s0 = self.records@;
        let entity_id: u64 = self.stats.total_records + 1;
        let record = CarbonRecord {
            entity_id,
            entity_name,
            entity_type,
            carbon_emission,
            verification_status: false,
            timestamp,
        };
        proof {
            lemma_entity_types_differ();
            lemma_total_bounds(s0, of_type(company_type()));
            lemma_total_bounds(s0, of_type(product_type()));
            lemma_total_push(s0, emission_of(), record);
            lemma_total_push(s0, verified_of(), record);
            lemma_total_push(s0, of_type(company_type()), record);
            lemma_total_push(s0, of_type(product_type()), record);
        }
        self.stats.total_records = entity_id;
        self.stats.total_emissions_tracked = self.stats.total_emissions_tracked + carbon_emission;
        if is_company {
            self.stats.company_count = self.stats.company_count + 1;
        } else {
            self.stats.product_count = self.stats.product_count + 1;
        }
        self.records.push(record);
        proof {
            assert(self.records@ == s0.push(record));
            assert forall|i: int| 0 <= i < self.records@.len() implies record_at_ok(
                #[trigger] self.records@[i],
                i,
            ) by {
                if i < s0.len() {
                    assert(self.records@[i] == s0[i]);
                }
            }
        }
        Ok(entity_id)
    }

    /// The position in `records` of the record with entity id `entity_id`,
    /// if there is one.
    fn find_slot(&self, entity_id: u64) -> (r: Option<usize>)
        requires
            self.wf(),
        ensures
            has_record(self.records(), entity_id) ==> r is Some && r->0 as int == slot(entity_id),
            !has_record(self.records(), entity_id) ==> r is None,
    {
        if entity_id == 0 || entity_id > self.records.len() as u64 {
            None
        } else {
            Some((entity_id - 1) as usize)
        }
    }

    /// Marks the record with entity id `entity_id` as verified.
    ///
    /// Fails with `NotFound` where no record has that id, and with
    /// `AlreadyVerified` where the record is verified already; a failed call
    /// changes nothing. Emission totals and type counts stay as they are.
    pub fn verify_carbon_record(&mut self, entity_id: u64) -> (r: Result<(), LedgerError>)
        requires
            old(self).wf(),
        ensures
            final(self).wf(),
            !has_record(old(self).records(), entity_id) ==> r == Err::<(), LedgerError>(
                LedgerError::NotFound,
            ),
            has_record(old(self).records(), entity_id) && old(self).records()[slot(
                entity_id,
            )].verification_status ==> r == Err::<(), LedgerError>(LedgerError::AlreadyVerified),
            r is Err ==> *final(self) == *old(self),
            has_record(old(self).records(), entity_id) && !old(self).records()[slot(
                entity_id,
            )].verification_status ==> {
                let old_rec = old(self).records()[slot(entity_id)];
                &&& r == Ok::<(), LedgerError>(())
                &&& final(self).records() == old(self).records().update(
                    slot(entity_id),
                    (CarbonRecord { verification_status: true, ..old_rec }),
                )
                &&& final(self).stats() == (PlatformStats {
                    verified_records: (old(self).stats().verified_records + 1) as u64,
                    ..old(self).stats()
                })
            },
    {
        let i = match self.find_slot(entity_id) {
            Some(i) => i,
            None => {
                return Err(LedgerError::NotFound);
            },
        };
        if self.records[i].verification_status {
            return Err(LedgerError::AlreadyVerified);
        }
        let ghost s0 = self.records@;
        let record = CarbonRecord {
            entity_id: self.records[i].entity_id,
            entity_name: self.records[i].entity_name.clone(),
            entity_type: self.records[i].entity_type.clone(),
            carbon_emission: self.records[i].carbon_emission,
            verification_status: true,
            timestamp: self.records[i].timestamp,
        };
        proof {
            lemma_total_update(s0, emission_of(), i as int, record);
            lemma_total_update(s0, verified_of(), i as int, record);
            lemma_total_update(s0, of_type(company_type()), i as int, record);
            lemma_total_update(s0, of_type(product_type()), i as int, record);
            lemma_total_bounds(s0.update(i as int, record), verified_of());
        }
        self.stats.verified_records = self.stats.verified_records + 1;
        self.records.set(i, record);
        proof {
            assert forall|j: int| 0 <= j < self.records@.len() implies record_at_ok(
                #[trigger] self.records@[j],
                j,
            ) by {
                if j != i {
                    assert(self.records@[j] == s0[j]);
                }
            }
        }
        Ok(())
    }

    /// Sets the emission of the record with entity id `entity_id` to
    /// `new_emission`, stamps it with `timestamp` and clears its verification.
    ///
    /// A negative emission is rejected first (`NegativeEmission`), then an
    /// unknown id (`NotFound`); a failed call changes nothing. The emission
    /// total moves by the difference, and the verified count drops by one
    /// where the record was verified.
    pub fn update_carbon_emission(
        &mut self,
        entity_id: u64,
        new_emission: i128,
        timestamp: u64,
    ) -> (r: Result<(), LedgerError>)
        requires
            old(self).wf(),
            new_emission >= 0 && has_record(old(self).records(), entity_id) ==> old(
                self,
            ).stats().total_emissions_tracked - old(self).records()[slot(
                entity_id,
            )].carbon_emission + new_emission <= i128::MAX,
        ensures
            final(self).wf(),
            new_emission < 0 ==> r == Err::<(), LedgerError>(LedgerError::NegativeEmission),
            new_emission >= 0 && !has_record(old(self).records(), entity_id) ==> r == Err::<
                (),
                LedgerError,
            >(LedgerError::NotFound),
            r is Err ==> *final(self) == *old(self),
            new_emission >= 0 && has_record(old(self).records(), entity_id) ==> {
                let old_rec = old(self).records()[slot(entity_id)];
                &&& r == Ok::<(), LedgerError>(())
                &&& final(self).records() == old(self).records().update(
                    slot(entity_id),
                    (CarbonRecord {
                        carbon_emission: new_emission,
                        verification_status: false,
                        timestamp,
                        ..old_rec
                    }),
                )
                &&& final(self).stats() == (PlatformStats {
                    verified_records: if old_rec.verification_status {
                        (old(self).stats().verified_records - 1) as u64
                    } else {
                        old(self).stats().verified_records
                    },
                    total_emissions_tracked: (old(self).stats().total_emissions_tracked
                        - old_rec.carbon_emission + new_emission) as i128,
                    ..old(self).stats()
                })
            },
    {
        if new_emission < 0 {
            return Err(LedgerError::NegativeEmission);
        }
        let i = match self.find_slot(entity_id) {
            Some(i) => i,
            None => {
                return Err(LedgerError::NotFound);
            },
        };
        let ghost s0 = self.records@;
        let emission_difference: i128 = new_emission - self.records[i].carbon_emission;
        let was_verified = self.records[i].verification_status;
        let record = CarbonRecord {
            entity_id: self.records[i].entity_id,
            entity_name: self.records[i].entity_name.clone(),
            entity_type: self.records[i].entity_type.clone(),
            carbon_emission: new_emission,
            verification_status: false,
            timestamp,
        };
        proof {
            lemma_total_update(s0, emission_of(), i as int, record);
            lemma_total_update(s0, verified_of(), i as int, record);
            lemma_total_update(s0, of_type(company_type()), i as int, record);
            lemma_total_update(s0, of_type(product_type()), i as int, record);
            lemma_total_bounds(s0.update(i as int, record), verified_of());
            lemma_emission_sum_nonnegative(s0.update(i as int, record));
        }
        self.stats.total_emissions_tracked = self.stats.total_emissions_tracked
            + emission_difference;
        if was_verified {
            self.stats.verified_records = self.stats.verified_records - 1;
        }
        self.records.set(i, record);
        proof {
            assert forall|j: int| 0 <= j < self.records@.len() implies record_at_ok(
                #[trigger] self.records@[j],
                j,
            ) by {
                if j != i {
                    assert(self.records@[j] == s0[j]);
                }
            }
        }
        Ok(())
    }

    /// The record with entity id `entity_id`, or, where there is none, a
    /// record with entity id 0, both names "Not_Found" and every other field
    /// zero or false.
    pub fn get_carbon_record(&self, entity_id: u64) -> (r: CarbonRecord)
        requires
            self.wf(),
        ensures
            has_record(self.records(), entity_id) ==> r == self.records()[slot(entity_id)],
            !has_record(self.records(), entity_id) ==> is_not_found_record(r),
    {
        match self.find_slot(entity_id) {
            Some(i) => self.records[i].clone_record(),
            None => CarbonRecord {
                entity_id: 0,
                entity_name: "Not_Found".to_owned(),
                entity_type: "Not_Found".to_owned(),
                carbon_emission: 0,
                verification_status: false,
                timestamp: 0,
            },
        }
    }
}

/// The statistics always equal a full recount over the current records: the
/// number of records, how many are verified, the sum of their current
/// emissions, and how many are companies and how many products.
pub proof fn lemma_stats_recount(ledger: &GreenScoreLedger)
    requires
        ledger.wf(),
    ensures
        stats_match(ledger.stats(), ledger.records()),
        ledger.stats().total_emissions_tracked == emission_sum(ledger.records()),
{
}

/// Every registration adds one record and nothing removes one, so the record
/// count is the number of successful registrations; and each record is a
/// company or a product, so the two type counts add up to it.
pub proof fn lemma_record_counts(ledger: &GreenScoreLedger)
    requires
        ledger.wf(),
    ensures
        ledger.stats().total_records == ledger.records().len(),
        ledger.stats().company_count + ledger.stats().product_count
            == ledger.stats().total_records,
{
    let s = ledger.records@;
    assert forall|i: int| 0 <= i < s.len() implies is_entity_type(#[trigger] s[i].entity_type@) by {
        assert(record_at_ok(s[i], i));
    }
    lemma_type_counts_cover(s);
}

/// Entity ids run 1, 2, 3, ... in order of registration, whatever the entity
/// types.
pub proof fn lemma_entity_ids_sequential(ledger: &GreenScoreLedger)
    requires
        ledger.wf(),
    ensures
        forall|i: int|
            0 <= i < ledger.records().len() ==> #[trigger] ledger.records()[i].entity_id == i + 1,
{
    assert forall|i: int| 0 <= i < ledger.records().len() implies #[trigger] ledger.records()[i].entity_id
        == i + 1 by {
        assert(record_at_ok(ledger.records@[i], i));
    }
}

} // verus!
