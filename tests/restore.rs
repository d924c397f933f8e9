use green_score_ledger::{CarbonRecord, GreenScoreLedger, PlatformStats};

fn rec(id: u64, kind: &str, emission: i128, verified: bool) -> CarbonRecord {
    CarbonRecord {
        entity_id: id,
        entity_name: format!("entity {}", id),
        entity_type: kind.to_string(),
        carbon_emission: emission,
        verification_status: verified,
        timestamp: 10 * id,
    }
}

#[test]
fn from_records_recounts_stats() {
    let records = vec![
        rec(1, "Company", 100, true),
        rec(2, "Product", 20, false),
        rec(3, "Product", 3, true),
    ];
    let l = GreenScoreLedger::from_records(records).unwrap();
    assert_eq!(
        l.get_platform_stats(),
        PlatformStats {
            total_records: 3,
            verified_records: 2,
            total_emissions_tracked: 123,
            company_count: 1,
            product_count: 2,
        }
    );
    assert_eq!(l.get_carbon_record(2).entity_name, "entity 2");
    assert_eq!(l.get_carbon_record(3).timestamp, 30);
}

#[test]
fn from_records_of_nothing_is_empty_ledger() {
    let l = GreenScoreLedger::from_records(Vec::new()).unwrap();
    assert_eq!(l.get_platform_stats().total_records, 0);
    assert_eq!(l.get_carbon_record(1).entity_id, 0);
}

#[test]
fn from_records_then_operations_continue() {
    let mut l = GreenScoreLedger::from_records(vec![rec(1, "Company", 5, true)]).unwrap();
    assert_eq!(l.register_carbon_record("n".to_string(), "Product".to_string(), 1, 0), Ok(2));
    l.update_carbon_emission(1, 9, 1).unwrap();
    let s = l.get_platform_stats();
    assert_eq!(s.verified_records, 0);
    assert_eq!(s.total_emissions_tracked, 10);
}

#[test]
fn from_records_rejects_gaps_and_bad_ids() {
    assert!(GreenScoreLedger::from_records(vec![rec(2, "Company", 1, false)]).is_none());
    assert!(GreenScoreLedger::from_records(vec![rec(0, "Company", 1, false)]).is_none());
    assert!(GreenScoreLedger::from_records(vec![rec(1, "Company", 1, false), rec(1, "Company", 1, false)]).is_none());
}

#[test]
fn from_records_rejects_negative_emission() {
    assert!(GreenScoreLedger::from_records(vec![rec(1, "Company", 1, false), rec(2, "Product", -1, false)]).is_none());
}

#[test]
fn from_records_rejects_unknown_type() {
    assert!(GreenScoreLedger::from_records(vec![rec(1, "Not_Found", 1, false)]).is_none());
}

#[test]
fn from_records_rejects_overflowing_total() {
    assert!(GreenScoreLedger::from_records(vec![rec(1, "Company", i128::MAX, false), rec(2, "Product", 1, false)]).is_none());
    assert!(GreenScoreLedger::from_records(vec![rec(1, "Company", i128::MAX - 1, false), rec(2, "Product", 1, false)]).is_some());
}
