use pfp_server::common::decimal::Decimal;
use pfp_server::common::Validation;
use pfp_server::models::plan_model::{
    Allocation, AllocationProportion, Asset, AssetClass, AssetClassChange, Event,
};
use pfp_server::models::recurring_model::{Recurring, TimeInterval, Typ};

#[test]
fn test_event_validation() {
    let ev = Event {
        id: None,
        name: "Crash".to_string(),
        start: 0,
        transforms: vec![AssetClassChange { class: AssetClass::Cash, change: Decimal::new(-100, 0) }],
    };

    let bad_ev = Event {
        id: None,
        name: "Crash 2".to_string(),
        start: 0,
        transforms: vec![
            AssetClassChange { class: AssetClass::Cash, change: Decimal::new(-100, 0) },
            AssetClassChange { class: AssetClass::Cash, change: Decimal::new(-100, 0) },
        ],
    };

    assert!(ev.validate().is_ok());
    assert!(bad_ev.validate().is_err());
}

#[test]
fn test_allocation_validation() {
    let alloc = Allocation {
        id: None,
        description: "despacito".to_string(),
        date: 0,
        schema: vec![AllocationProportion {
            asset: Asset {
                name: "dollars".to_string(),
                class: AssetClass::Cash,
                annualized_performance: Decimal::new(1, 2),
            },
            proportion: Decimal::new(1000, 1),
        }],
    };

    let bad_alloc = Allocation {
        id: None,
        description: "despacito".to_string(),
        date: 0,
        schema: vec![AllocationProportion {
            asset: Asset {
                name: "dollars".to_string(),
                class: AssetClass::Cash,
                annualized_performance: Decimal::new(1, 2),
            },
            proportion: Decimal::new(500, 1),
        }],
    };

    let bad_alloc2 = Allocation {
        id: None,
        description: "despacito".to_string(),
        date: 0,
        schema: vec![
            AllocationProportion {
                asset: Asset {
                    name: "dollars".to_string(),
                    class: AssetClass::Cash,
                    annualized_performance: Decimal::new(1, 2),
                },
                proportion: Decimal::new(600, 1),
            },
            AllocationProportion {
                asset: Asset {
                    name: "dollars".to_string(),
                    class: AssetClass::Equity,
                    annualized_performance: Decimal::new(1, 2),
                },
                proportion: Decimal::new(600, 1),
            },
        ],
    };

    println!("{:?}", alloc.validate());

    assert!(alloc.validate().is_ok());
    assert!(bad_alloc.validate().is_err());
    assert!(bad_alloc2.validate().is_err());
}

#[test]
fn test_recurring_validation() {
    let rec = Recurring {
        id: None,
        name: "ligma".to_string(),
        start: 0,
        end: 10,
        principal: Decimal::new(0, 1),
        amount: Decimal::new(-1, 0),
        interest: Decimal::new(0, 0),
        frequency: TimeInterval::new(Typ::Monthly, 1),
    };

    // both amount and principal non-zero
    let bad_rec = Recurring {
        id: None,
        name: "ligma".to_string(),
        start: 0,
        end: 10,
        principal: Decimal::new(10, 1),
        amount: Decimal::new(-1, 0),
        interest: Decimal::new(0, 0),
        frequency: TimeInterval::new(Typ::Monthly, 1),
    };

    // amount and interest non-zero
    let bad_rec2 = Recurring {
        id: None,
        name: "ligma".to_string(),
        start: 0,
        end: 10,
        principal: Decimal::new(0, 0),
        amount: Decimal::new(-1, 0),
        interest: Decimal::new(1, 0),
        frequency: TimeInterval::new(Typ::Monthly, 1),
    };

    // bad start/end times
    let bad_rec3 = Recurring {
        id: None,
        name: "ligma".to_string(),
        start: -1,
        end: -1,
        principal: Decimal::new(1, 0),
        amount: Decimal::new(0, 0),
        interest: Decimal::new(1, 0),
        frequency: TimeInterval::new(Typ::Monthly, 1),
    };

    assert!(rec.validate().is_ok());
    assert!(bad_rec.validate().is_err());
    assert!(bad_rec2.validate().is_err());
    assert!(bad_rec3.validate().is_err());
}
