use stream_dispatch::model::BlockEvent;
use stream_dispatch::trigger::TriggerRule;

fn event(slot: u64) -> BlockEvent {
    BlockEvent { slot, blockhash: String::from("11111111111111111111111111111111") }
}

#[test]
fn predicate_table_over_representative_slots() {
    let rule = TriggerRule::sample_every_ten();
    let cases: Vec<(u64, bool)> = vec![
        (0, false),
        (3, false),
        (5, true),
        (10, false),
        (15, true),
        (25, true),
        (10005, true),
        (10006, false),
        (u64::MAX, true),
        (u64::MAX - 1, false),
    ];
    for (slot, expected) in cases {
        assert_eq!(rule.should_dispatch(&event(slot)), expected, "slot {slot}");
    }
}

#[test]
fn reference_rule_is_five_modulo_ten() {
    let rule = TriggerRule::sample_every_ten();
    assert_eq!(rule.modulus, 10);
    assert_eq!(rule.offset, 5);
}

#[test]
fn rule_construction_rejects_impossible_offsets() {
    assert!(TriggerRule::new(0, 0).is_none());
    assert!(TriggerRule::new(10, 10).is_none());
    assert!(TriggerRule::new(10, 11).is_none());
    let rule = TriggerRule::new(7, 2).expect("valid rule");
    assert_eq!(rule.modulus, 7);
    assert_eq!(rule.offset, 2);
    assert!(rule.should_dispatch(&event(9)));
    assert!(!rule.should_dispatch(&event(10)));
}
