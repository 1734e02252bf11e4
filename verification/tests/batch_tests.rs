use stream_dispatch::batch::{send_all, SubmitCompletion};
use stream_dispatch::model::{Address, SubmitFailure, TransferIntent};

fn intent(tag: u8) -> TransferIntent {
    TransferIntent {
        sender: Address { bytes: [tag; 32] },
        recipient: Address { bytes: [200; 32] },
        lamports: 1_000 + tag as u64,
    }
}

fn ok_completion(duration_micros: u64, signature: &str) -> SubmitCompletion {
    SubmitCompletion { duration_micros, result: Ok(String::from(signature)) }
}

#[test]
fn scenario_three_intents_ranked_slowest_first() {
    let intents = vec![intent(1), intent(2), intent(3)];
    let completions = vec![
        ok_completion(30_000, "sig-a"),
        ok_completion(10_000, "sig-b"),
        ok_completion(20_000, "sig-c"),
    ];
    let report = send_all(&intents, completions, 31_000);
    assert_eq!(report.total_micros, 31_000);
    let durations: Vec<u64> = report.outcomes.iter().map(|o| o.duration_micros).collect();
    assert_eq!(durations, vec![30_000, 20_000, 10_000]);
    // each outcome is mapped to its originating intent's address
    assert_eq!(report.outcomes[0].from, intent(1).sender);
    assert_eq!(report.outcomes[1].from, intent(3).sender);
    assert_eq!(report.outcomes[2].from, intent(2).sender);
    assert_eq!(report.outcomes[0].result, Ok(String::from("sig-a")));
    assert_eq!(report.outcomes[1].result, Ok(String::from("sig-c")));
    assert_eq!(report.outcomes[2].result, Ok(String::from("sig-b")));
}

#[test]
fn one_failure_does_not_displace_the_other_outcomes() {
    let intents = vec![intent(1), intent(2), intent(3)];
    let completions = vec![
        ok_completion(5_000, "sig-a"),
        SubmitCompletion {
            duration_micros: 9_000,
            result: Err(SubmitFailure::Submission { message: String::from("rejected") }),
        },
        ok_completion(7_000, "sig-c"),
    ];
    let report = send_all(&intents, completions, 9_500);
    assert_eq!(report.outcomes.len(), 3);
    assert_eq!(report.outcomes[0].from, intent(2).sender);
    assert_eq!(
        report.outcomes[0].result,
        Err(SubmitFailure::Submission { message: String::from("rejected") })
    );
    assert_eq!(report.outcomes[1].from, intent(3).sender);
    assert_eq!(report.outcomes[1].result, Ok(String::from("sig-c")));
    assert_eq!(report.outcomes[2].from, intent(1).sender);
    assert_eq!(report.outcomes[2].result, Ok(String::from("sig-a")));
}

#[test]
fn equal_durations_keep_every_outcome() {
    let intents = vec![intent(4), intent(5), intent(6)];
    let completions = vec![
        ok_completion(5_000, "sig-x"),
        ok_completion(5_000, "sig-y"),
        ok_completion(7_000, "sig-z"),
    ];
    let report = send_all(&intents, completions, 7_000);
    let durations: Vec<u64> = report.outcomes.iter().map(|o| o.duration_micros).collect();
    assert_eq!(durations, vec![7_000, 5_000, 5_000]);
    let mut signatures: Vec<String> =
        report.outcomes.iter().map(|o| o.result.as_ref().unwrap().clone()).collect();
    signatures.sort();
    assert_eq!(signatures, vec!["sig-x", "sig-y", "sig-z"]);
}

#[test]
fn empty_batch_reports_no_outcomes() {
    let intents: Vec<TransferIntent> = vec![];
    let report = send_all(&intents, vec![], 12);
    assert_eq!(report.total_micros, 12);
    assert!(report.outcomes.is_empty());
}
