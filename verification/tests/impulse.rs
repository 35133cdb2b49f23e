use fizzerb::impulse::{
    buffer_size_for, deposit, phase_sign, plan_responses, truncated_length, Arrival, BatchError,
    Deposit, DepositPolicy, Sign, Stroke,
};

fn arrivals(positions: &[usize]) -> Vec<Arrival> {
    positions.iter().map(|&position| Arrival { position, bounces: position % 3 }).collect()
}

#[test]
fn phase_flips_with_each_bounce() {
    assert_eq!(phase_sign(0), Sign::Positive);
    assert_eq!(phase_sign(1), Sign::Negative);
    assert_eq!(phase_sign(2), Sign::Positive);
    assert_eq!(phase_sign(513), Sign::Negative);
    assert_eq!(phase_sign(usize::MAX), Sign::Negative);
}

#[test]
fn buffer_grows_to_two_past_the_last_slot() {
    assert_eq!(buffer_size_for(0, 0), Some(2));
    assert_eq!(buffer_size_for(0, 140), Some(142));
    assert_eq!(buffer_size_for(141, 140), Some(142));
    assert_eq!(buffer_size_for(142, 140), Some(142));
}

#[test]
fn buffer_never_shrinks() {
    assert_eq!(buffer_size_for(143, 140), Some(143));
    assert_eq!(buffer_size_for(48000, 3), Some(48000));
    assert_eq!(buffer_size_for(usize::MAX, 0), Some(usize::MAX));
}

#[test]
fn buffer_cannot_be_longer_than_the_machine_allows() {
    assert_eq!(buffer_size_for(0, usize::MAX), None);
    assert_eq!(buffer_size_for(0, usize::MAX - 1), None);
    assert_eq!(buffer_size_for(0, usize::MAX - 2), Some(usize::MAX));
}

#[test]
fn growth_does_not_depend_on_the_order_of_batches() {
    for (first, second) in [(3usize, 9usize), (9, 3), (5, 5), (0, 100)] {
        let one = buffer_size_for(buffer_size_for(4, first).unwrap(), second);
        let other = buffer_size_for(buffer_size_for(4, second).unwrap(), first);
        assert_eq!(one, other);
    }
}

#[test]
fn single_sample_deposit_takes_the_phase_of_the_response() {
    assert_eq!(
        deposit(DepositPolicy::SingleSample, 7, 0, 10),
        Some(Deposit { first: Stroke { index: 7, sign: Sign::Positive }, second: None })
    );
    assert_eq!(
        deposit(DepositPolicy::SingleSample, 7, 3, 10),
        Some(Deposit { first: Stroke { index: 7, sign: Sign::Negative }, second: None })
    );
    assert_eq!(
        deposit(DepositPolicy::SingleSample, 9, 2, 10),
        Some(Deposit { first: Stroke { index: 9, sign: Sign::Positive }, second: None })
    );
}

#[test]
fn split_pair_deposit_steps_up_and_down() {
    let expected = Deposit {
        first: Stroke { index: 7, sign: Sign::Positive },
        second: Some(Stroke { index: 8, sign: Sign::Negative }),
    };
    assert_eq!(deposit(DepositPolicy::SplitPair, 7, 0, 10), Some(expected));
    assert_eq!(deposit(DepositPolicy::SplitPair, 7, 1, 10), Some(expected));
    assert!(deposit(DepositPolicy::SplitPair, 8, 1, 10).is_some());
}

#[test]
fn deposit_outside_the_buffer_is_refused() {
    assert_eq!(deposit(DepositPolicy::SingleSample, 10, 0, 10), None);
    assert_eq!(deposit(DepositPolicy::SingleSample, 0, 0, 0), None);
    assert_eq!(deposit(DepositPolicy::SplitPair, 9, 0, 10), None);
    assert_eq!(deposit(DepositPolicy::SplitPair, 0, 0, 1), None);
    assert_eq!(deposit(DepositPolicy::SplitPair, usize::MAX, 0, usize::MAX), None);
    assert_eq!(deposit(DepositPolicy::SingleSample, usize::MAX, 0, usize::MAX), None);
}

#[test]
fn empty_batch_changes_nothing() {
    let batch = plan_responses(DepositPolicy::SplitPair, 17, &vec![], 900).unwrap();
    assert_eq!(batch.size, 17);
    assert!(batch.deposits.is_empty());
    let batch = plan_responses(DepositPolicy::SingleSample, 0, &vec![], usize::MAX).unwrap();
    assert_eq!(batch.size, 0);
}

#[test]
fn batch_grows_the_buffer_and_deposits_each_response() {
    let batch = plan_responses(DepositPolicy::SingleSample, 3, &arrivals(&[1, 4, 4, 8]), 9).unwrap();
    assert_eq!(batch.size, 11);
    assert_eq!(
        batch.deposits,
        vec![
            Deposit { first: Stroke { index: 1, sign: Sign::Negative }, second: None },
            Deposit { first: Stroke { index: 4, sign: Sign::Negative }, second: None },
            Deposit { first: Stroke { index: 4, sign: Sign::Negative }, second: None },
            Deposit { first: Stroke { index: 8, sign: Sign::Positive }, second: None },
        ]
    );
}

#[test]
fn batch_under_the_split_policy_fits_the_grown_buffer() {
    let batch = plan_responses(DepositPolicy::SplitPair, 0, &arrivals(&[0, 5, 5]), 5).unwrap();
    assert_eq!(batch.size, 7);
    assert_eq!(batch.deposits.len(), 3);
    for planned in &batch.deposits {
        assert!(planned.first.index < batch.size);
        assert!(planned.second.unwrap().index < batch.size);
        assert_eq!(planned.second.unwrap().index, planned.first.index + 1);
    }
}

#[test]
fn batch_into_a_long_buffer_leaves_its_size() {
    let batch = plan_responses(DepositPolicy::SingleSample, 100, &arrivals(&[2, 3]), 4).unwrap();
    assert_eq!(batch.size, 100);
}

#[test]
fn batch_out_of_order_is_refused_at_the_first_descent() {
    let plan = plan_responses(DepositPolicy::SingleSample, 0, &arrivals(&[1, 4, 3, 2, 9]), 9);
    assert_eq!(plan.unwrap_err(), BatchError::OutOfOrder { response: 2 });
    let plan = plan_responses(DepositPolicy::SplitPair, 50, &arrivals(&[5, 4]), 9);
    assert_eq!(plan.unwrap_err(), BatchError::OutOfOrder { response: 1 });
}

#[test]
fn batch_behind_its_last_slot_is_refused() {
    let plan = plan_responses(DepositPolicy::SingleSample, 0, &arrivals(&[1, 4, 10]), 9);
    assert_eq!(plan.unwrap_err(), BatchError::BeyondLastSlot);
}

#[test]
fn batch_that_needs_too_long_a_buffer_is_refused() {
    let plan = plan_responses(DepositPolicy::SingleSample, 0, &arrivals(&[1, 4]), usize::MAX - 1);
    assert_eq!(plan.unwrap_err(), BatchError::TooLong);
}

#[test]
fn disorder_is_reported_before_anything_else() {
    let plan = plan_responses(DepositPolicy::SingleSample, 0, &arrivals(&[9, 4]), usize::MAX);
    assert_eq!(plan.unwrap_err(), BatchError::OutOfOrder { response: 1 });
    let plan = plan_responses(DepositPolicy::SingleSample, 0, &arrivals(&[4, 9]), 3);
    assert_eq!(plan.unwrap_err(), BatchError::BeyondLastSlot);
}

#[test]
fn silent_buffer_is_cut_to_nothing() {
    assert_eq!(truncated_length(&vec![]), 0);
    assert_eq!(truncated_length(&vec![false]), 0);
    assert_eq!(truncated_length(&vec![false; 48000]), 0);
}

#[test]
fn buffer_is_cut_behind_its_last_audible_sample() {
    assert_eq!(truncated_length(&vec![true]), 1);
    assert_eq!(truncated_length(&vec![false, true]), 2);
    assert_eq!(truncated_length(&vec![true, false, true, false, false]), 3);
    assert_eq!(truncated_length(&vec![true, true, true]), 3);
    assert_eq!(truncated_length(&vec![true, false, false, false]), 1);
}

#[test]
fn audibility_can_come_from_sample_magnitudes() {
    let samples = [0.0f32, 0.5, -0.25, 0.000001, -0.000002, 0.0];
    let audible: Vec<bool> = samples.iter().map(|x| x.abs() > 0.00001).collect();
    assert_eq!(truncated_length(&audible), 3);
}
