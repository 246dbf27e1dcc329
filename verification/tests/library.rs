//! The library by itself: exact values, edge cases and the laws on concrete
//! numbers.

use tricklepay_stream::{
    Address, AddressKind, Event, Stream, StreamContract, StreamError, StreamStatus, Terms, Transfer,
    ENTRY_TTL, FULL_PROGRESS, MAX_AMOUNT,
};

fn address(key: u64) -> Address {
    Address {
        kind: AddressKind::Contract,
        key0: 0,
        key1: 0,
        key2: 0,
        key3: key,
    }
}

fn contract_address() -> Address {
    address(1)
}

fn sender() -> Address {
    address(2)
}

fn recipient() -> Address {
    address(3)
}

fn token() -> Address {
    address(4)
}

fn fresh() -> StreamContract {
    StreamContract::new(contract_address())
}

fn terms() -> Terms {
    Terms {
        sender: sender(),
        recipient: recipient(),
        token: token(),
        total_amount: 1_000,
        start_time: 100,
        end_time: 1_100,
        cliff_time: 100,
    }
}

/// Opens a stream on `terms` at `now`.
fn open(contract: &mut StreamContract, terms: Terms, now: u64) -> Result<u64, StreamError> {
    contract
        .create_stream(
            terms.sender,
            terms.recipient,
            terms.token,
            terms.total_amount,
            terms.start_time,
            terms.end_time,
            terms.cliff_time,
            now,
        )
        .map(|opened| opened.id)
}

const ERRORS: [(StreamError, u32); 12] = [
    (StreamError::StreamNotFound, 1),
    (StreamError::InvalidTimeRange, 3),
    (StreamError::InvalidAmount, 4),
    (StreamError::InvalidCliff, 5),
    (StreamError::AlreadyCancelled, 6),
    (StreamError::NothingToWithdraw, 7),
    (StreamError::InsufficientBalance, 8),
    (StreamError::StreamAlreadyCompleted, 9),
    (StreamError::AmountTooLarge, 10),
    (StreamError::StreamWindowInPast, 11),
    (StreamError::StreamCountExhausted, 12),
    (StreamError::InvalidParticipant, 13),
];

#[test]
fn error_codes_are_stable() {
    for (error, code) in ERRORS {
        assert_eq!(error.code(), code);
        assert_eq!(StreamError::from_code(code), Some(error));
    }
}

#[test]
fn retired_and_unknown_codes_stand_for_no_error() {
    for code in [0, 2, 14, u32::MAX] {
        assert_eq!(StreamError::from_code(code), None);
    }
}

#[test]
fn errors_are_ordered_by_code() {
    for pair in ERRORS.windows(2) {
        assert!(pair[0].0 < pair[1].0);
    }
}

#[test]
fn max_amount_is_the_largest_that_never_overflows() {
    assert_eq!(MAX_AMOUNT, i128::MAX / i128::from(u64::MAX));
    assert!(MAX_AMOUNT.checked_mul(i128::from(u64::MAX)).is_some());
    assert!((MAX_AMOUNT + 1).checked_mul(i128::from(u64::MAX)).is_none());
}

#[test]
fn vesting_rounds_down() {
    let stream = Stream {
        sender: sender(),
        recipient: recipient(),
        token: token(),
        total_amount: 10,
        withdrawn: 0,
        start_time: 0,
        end_time: 3,
        cliff_time: 0,
        cancelled: false,
    };
    assert_eq!(stream.vested_amount(0), 0);
    assert_eq!(stream.vested_amount(1), 3);
    assert_eq!(stream.vested_amount(2), 6);
    assert_eq!(stream.vested_amount(3), 10);
    assert_eq!(stream.locked_amount(1), 7);
    assert_eq!(stream.progress(1), 3_000);
    assert_eq!(stream.progress(2), 6_000);
}

#[test]
fn the_largest_amount_vests_over_the_longest_window() {
    let mut contract = fresh();
    let longest = Terms {
        total_amount: MAX_AMOUNT,
        start_time: 0,
        end_time: u64::MAX,
        cliff_time: 0,
        ..terms()
    };
    let id = open(&mut contract, longest, 0).unwrap();
    assert_eq!(contract.vested(id, u64::MAX - 1), Ok(MAX_AMOUNT - 1));
    assert_eq!(contract.vested(id, u64::MAX), Ok(MAX_AMOUNT));
    assert_eq!(contract.progress(id, u64::MAX - 1), Ok(FULL_PROGRESS - 1));
}

#[test]
fn a_cliff_only_delays() {
    let mut contract = fresh();
    let without = open(&mut contract, terms(), 100).unwrap();
    let with = Terms {
        cliff_time: 600,
        ..terms()
    };
    let with = open(&mut contract, with, 100).unwrap();
    assert_eq!(contract.vested(without, 599), Ok(499));
    assert_eq!(contract.vested(with, 599), Ok(0));
    for now in [600, 601, 1_000, 1_100, 5_000] {
        assert_eq!(contract.vested(with, now), contract.vested(without, now));
    }
}

#[test]
fn vested_and_locked_sum_to_the_total() {
    let mut contract = fresh();
    let id = open(&mut contract, terms(), 100).unwrap();
    for now in (0..1_300).step_by(7) {
        let vested = contract.vested(id, now).unwrap();
        let locked = contract.locked(id, now).unwrap();
        assert_eq!(vested + locked, 1_000);
    }
}

#[test]
fn opening_asks_for_the_deposit_and_announces_the_schedule() {
    let mut contract = fresh();
    let opened = contract
        .create_stream(
            sender(),
            recipient(),
            token(),
            1_000,
            100,
            1_100,
            600,
            50,
        )
        .unwrap();
    assert_eq!(opened.id, 0);
    assert_eq!(opened.ttl, ENTRY_TTL);
    assert_eq!(
        opened.transfer,
        Transfer {
            token: token(),
            from: sender(),
            to: contract_address(),
            amount: 1_000,
        }
    );
    assert_eq!(
        opened.event,
        Event::Created {
            sender: sender(),
            recipient: recipient(),
            id: 0,
            token: token(),
            total_amount: 1_000,
            start_time: 100,
            end_time: 1_100,
            cliff_time: 600,
        }
    );
    assert_eq!(
        contract.get_stream(0),
        Ok(Stream {
            sender: sender(),
            recipient: recipient(),
            token: token(),
            total_amount: 1_000,
            withdrawn: 0,
            start_time: 100,
            end_time: 1_100,
            cliff_time: 600,
            cancelled: false,
        })
    );
}

#[test]
fn both_withdrawals_pay_the_recipient_and_publish_the_same_event() {
    let mut contract = fresh();
    let id = open(&mut contract, terms(), 100).unwrap();
    let part = contract.withdraw_amount(id, 200, 600).unwrap();
    let rest = contract.withdraw(id, 600).unwrap();
    for (paid, amount) in [(part, 200), (rest, 300)] {
        assert_eq!(paid.amount, amount);
        assert_eq!(
            paid.transfer,
            Transfer {
                token: token(),
                from: contract_address(),
                to: recipient(),
                amount,
            }
        );
        assert_eq!(
            paid.event,
            Event::Withdrawn {
                sender: sender(),
                recipient: recipient(),
                id,
                amount,
            }
        );
    }
}

#[test]
fn withdrawing_changes_nothing_but_what_was_withdrawn() {
    let mut contract = fresh();
    let id = open(&mut contract, terms(), 100).unwrap();
    let before = contract.get_stream(id).unwrap();
    contract.withdraw_amount(id, 200, 600).unwrap();
    let after = contract.get_stream(id).unwrap();
    assert_eq!(after, Stream { withdrawn: 200, ..before });
    contract.withdraw(id, 600).unwrap();
    let after = contract.get_stream(id).unwrap();
    assert_eq!(after, Stream { withdrawn: 500, ..before });
    contract.cancel(id, 850).unwrap();
    assert_eq!(contract.get_stream(id).unwrap().withdrawn, 500);
}

#[test]
fn cancelling_pays_the_sender() {
    let mut contract = fresh();
    let id = open(&mut contract, terms(), 100).unwrap();
    let paid = contract.cancel(id, 350).unwrap();
    assert_eq!(paid.amount, 750);
    assert_eq!(
        paid.transfer,
        Transfer {
            token: token(),
            from: contract_address(),
            to: sender(),
            amount: 750,
        }
    );
    assert_eq!(
        paid.event,
        Event::Cancelled {
            sender: sender(),
            recipient: recipient(),
            id,
            refund: 750,
        }
    );
    let stream = contract.get_stream(id).unwrap();
    assert_eq!(stream.total_amount, 250);
    assert_eq!(stream.start_time, 350);
    assert_eq!(stream.cliff_time, 350);
    assert_eq!(stream.end_time, 350);
    assert!(stream.cancelled);
}

#[test]
fn every_participant_rule_is_enforced() {
    let mut contract = fresh();
    let me = contract_address();
    let wrong = [
        Terms { sender: me, ..terms() },
        Terms { recipient: me, ..terms() },
        Terms { token: me, ..terms() },
        Terms { recipient: sender(), ..terms() },
        Terms { token: sender(), ..terms() },
        Terms { token: recipient(), ..terms() },
    ];
    for terms in wrong {
        assert_eq!(
            open(&mut contract, terms, 100),
            Err(StreamError::InvalidParticipant)
        );
    }
    assert_eq!(contract.stream_count(), 0);
}

#[test]
fn addresses_of_different_kind_are_different() {
    let account = Address {
        kind: AddressKind::Account,
        ..contract_address()
    };
    let mut contract = fresh();
    let from_account = Terms {
        sender: account,
        ..terms()
    };
    assert_eq!(open(&mut contract, from_account, 100), Ok(0));
}

#[test]
fn amounts_are_bounded_on_both_sides() {
    let mut contract = fresh();
    for (amount, answer) in [
        (i128::MIN, Err(StreamError::InvalidAmount)),
        (-1, Err(StreamError::InvalidAmount)),
        (0, Err(StreamError::InvalidAmount)),
        (MAX_AMOUNT + 1, Err(StreamError::AmountTooLarge)),
        (i128::MAX, Err(StreamError::AmountTooLarge)),
        (1, Ok(0)),
        (MAX_AMOUNT, Ok(1)),
    ] {
        let terms = Terms {
            total_amount: amount,
            ..terms()
        };
        assert_eq!(open(&mut contract, terms, 100), answer);
    }
}

#[test]
fn schedules_are_checked_in_order() {
    let mut contract = fresh();
    for (start_time, end_time, cliff_time, answer) in [
        (1_100, 100, 50, Err(StreamError::InvalidTimeRange)),
        (100, 100, 100, Err(StreamError::InvalidTimeRange)),
        (10, 50, 9, Err(StreamError::InvalidCliff)),
        (10, 50, 51, Err(StreamError::InvalidCliff)),
        (10, 100, 10, Err(StreamError::StreamWindowInPast)),
        (10, 101, 10, Ok(0)),
        (10, 101, 101, Ok(1)),
    ] {
        let terms = Terms {
            start_time,
            end_time,
            cliff_time,
            ..terms()
        };
        assert_eq!(open(&mut contract, terms, 100), answer);
    }
}

#[test]
fn the_last_id_is_never_handed_out() {
    let mut contract = fresh();
    contract.set_stream_count(u64::MAX - 1);
    assert_eq!(open(&mut contract, terms(), 100), Ok(u64::MAX - 1));
    assert_eq!(
        open(&mut contract, terms(), 100),
        Err(StreamError::StreamCountExhausted)
    );
    assert_eq!(contract.stream_count(), u64::MAX);
    assert_eq!(
        contract.get_stream(u64::MAX),
        Err(StreamError::StreamNotFound)
    );
    assert_eq!(contract.withdraw(u64::MAX - 1, 600).unwrap().amount, 500);
}

#[test]
fn ids_stay_contiguous_when_streams_are_cancelled() {
    let mut contract = fresh();
    for expected in 0..3 {
        assert_eq!(open(&mut contract, terms(), 100), Ok(expected));
    }
    assert_eq!(contract.cancel(1, 600).unwrap().amount, 500);
    assert_eq!(contract.stream_count(), 3);
    assert_eq!(open(&mut contract, terms(), 600), Ok(3));
    assert_eq!(contract.stream_count(), 4);

    // The cancelled record stays in place, frozen at what had vested; the
    // others are as they were.
    let cancelled = contract.get_stream(1).unwrap();
    assert!(cancelled.cancelled);
    assert_eq!(cancelled.total_amount, 500);
    for id in [0, 2, 3] {
        let stream = contract.get_stream(id).unwrap();
        assert!(!stream.cancelled);
        assert_eq!(stream.total_amount, 1_000);
    }
}

#[test]
fn a_stream_cancelled_before_it_starts_is_empty_and_complete() {
    let mut contract = fresh();
    let id = open(&mut contract, terms(), 0).unwrap();
    assert_eq!(contract.cancel(id, 50).unwrap().amount, 1_000);
    assert_eq!(contract.vested(id, 50), Ok(0));
    assert_eq!(contract.locked(id, 50), Ok(0));
    assert_eq!(contract.progress(id, 50), Ok(10_000));
    assert_eq!(contract.status(id, 50), Ok(StreamStatus::Cancelled));
    assert_eq!(
        contract.withdraw(id, 5_000),
        Err(StreamError::NothingToWithdraw)
    );
}

#[test]
fn a_cancelled_stream_is_frozen() {
    let mut contract = fresh();
    let id = open(&mut contract, terms(), 100).unwrap();
    contract.withdraw_amount(id, 100, 400).unwrap();
    let available = contract.withdrawable(id, 600).unwrap();
    assert_eq!(available, 400);
    contract.cancel(id, 600).unwrap();
    for now in [600, 1_100, u64::MAX] {
        assert_eq!(contract.withdrawable(id, now), Ok(available));
        assert_eq!(contract.vested(id, now), Ok(500));
        assert_eq!(contract.locked(id, now), Ok(0));
        assert_eq!(contract.progress(id, now), Ok(10_000));
        assert_eq!(contract.status(id, now), Ok(StreamStatus::Cancelled));
        assert_eq!(contract.cancel(id, now), Err(StreamError::AlreadyCancelled));
    }
    assert_eq!(contract.withdraw(id, 2_000).unwrap().amount, 400);
    assert_eq!(contract.progress(id, 2_000), Ok(10_000));
}

#[test]
fn a_cancelled_stream_is_frozen_on_a_clock_that_runs_backwards() {
    let mut contract = fresh();
    let id = open(&mut contract, terms(), 100).unwrap();
    assert_eq!(contract.cancel(id, 600).unwrap().amount, 500);
    for now in [0, 99, 300, 599] {
        assert_eq!(contract.vested(id, now), Ok(500));
        assert_eq!(contract.withdrawable(id, now), Ok(500));
        assert_eq!(contract.locked(id, now), Ok(0));
        assert_eq!(contract.progress(id, now), Ok(10_000));
        assert_eq!(contract.status(id, now), Ok(StreamStatus::Cancelled));
        assert_eq!(contract.cancel(id, now), Err(StreamError::AlreadyCancelled));
    }
    assert_eq!(contract.withdraw_amount(id, 200, 300).unwrap().amount, 200);
    assert_eq!(contract.withdraw(id, 0).unwrap().amount, 300);
    assert_eq!(contract.withdraw(id, 300), Err(StreamError::NothingToWithdraw));
}

#[test]
fn a_completed_stream_cannot_be_cancelled() {
    let mut contract = fresh();
    let id = open(&mut contract, terms(), 100).unwrap();
    assert_eq!(
        contract.cancel(id, 1_100),
        Err(StreamError::StreamAlreadyCompleted)
    );
    contract.withdraw(id, 1_100).unwrap();
    assert_eq!(contract.status(id, 1_100), Ok(StreamStatus::Completed));
    assert_eq!(
        contract.cancel(id, 9_999),
        Err(StreamError::StreamAlreadyCompleted)
    );
}

#[test]
fn a_part_and_the_rest_make_the_whole() {
    let mut at_once = fresh();
    let mut in_parts = fresh();
    let id = open(&mut at_once, terms(), 100).unwrap();
    assert_eq!(open(&mut in_parts, terms(), 100), Ok(id));
    let whole = at_once.withdraw(id, 777).unwrap().amount;
    let part = in_parts.withdraw_amount(id, 123, 777).unwrap().amount;
    let rest = in_parts.withdraw(id, 777).unwrap().amount;
    assert_eq!(part + rest, whole);
    assert_eq!(in_parts.get_stream(id), at_once.get_stream(id));
}

#[test]
fn nothing_is_left_right_after_a_withdrawal() {
    let mut contract = fresh();
    let id = open(&mut contract, terms(), 100).unwrap();
    contract.withdraw(id, 600).unwrap();
    assert_eq!(contract.withdraw(id, 600), Err(StreamError::NothingToWithdraw));
    assert_eq!(
        contract.withdraw_amount(id, 1, 600),
        Err(StreamError::InsufficientBalance)
    );
    assert_eq!(
        contract.withdraw_amount(id, -1, 600),
        Err(StreamError::InvalidAmount)
    );
    assert_eq!(
        contract.withdraw_amount(id, i128::MAX, 600),
        Err(StreamError::InsufficientBalance)
    );
    assert_eq!(contract.get_stream(id).unwrap().withdrawn, 500);
}

#[test]
fn a_clock_that_runs_backwards_takes_nothing_back() {
    let mut contract = fresh();
    let id = open(&mut contract, terms(), 100).unwrap();
    contract.withdraw(id, 600).unwrap();
    assert_eq!(contract.vested(id, 300), Ok(200));
    assert_eq!(contract.withdrawable(id, 300), Ok(0));
    // The refund cannot draw on what the recipient already has.
    assert_eq!(contract.cancel(id, 300).unwrap().amount, 500);
    assert_eq!(contract.get_stream(id).unwrap().total_amount, 500);
}

#[test]
fn each_call_names_the_party_that_has_to_authorize_it() {
    let mut contract = fresh();
    let id = open(&mut contract, terms(), 100).unwrap();
    assert_eq!(contract.withdraw_authorizer(id), Ok(recipient()));
    assert_eq!(contract.cancel_authorizer(id), Ok(sender()));
    assert_eq!(
        contract.withdraw_authorizer(99),
        Err(StreamError::StreamNotFound)
    );
    assert_eq!(
        contract.cancel_authorizer(99),
        Err(StreamError::StreamNotFound)
    );
}

#[test]
fn unknown_ids_are_reported_before_anything_else() {
    let mut contract = fresh();
    assert_eq!(contract.withdraw(7, 0), Err(StreamError::StreamNotFound));
    assert_eq!(
        contract.withdraw_amount(7, 0, 0),
        Err(StreamError::StreamNotFound)
    );
    assert_eq!(contract.cancel(7, 0), Err(StreamError::StreamNotFound));
    assert_eq!(contract.status(7, 0), Err(StreamError::StreamNotFound));
}

#[test]
fn a_stored_stream_can_be_read_back() {
    let mut contract = fresh();
    let id = open(&mut contract, terms(), 100).unwrap();
    contract.withdraw(id, 600).unwrap();
    let stored = contract.get_stream(id).unwrap();

    let mut again = StreamContract::new(contract.address());
    again.set_stream_count(contract.stream_count());
    assert!(again.restore_stream(id, stored));
    assert_eq!(again.get_stream(id), Ok(stored));
    assert_eq!(again.withdraw(id, 850), contract.withdraw(id, 850));
    assert_eq!(open(&mut again, terms(), 850), Ok(1));
}

#[test]
fn a_call_looks_only_at_the_stream_it_names() {
    let mut whole = fresh();
    for _ in 0..3 {
        open(&mut whole, terms(), 100).unwrap();
    }
    let record = whole.get_stream(1).unwrap();

    let mut alone = StreamContract::new(whole.address());
    alone.set_stream_count(whole.stream_count());
    assert!(alone.restore_stream(1, record));
    assert_eq!(alone.withdraw_authorizer(1), whole.withdraw_authorizer(1));
    assert_eq!(alone.withdraw(1, 350), whole.withdraw(1, 350));
    assert_eq!(
        alone.withdraw_amount(1, 50, 400),
        whole.withdraw_amount(1, 50, 400)
    );
    assert_eq!(alone.cancel(1, 600), whole.cancel(1, 600));
    assert_eq!(alone.cancel(1, 601), whole.cancel(1, 601));
    assert_eq!(alone.get_stream(1), whole.get_stream(1));

    assert_eq!(open(&mut alone, terms(), 700), Ok(3));
    assert_eq!(open(&mut whole, terms(), 700), Ok(3));
    assert_eq!(alone.get_stream(3), whole.get_stream(3));
    assert_eq!(alone.stream_count(), whole.stream_count());
}

#[test]
fn streams_behave_alike_beyond_a_gap_in_the_ids() {
    let mut contract = fresh();
    let near = open(&mut contract, terms(), 100).unwrap();
    contract.set_stream_count(1_000);
    let far = open(&mut contract, terms(), 100).unwrap();
    assert_eq!((near, far), (0, 1_000));
    assert_eq!(contract.get_stream(1), Err(StreamError::StreamNotFound));
    assert_eq!(contract.withdraw(far, 350).unwrap().amount, 250);
    assert_eq!(contract.get_stream(near).unwrap().withdrawn, 0);
    assert_eq!(contract.cancel(near, 600).unwrap().amount, 500);
    assert_eq!(contract.cancel(far, 600).unwrap().amount, 500);
    assert_eq!(open(&mut contract, terms(), 600), Ok(1_001));
}

#[test]
fn malformed_records_are_turned_away() {
    let mut contract = fresh();
    let id = open(&mut contract, terms(), 100).unwrap();
    let good = contract.get_stream(id).unwrap();
    let bad = [
        Stream { withdrawn: -1, ..good },
        Stream { withdrawn: 1_001, ..good },
        Stream { total_amount: 0, ..good },
        Stream { total_amount: MAX_AMOUNT + 1, ..good },
        Stream { cliff_time: 99, ..good },
        Stream { cliff_time: 1_101, ..good },
        Stream { end_time: 100, ..good },
        Stream { cancelled: true, ..good },
        Stream { sender: contract_address(), ..good },
        Stream { recipient: sender(), ..good },
        Stream { token: recipient(), ..good },
    ];
    for stream in bad {
        assert!(!contract.restore_stream(id, stream));
        assert_eq!(contract.get_stream(id), Ok(good));
    }
}

#[test]
fn the_contract_holds_what_it_owes_through_a_whole_life() {
    let mut contract = fresh();
    let mut held: i128 = 0;
    let mut taken: i128 = 0;
    let mut refunded: i128 = 0;
    for _ in 0..3 {
        open(&mut contract, terms(), 100).unwrap();
        held += 1_000;
    }
    for (id, now, amount) in [(0, 150, 7), (1, 333, 100), (2, 500, 399), (0, 501, 3)] {
        let paid = contract.withdraw_amount(id, amount, now).unwrap();
        held -= paid.amount;
        taken += paid.amount;
    }
    let paid = contract.cancel(1, 777).unwrap();
    held -= paid.amount;
    refunded += paid.amount;
    for id in 0..3 {
        let paid = contract.withdraw(id, 1_100).unwrap();
        held -= paid.amount;
        taken += paid.amount;
    }
    assert_eq!(held, 0);
    assert_eq!(taken + refunded, 3_000);
    assert_eq!(refunded, 323);
}
