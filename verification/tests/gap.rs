use relayer::state::{EthState, EthSyncGap};

#[test]
fn empty_gap_when_nothing_new_is_final() {
    // watermark 100, remote current 105, finalization period 10:
    // finalized remote 95 < start 101, so the gap is empty.
    let state = EthState { remote_current: 105, finalization_period: 10, local_finalized: 100 };
    assert_eq!(state.finalized(), 95);
    assert_eq!(state.eth_sync_gap(), None);
}

#[test]
fn normal_advance_derives_the_gap() {
    // watermark 100, remote current 120, finalization period 10:
    // finalized remote 110, gap [101, 110].
    let state = EthState { remote_current: 120, finalization_period: 10, local_finalized: 100 };
    assert_eq!(state.finalized(), 110);
    assert_eq!(state.eth_sync_gap(), Some(EthSyncGap { start: 101, end: 110 }));
}

#[test]
fn finalized_saturates_at_zero() {
    // A fresh remote chain below the finalization depth stays an empty gap
    // indefinitely; it is not an error.
    let state = EthState { remote_current: 7, finalization_period: 10, local_finalized: 0 };
    assert_eq!(state.finalized(), 0);
    assert_eq!(state.eth_sync_gap(), None);
}

#[test]
fn single_block_gap() {
    let state = EthState { remote_current: 111, finalization_period: 10, local_finalized: 100 };
    assert_eq!(state.eth_sync_gap(), Some(EthSyncGap { start: 101, end: 101 }));
}

#[test]
fn zero_finalization_period_uses_the_head() {
    let state = EthState { remote_current: 50, finalization_period: 0, local_finalized: 20 };
    assert_eq!(state.eth_sync_gap(), Some(EthSyncGap { start: 21, end: 50 }));
}
