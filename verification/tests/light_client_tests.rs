use hyperspace_cosmos::error::Error;
use hyperspace_cosmos::light_client::{
    bytes_eq, sum_power, Bisection, BisectionStep, Judgement, LightBlock, LightClientVerifier,
    TrustOptions, TrustThreshold, Validator, Verdict,
};
use hyperspace_cosmos::timestamp::Timestamp;

const LC_SECOND: u64 = 1_000_000_000;
const LC_GENESIS: u64 = 1_700_000_000 * LC_SECOND;

fn lc_validators(tag: u8, powers: &[u64]) -> Vec<Validator> {
    powers
        .iter()
        .enumerate()
        .map(|(i, p)| Validator { address: vec![tag, i as u8], power: *p })
        .collect()
}

fn lc_hash(tag: u8) -> Vec<u8> {
    vec![tag; 32]
}

/// A block at `height`, one second per block after the genesis time, whose
/// validator set is the set `tag` and whose next set is the set `next`, each
/// of three validators with power 10. `signed` says which of its own
/// validators signed.
fn lc_block(height: u64, tag: u8, next: u8, signed: [bool; 3]) -> LightBlock {
    LightBlock {
        height,
        time: Timestamp::from_nanoseconds(LC_GENESIS + height * LC_SECOND),
        app_hash: vec![height as u8, 0xaa],
        validators_hash: lc_hash(tag),
        next_validators_hash: lc_hash(next),
        validators: lc_validators(tag, &[10, 10, 10]),
        next_validators: lc_validators(next, &[10, 10, 10]),
        signatures: signed.to_vec(),
    }
}

fn lc_options() -> TrustOptions {
    TrustOptions {
        trust_threshold: TrustThreshold::one_third(),
        trusting_period: 64000,
        unbonding_period: 128000,
        max_clock_drift: 15,
    }
}

fn lc_now(height: u64) -> Timestamp {
    Timestamp::from_nanoseconds(LC_GENESIS + height * LC_SECOND + 2 * LC_SECOND)
}

fn lc_verifier_at(height: u64) -> LightClientVerifier {
    LightClientVerifier::new(lc_options(), lc_block(height, 1, 1, [true, true, true])).unwrap()
}

#[test]
fn bytes_are_compared_by_content() {
    assert!(bytes_eq(&vec![], &vec![]));
    assert!(bytes_eq(&vec![1, 2, 3], &vec![1, 2, 3]));
    assert!(!bytes_eq(&vec![1, 2, 3], &vec![1, 2, 4]));
    assert!(!bytes_eq(&vec![1, 2, 3], &vec![1, 2]));
}

#[test]
fn trust_threshold_is_a_strict_fraction_of_the_power() {
    let third = TrustThreshold::one_third();
    assert!(!third.is_enough_power(10, 30));
    assert!(third.is_enough_power(11, 30));
    assert!(!third.is_enough_power(0, 0));
    let two_thirds = TrustThreshold::two_thirds();
    assert!(!two_thirds.is_enough_power(20, 30));
    assert!(two_thirds.is_enough_power(21, 30));
    assert!(two_thirds.is_enough_power(u64::MAX, u64::MAX));
    assert!(!two_thirds.is_enough_power(u64::MAX / 2, u64::MAX));
    assert_eq!(TrustThreshold::default(), third);
}

#[test]
fn trust_parameters_are_validated() {
    assert!(TrustThreshold { numerator: 1, denominator: 3 }.is_valid());
    assert!(TrustThreshold { numerator: 3, denominator: 3 }.is_valid());
    assert!(!TrustThreshold { numerator: 1, denominator: 4 }.is_valid());
    assert!(!TrustThreshold { numerator: 4, denominator: 3 }.is_valid());
    assert!(!TrustThreshold { numerator: 0, denominator: 0 }.is_valid());
    assert!(!TrustThreshold { numerator: 0, denominator: 3 }.is_valid());
    assert!(TrustThreshold { numerator: u64::MAX, denominator: u64::MAX }.is_valid());
    assert!(lc_options().is_valid());
    assert!(!TrustOptions { trusting_period: 0, ..lc_options() }.is_valid());
    assert!(!TrustOptions { trusting_period: 128000, ..lc_options() }.is_valid());
    assert!(!TrustOptions { trusting_period: 128001, ..lc_options() }.is_valid());
    assert!(!TrustOptions {
        trust_threshold: TrustThreshold { numerator: 1, denominator: 4 },
        ..lc_options()
    }
    .is_valid());
}

#[test]
fn voting_power_is_tallied_exactly() {
    assert_eq!(sum_power(&lc_validators(1, &[])), Some(0));
    assert_eq!(sum_power(&lc_validators(1, &[1, 2, 3])), Some(6));
    assert_eq!(sum_power(&lc_validators(1, &[u64::MAX - 1, 1])), Some(u64::MAX));
    assert_eq!(sum_power(&lc_validators(1, &[u64::MAX, 1])), None);
    let mut block = lc_block(5, 1, 1, [true, false, true]);
    block.validators = lc_validators(1, &[5, 7, 11]);
    assert!(block.is_well_formed());
    assert_eq!(block.signed_power(), Some(16));
    assert!(block.is_committed());
    assert!(block.signed_by(&vec![1, 0]));
    assert!(!block.signed_by(&vec![1, 1]));
    assert!(block.signed_by(&vec![1, 2]));
    assert!(!block.signed_by(&vec![2, 0]));
    // the trusted set shares two validators with the block; one of them signed
    let trusted = vec![
        Validator { address: vec![1, 0], power: 100 },
        Validator { address: vec![1, 1], power: 200 },
        Validator { address: vec![9, 9], power: 400 },
    ];
    assert_eq!(block.overlap_power(&trusted), Some(100));
    // a validator listed twice in the block counts once for the trusted set
    block.validators.push(Validator { address: vec![1, 0], power: 1 });
    block.signatures.push(true);
    assert_eq!(block.overlap_power(&trusted), Some(100));
    assert_eq!(block.signed_power(), Some(17));
}

#[test]
fn malformed_blocks_have_no_tally() {
    let mut short = lc_block(5, 1, 1, [true, true, true]);
    short.signatures.pop();
    assert!(!short.is_well_formed());
    assert_eq!(short.signed_power(), None);
    assert_eq!(short.overlap_power(&lc_validators(1, &[1])), None);
    assert!(!short.is_committed());
    let mut heavy = lc_block(5, 1, 1, [true, true, true]);
    heavy.next_validators = lc_validators(1, &[u64::MAX, 1]);
    assert!(!heavy.is_well_formed());
    let fine = lc_block(5, 1, 1, [true, true, false]);
    assert_eq!(fine.overlap_power(&lc_validators(1, &[u64::MAX, 1])), None);
    assert!(!fine.is_committed());
    assert!(lc_block(5, 1, 1, [true, true, true]).is_committed());
}

#[test]
fn a_light_client_starts_from_a_committed_header() {
    let verifier = lc_verifier_at(100);
    assert_eq!(verifier.trusted_height(), 100);
    assert_eq!(verifier.options(), lc_options());
    assert_eq!(verifier.trusted(), &lc_block(100, 1, 1, [true, true, true]));
    assert_eq!(
        LightClientVerifier::new(lc_options(), lc_block(100, 1, 1, [true, true, false])),
        Err(Error::InvalidHeader)
    );
    let bad = TrustOptions { trusting_period: 0, ..lc_options() };
    assert_eq!(
        LightClientVerifier::new(bad, lc_block(100, 1, 1, [true, true, true])),
        Err(Error::InvalidClientState)
    );
}

#[test]
fn sequential_headers_advance_trust_and_replay_is_a_no_op() {
    let mut verifier = lc_verifier_at(100);
    let h1 = lc_block(101, 1, 1, [true, true, true]);
    let h2 = lc_block(102, 1, 1, [true, true, true]);
    assert_eq!(verifier.verify(h1, lc_now(101)), Ok(Verdict::Advanced));
    assert_eq!(verifier.trusted_height(), 101);
    assert_eq!(verifier.verify(h2, lc_now(102)), Ok(Verdict::Advanced));
    assert_eq!(verifier.trusted_height(), 102);
    let replay = lc_block(101, 1, 1, [true, true, true]);
    assert_eq!(verifier.judge_header(&replay, lc_now(102)), Judgement::AlreadyTrusted);
    assert_eq!(verifier.verify(replay, lc_now(102)), Ok(Verdict::AlreadyTrusted));
    assert_eq!(verifier.trusted_height(), 102);
    assert_eq!(verifier.trusted(), &lc_block(102, 1, 1, [true, true, true]));
    // a replay is no error even when everything else about it is wrong
    let stale = lc_block(102, 7, 7, [false, false, false]);
    assert_eq!(
        verifier.verify(stale, Timestamp::from_nanoseconds(u64::MAX)),
        Ok(Verdict::AlreadyTrusted)
    );
    assert_eq!(verifier.trusted(), &lc_block(102, 1, 1, [true, true, true]));
}

#[test]
fn expired_trust_is_reported_and_changes_nothing() {
    let mut verifier = lc_verifier_at(100);
    let block = lc_block(101, 1, 1, [true, true, true]);
    // the trusted header is exactly as old as the trusting period
    let expiry = Timestamp::from_nanoseconds(LC_GENESIS + 100 * LC_SECOND + 64000 * LC_SECOND);
    assert_eq!(verifier.judge_header(&block, expiry), Judgement::Expired);
    assert_eq!(verifier.verify(block, expiry), Err(Error::ExpiredTrust));
    assert_eq!(verifier.trusted_height(), 100);
    // one nanosecond earlier it is still trusted
    let block = lc_block(101, 1, 1, [true, true, true]);
    let just = Timestamp::from_nanoseconds(expiry.nanoseconds - 1);
    assert_eq!(verifier.verify(block, just), Ok(Verdict::Advanced));
}

#[test]
fn header_from_the_future_is_a_time_drift() {
    let mut verifier = lc_verifier_at(100);
    // the header lies exactly max_clock_drift ahead of the local clock
    let block = lc_block(130, 1, 1, [true, true, true]);
    let now = Timestamp::from_nanoseconds(LC_GENESIS + 115 * LC_SECOND);
    assert_eq!(verifier.verify(block, now), Err(Error::TimeDrift));
    assert_eq!(verifier.trusted_height(), 100);
    let block = lc_block(130, 1, 1, [true, true, true]);
    let now = Timestamp::from_nanoseconds(LC_GENESIS + 115 * LC_SECOND + 1);
    assert_eq!(verifier.verify(block, now), Ok(Verdict::Advanced));
    assert_eq!(verifier.trusted_height(), 130);
}

#[test]
fn too_little_voting_power_is_a_trust_error() {
    let mut verifier = lc_verifier_at(100);
    let block = lc_block(101, 1, 1, [true, true, false]);
    assert_eq!(verifier.judge_header(&block, lc_now(101)), Judgement::NotCommitted);
    assert_eq!(verifier.verify(block, lc_now(101)), Err(Error::Trust));
    assert_eq!(verifier.trusted_height(), 100);
    // the next attempt starts from the same trust anchor
    let block = lc_block(101, 1, 1, [true, true, true]);
    assert_eq!(verifier.verify(block, lc_now(101)), Ok(Verdict::Advanced));
}

#[test]
fn malformed_or_contradicting_headers_are_invalid() {
    let mut verifier = lc_verifier_at(100);
    // the direct successor must have the announced validator set
    let other_set = lc_block(101, 2, 2, [true, true, true]);
    assert_eq!(verifier.verify(other_set, lc_now(101)), Err(Error::InvalidHeader));
    // time must move forward
    let mut old = lc_block(101, 1, 1, [true, true, true]);
    old.time = Timestamp::from_nanoseconds(LC_GENESIS + 100 * LC_SECOND);
    assert_eq!(verifier.verify(old, lc_now(101)), Err(Error::InvalidHeader));
    // one signature flag per validator
    let mut short = lc_block(101, 1, 1, [true, true, true]);
    short.signatures.pop();
    assert_eq!(verifier.verify(short, lc_now(101)), Err(Error::InvalidHeader));
    assert_eq!(verifier.trusted_height(), 100);
}

#[test]
fn a_distant_header_needs_overlap_with_the_trusted_validators() {
    let mut verifier = lc_verifier_at(100);
    // same validators, far ahead: accepted by overlap
    let far = lc_block(200, 1, 1, [true, true, true]);
    assert_eq!(verifier.verify(far, lc_now(200)), Ok(Verdict::Advanced));
    // a new validator set, far ahead: not enough trust, nothing changes
    let strangers = lc_block(300, 2, 2, [true, true, true]);
    assert_eq!(verifier.judge_header(&strangers, lc_now(300)), Judgement::NotEnoughTrust);
    assert_eq!(verifier.verify(strangers, lc_now(300)), Ok(Verdict::NotEnoughTrust));
    assert_eq!(verifier.trusted_height(), 200);
    // exactly one third of the trusted power is not more than one third
    let mut third = lc_block(300, 2, 2, [true, true, true]);
    third.validators[0].address = vec![1, 0];
    assert_eq!(verifier.verify(third, lc_now(300)), Ok(Verdict::NotEnoughTrust));
    let mut more = lc_block(300, 2, 2, [true, true, true]);
    more.validators[0].address = vec![1, 0];
    more.validators[1].address = vec![1, 1];
    assert_eq!(verifier.verify(more, lc_now(300)), Ok(Verdict::Advanced));
    assert_eq!(verifier.trusted_height(), 300);
}

/// The chain of the bisection tests: the validator set changes at height
/// 150, and the block at 149 announces the change.
fn lc_chain_block(height: u64) -> LightBlock {
    if height < 149 {
        lc_block(height, 1, 1, [true, true, true])
    } else if height == 149 {
        lc_block(height, 1, 2, [true, true, true])
    } else {
        lc_block(height, 2, 2, [true, true, true])
    }
}

#[test]
fn bisection_bridges_a_change_of_validators() {
    let mut verifier = lc_verifier_at(100);
    let target = 200;
    let (mut bisection, mut step) = Bisection::start(&verifier, target);
    assert_eq!(step, BisectionStep::Fetch(200));
    let mut fetched = Vec::new();
    let mut trusted = verifier.trusted_height();
    while let BisectionStep::Fetch(height) = step {
        assert!(trusted < height && height <= target);
        fetched.push(height);
        assert!(fetched.len() < 100);
        step = bisection.on_block(&mut verifier, lc_chain_block(height), lc_now(200)).unwrap();
        assert!(verifier.trusted_height() >= trusted);
        trusted = verifier.trusted_height();
    }
    assert_eq!(step, BisectionStep::Done);
    assert_eq!(verifier.trusted_height(), 200);
    assert_eq!(fetched, vec![200, 150, 125, 200, 162, 143, 200, 171, 157, 150, 146, 200, 173, 159, 152, 149, 200]);
}

#[test]
fn bisection_has_nothing_to_do_below_the_trusted_height() {
    let verifier = lc_verifier_at(100);
    assert_eq!(Bisection::start(&verifier, 100).1, BisectionStep::Done);
    assert_eq!(Bisection::start(&verifier, 5).1, BisectionStep::Done);
    assert_eq!(Bisection::start(&verifier, 101).1, BisectionStep::Fetch(101));
}

#[test]
fn bisection_refuses_a_header_it_did_not_ask_for() {
    let mut verifier = lc_verifier_at(100);
    let (mut bisection, step) = Bisection::start(&verifier, 110);
    assert_eq!(step, BisectionStep::Fetch(110));
    assert_eq!(
        bisection.on_block(&mut verifier, lc_chain_block(105), lc_now(110)),
        Err(Error::InvalidHeader)
    );
    assert_eq!(verifier.trusted_height(), 100);
    assert_eq!(
        bisection.on_block(&mut verifier, lc_chain_block(110), lc_now(110)),
        Ok(BisectionStep::Done)
    );
    assert_eq!(verifier.trusted_height(), 110);
}

#[test]
fn bisection_passes_failures_on_and_keeps_the_trust_anchor() {
    let mut verifier = lc_verifier_at(100);
    let (mut bisection, _) = Bisection::start(&verifier, 110);
    // two thirds of the power are not more than two thirds
    let unsigned = lc_block(110, 1, 1, [true, true, false]);
    assert_eq!(bisection.on_block(&mut verifier, unsigned, lc_now(110)), Err(Error::Trust));
    assert_eq!(verifier.trusted_height(), 100);
    assert_eq!(
        bisection.on_block(&mut verifier, lc_chain_block(110), lc_now(110)),
        Ok(BisectionStep::Done)
    );
}
