//! The light client of the adapter: the trusted header, and the rules by
//! which a newer header takes its place.
//!
//! Signatures and hashes are checked by the caller. A [`LightBlock`] holds
//! what those checks found: which validators stand behind the header, with
//! which voting power.

use vstd::prelude::*;
use crate::error::Error;
use crate::timestamp::Timestamp;

verus! {

/// Whether two byte strings are the same.
pub fn bytes_eq(a: &Vec<u8>, b: &Vec<u8>) -> (same: bool)
    ensures
        same == (a@ == b@),
{
    if a.len() != b.len() {
        return false;
    }
    let mut i: usize = 0;
    while i < a.len()
        invariant
            i <= a.len(),
            a.len() == b.len(),
            forall|j: int| 0 <= j < i ==> a@[j] == b@[j],
        decreases a.len() - i,
    {
        if a[i] != b[i] {
            return false;
        }
        i = i + 1;
    }
    assert(a@ =~= b@);
    true
}

/// The fraction of the voting power of a trusted validator set that must
/// stand behind a header for the header to be accepted.
#[derive(Clone, Copy, Debug, PartialEq, Eq, Structural)]
pub struct TrustThreshold {
    pub numerator: u64,
    pub denominator: u64,
}

impl TrustThreshold {
    /// A threshold is a fraction of at least one third and at most one.
    pub open spec fn is_valid_spec(self) -> bool {
        &&& self.denominator > 0
        &&& self.numerator <= self.denominator
        &&& self.numerator * 3 >= self.denominator
    }

    /// Whether `signed` out of `total` voting power is more than this
    /// fraction.
    pub open spec fn is_enough_spec(self, signed: nat, total: nat) -> bool {
        signed * self.denominator > total * self.numerator
    }

    /// One third: at least one correct validator stands behind the header.
    pub fn one_third() -> (t: TrustThreshold)
        ensures
            t == (TrustThreshold { numerator: 1, denominator: 3 }),
            t.is_valid_spec(),
    {
        TrustThreshold { numerator: 1, denominator: 3 }
    }

    /// Two thirds: what a commit needs of the validators of its own block.
    pub fn two_thirds() -> (t: TrustThreshold)
        ensures
            t == (TrustThreshold { numerator: 2, denominator: 3 }),
            t.is_valid_spec(),
    {
        TrustThreshold { numerator: 2, denominator: 3 }
    }

    /// Whether the fraction is at least one third and at most one.
    #[verifier::when_used_as_spec(is_valid_spec)]
    pub fn is_valid(self) -> (r: bool)
        ensures
            r == self.is_valid_spec(),
    {
        self.denominator > 0 && self.numerator <= self.denominator && (self.numerator as u128) * 3
            >= self.denominator as u128
    }

    /// Whether `signed` out of `total` voting power is more than this
    /// fraction.
    pub fn is_enough_power(self, signed: u64, total: u64) -> (r: bool)
        ensures
            r == self.is_enough_spec(signed as nat, total as nat),
    {
        assert(signed * self.denominator <= u64::MAX * u64::MAX) by (nonlinear_arith)
            requires
                signed <= u64::MAX,
                self.denominator <= u64::MAX,
        ;
        assert(total * self.numerator <= u64::MAX * u64::MAX) by (nonlinear_arith)
            requires
                total <= u64::MAX,
                self.numerator <= u64::MAX,
        ;
        (signed as u128) * (self.denominator as u128) > (total as u128) * (self.numerator as u128)
    }
}

impl Default for TrustThreshold {
    /// One third.
    fn default() -> (t: TrustThreshold)
        ensures
            t == (TrustThreshold { numerator: 1, denominator: 3 }),
    {
        TrustThreshold { numerator: 1, denominator: 3 }
    }
}

/// The parameters by which a light client trusts: all periods in seconds.
#[derive(Clone, Copy, Debug, PartialEq, Eq, Structural)]
pub struct TrustOptions {
    pub trust_threshold: TrustThreshold,
    /// How long a header stays trusted after its own time.
    pub trusting_period: u64,
    /// How long validators stay accountable for what they signed.
    pub unbonding_period: u64,
    /// How far the time of a header may lie ahead of the local clock.
    pub max_clock_drift: u64,
}

impl TrustOptions {
    /// The threshold is valid, both periods are positive, and the trusting
    /// period is shorter than the unbonding period.
    pub open spec fn is_valid_spec(self) -> bool {
        &&& self.trust_threshold.is_valid_spec()
        &&& 0 < self.trusting_period < self.unbonding_period
    }

    /// Whether the parameters agree with each other.
    #[verifier::when_used_as_spec(is_valid_spec)]
    pub fn is_valid(self) -> (r: bool)
        ensures
            r == self.is_valid_spec(),
    {
        self.trust_threshold.is_valid() && 0 < self.trusting_period && self.trusting_period
            < self.unbonding_period
    }
}

/// A validator: its address and its voting power.
#[derive(Debug, PartialEq, Eq)]
pub struct Validator {
    pub address: Vec<u8>,
    pub power: u64,
}

/// The content of a [`Validator`].
pub struct ValidatorView {
    pub address: Seq<u8>,
    pub power: u64,
}

impl View for Validator {
    type V = ValidatorView;

    open spec fn view(&self) -> ValidatorView {
        ValidatorView { address: self.address@, power: self.power }
    }
}

/// The contents of a list of validators, in order.
pub open spec fn validators_view(validators: Seq<Validator>) -> Seq<ValidatorView> {
    Seq::new(validators.len(), |i: int| validators[i]@)
}

/// A header with the validator sets that belong to it, as far as the light
/// client reads them.
#[derive(Debug, PartialEq, Eq)]
pub struct LightBlock {
    pub height: u64,
    pub time: Timestamp,
    /// The hash of the application state after the block before this one.
    pub app_hash: Vec<u8>,
    /// The hash of the validator set of this block.
    pub validators_hash: Vec<u8>,
    /// The hash of the validator set of the next block.
    pub next_validators_hash: Vec<u8>,
    /// The validator set of this block.
    pub validators: Vec<Validator>,
    /// The validator set of the next block.
    pub next_validators: Vec<Validator>,
    /// For each validator of this block, in order: whether the commit holds
    /// a valid signature of that validator for this header.
    pub signatures: Vec<bool>,
}

/// The content of a [`LightBlock`].
pub struct LightBlockView {
    pub height: u64,
    pub time: Timestamp,
    pub app_hash: Seq<u8>,
    pub validators_hash: Seq<u8>,
    pub next_validators_hash: Seq<u8>,
    pub validators: Seq<ValidatorView>,
    pub next_validators: Seq<ValidatorView>,
    pub signatures: Seq<bool>,
}

impl View for LightBlock {
    type V = LightBlockView;

    open spec fn view(&self) -> LightBlockView {
        LightBlockView {
            height: self.height,
            time: self.time,
            app_hash: self.app_hash@,
            validators_hash: self.validators_hash@,
            next_validators_hash: self.next_validators_hash@,
            validators: validators_view(self.validators@),
            next_validators: validators_view(self.next_validators@),
            signatures: self.signatures@,
        }
    }
}

/// The voting power of the first `n` validators together.
pub open spec fn power_of_first(validators: Seq<ValidatorView>, n: nat) -> nat
    decreases n,
{
    if n == 0 {
        0
    } else {
        power_of_first(validators, (n - 1) as nat) + validators[n - 1].power as nat
    }
}

/// The voting power of all validators of a set together.
pub open spec fn total_power(validators: Seq<ValidatorView>) -> nat {
    power_of_first(validators, validators.len())
}

/// The voting power of those among the first `n` validators that signed.
pub open spec fn signed_power_of_first(
    validators: Seq<ValidatorView>,
    signatures: Seq<bool>,
    n: nat,
) -> nat
    decreases n,
{
    if n == 0 {
        0
    } else {
        signed_power_of_first(validators, signatures, (n - 1) as nat) + if signatures[n - 1] {
            validators[n - 1].power as nat
        } else {
            0
        }
    }
}

/// Whether a validator with this address signed the commit of the block.
pub open spec fn has_signer(block: LightBlockView, address: Seq<u8>) -> bool {
    exists|i: int|
        0 <= i < block.validators.len() && i < block.signatures.len() && block.signatures[i]
            && #[trigger] block.validators[i].address == address
}

/// The voting power of those among the first `n` of the `trusted`
/// validators that signed the commit of the block. Each trusted validator
/// counts once, however often its address occurs in the block.
pub open spec fn overlap_power_of_first(
    trusted: Seq<ValidatorView>,
    block: LightBlockView,
    n: nat,
) -> nat
    decreases n,
{
    if n == 0 {
        0
    } else {
        overlap_power_of_first(trusted, block, (n - 1) as nat) + if has_signer(
            block,
            trusted[n - 1].address,
        ) {
            trusted[n - 1].power as nat
        } else {
            0
        }
    }
}

impl LightBlockView {
    /// The voting power of the validators of this block that signed its
    /// commit.
    pub open spec fn signed_power(self) -> nat {
        signed_power_of_first(self.validators, self.signatures, self.validators.len())
    }

    /// The voting power of those of the `trusted` validators that signed
    /// the commit of this block.
    pub open spec fn overlap_power(self, trusted: Seq<ValidatorView>) -> nat {
        overlap_power_of_first(trusted, self, trusted.len())
    }

    /// A block is well formed where it says of each of its validators
    /// whether it signed, and the voting power of each of its two validator
    /// sets fits in 64 bits.
    pub open spec fn well_formed(self) -> bool {
        &&& self.signatures.len() == self.validators.len()
        &&& total_power(self.validators) <= u64::MAX
        &&& total_power(self.next_validators) <= u64::MAX
    }

    /// Whether validators with more than two thirds of the voting power of
    /// this block signed its commit.
    pub open spec fn committed(self) -> bool {
        self.signed_power() * 3 > total_power(self.validators) * 2
    }
}

/// The power of a part of a set is at most the power of the whole set.
pub proof fn lemma_power_monotone(validators: Seq<ValidatorView>, i: nat, n: nat)
    requires
        i <= n,
    ensures
        power_of_first(validators, i) <= power_of_first(validators, n),
    decreases n,
{
    if i < n {
        lemma_power_monotone(validators, i, (n - 1) as nat);
    }
}

/// Those who signed have at most the power of all.
pub proof fn lemma_signed_power_bound(
    validators: Seq<ValidatorView>,
    signatures: Seq<bool>,
    n: nat,
)
    ensures
        signed_power_of_first(validators, signatures, n) <= power_of_first(validators, n),
    decreases n,
{
    if n > 0 {
        lemma_signed_power_bound(validators, signatures, (n - 1) as nat);
    }
}

/// The trusted validators that signed have at most the power of all
/// trusted validators.
pub proof fn lemma_overlap_power_bound(trusted: Seq<ValidatorView>, block: LightBlockView, n: nat)
    ensures
        overlap_power_of_first(trusted, block, n) <= power_of_first(trusted, n),
    decreases n,
{
    if n > 0 {
        lemma_overlap_power_bound(trusted, block, (n - 1) as nat);
    }
}

/// The voting power of a validator set, or `None` where it does not fit in
/// 64 bits.
pub fn sum_power(validators: &Vec<Validator>) -> (r: Option<u64>)
    ensures
        r == (if total_power(validators_view(validators@)) <= u64::MAX {
            Some(total_power(validators_view(validators@)) as u64)
        } else {
            None
        }),
{
    let ghost all = validators_view(validators@);
    let mut sum: u64 = 0;
    let mut i: usize = 0;
    while i < validators.len()
        invariant
            i <= validators.len(),
            all == validators_view(validators@),
            sum == power_of_first(all, i as nat),
        decreases validators.len() - i,
    {
        let power = validators[i].power;
        proof {
            lemma_power_monotone(all, (i + 1) as nat, all.len());
        }
        if power > u64::MAX - sum {
            return None;
        }
        sum = sum + power;
        i = i + 1;
    }
    Some(sum)
}

impl LightBlock {
    /// Whether the block is well formed.
    pub fn is_well_formed(&self) -> (r: bool)
        ensures
            r == self@.well_formed(),
    {
        self.signatures.len() == self.validators.len() && sum_power(&self.validators).is_some()
            && sum_power(&self.next_validators).is_some()
    }

    /// The voting power of the validators of this block that signed its
    /// commit; `None` where the block is not well formed.
    pub fn signed_power(&self) -> (r: Option<u64>)
        ensures
            r == (if self@.well_formed() {
                Some(self@.signed_power() as u64)
            } else {
                None
            }),
            self@.well_formed() ==> self@.signed_power() <= u64::MAX,
    {
        if self.is_well_formed() {
            Some(self.tally_signed())
        } else {
            None
        }
    }

    /// The voting power of those of the `trusted` validators that signed
    /// the commit of this block; `None` where the block is not well formed
    /// or the power of the trusted validators does not fit in 64 bits.
    pub fn overlap_power(&self, trusted: &Vec<Validator>) -> (r: Option<u64>)
        ensures
            r == (if self@.well_formed() && total_power(validators_view(trusted@)) <= u64::MAX {
                Some(self@.overlap_power(validators_view(trusted@)) as u64)
            } else {
                None
            }),
    {
        if self.is_well_formed() && sum_power(trusted).is_some() {
            Some(self.tally_overlap(trusted))
        } else {
            None
        }
    }

    /// Whether the block is well formed and validators with more than two
    /// thirds of its voting power signed its commit.
    pub fn is_committed(&self) -> (r: bool)
        ensures
            r == (self@.well_formed() && self@.committed()),
    {
        self.is_well_formed() && self.has_commit()
    }

    fn tally_signed(&self) -> (r: u64)
        requires
            self@.well_formed(),
        ensures
            r == self@.signed_power(),
    {
        let ghost vals = self@.validators;
        let ghost sigs = self@.signatures;
        let mut sum: u64 = 0;
        let mut i: usize = 0;
        while i < self.validators.len()
            invariant
                i <= self.validators.len(),
                self@.well_formed(),
                vals == self@.validators,
                sigs == self@.signatures,
                sum == signed_power_of_first(vals, sigs, i as nat),
            decreases self.validators.len() - i,
        {
            proof {
                lemma_signed_power_bound(vals, sigs, (i + 1) as nat);
                lemma_power_monotone(vals, (i + 1) as nat, vals.len());
            }
            if self.signatures[i] {
                sum = sum + self.validators[i].power;
            }
            i = i + 1;
        }
        sum
    }

    /// Whether a validator with this address signed the commit.
    pub fn signed_by(&self, address: &Vec<u8>) -> (r: bool)
        ensures
            r == has_signer(self@, address@),
    {
        let mut i: usize = 0;
        while i < self.validators.len() && i < self.signatures.len()
            invariant
                i <= self.validators.len(),
                i <= self.signatures.len(),
                forall|j: int|
                    0 <= j < i ==> !(self@.signatures[j] && #[trigger] self@.validators[j].address
                        == address@),
            decreases self.validators.len() - i,
        {
            if self.signatures[i] && bytes_eq(&self.validators[i].address, address) {
                assert(self@.validators[i as int].address == address@);
                return true;
            }
            i = i + 1;
        }
        false
    }

    fn tally_overlap(&self, trusted: &Vec<Validator>) -> (r: u64)
        requires
            self@.well_formed(),
            total_power(validators_view(trusted@)) <= u64::MAX,
        ensures
            r == self@.overlap_power(validators_view(trusted@)),
    {
        let ghost all = validators_view(trusted@);
        let mut sum: u64 = 0;
        let mut i: usize = 0;
        while i < trusted.len()
            invariant
                i <= trusted.len(),
                self@.well_formed(),
                all == validators_view(trusted@),
                total_power(all) <= u64::MAX,
                sum == overlap_power_of_first(all, self@, i as nat),
            decreases trusted.len() - i,
        {
            proof {
                lemma_overlap_power_bound(all, self@, (i + 1) as nat);
                lemma_power_monotone(all, (i + 1) as nat, all.len());
            }
            if self.signed_by(&trusted[i].address) {
                sum = sum + trusted[i].power;
            }
            i = i + 1;
        }
        sum
    }

    fn has_commit(&self) -> (r: bool)
        requires
            self@.well_formed(),
        ensures
            r == self@.committed(),
    {
        let total = match sum_power(&self.validators) {
            Some(total) => total,
            None => 0,
        };
        TrustThreshold::two_thirds().is_enough_power(self.tally_signed(), total)
    }
}

/// What the light client makes of a header, given what it trusts.
#[derive(Clone, Copy, Debug, PartialEq, Eq, Structural)]
pub enum Judgement {
    /// The header is not above the trusted one: nothing to do.
    AlreadyTrusted,
    /// The trusted header is older than the trusting period allows.
    Expired,
    /// The time of the header lies too far ahead of the local clock.
    FromFuture,
    /// The header is malformed or contradicts the trusted header.
    Malformed,
    /// Too little of the trusted voting power stands behind the header to
    /// accept it from here; a header between the two may bridge the gap.
    NotEnoughTrust,
    /// Too little of the header's own voting power stands behind it.
    NotCommitted,
    /// The header can take the place of the trusted one.
    Accepted,
}

/// Judges a header against a trusted one at the local time `now`.
///
/// The checks are made in this order, and the first that fails decides:
/// a header at or below the trusted height is a replay; the trusted header
/// must still be within its trusting period; the new header must not lie
/// `max_clock_drift` or more ahead of `now`; it must be well formed and
/// later in time than the trusted one; as the direct successor its validator
/// set must be the one that the trusted header announced, otherwise more
/// than the trust threshold of the announced validators must have signed
/// it; and more than two thirds of its own validators must have signed it.
pub open spec fn judge(
    options: TrustOptions,
    trusted: LightBlockView,
    block: LightBlockView,
    now: Timestamp,
) -> Judgement {
    if block.height <= trusted.height {
        Judgement::AlreadyTrusted
    } else if !(now.nanoseconds < trusted.time.plus_seconds(options.trusting_period)) {
        Judgement::Expired
    } else if !(block.time.nanoseconds < now.plus_seconds(options.max_clock_drift)) {
        Judgement::FromFuture
    } else if !block.well_formed() || !(block.time.nanoseconds > trusted.time.nanoseconds) {
        Judgement::Malformed
    } else if block.height == trusted.height + 1 && block.validators_hash
        != trusted.next_validators_hash {
        Judgement::Malformed
    } else if block.height != trusted.height + 1 && !options.trust_threshold.is_enough_spec(
        block.overlap_power(trusted.next_validators),
        total_power(trusted.next_validators),
    ) {
        Judgement::NotEnoughTrust
    } else if !block.committed() {
        Judgement::NotCommitted
    } else {
        Judgement::Accepted
    }
}

/// What a verification did.
#[derive(Clone, Copy, Debug, PartialEq, Eq, Structural)]
pub enum Verdict {
    /// The header is the new trusted header.
    Advanced,
    /// The header was not above the trusted one; nothing has changed.
    AlreadyTrusted,
    /// The header cannot be accepted from the trusted one directly; nothing
    /// has changed. A header between the two may bridge the gap.
    NotEnoughTrust,
}

/// What a verification returns for each judgement.
pub open spec fn verdict_of(judgement: Judgement) -> Result<Verdict, Error> {
    match judgement {
        Judgement::Accepted => Ok(Verdict::Advanced),
        Judgement::AlreadyTrusted => Ok(Verdict::AlreadyTrusted),
        Judgement::NotEnoughTrust => Ok(Verdict::NotEnoughTrust),
        Judgement::Expired => Err(Error::ExpiredTrust),
        Judgement::FromFuture => Err(Error::TimeDrift),
        Judgement::Malformed => Err(Error::InvalidHeader),
        Judgement::NotCommitted => Err(Error::Trust),
    }
}

/// What a light client holds: its parameters and the header it trusts.
pub struct LightClientStateView {
    pub options: TrustOptions,
    pub trusted: LightBlockView,
}

impl LightClientStateView {
    /// The state after the client has seen `block` at the time `now`: the
    /// block takes the place of the trusted header where it is accepted,
    /// and nothing changes otherwise.
    pub open spec fn after(self, block: LightBlockView, now: Timestamp) -> LightClientStateView {
        if judge(self.options, self.trusted, block, now) == Judgement::Accepted {
            LightClientStateView { options: self.options, trusted: block }
        } else {
            self
        }
    }
}

/// The light client: it holds the trusted header and is the only one to
/// replace it.
#[derive(Debug, PartialEq, Eq)]
pub struct LightClientVerifier {
    options: TrustOptions,
    trusted: LightBlock,
}

impl View for LightClientVerifier {
    type V = LightClientStateView;

    closed spec fn view(&self) -> LightClientStateView {
        LightClientStateView { options: self.options, trusted: self.trusted@ }
    }
}

impl LightClientVerifier {
    #[verifier::type_invariant]
    spec fn consistent(self) -> bool {
        self.options.is_valid_spec() && self.trusted@.well_formed()
    }

    /// Starts a light client from a header that the caller trusts.
    ///
    /// Fails with `InvalidClientState` where the parameters contradict
    /// each other, and otherwise with `InvalidHeader` where the header is
    /// not well formed or less than two thirds of its validators signed it.
    pub fn new(options: TrustOptions, anchor: LightBlock) -> (r: Result<LightClientVerifier, Error>)
        ensures
            r is Ok <==> options.is_valid_spec() && anchor@.well_formed() && anchor@.committed(),
            r matches Ok(v) ==> v@ == (LightClientStateView { options, trusted: anchor@ }),
            r matches Err(e) ==> if !options.is_valid_spec() {
                e is InvalidClientState
            } else {
                e is InvalidHeader
            },
    {
        if !options.is_valid() {
            return Err(Error::InvalidClientState);
        }
        if !anchor.is_committed() {
            return Err(Error::InvalidHeader);
        }
        Ok(LightClientVerifier { options, trusted: anchor })
    }

    /// The parameters of the client, which never change.
    pub fn options(&self) -> (o: TrustOptions)
        ensures
            o == self@.options,
            o.is_valid_spec(),
    {
        proof {
            use_type_invariant(self);
        }
        self.options
    }

    /// The trusted header.
    pub fn trusted(&self) -> (b: &LightBlock)
        ensures
            b@ == self@.trusted,
            b@.well_formed(),
    {
        proof {
            use_type_invariant(self);
        }
        &self.trusted
    }

    /// The height of the trusted header.
    pub fn trusted_height(&self) -> (h: u64)
        ensures
            h == self@.trusted.height,
    {
        self.trusted.height
    }

    /// Judges a header without changing anything.
    pub fn judge_header(&self, block: &LightBlock, now: Timestamp) -> (j: Judgement)
        ensures
            j == judge(self@.options, self@.trusted, block@, now),
    {
        proof {
            use_type_invariant(self);
        }
        let trusted = &self.trusted;
        if block.height <= trusted.height {
            return Judgement::AlreadyTrusted;
        }
        if !now.is_before_plus(trusted.time, self.options.trusting_period) {
            return Judgement::Expired;
        }
        if !block.time.is_before_plus(now, self.options.max_clock_drift) {
            return Judgement::FromFuture;
        }
        if !block.is_well_formed() || !(block.time.nanoseconds > trusted.time.nanoseconds) {
            return Judgement::Malformed;
        }
        if block.height - 1 == trusted.height {
            if !bytes_eq(&block.validators_hash, &trusted.next_validators_hash) {
                return Judgement::Malformed;
            }
        } else {
            let total = match sum_power(&trusted.next_validators) {
                Some(total) => total,
                None => 0,
            };
            let overlap = block.tally_overlap(&trusted.next_validators);
            if !self.options.trust_threshold.is_enough_power(overlap, total) {
                return Judgement::NotEnoughTrust;
            }
        }
        if !block.has_commit() {
            return Judgement::NotCommitted;
        }
        Judgement::Accepted
    }

    /// Verifies a header at the local time `now`, and trusts it from then
    /// on where `judge` accepts it. In every other case the trusted header
    /// stays as it was: a header at or below the trusted height is no
    /// error, and a header that fails a check is reported.
    pub fn verify(&mut self, block: LightBlock, now: Timestamp) -> (r: Result<
        Verdict,
        Error,
    >)
        ensures
            r == verdict_of(judge(old(self)@.options, old(self)@.trusted, block@, now)),
            final(self)@ == old(self)@.after(block@, now),
    {
        proof {
            use_type_invariant(&*self);
        }
        let judgement = self.judge_header(&block, now);
        match judgement {
            Judgement::Accepted => {
                self.trusted = block;
                Ok(Verdict::Advanced)
            },
            Judgement::AlreadyTrusted => Ok(Verdict::AlreadyTrusted),
            Judgement::NotEnoughTrust => Ok(Verdict::NotEnoughTrust),
            Judgement::Expired => Err(Error::ExpiredTrust),
            Judgement::FromFuture => Err(Error::TimeDrift),
            Judgement::Malformed => Err(Error::InvalidHeader),
            Judgement::NotCommitted => Err(Error::Trust),
        }
    }
}

/// Trust never moves down, and it moves only to the header that was
/// verified: after any verification the trusted height is the height of
/// the accepted header, which is above the old one, or the old one.
pub proof fn lemma_trust_is_monotone(state: LightClientStateView, block: LightBlockView, now: Timestamp)
    ensures
        state.after(block, now).trusted.height >= state.trusted.height,
        state.after(block, now).options == state.options,
        judge(state.options, state.trusted, block, now) == Judgement::Accepted ==> state.after(
            block,
            now,
        ).trusted == block && block.height > state.trusted.height,
        judge(state.options, state.trusted, block, now) != Judgement::Accepted ==> state.after(
            block,
            now,
        ) == state,
{
}

/// Trust moves only to a header that has the voting power behind it: a
/// header that is accepted is committed by more than two thirds of its own
/// validators, and it either succeeds the trusted header directly with the
/// validator set that was announced, or more than the trust threshold of
/// the announced validators signed it. The trusted header was within its
/// trusting period, and the new one is later in time and not from the
/// future.
pub proof fn lemma_accepted_is_backed(
    options: TrustOptions,
    trusted: LightBlockView,
    block: LightBlockView,
    now: Timestamp,
)
    requires
        judge(options, trusted, block, now) == Judgement::Accepted,
    ensures
        block.height > trusted.height,
        block.well_formed(),
        block.committed(),
        block.height == trusted.height + 1 ==> block.validators_hash
            == trusted.next_validators_hash,
        block.height != trusted.height + 1 ==> options.trust_threshold.is_enough_spec(
            block.overlap_power(trusted.next_validators),
            total_power(trusted.next_validators),
        ),
        now.nanoseconds < trusted.time.plus_seconds(options.trusting_period),
        block.time.nanoseconds < now.plus_seconds(options.max_clock_drift),
        block.time.nanoseconds > trusted.time.nanoseconds,
{
}

/// Two headers verified one after the other, the second above the first,
/// leave the client trusting the second; seeing the first again afterwards
/// is no error and changes nothing, whatever the time.
pub proof fn lemma_sequential_then_replay(
    state: LightClientStateView,
    first: LightBlockView,
    second: LightBlockView,
    now_first: Timestamp,
    now_second: Timestamp,
    now_replay: Timestamp,
)
    requires
        first.height < second.height,
        judge(state.options, state.trusted, first, now_first) == Judgement::Accepted,
        judge(state.options, first, second, now_second) == Judgement::Accepted,
    ensures
        state.after(first, now_first).after(second, now_second).trusted.height == second.height,
        ({
            let end = state.after(first, now_first).after(second, now_second);
            &&& judge(end.options, end.trusted, first, now_replay) == Judgement::AlreadyTrusted
            &&& verdict_of(judge(end.options, end.trusted, first, now_replay)) == Ok::<
                Verdict,
                Error,
            >(Verdict::AlreadyTrusted)
            &&& end.after(first, now_replay) == end
        }),
{
}

/// A header that is rejected leaves the trusted header untouched, so the
/// next attempt starts from the same trust anchor.
pub proof fn lemma_rejection_keeps_trust(
    state: LightClientStateView,
    block: LightBlockView,
    now: Timestamp,
)
    requires
        verdict_of(judge(state.options, state.trusted, block, now)) is Err,
    ensures
        state.after(block, now) == state,
{
}

/// What the caller of a stepwise verification does next.
#[derive(Clone, Copy, Debug, PartialEq, Eq, Structural)]
pub enum BisectionStep {
    /// Fetch the header at this height and hand it to `on_block`.
    Fetch(u64),
    /// The target is trusted, or a header above it is.
    Done,
}

/// Where a stepwise verification stands: the height it is to reach, and
/// the height of the header it has asked for.
#[derive(Clone, Copy, Debug, PartialEq, Eq, Structural)]
pub struct BisectionView {
    pub target: u64,
    pub requested: u64,
}

/// The height to ask for after a header was judged, or `None` where the
/// verification is over. `trusted` is the trusted height after the
/// judgement, `height` the height of the header that was judged.
///
/// After a header was accepted the target itself is tried next. A header
/// that could not be accepted from the trusted one is followed by the
/// header halfway between the two.
pub open spec fn next_request(target: u64, trusted: u64, height: u64, judgement: Judgement)
    -> Option<u64> {
    if judgement == Judgement::NotEnoughTrust {
        Some((trusted + (height - trusted) / 2) as u64)
    } else if target <= trusted {
        None
    } else {
        Some(target)
    }
}

/// Verifies a header that cannot be accepted from the trusted header
/// directly: it asks for headers in between until one can be accepted,
/// and goes forward from there.
#[derive(Debug, PartialEq, Eq)]
pub struct Bisection {
    target: u64,
    requested: u64,
}

impl View for Bisection {
    type V = BisectionView;

    closed spec fn view(&self) -> BisectionView {
        BisectionView { target: self.target, requested: self.requested }
    }
}

impl Bisection {
    /// Starts a verification towards `target`. Nothing is to be done where
    /// the target is not above the trusted height; otherwise the header at
    /// the target is the first to ask for.
    pub fn start(verifier: &LightClientVerifier, target: u64) -> (r: (Bisection, BisectionStep))
        ensures
            r.0@ == (BisectionView { target, requested: target }),
            r.1 == (if target <= verifier@.trusted.height {
                BisectionStep::Done
            } else {
                BisectionStep::Fetch(target)
            }),
    {
        let step = if target <= verifier.trusted_height() {
            BisectionStep::Done
        } else {
            BisectionStep::Fetch(target)
        };
        (Bisection { target, requested: target }, step)
    }

    /// Takes the header that was asked for, has the light client verify it
    /// at the local time `now`, and says what to do next.
    ///
    /// A header of another height than the one asked for fails with
    /// `InvalidHeader` and changes nothing. Otherwise the light client
    /// changes as in `verify`, its failures are passed on, and
    /// `next_request` names the next height.
    pub fn on_block(
        &mut self,
        verifier: &mut LightClientVerifier,
        block: LightBlock,
        now: Timestamp,
    ) -> (r: Result<BisectionStep, Error>)
        ensures
            final(self)@.target == old(self)@.target,
            block.height != old(self)@.requested ==> r == Err::<BisectionStep, Error>(
                Error::InvalidHeader,
            ) && final(self)@ == old(self)@ && final(verifier)@ == old(verifier)@,
            block.height == old(self)@.requested ==> ({
                let judgement = judge(old(verifier)@.options, old(verifier)@.trusted, block@, now);
                let next = next_request(
                    old(self)@.target,
                    final(verifier)@.trusted.height,
                    block.height,
                    judgement,
                );
                &&& final(verifier)@ == old(verifier)@.after(block@, now)
                &&& match verdict_of(judgement) {
                    Err(e) => r == Err::<BisectionStep, Error>(e) && final(self)@ == old(self)@,
                    Ok(_) => match next {
                        Some(h) => r == Ok::<BisectionStep, Error>(BisectionStep::Fetch(h))
                            && final(self)@.requested == h,
                        None => r == Ok::<BisectionStep, Error>(BisectionStep::Done)
                            && final(self)@ == old(self)@,
                    },
                }
            }),
    {
        if block.height != self.requested {
            return Err(Error::InvalidHeader);
        }
        let height = block.height;
        match verifier.verify(block, now) {
            Err(e) => Err(e),
            Ok(verdict) => {
                let trusted = verifier.trusted_height();
                let next = match verdict {
                    Verdict::NotEnoughTrust => Some(trusted + (height - trusted) / 2),
                    _ => if self.target <= trusted {
                        None
                    } else {
                        Some(self.target)
                    },
                };
                match next {
                    Some(h) => {
                        self.requested = h;
                        Ok(BisectionStep::Fetch(h))
                    },
                    None => Ok(BisectionStep::Done),
                }
            },
        }
    }
}

/// A stepwise verification makes progress. Whenever it asks for another
/// header after judging the one it had asked for, the height it asks for
/// lies above the trusted height and not above the target; and either
/// the trusted height has grown, or the height it asks for has come down
/// towards the trusted height. So it comes to an end.
pub proof fn lemma_bisection_progress(
    target: u64,
    state: LightClientStateView,
    block: LightBlockView,
    now: Timestamp,
)
    requires
        state.trusted.height < block.height <= target,
        verdict_of(judge(state.options, state.trusted, block, now)) is Ok,
    ensures
        ({
            let judgement = judge(state.options, state.trusted, block, now);
            let trusted = state.after(block, now).trusted.height;
            match next_request(target, trusted, block.height, judgement) {
                Some(h) => {
                    &&& trusted < h <= target
                    &&& trusted > state.trusted.height || (trusted == state.trusted.height && h
                        < block.height)
                },
                None => trusted == target,
            }
        }),
{
}

} // verus!
