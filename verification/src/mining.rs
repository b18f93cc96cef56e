use crate::digest::{digest_le, is_canonical, max_limbs, min_limbs, Digest, DIGEST_LEN};
use crate::digest::{lemma_le_bounds, lemma_le_min_is_min, lemma_le_transitive, lemma_view_injective};
use crate::pool::{published, Failure, TemplateResponse};
use crate::tip5::{encode, hash_pair, hash_varlen, tip5_hash_pair, tip5_hash_varlen};
use rand::rngs::StdRng;
use rand::RngExt;
use vstd::prelude::*;

verus! {

/// Seconds between two readings of the hash counter.
pub const MONITOR_INTERVAL_SECS: u64 = 10;

/// Seconds between two template fetches.
pub const REFRESH_INTERVAL_SECS: u64 = 30;

/// `rand::rngs::StdRng`, the random number generator that a worker draws its
/// nonces from. Nothing is known of what it holds.
#[verifier::external_type_specification]
#[verifier::external_body]
pub struct ExStdRng(StdRng);

/// What is broadcast to every worker.
#[derive(Clone, Copy, Debug, PartialEq, Eq)]
pub enum WorkerMessage {
    /// The current template, or `None` when no work is available.
    NewTemplate(Option<TemplateResponse>),
    /// Every worker is to stop.
    Shutdown,
}

/// Where a worker stands.
#[derive(Clone, Copy, Debug, PartialEq, Eq)]
pub enum WorkerState {
    /// No template is held: nothing is scored.
    Idle,
    /// A template is held: each step scores one nonce against it.
    Active(TemplateResponse),
    /// A shutdown was observed: the worker is done for good.
    Stopped,
}

/// What the owner of a worker does after one step of it.
#[derive(Clone, Copy, Debug, PartialEq, Eq)]
pub enum WorkerAction {
    /// Leave the loop.
    Stop,
    /// Nothing was scored; poll again.
    Idle,
    /// One nonce was scored. Count it, and report `found`, the template's
    /// identifier with the nonce, if the nonce passed.
    Scored { found: Option<(Digest, Digest)> },
}

/// One independent hashing unit: its state and its source of nonces.
pub struct Worker {
    state: WorkerState,
    rng: StdRng,
}

/// Samples the hash counter at fixed intervals to estimate throughput.
pub struct Monitor {
    last_hashes: u64,
}

/// The hash that binds a nonce to a template's authentication paths: the
/// nonce is hashed and folded into the header path, and the hash of that
/// result is folded into the kernel path.
pub open spec fn mast_hash(kernel: Seq<Digest>, header: Seq<Digest>, nonce: Digest) -> Seq<u64> {
    let h0 = tip5_hash_pair(tip5_hash_varlen(nonce@), header[0]@);
    let h1 = tip5_hash_pair(h0, header[1]@);
    let h2 = tip5_hash_pair(header[2]@, h1);
    tip5_hash_pair(tip5_hash_pair(tip5_hash_varlen(h2), kernel[0]@), kernel[1]@)
}

/// Whether a score passes a threshold: it is at most the threshold.
pub open spec fn passes(score: Seq<u64>, threshold: Seq<u64>) -> bool {
    digest_le(score, threshold)
}

/// What a nonce with the given score yields under a template: the template's
/// identifier with the nonce if the score passes, nothing otherwise.
pub open spec fn verdict(template: TemplateResponse, nonce: Digest, score: Seq<u64>) -> Option<
    (Digest, Digest),
> {
    if passes(score, template.threshold@) {
        Some((template.id, nonce))
    } else {
        None
    }
}

/// How many scoring attempts a worker makes while it takes one step for each
/// entry of `polled`, an entry being what the worker finds on the broadcast
/// channel at that step.
pub open spec fn attempts(state: WorkerState, polled: Seq<Option<WorkerMessage>>) -> nat
    decreases polled.len(),
{
    if polled.len() == 0 {
        0
    } else {
        let next = state.observe(polled[0]);
        next.hashes() + attempts(next, polled.drop_first())
    }
}

/// The state of a worker after it has taken in each entry of `polled` in
/// turn.
pub open spec fn run(state: WorkerState, polled: Seq<Option<WorkerMessage>>) -> WorkerState
    decreases polled.len(),
{
    if polled.len() == 0 {
        state
    } else {
        run(state.observe(polled[0]), polled.drop_first())
    }
}

/// The state of a running worker that was last told of `template`.
pub open spec fn holding(template: Option<TemplateResponse>) -> WorkerState {
    match template {
        Some(template) => WorkerState::Active(template),
        None => WorkerState::Idle,
    }
}

/// The hash counter after the given actions, each counted once, starting
/// from `count`.
pub open spec fn counted(count: nat, actions: Seq<WorkerAction>) -> nat
    decreases actions.len(),
{
    if actions.len() == 0 {
        count
    } else {
        counted(count + actions[0].hashes(), actions.drop_first())
    }
}

/// Draws a nonce: `RngExt::random` of `rand`, with the distribution that
/// `twenty_first` gives for its digests.
///
/// Trusted: each element is drawn from the canonical range. Nothing else is
/// promised of the nonce.
#[verifier::external_body]
fn random_digest(rng: &mut StdRng) -> (result: Digest)
    ensures
        is_canonical(result@),
{
    let nonce: twenty_first::prelude::Digest = rng.random();
    Digest { values: nonce.values().map(|element| element.value()) }
}

/// Scores a nonce against a template's two kernel and three header
/// authentication-path digests.
pub fn fast_kernel_mast_hash(
    kernel_auth_path: [Digest; 2],
    header_auth_path: [Digest; 3],
    nonce: Digest,
) -> (result: Digest)
    ensures
        result@ == mast_hash(kernel_auth_path@, header_auth_path@, nonce),
        is_canonical(result@),
{
    let nonce_hash = hash_varlen(&encode(nonce));
    let header_mast_hash = hash_pair(nonce_hash, header_auth_path[0]);
    let header_mast_hash = hash_pair(header_mast_hash, header_auth_path[1]);
    let header_mast_hash = hash_pair(header_auth_path[2], header_mast_hash);
    hash_pair(
        hash_pair(hash_varlen(&encode(header_mast_hash)), kernel_auth_path[0]),
        kernel_auth_path[1],
    )
}

impl TemplateResponse {
    /// The score of a nonce under this template.
    pub open spec fn score(self, nonce: Digest) -> Seq<u64> {
        mast_hash(self.kernel_auth_path@, self.header_auth_path@, nonce)
    }

    /// Decides on a nonce whose score is known: it is reported, with this
    /// template's identifier, exactly if the score is at most the threshold.
    pub fn judge(&self, nonce: Digest, score: Digest) -> (result: Option<(Digest, Digest)>)
        ensures
            result == verdict(*self, nonce, score@),
    {
        if score.le(&self.threshold) {
            Some((self.id, nonce))
        } else {
            None
        }
    }

    /// Scores a nonce and decides on it.
    pub fn attempt(&self, nonce: Digest) -> (result: Option<(Digest, Digest)>)
        ensures
            result == verdict(*self, nonce, self.score(nonce)),
            is_canonical(self.score(nonce)),
    {
        let score = fast_kernel_mast_hash(self.kernel_auth_path, self.header_auth_path, nonce);
        self.judge(nonce, score)
    }
}

impl WorkerState {
    /// The state after one look at the broadcast channel. A stopped worker
    /// stays stopped. Otherwise a shutdown stops the worker, a template
    /// replaces whatever was held, the absence of a template leaves the
    /// worker idle, and an empty channel changes nothing.
    pub open spec fn observe(self, polled: Option<WorkerMessage>) -> WorkerState {
        match (self, polled) {
            (WorkerState::Stopped, _) => WorkerState::Stopped,
            (_, None) => self,
            (_, Some(WorkerMessage::Shutdown)) => WorkerState::Stopped,
            (_, Some(WorkerMessage::NewTemplate(Some(template)))) => WorkerState::Active(template),
            (_, Some(WorkerMessage::NewTemplate(None))) => WorkerState::Idle,
        }
    }

    /// The number of nonces that a worker scores in a step that ends in this
    /// state: one if it holds a template, none otherwise.
    pub open spec fn hashes(self) -> nat {
        if self is Active {
            1
        } else {
            0
        }
    }
}

impl WorkerAction {
    /// The action of a worker that scored `nonce` under `template`.
    pub open spec fn scored(template: TemplateResponse, nonce: Digest) -> WorkerAction {
        WorkerAction::Scored { found: verdict(template, nonce, template.score(nonce)) }
    }

    /// The number of scoring attempts that the action stands for.
    pub open spec fn hashes(self) -> nat {
        if self is Scored {
            1
        } else {
            0
        }
    }
}

impl View for Worker {
    type V = WorkerState;

    closed spec fn view(&self) -> WorkerState {
        self.state
    }
}

impl Worker {
    /// The generator that the worker draws its nonces from.
    pub closed spec fn generator(&self) -> StdRng {
        self.rng
    }

    /// A worker that holds no template yet and will draw its nonces from
    /// `rng`.
    pub fn new(rng: StdRng) -> (result: Worker)
        ensures
            result@ == WorkerState::Idle,
            result.generator() == rng,
    {
        Worker { state: WorkerState::Idle, rng }
    }

    /// Where the worker stands.
    pub fn state(&self) -> (result: WorkerState)
        ensures
            result == self@,
    {
        self.state
    }

    /// Takes in what was found on the broadcast channel, if anything. No
    /// nonce is drawn.
    pub fn observe(&mut self, polled: Option<WorkerMessage>)
        ensures
            final(self)@ == old(self)@.observe(polled),
            final(self).generator() == old(self).generator(),
    {
        match self.state {
            WorkerState::Stopped => {},
            _ => match polled {
                None => {},
                Some(WorkerMessage::Shutdown) => {
                    self.state = WorkerState::Stopped;
                },
                Some(WorkerMessage::NewTemplate(Some(template))) => {
                    self.state = WorkerState::Active(template);
                },
                Some(WorkerMessage::NewTemplate(None)) => {
                    self.state = WorkerState::Idle;
                },
            },
        }
    }

    /// One turn of the worker's loop: takes in what was found on the
    /// broadcast channel, then scores one fresh nonce if a template is held.
    ///
    /// The nonce is random, so the action of an active worker is that of
    /// scoring some nonce under the held template.
    pub fn step(&mut self, polled: Option<WorkerMessage>) -> (action: WorkerAction)
        ensures
            final(self)@ == old(self)@.observe(polled),
            action.hashes() == final(self)@.hashes(),
            match final(self)@ {
                WorkerState::Stopped => action == WorkerAction::Stop,
                WorkerState::Idle => action == WorkerAction::Idle,
                WorkerState::Active(template) => exists|nonce: Digest|
                    is_canonical(nonce@) && action == #[trigger] WorkerAction::scored(
                        template,
                        nonce,
                    ),
            },
    {
        self.observe(polled);
        match self.state {
            WorkerState::Stopped => WorkerAction::Stop,
            WorkerState::Idle => WorkerAction::Idle,
            WorkerState::Active(template) => {
                let nonce = random_digest(&mut self.rng);
                let found = template.attempt(nonce);
                assert(WorkerAction::Scored { found } == WorkerAction::scored(template, nonce));
                WorkerAction::Scored { found }
            },
        }
    }
}

impl Monitor {
    /// The counter's value at the last sample.
    pub closed spec fn last(&self) -> u64 {
        self.last_hashes
    }

    /// The counter's value at the last sample.
    pub fn last_sample(&self) -> (result: u64)
        ensures
            result == self.last(),
    {
        self.last_hashes
    }

    /// A monitor that has seen no hashes yet.
    pub fn new() -> (result: Monitor)
        ensures
            result.last() == 0,
    {
        Monitor { last_hashes: 0 }
    }

    /// Takes the counter's current value and returns the hashes per second
    /// since the last sample, rounded down. The counter never decreases.
    pub fn sample(&mut self, current: u64) -> (rate: u64)
        requires
            old(self).last() <= current,
        ensures
            rate == (current - old(self).last()) / (MONITOR_INTERVAL_SECS as int),
            final(self).last() == current,
    {
        let rate: u64 = (current - self.last_hashes) / MONITOR_INTERVAL_SECS;
        self.last_hashes = current;
        rate
    }
}

/// Scoring is a function of its inputs: two scores of the same nonce under the
/// same authentication paths are the same digest.
pub proof fn lemma_score_deterministic(
    kernel_auth_path: [Digest; 2],
    header_auth_path: [Digest; 3],
    nonce: Digest,
    first: Digest,
    second: Digest,
)
    requires
        first@ == mast_hash(kernel_auth_path@, header_auth_path@, nonce),
        second@ == mast_hash(kernel_auth_path@, header_auth_path@, nonce),
    ensures
        first == second,
{
    lemma_view_injective(first, second);
}

/// Passing is monotonic in the threshold: a score that passes a threshold
/// passes every threshold that is at least as large.
pub proof fn lemma_pass_monotonic(score: Seq<u64>, threshold: Seq<u64>, larger: Seq<u64>)
    requires
        passes(score, threshold),
        digest_le(threshold, larger),
    ensures
        passes(score, larger),
{
    lemma_le_transitive(score, threshold, larger);
}

/// Under the greatest threshold every nonce is reported.
pub proof fn lemma_greatest_threshold_accepts(template: TemplateResponse, nonce: Digest)
    requires
        template.threshold@ == max_limbs(),
        is_canonical(template.score(nonce)),
    ensures
        verdict(template, nonce, template.score(nonce)) == Some((template.id, nonce)),
{
    lemma_le_bounds(template.score(nonce));
}

/// Under the least threshold a nonce is reported only if its score is the
/// least digest itself.
pub proof fn lemma_least_threshold_accepts_least_only(template: TemplateResponse, nonce: Digest)
    requires
        template.threshold@ == min_limbs(),
        template.score(nonce).len() == DIGEST_LEN,
        verdict(template, nonce, template.score(nonce)) is Some,
    ensures
        template.score(nonce) == min_limbs(),
{
    lemma_le_min_is_min(template.score(nonce));
}

/// A worker that finds nothing on the channel stays as it is.
pub proof fn lemma_quiet_run(state: WorkerState, polled: Seq<Option<WorkerMessage>>)
    requires
        forall|i: int| 0 <= i < polled.len() ==> #[trigger] polled[i] is None,
    ensures
        run(state, polled) == state,
    decreases polled.len(),
{
    if polled.len() > 0 {
        let rest = polled.drop_first();
        assert(polled[0] is None);
        assert forall|i: int| 0 <= i < rest.len() implies #[trigger] rest[i] is None by {
            assert(rest[i] == polled[i + 1]);
        }
        lemma_quiet_run(state, rest);
    }
}

/// A running worker holds what the most recent template event that it has
/// observed told it, and nothing older: the last event wins.
pub proof fn lemma_holds_latest_template(
    state: WorkerState,
    polled: Seq<Option<WorkerMessage>>,
    latest: int,
    template: Option<TemplateResponse>,
)
    requires
        state != WorkerState::Stopped,
        forall|i: int|
            0 <= i < polled.len() ==> #[trigger] polled[i] != Some(WorkerMessage::Shutdown),
        0 <= latest < polled.len(),
        polled[latest] == Some(WorkerMessage::NewTemplate(template)),
        forall|i: int| latest < i < polled.len() ==> #[trigger] polled[i] is None,
    ensures
        run(state, polled) == holding(template),
    decreases polled.len(),
{
    let next = state.observe(polled[0]);
    let rest = polled.drop_first();
    assert(polled[0] != Some(WorkerMessage::Shutdown));
    if latest == 0 {
        assert forall|i: int| 0 <= i < rest.len() implies #[trigger] rest[i] is None by {
            assert(rest[i] == polled[i + 1]);
        }
        lemma_quiet_run(next, rest);
    } else {
        assert forall|i: int| 0 <= i < rest.len() implies #[trigger] rest[i] != Some(
            WorkerMessage::Shutdown,
        ) by {
            assert(rest[i] == polled[i + 1]);
        }
        assert forall|i: int| latest - 1 < i < rest.len() implies #[trigger] rest[i] is None by {
            assert(rest[i] == polled[i + 1]);
        }
        assert(rest[latest - 1] == polled[latest]);
        lemma_holds_latest_template(next, rest, latest - 1, template);
    }
}

/// A worker that holds no template makes no attempt for as long as no
/// template arrives, whatever else it finds on the channel.
pub proof fn lemma_without_template_no_attempts(
    state: WorkerState,
    polled: Seq<Option<WorkerMessage>>,
)
    requires
        !(state is Active),
        forall|i: int|
            0 <= i < polled.len() ==> !(#[trigger] polled[i] matches Some(
                WorkerMessage::NewTemplate(Some(_)),
            )),
    ensures
        attempts(state, polled) == 0,
    decreases polled.len(),
{
    if polled.len() > 0 {
        let next = state.observe(polled[0]);
        let rest = polled.drop_first();
        assert forall|i: int| 0 <= i < rest.len() implies !(#[trigger] rest[i] matches Some(
            WorkerMessage::NewTemplate(Some(_)),
        )) by {
            assert(rest[i] == polled[i + 1]);
        }
        lemma_without_template_no_attempts(next, rest);
    }
}

/// A new worker that never receives a template event makes no scoring
/// attempt, and so reports nothing.
pub proof fn lemma_never_templated_no_attempts(polled: Seq<Option<WorkerMessage>>)
    requires
        forall|i: int|
            0 <= i < polled.len() ==> !(#[trigger] polled[i] matches Some(
                WorkerMessage::NewTemplate(_),
            )),
    ensures
        attempts(WorkerState::Idle, polled) == 0,
{
    lemma_without_template_no_attempts(WorkerState::Idle, polled);
}

/// A stopped worker stays stopped and makes no further attempt, whatever
/// arrives on the channel.
pub proof fn lemma_stopped_is_final(polled: Seq<Option<WorkerMessage>>)
    ensures
        attempts(WorkerState::Stopped, polled) == 0,
        forall|event: Option<WorkerMessage>|
            #[trigger] WorkerState::Stopped.observe(event) == WorkerState::Stopped,
    decreases polled.len(),
{
    if polled.len() > 0 {
        lemma_stopped_is_final(polled.drop_first());
    }
}

/// From the step at which a worker observes a shutdown on, it makes no
/// scoring attempt, whatever it held before and whatever arrives after.
pub proof fn lemma_no_attempts_after_shutdown(
    state: WorkerState,
    later: Seq<Option<WorkerMessage>>,
)
    ensures
        state.observe(Some(WorkerMessage::Shutdown)) == WorkerState::Stopped,
        attempts(state, seq![Some(WorkerMessage::Shutdown)] + later) == 0,
{
    let polled = seq![Some(WorkerMessage::Shutdown)] + later;
    assert(polled[0] == Some(WorkerMessage::Shutdown));
    assert(polled.drop_first() =~= later);
    lemma_stopped_is_final(later);
}

/// When the absence of a template is broadcast, a worker stops scoring even
/// though it held a template before: it makes no attempt at that step, nor
/// later until a template arrives.
pub proof fn lemma_withdrawn_template_idles(
    template: TemplateResponse,
    later: Seq<Option<WorkerMessage>>,
)
    requires
        forall|i: int|
            0 <= i < later.len() ==> !(#[trigger] later[i] matches Some(
                WorkerMessage::NewTemplate(Some(_)),
            )),
    ensures
        WorkerState::Active(template).observe(Some(WorkerMessage::NewTemplate(None)))
            == WorkerState::Idle,
        attempts(
            WorkerState::Active(template),
            seq![Some(WorkerMessage::NewTemplate(None))] + later,
        ) == 0,
{
    let polled = seq![Some(WorkerMessage::NewTemplate(None))] + later;
    assert(polled[0] == Some(WorkerMessage::NewTemplate(None)));
    assert(polled.drop_first() =~= later);
    lemma_without_template_no_attempts(WorkerState::Idle, later);
}

/// A failed template fetch, whatever the failure, makes every worker that
/// has not stopped idle at its next look at the channel.
pub proof fn lemma_failed_fetch_idles(state: WorkerState, failure: Failure)
    requires
        state != WorkerState::Stopped,
    ensures
        published(Err(failure)) == WorkerMessage::NewTemplate(None),
        state.observe(Some(published(Err(failure)))) == WorkerState::Idle,
{
}

/// Counting the actions of a round adds one for each worker that scored.
pub proof fn lemma_counted_adds_hashes(count: nat, actions: Seq<WorkerAction>)
    requires
        forall|i: int| 0 <= i < actions.len() ==> (#[trigger] actions[i]).hashes() == 1,
    ensures
        counted(count, actions) == count + actions.len(),
    decreases actions.len(),
{
    if actions.len() > 0 {
        let rest = actions.drop_first();
        assert forall|i: int| 0 <= i < rest.len() implies (#[trigger] rest[i]).hashes() == 1 by {
            assert(rest[i] == actions[i + 1]);
        }
        lemma_counted_adds_hashes(count + actions[0].hashes(), rest);
    }
}

/// After one round in which each of a number of active workers takes one
/// step and finds nothing on the channel, the hash counter has grown by
/// exactly that number.
pub proof fn lemma_round_counts_each_worker(
    count: nat,
    states: Seq<WorkerState>,
    actions: Seq<WorkerAction>,
)
    requires
        actions.len() == states.len(),
        forall|i: int| 0 <= i < states.len() ==> #[trigger] states[i] is Active,
        forall|i: int|
            0 <= i < states.len() ==> (#[trigger] actions[i]).hashes() == states[i].observe(
                None,
            ).hashes(),
    ensures
        counted(count, actions) == count + states.len(),
{
    assert forall|i: int| 0 <= i < actions.len() implies (#[trigger] actions[i]).hashes() == 1 by {
        assert(states[i] is Active);
    }
    lemma_counted_adds_hashes(count, actions);
}

} // verus!
