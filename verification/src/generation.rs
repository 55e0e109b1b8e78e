//! The control of a text generation.
//!
//! A generation starts from the tokens of a prompt and asks the model for at most
//! `sample_len` further tokens. At each step the caller feeds the model the tokens that
//! `next_input` names (the whole prompt first, then the token generated last, since the
//! key-value caches hold everything before it), samples one token from the model's output and
//! hands it to `push_sampled`. A stop token ends the generation without being kept; otherwise
//! the token is appended. The generation is done once it stopped or `sample_len` tokens were
//! generated; `tokens` is then what is decoded into text.
use vstd::prelude::*;

verus! {

/// What a step did.
#[derive(Clone, Copy, Debug, PartialEq, Eq, Structural)]
pub enum StepOutcome {
    /// The token was appended and more may follow.
    Continue,
    /// The token was a stop token; nothing was appended and the generation is done.
    Stopped,
    /// The token was appended and was the last one allowed.
    Finished,
}

/// A generation as mathematical values.
pub struct GenerationView {
    /// The tokens of the prompt.
    pub prompt: Seq<u32>,
    /// The tokens generated so far.
    pub generated: Seq<u32>,
    /// The most tokens that may be generated.
    pub sample_len: nat,
    /// The tokens that end the generation.
    pub stop_ids: Seq<u32>,
    /// A stop token was sampled.
    pub stopped: bool,
}

impl GenerationView {
    /// Nothing more is generated.
    pub open spec fn done(self) -> bool {
        self.stopped || self.generated.len() >= self.sample_len
    }

    /// The prompt followed by the generated tokens: what is decoded into text.
    pub open spec fn tokens(self) -> Seq<u32> {
        self.prompt + self.generated
    }

    /// The tokens fed to the model at the next step: the whole prompt at the first step,
    /// then the token generated last.
    pub open spec fn next_input(self) -> Seq<u32> {
        if self.generated.len() == 0 {
            self.prompt
        } else {
            seq![self.generated.last()]
        }
    }

    /// The generation after `token` was sampled; unchanged once it is done.
    pub open spec fn step(self, token: u32) -> GenerationView {
        if self.done() {
            self
        } else if self.stop_ids.contains(token) {
            GenerationView { stopped: true, ..self }
        } else {
            GenerationView { generated: self.generated.push(token), ..self }
        }
    }

    /// What a step with `token` reports.
    pub open spec fn step_outcome(self, token: u32) -> StepOutcome {
        if self.stop_ids.contains(token) {
            StepOutcome::Stopped
        } else if self.generated.len() + 1 >= self.sample_len {
            StepOutcome::Finished
        } else {
            StepOutcome::Continue
        }
    }

    /// What every reachable generation satisfies: the prompt is not empty, no more than
    /// `sample_len` tokens were generated, none of them is a stop token, a generation that
    /// stopped did so before its last allowed token, and all tokens fit in memory.
    pub open spec fn inv(self) -> bool {
        &&& self.prompt.len() > 0
        &&& self.generated.len() <= self.sample_len
        &&& self.prompt.len() + self.sample_len <= usize::MAX
        &&& forall|i: int|
            0 <= i < self.generated.len() ==> !self.stop_ids.contains(#[trigger] self.generated[i])
        &&& self.stopped ==> self.generated.len() < self.sample_len
    }
}

/// A generation that has not started.
pub open spec fn initial(prompt: Seq<u32>, sample_len: nat, stop_ids: Seq<u32>) -> GenerationView {
    GenerationView { prompt, generated: Seq::empty(), sample_len, stop_ids, stopped: false }
}

/// The generation after the tokens `sampled` were handed to it one by one.
pub open spec fn run(g: GenerationView, sampled: Seq<u32>) -> GenerationView
    decreases sampled.len(),
{
    if sampled.len() == 0 {
        g
    } else {
        run(g.step(sampled[0]), sampled.drop_first())
    }
}

/// The longest prefix of `sampled` that holds no stop token, cut at `n` tokens.
pub open spec fn kept_prefix(sampled: Seq<u32>, stop_ids: Seq<u32>, n: nat) -> Seq<u32>
    decreases sampled.len(),
{
    if sampled.len() == 0 || n == 0 || stop_ids.contains(sampled[0]) {
        Seq::empty()
    } else {
        seq![sampled[0]] + kept_prefix(sampled.drop_first(), stop_ids, (n - 1) as nat)
    }
}

/// A step keeps the invariant.
pub proof fn lemma_step_keeps_inv(g: GenerationView, token: u32)
    requires
        g.inv(),
    ensures
        g.step(token).inv(),
        g.step(token).prompt == g.prompt,
        g.step(token).stop_ids == g.stop_ids,
        g.step(token).sample_len == g.sample_len,
{
    if !g.done() && !g.stop_ids.contains(token) {
        let h = g.step(token);
        assert forall|i: int| 0 <= i < h.generated.len() implies !h.stop_ids.contains(
            #[trigger] h.generated[i],
        ) by {
            if i < g.generated.len() {
                assert(h.generated[i] == g.generated[i]);
            }
        }
    }
}

proof fn lemma_run_from(g: GenerationView, sampled: Seq<u32>)
    requires
        g.inv(),
    ensures
        run(g, sampled).inv(),
        run(g, sampled).prompt == g.prompt,
        run(g, sampled).sample_len == g.sample_len,
        run(g, sampled).stop_ids == g.stop_ids,
        g.stopped ==> run(g, sampled) == g,
        !g.stopped ==> run(g, sampled).generated == g.generated + kept_prefix(
            sampled,
            g.stop_ids,
            (g.sample_len - g.generated.len()) as nat,
        ),
        !g.stopped ==> (run(g, sampled).stopped <==> (kept_prefix(
            sampled,
            g.stop_ids,
            (g.sample_len - g.generated.len()) as nat,
        ).len() < (g.sample_len - g.generated.len()) && kept_prefix(
            sampled,
            g.stop_ids,
            (g.sample_len - g.generated.len()) as nat,
        ).len() < sampled.len())),
    decreases sampled.len(),
{
    let n = (g.sample_len - g.generated.len()) as nat;
    if sampled.len() == 0 {
        assert(g.generated + Seq::<u32>::empty() =~= g.generated);
    } else {
        let h = g.step(sampled[0]);
        lemma_step_keeps_inv(g, sampled[0]);
        lemma_run_from(h, sampled.drop_first());
        if !g.stopped {
            if n == 0 || g.stop_ids.contains(sampled[0]) {
                // the step ends the generation: nothing more is appended
                assert(g.generated + Seq::<u32>::empty() =~= g.generated);
                if n == 0 {
                    assert(h == g);
                    lemma_run_done(g, sampled.drop_first());
                }
            } else {
                assert(h.generated =~= g.generated.push(sampled[0]));
                assert(g.generated + (seq![sampled[0]] + kept_prefix(
                    sampled.drop_first(),
                    g.stop_ids,
                    (n - 1) as nat,
                )) =~= g.generated.push(sampled[0]) + kept_prefix(
                    sampled.drop_first(),
                    g.stop_ids,
                    (n - 1) as nat,
                ));
            }
        }
    }
}

proof fn lemma_run_done(g: GenerationView, sampled: Seq<u32>)
    requires
        g.done(),
    ensures
        run(g, sampled) == g,
    decreases sampled.len(),
{
    if sampled.len() > 0 {
        lemma_run_done(g, sampled.drop_first());
    }
}

/// Whatever tokens the model samples, a generation from a prompt yields the prompt followed
/// by the sampled tokens up to the first stop token, at most `sample_len` of them; and every
/// state it passes through satisfies the invariant.
pub proof fn lemma_generation_yields_prefix_before_stop(
    prompt: Seq<u32>,
    sample_len: nat,
    stop_ids: Seq<u32>,
    sampled: Seq<u32>,
)
    requires
        prompt.len() > 0,
        prompt.len() + sample_len <= usize::MAX,
    ensures
        run(initial(prompt, sample_len, stop_ids), sampled).inv(),
        run(initial(prompt, sample_len, stop_ids), sampled).tokens() == prompt + kept_prefix(
            sampled,
            stop_ids,
            sample_len,
        ),
{
    let g = initial(prompt, sample_len, stop_ids);
    lemma_run_from(g, sampled);
    assert(Seq::<u32>::empty() + kept_prefix(sampled, stop_ids, sample_len) =~= kept_prefix(
        sampled,
        stop_ids,
        sample_len,
    ));
}

/// Once a generation is done, further samples change nothing.
pub proof fn lemma_done_is_final(g: GenerationView, sampled: Seq<u32>)
    requires
        g.done(),
    ensures
        run(g, sampled) == g,
{
    lemma_run_done(g, sampled);
}

/// What a step reports and does: it reports a stop exactly when the sampled token is a stop
/// token, and then keeps nothing and ends the generation; otherwise it appends the token, and
/// reports the end exactly when the generated count reaches `sample_len`.
pub proof fn lemma_step_outcome_matches_step(g: GenerationView, token: u32)
    requires
        g.inv(),
        !g.done(),
    ensures
        (g.step_outcome(token) == StepOutcome::Stopped) <==> g.stop_ids.contains(token),
        g.step_outcome(token) == StepOutcome::Stopped ==> g.step(token).generated == g.generated
            && g.step(token).done(),
        g.step_outcome(token) != StepOutcome::Stopped ==> g.step(token).generated
            == g.generated.push(token),
        g.step_outcome(token) == StepOutcome::Finished ==> g.step(token).generated.len()
            == g.sample_len,
        g.step_outcome(token) == StepOutcome::Continue ==> g.step(token).generated.len()
            < g.sample_len && !g.step(token).done(),
        g.step(token).prompt == g.prompt,
{
}

/// `kept_prefix` is the longest prefix of the samples without a stop token, cut at `n`: it is
/// a prefix of `sampled`, at most `n` long, holds no stop token, and when it ends early the
/// sample right after it is a stop token.
pub proof fn lemma_kept_prefix_is_longest_stop_free_prefix(
    sampled: Seq<u32>,
    stop_ids: Seq<u32>,
    n: nat,
)
    ensures
        kept_prefix(sampled, stop_ids, n).len() <= n,
        kept_prefix(sampled, stop_ids, n).len() <= sampled.len(),
        kept_prefix(sampled, stop_ids, n) == sampled.take(
            kept_prefix(sampled, stop_ids, n).len() as int,
        ),
        forall|i: int|
            0 <= i < kept_prefix(sampled, stop_ids, n).len() ==> !stop_ids.contains(
                #[trigger] kept_prefix(sampled, stop_ids, n)[i],
            ),
        kept_prefix(sampled, stop_ids, n).len() < n && kept_prefix(sampled, stop_ids, n).len()
            < sampled.len() ==> stop_ids.contains(
            sampled[kept_prefix(sampled, stop_ids, n).len() as int],
        ),
    decreases sampled.len(),
{
    let k = kept_prefix(sampled, stop_ids, n);
    if sampled.len() == 0 || n == 0 || stop_ids.contains(sampled[0]) {
        assert(k =~= sampled.take(0));
    } else {
        let rest = sampled.drop_first();
        lemma_kept_prefix_is_longest_stop_free_prefix(rest, stop_ids, (n - 1) as nat);
        let r = kept_prefix(rest, stop_ids, (n - 1) as nat);
        assert(k == seq![sampled[0]] + r);
        assert(k =~= sampled.take(k.len() as int)) by {
            assert forall|i: int| 0 <= i < k.len() implies k[i] == sampled.take(k.len() as int)[i] by {
                if i > 0 {
                    assert(k[i] == r[i - 1]);
                    assert(r[i - 1] == rest.take(r.len() as int)[i - 1]);
                }
            }
        }
        assert forall|i: int| 0 <= i < k.len() implies !stop_ids.contains(#[trigger] k[i]) by {
            if i > 0 {
                assert(k[i] == r[i - 1]);
            }
        }
        if k.len() < n && k.len() < sampled.len() {
            assert(sampled[k.len() as int] == rest[r.len() as int]);
        }
    }
}

/// At every step of a generation, the model is fed the whole prompt while nothing has been
/// generated, and afterwards exactly one token: the one generated last, which is the last
/// sample kept.
pub proof fn lemma_reachable_input_is_last_token(
    prompt: Seq<u32>,
    sample_len: nat,
    stop_ids: Seq<u32>,
    sampled: Seq<u32>,
)
    requires
        prompt.len() > 0,
        prompt.len() + sample_len <= usize::MAX,
    ensures
        run(initial(prompt, sample_len, stop_ids), sampled).generated.len() == 0 ==> run(
            initial(prompt, sample_len, stop_ids),
            sampled,
        ).next_input() == prompt,
        run(initial(prompt, sample_len, stop_ids), sampled).generated.len() > 0 ==> {
            let g = run(initial(prompt, sample_len, stop_ids), sampled);
            &&& g.next_input().len() == 1
            &&& g.next_input() == seq![g.generated[g.generated.len() - 1]]
            &&& g.next_input()[0] == sampled[g.generated.len() - 1]
        },
{
    let g0 = initial(prompt, sample_len, stop_ids);
    let g = run(g0, sampled);
    lemma_run_from(g0, sampled);
    lemma_kept_prefix_is_longest_stop_free_prefix(sampled, stop_ids, sample_len);
    let k = kept_prefix(sampled, stop_ids, sample_len);
    assert(g.generated =~= k);
    if g.generated.len() > 0 {
        let j = g.generated.len() - 1;
        assert(k[j] == sampled.take(k.len() as int)[j]);
    }
}

/// A generation from a prompt is done exactly when `sample_len` samples were kept, or the
/// sample right after the kept ones is a stop token; it stopped exactly in the second case.
pub proof fn lemma_generation_done_exactly_at_budget_or_stop(
    prompt: Seq<u32>,
    sample_len: nat,
    stop_ids: Seq<u32>,
    sampled: Seq<u32>,
)
    requires
        prompt.len() > 0,
        prompt.len() + sample_len <= usize::MAX,
    ensures
        run(initial(prompt, sample_len, stop_ids), sampled).stopped <==> (kept_prefix(
            sampled,
            stop_ids,
            sample_len,
        ).len() < sample_len && kept_prefix(sampled, stop_ids, sample_len).len() < sampled.len()
            && stop_ids.contains(sampled[kept_prefix(sampled, stop_ids, sample_len).len() as int])),
        run(initial(prompt, sample_len, stop_ids), sampled).done() <==> (kept_prefix(
            sampled,
            stop_ids,
            sample_len,
        ).len() == sample_len || (kept_prefix(sampled, stop_ids, sample_len).len()
            < sampled.len() && stop_ids.contains(
            sampled[kept_prefix(sampled, stop_ids, sample_len).len() as int],
        ))),
{
    let g0 = initial(prompt, sample_len, stop_ids);
    lemma_run_from(g0, sampled);
    lemma_kept_prefix_is_longest_stop_free_prefix(sampled, stop_ids, sample_len);
    let k = kept_prefix(sampled, stop_ids, sample_len);
    assert(run(g0, sampled).generated =~= k);
    let g = run(g0, sampled);
    assert(g.stopped <==> (k.len() < sample_len && k.len() < sampled.len()));
    assert(g.generated.len() == k.len());
    assert(g.done() <==> (g.stopped || k.len() >= sample_len));
}

/// A generation in progress.
#[derive(Debug)]
pub struct Generation {
    /// The prompt followed by the tokens generated so far.
    tokens: Vec<u32>,
    prompt_len: usize,
    sample_len: usize,
    stop_ids: Vec<u32>,
    stopped: bool,
}

impl View for Generation {
    type V = GenerationView;

    closed spec fn view(&self) -> GenerationView {
        GenerationView {
            prompt: self.tokens@.take(self.prompt_len as int),
            generated: self.tokens@.skip(self.prompt_len as int),
            sample_len: self.sample_len as nat,
            stop_ids: self.stop_ids@,
            stopped: self.stopped,
        }
    }
}

/// Whether `token` is one of `ids`.
fn contains_token(ids: &Vec<u32>, token: u32) -> (b: bool)
    ensures
        b == ids@.contains(token),
{
    let mut i: usize = 0;
    while i < ids.len()
        invariant
            i <= ids@.len(),
            forall|j: int| 0 <= j < i ==> ids@[j] != token,
        decreases ids@.len() - i,
    {
        if ids[i] == token {
            assert(ids@[i as int] == token);
            return true;
        }
        i = i + 1;
    }
    false
}

impl Generation {
    /// The generation is well formed.
    pub closed spec fn wf(&self) -> bool {
        &&& self.prompt_len <= self.tokens@.len()
        &&& self@.inv()
    }

    /// Starts a generation from the tokens of a prompt, allowing at most `sample_len` further
    /// tokens and ending at any of `stop_ids`.
    pub fn new(prompt: Vec<u32>, sample_len: usize, stop_ids: Vec<u32>) -> (g: Self)
        requires
            prompt@.len() > 0,
            prompt@.len() + sample_len <= usize::MAX,
        ensures
            g.wf(),
            g@ == initial(prompt@, sample_len as nat, stop_ids@),
            g@.prompt == prompt@,
            g@.generated.len() == 0,
            g@.sample_len == sample_len,
            g@.stop_ids == stop_ids@,
            !g@.stopped,
    {
        let prompt_len = prompt.len();
        let g = Generation { tokens: prompt, prompt_len, sample_len, stop_ids, stopped: false };
        assert(g.tokens@.take(prompt_len as int) =~= g.tokens@);
        assert(g.tokens@.skip(prompt_len as int) =~= Seq::<u32>::empty());
        g
    }

    /// Nothing more is generated.
    pub fn is_done(&self) -> (b: bool)
        requires
            self.wf(),
        ensures
            b == self@.done(),
            b <==> (self@.stopped || self@.generated.len() >= self@.sample_len),
    {
        self.stopped || self.tokens.len() - self.prompt_len >= self.sample_len
    }

    /// Number of tokens of the prompt.
    pub fn prompt_len(&self) -> (n: usize)
        requires
            self.wf(),
        ensures
            n == self@.prompt.len(),
    {
        self.prompt_len
    }

    /// Number of tokens generated so far.
    pub fn num_tokens(&self) -> (n: usize)
        requires
            self.wf(),
        ensures
            n == self@.generated.len(),
    {
        self.tokens.len() - self.prompt_len
    }

    /// The tokens to feed the model at the next step.
    pub fn next_input(&self) -> (input: Vec<u32>)
        requires
            self.wf(),
        ensures
            input@ == self@.next_input(),
            self@.generated.len() == 0 ==> input@ == self@.prompt,
            self@.generated.len() > 0 ==> input@ == seq![self@.generated.last()],
    {
        let n = self.tokens.len();
        if n == self.prompt_len {
            let mut input: Vec<u32> = Vec::new();
            let mut i: usize = 0;
            while i < n
                invariant
                    n == self.tokens@.len(),
                    i <= n,
                    input@ == self.tokens@.take(i as int),
                decreases n - i,
            {
                input.push(self.tokens[i]);
                i = i + 1;
                assert(input@ =~= self.tokens@.take(i as int));
            }
            assert(self.tokens@.take(n as int) =~= self.tokens@.take(self.prompt_len as int));
            input
        } else {
            let mut input: Vec<u32> = Vec::new();
            input.push(self.tokens[n - 1]);
            assert(input@ =~= seq![self@.generated.last()]);
            input
        }
    }

    /// Hands the generation the token sampled from the model's output: a stop token ends
    /// it, any other token is appended.
    pub fn push_sampled(&mut self, token: u32) -> (outcome: StepOutcome)
        requires
            old(self).wf(),
            !old(self)@.done(),
        ensures
            final(self).wf(),
            final(self)@ == old(self)@.step(token),
            outcome == old(self)@.step_outcome(token),
            final(self)@.done() <==> outcome != StepOutcome::Continue,
            final(self)@.prompt == old(self)@.prompt,
            (outcome == StepOutcome::Stopped) <==> old(self)@.stop_ids.contains(token),
            outcome == StepOutcome::Stopped ==> final(self)@.generated == old(self)@.generated,
            outcome != StepOutcome::Stopped ==> final(self)@.generated == old(
                self,
            )@.generated.push(token),
            outcome == StepOutcome::Finished ==> final(self)@.generated.len()
                == old(self)@.sample_len,
            outcome == StepOutcome::Continue ==> final(self)@.generated.len()
                < old(self)@.sample_len,
    {
        proof {
            lemma_step_keeps_inv(self@, token);
        }
        if contains_token(&self.stop_ids, token) {
            self.stopped = true;
            return StepOutcome::Stopped;
        }
        let ghost before = self.tokens@;
        self.tokens.push(token);
        proof {
            assert(self.tokens@.take(self.prompt_len as int) =~= before.take(
                self.prompt_len as int,
            ));
            assert(self.tokens@.skip(self.prompt_len as int) =~= before.skip(
                self.prompt_len as int,
            ).push(token));
        }
        if self.tokens.len() - self.prompt_len >= self.sample_len {
            StepOutcome::Finished
        } else {
            StepOutcome::Continue
        }
    }

    /// The prompt followed by the generated tokens.
    pub fn tokens(&self) -> (tokens: Vec<u32>)
        requires
            self.wf(),
        ensures
            tokens@ == self@.tokens(),
            tokens@ == self@.prompt + self@.generated,
    {
        assert(self.tokens@ =~= self@.tokens());
        self.tokens.clone()
    }
}

} // verus!
