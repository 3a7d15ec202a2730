//! What the training loop decides between its calls into the network and the
//! game: which action is the greedy one, where the error of a step enters
//! the loss gradient, when gathered gradients are applied, when the target
//! network is refreshed, and what the progress line shows.
//!
//! What a step of gradient descent does to the loss is stated for one dense
//! layer, in exact arithmetic over the real numbers.

use vstd::prelude::*;

verus! {

/// What a [`BatchCounter`] stands for.
pub struct BatchView {
    /// Number of backward passes a batch holds; at least one.
    pub batch_size: nat,
    /// Number of backward passes gathered since gradients were last
    /// applied; below `batch_size`.
    pub pending: nat,
}

impl BatchView {
    /// The counter is one that [`BatchCounter::new`] can have made.
    pub open spec fn wf(self) -> bool {
        0 <= self.pending < self.batch_size <= u16::MAX
    }

    /// Whether the next backward pass completes a batch.
    pub open spec fn completes(self) -> bool {
        self.pending + 1 == self.batch_size
    }

    /// The counter after one more backward pass.
    pub open spec fn recorded(self) -> BatchView {
        BatchView {
            batch_size: self.batch_size,
            pending: if self.completes() {
                0
            } else {
                self.pending + 1
            },
        }
    }

    /// The counter after `count` more backward passes.
    pub open spec fn recorded_times(self, count: nat) -> BatchView
        decreases count,
    {
        if count == 0 {
            self
        } else {
            self.recorded_times((count - 1) as nat).recorded()
        }
    }
}

/// Counts backward passes, so that gathered gradients are applied after
/// every full batch of them and at no other time. The count runs on from one
/// episode to the next.
pub struct BatchCounter {
    batch_size: u16,
    pending: u16,
}

impl View for BatchCounter {
    type V = BatchView;

    closed spec fn view(&self) -> BatchView {
        BatchView { batch_size: self.batch_size as nat, pending: self.pending as nat }
    }
}

impl BatchCounter {
    #[verifier::type_invariant]
    spec fn inv(self) -> bool {
        self@.wf()
    }

    /// A counter for batches of `batch_size` backward passes with none
    /// gathered yet. There is no batch of no passes.
    pub fn new(batch_size: u16) -> (counter: Option<Self>)
        ensures
            counter is Some <==> batch_size > 0,
            counter matches Some(c) ==> c@ == (BatchView {
                batch_size: batch_size as nat,
                pending: 0,
            }) && c@.wf(),
    {
        if batch_size == 0 {
            None
        } else {
            Some(BatchCounter { batch_size, pending: 0 })
        }
    }

    /// Counts one backward pass and says whether it completed a batch, in
    /// which case the gathered gradients are to be applied now and the count
    /// begins anew.
    pub fn record(&mut self) -> (due: bool)
        ensures
            due == old(self)@.completes(),
            final(self)@ == old(self)@.recorded(),
            final(self)@.wf(),
    {
        proof {
            use_type_invariant(&*self);
        }
        if self.pending + 1 == self.batch_size {
            self.pending = 0;
            true
        } else {
            self.pending = self.pending + 1;
            false
        }
    }

    /// Number of backward passes gathered since gradients were last applied.
    pub fn pending(&self) -> (n: u16)
        ensures
            n == self@.pending,
            n < self@.batch_size,
    {
        proof {
            use_type_invariant(self);
        }
        self.pending
    }

    /// Number of backward passes a batch holds.
    pub fn batch_size(&self) -> (n: u16)
        ensures
            n == self@.batch_size,
            n > 0,
    {
        proof {
            use_type_invariant(self);
        }
        self.batch_size
    }
}

/// Gradients are applied at every `batch_size`-th backward pass and at no
/// other: after `count` passes the counter holds what is left of the passes
/// gathered before and of `count` when full batches are taken out.
pub proof fn lemma_batches_are_full(counter: BatchView, count: nat)
    requires
        counter.wf(),
    ensures
        counter.recorded_times(count).wf(),
        counter.recorded_times(count).batch_size == counter.batch_size,
        counter.recorded_times(count).pending == (counter.pending + count) % counter.batch_size,
    decreases count,
{
    if count == 0 {
        assert(counter.pending % counter.batch_size == counter.pending) by (nonlinear_arith)
            requires
                0 <= counter.pending < counter.batch_size,
        ;
    } else {
        lemma_batches_are_full(counter, (count - 1) as nat);
        let before = counter.recorded_times((count - 1) as nat);
        let total: int = (counter.pending + count) as int;
        let size: int = counter.batch_size as int;
        assert(before.pending == (total - 1) % size);
        lemma_mod_successor(total - 1, size);
    }
}

/// The remainder of the successor is the successor of the remainder, or 0
/// where that would be the divisor.
proof fn lemma_mod_successor(x: int, d: int)
    requires
        x >= 0,
        d > 0,
    ensures
        (x + 1) % d == (if x % d + 1 == d {
            0
        } else {
            x % d + 1
        }),
{
    vstd::arithmetic::div_mod::lemma_fundamental_div_mod(x, d);
    vstd::arithmetic::div_mod::lemma_mod_bound(x, d);
    let q = x / d;
    assert(q * d == d * q && (q + 1) * d == d * q + d) by (nonlinear_arith);
    if x % d + 1 == d {
        vstd::arithmetic::div_mod::lemma_fundamental_div_mod_converse(x + 1, d, x / d + 1, 0);
    } else {
        vstd::arithmetic::div_mod::lemma_fundamental_div_mod_converse(
            x + 1,
            d,
            x / d,
            x % d + 1,
        );
    }
}

/// Whether the target network is refreshed after episode `episode`, counted
/// from 0, when it is refreshed every `period` episodes. With a period of 0
/// it never is.
pub fn refresh_due(episode: usize, period: usize) -> (due: bool)
    ensures
        due == (period > 0 && episode % period == 0),
{
    period > 0 && episode % period == 0
}

/// The loss gradient of one step: `error` at the index of the action that
/// was taken and `zero` at every other. There is none for an action beyond
/// the vector.
pub fn loss_gradient<S: Copy>(actions: usize, action: usize, error: S, zero: S) -> (gradient:
    Option<Vec<S>>)
    ensures
        gradient is Some <==> action < actions,
        gradient matches Some(g) ==> g@ == Seq::new(
            actions as nat,
            |i: int|
                if i == action {
                    error
                } else {
                    zero
                },
        ),
{
    if action >= actions {
        return None;
    }
    let mut gradient: Vec<S> = Vec::new();
    let mut i: usize = 0;
    while i < actions
        invariant
            0 <= i <= actions,
            gradient@.len() == i,
            forall|j: int|
                0 <= j < i ==> gradient@[j] == (if j == action {
                    error
                } else {
                    zero
                }),
        decreases actions - i,
    {
        if i == action {
            gradient.push(error);
        } else {
            gradient.push(zero);
        }
        i = i + 1;
    }
    proof {
        assert(gradient@ =~= Seq::new(
            actions as nat,
            |i: int|
                if i == action {
                    error
                } else {
                    zero
                },
        ));
    }
    Some(gradient)
}

/// Whether `action` is the greedy choice among `ranks`: its rank is the
/// greatest, and no later action has a rank as great.
pub open spec fn is_greedy(ranks: Seq<i32>, action: int) -> bool {
    &&& 0 <= action < ranks.len()
    &&& forall|i: int| 0 <= i < ranks.len() ==> ranks[i] <= ranks[action]
    &&& forall|i: int| action < i < ranks.len() ==> ranks[i] < ranks[action]
}

/// The action of the greatest predicted value, where `ranks` holds for each
/// action an integer that orders the actions as their predicted values do.
/// Of several actions of the greatest value it is the last. There is none
/// among no actions.
pub fn greedy(ranks: &Vec<i32>) -> (action: Option<usize>)
    ensures
        action is Some <==> ranks@.len() > 0,
        action matches Some(a) ==> is_greedy(ranks@, a as int),
{
    if ranks.len() == 0 {
        return None;
    }
    let mut best: usize = 0;
    let mut i: usize = 1;
    while i < ranks.len()
        invariant
            1 <= i <= ranks@.len(),
            0 <= best < i,
            forall|j: int| 0 <= j < i ==> ranks@[j] <= ranks@[best as int],
            forall|j: int| best < j < i ==> ranks@[j] < ranks@[best as int],
        decreases ranks@.len() - i,
    {
        if ranks[i] >= ranks[best] {
            best = i;
        }
        i = i + 1;
    }
    Some(best)
}

/// The action of an epsilon-greedy policy. A step that explores takes
/// `random_action`, which the caller has drawn, if it is one of the actions;
/// a step that does not explore takes the greedy action. There is no action
/// among no actions, and none beyond them.
pub fn select_action(explore: bool, random_action: usize, ranks: &Vec<i32>) -> (action: Option<
    usize,
>)
    ensures
        explore ==> action == (if random_action < ranks@.len() {
            Some(random_action)
        } else {
            None
        }),
        !explore ==> (action is Some <==> ranks@.len() > 0),
        !explore ==> (action matches Some(a) ==> is_greedy(ranks@, a as int)),
{
    if explore {
        if random_action < ranks.len() {
            Some(random_action)
        } else {
            None
        }
    } else {
        greedy(ranks)
    }
}

/// There is one greedy choice at most.
pub proof fn lemma_greedy_is_unique(ranks: Seq<i32>, a: int, b: int)
    requires
        is_greedy(ranks, a),
        is_greedy(ranks, b),
    ensures
        a == b,
{
    if a < b {
        assert(ranks[b] < ranks[a]);
        assert(ranks[a] <= ranks[b]);
    } else if b < a {
        assert(ranks[a] < ranks[b]);
        assert(ranks[b] <= ranks[a]);
    }
}

/// Number of iterations between two progress lines: the whole part of
/// `sessions / width`.
pub open spec fn log_interval(sessions: nat, width: nat) -> nat {
    if width == 0 {
        0
    } else {
        sessions / width
    }
}

/// Whether iteration `iteration` shows a progress line: the interval is not
/// 0, the iteration is a multiple of it, and the marks fit the line.
pub open spec fn shows_progress(iteration: nat, sessions: nat, width: nat) -> bool {
    let interval = log_interval(sessions, width);
    interval > 0 && iteration % interval == 0 && iteration / interval <= width
}

/// A progress line of `width` cells between brackets, the first `marks` of
/// them filled.
pub open spec fn progress_line(marks: nat, width: nat) -> Seq<char> {
    seq!['['] + Seq::new(
        width,
        |i: int|
            if i < marks {
                '#'
            } else {
                ' '
            },
    ) + seq![']']
}

/// The progress line that iteration `iteration` of `sessions` shows, if it
/// shows one: one filled cell for each interval that has passed.
pub fn progress_bar(iteration: u16, sessions: u16, width: u16) -> (line: Option<Vec<char>>)
    ensures
        line is Some <==> shows_progress(iteration as nat, sessions as nat, width as nat),
        line matches Some(l) ==> l@ == progress_line(
            iteration as nat / log_interval(sessions as nat, width as nat),
            width as nat,
        ),
{
    if width == 0 {
        return None;
    }
    let interval = sessions / width;
    if interval == 0 || iteration % interval != 0 {
        return None;
    }
    let marks = iteration / interval;
    if marks > width {
        return None;
    }
    let mut line: Vec<char> = Vec::new();
    line.push('[');
    let mut i: u16 = 0;
    while i < width
        invariant
            0 <= i <= width,
            line@.len() == i + 1,
            line@[0] == '[',
            forall|j: int|
                1 <= j <= i ==> #[trigger] line@[j] == (if j - 1 < marks {
                    '#'
                } else {
                    ' '
                }),
        decreases width - i,
    {
        if i < marks {
            line.push('#');
        } else {
            line.push(' ');
        }
        i = i + 1;
    }
    line.push(']');
    proof {
        assert(line@ =~= progress_line(marks as nat, width as nat));
    }
    Some(line)
}

/// The sum of the products of the components of two vectors of one length,
/// in exact arithmetic.
pub open spec fn dot(a: Seq<real>, b: Seq<real>) -> real
    recommends
        a.len() == b.len(),
    decreases a.len(),
{
    if a.len() == 0 {
        0real
    } else {
        dot(a.drop_last(), b.drop_last()) + a.last() * b.last()
    }
}

/// What one output of a dense layer without rectifier predicts for `input`,
/// in exact arithmetic: the weights of its row times the input, and its
/// bias.
pub open spec fn dense_prediction(weights: Seq<real>, bias: real, input: Seq<real>) -> real {
    dot(weights, input) + bias
}

/// The weights of that row after one step of gradient descent at the rate
/// `rate`, when the loss gradient holds `error` at this output: each weight
/// loses the rate times the error times its component of the input. The
/// bias loses the rate times the error.
pub open spec fn descended(weights: Seq<real>, input: Seq<real>, error: real, rate: real) -> Seq<
    real,
> {
    Seq::new(weights.len(), |i: int| weights[i] - rate * error * input[i])
}

/// The squared loss of a prediction against its target.
pub open spec fn squared_loss(prediction: real, target: real) -> real {
    (prediction - target) * (prediction - target)
}

/// One step of gradient descent lowers the squared loss of a single dense
/// layer without rectifier, in exact arithmetic: where the prediction is not
/// yet the target and the rate is positive and small enough for the input,
/// the prediction for the same input is strictly closer to the target after
/// the step. Of a chain of several layers, of rectifiers and of rounding
/// this says nothing.
pub proof fn lemma_descent_lowers_the_loss(
    weights: Seq<real>,
    bias: real,
    input: Seq<real>,
    target: real,
    rate: real,
)
    requires
        weights.len() == input.len(),
        dense_prediction(weights, bias, input) != target,
        rate > 0real,
        rate * (dot(input, input) + 1real) < 2real,
    ensures
        squared_loss(
            dense_prediction(
                descended(
                    weights,
                    input,
                    dense_prediction(weights, bias, input) - target,
                    rate,
                ),
                bias - rate * (dense_prediction(weights, bias, input) - target),
                input,
            ),
            target,
        ) < squared_loss(dense_prediction(weights, bias, input), target),
{
    let before = dense_prediction(weights, bias, input);
    let error = before - target;
    let after = dense_prediction(
        descended(weights, input, error, rate),
        bias - rate * error,
        input,
    );
    let norm = dot(input, input);
    lemma_dot_after_descent(weights, input, error, rate);
    lemma_dot_with_itself(input);
    let k = rate * (norm + 1real);
    assert(k > 0real) by (nonlinear_arith)
        requires
            k == rate * (norm + 1real),
            rate > 0real,
            norm >= 0real,
    ;
    assert(after - target == error * (1real - k)) by (nonlinear_arith)
        requires
            after == dot(weights, input) - rate * error * norm + (bias - rate * error),
            error == dot(weights, input) + bias - target,
            k == rate * (norm + 1real),
    ;
    let shrink = (1real - k) * (1real - k);
    assert(shrink < 1real) by (nonlinear_arith)
        requires
            shrink == (1real - k) * (1real - k),
            0real < k < 2real,
    ;
    assert((error * (1real - k)) * (error * (1real - k)) < error * error) by (nonlinear_arith)
        requires
            shrink == (1real - k) * (1real - k),
            shrink < 1real,
            error != 0real,
    ;
}

/// The step takes the rate times the error times the input's product with
/// itself off the product of weights and input.
proof fn lemma_dot_after_descent(weights: Seq<real>, input: Seq<real>, error: real, rate: real)
    requires
        weights.len() == input.len(),
    ensures
        dot(descended(weights, input, error, rate), input) == dot(weights, input) - rate * error
            * dot(input, input),
    decreases weights.len(),
{
    if weights.len() > 0 {
        let w = weights.drop_last();
        let x = input.drop_last();
        lemma_dot_after_descent(w, x, error, rate);
        assert(descended(weights, input, error, rate).drop_last() =~= descended(
            w,
            x,
            error,
            rate,
        ));
        let a = weights.last();
        let b = input.last();
        let c = rate * error;
        let inner = dot(w, x);
        let square = dot(x, x);
        assert(inner - c * square + (a - c * b) * b == inner + a * b - c * (square + b * b))
            by (nonlinear_arith);
    }
}

/// The product of a vector with itself is not negative.
proof fn lemma_dot_with_itself(input: Seq<real>)
    ensures
        dot(input, input) >= 0real,
    decreases input.len(),
{
    if input.len() > 0 {
        lemma_dot_with_itself(input.drop_last());
        let b = input.last();
        assert(b * b >= 0real) by (nonlinear_arith);
    }
}

} // verus!
