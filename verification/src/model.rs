//! A feed-forward network as an ordered chain of layers.
//!
//! What a single layer computes is the layer's own business and is done in
//! the layer's own arithmetic. The model decides which layer is fed what, in
//! which order, and refuses chains and vectors whose sizes do not fit.

use vstd::prelude::*;

verus! {

/// One layer of a network.
///
/// A layer has a fixed number of inputs and outputs. It keeps the output of
/// its last forward pass and the gradient with respect to its input that its
/// last backward pass found; both are working buffers that the next pass
/// overwrites.
///
/// The spec functions are what the contracts of the methods speak of. An
/// implementation gives them the meaning of its own methods: the four that
/// look at a layer say what it holds, and the three that compare a layer
/// with the layer after a pass say what the pass may have made of it.
/// Nothing is known of them where a layer is used through this trait. They
/// have bodies here only so that a layer written in plain Rust, which cannot
/// state them, can implement the trait; a layer that is verified states
/// each of them anew.
pub trait Layer: Sized {
    /// The numbers the layer computes with.
    type Scalar;

    /// Length of the vectors the layer takes.
    open spec fn input_len(&self) -> nat {
        arbitrary()
    }

    /// Length of the vectors the layer gives.
    open spec fn output_len(&self) -> nat {
        arbitrary()
    }

    /// The output of the last forward pass.
    open spec fn output(&self) -> Seq<Self::Scalar> {
        arbitrary()
    }

    /// The gradient with respect to the input, as the last backward pass
    /// found it.
    open spec fn input_gradient(&self) -> Seq<Self::Scalar> {
        arbitrary()
    }

    /// Whether `after` is this layer after a forward pass on `input`.
    open spec fn forwarded(self, input: Seq<Self::Scalar>, after: Self) -> bool {
        arbitrary()
    }

    /// Whether `after` is this layer after a backward pass, where `input` is
    /// what the layer was fed and `output_gradient` is the gradient with
    /// respect to its output.
    open spec fn propagated(
        self,
        input: Seq<Self::Scalar>,
        output_gradient: Seq<Self::Scalar>,
        after: Self,
    ) -> bool {
        arbitrary()
    }

    /// Whether `after` is this layer after its gathered gradients were
    /// applied at `learning_rate`.
    open spec fn updated(self, learning_rate: Self::Scalar, after: Self) -> bool {
        arbitrary()
    }

    /// Length of the vectors the layer takes.
    fn inputs(&self) -> (n: usize)
        ensures
            n == self.input_len(),
    ;

    /// Length of the vectors the layer gives.
    fn outputs(&self) -> (n: usize)
        ensures
            n == self.output_len(),
    ;

    /// The output of the last forward pass.
    fn activation(&self) -> (a: &Vec<Self::Scalar>)
        ensures
            a@ == self.output(),
    ;

    /// The gradient with respect to the input, as the last backward pass
    /// found it.
    fn prev_derivative(&self) -> (d: &Vec<Self::Scalar>)
        ensures
            d@ == self.input_gradient(),
    ;

    /// Computes the output for `prev_activation` and keeps it. The sizes and
    /// the input gradient stay as they are.
    fn forward(&mut self, prev_activation: &Vec<Self::Scalar>)
        requires
            prev_activation@.len() == old(self).input_len(),
        ensures
            old(self).forwarded(prev_activation@, *final(self)),
            final(self).input_len() == old(self).input_len(),
            final(self).output_len() == old(self).output_len(),
            final(self).output().len() == old(self).output_len(),
            final(self).input_gradient() == old(self).input_gradient(),
    ;

    /// Computes the gradient with respect to the input and keeps it, and
    /// adds the gradients with respect to the parameters to those gathered
    /// so far. `prev_activation` is what the layer was fed, `next_derivative`
    /// the gradient with respect to its output. The sizes and the kept
    /// output stay as they are.
    fn backward(&mut self, prev_activation: &Vec<Self::Scalar>, next_derivative: &Vec<Self::Scalar>)
        requires
            prev_activation@.len() == old(self).input_len(),
            next_derivative@.len() == old(self).output_len(),
        ensures
            old(self).propagated(prev_activation@, next_derivative@, *final(self)),
            final(self).input_len() == old(self).input_len(),
            final(self).output_len() == old(self).output_len(),
            final(self).input_gradient().len() == old(self).input_len(),
            final(self).output() == old(self).output(),
    ;

    /// Takes the gathered gradients, scaled by `learning_rate`, off the
    /// parameters and clears them. The sizes and both buffers stay as they
    /// are.
    fn apply_gradient(&mut self, learning_rate: &Self::Scalar)
        ensures
            old(self).updated(*learning_rate, *final(self)),
            final(self).input_len() == old(self).input_len(),
            final(self).output_len() == old(self).output_len(),
            final(self).output() == old(self).output(),
            final(self).input_gradient() == old(self).input_gradient(),
    ;
}

/// Both buffers of a layer have the length that goes with its size.
pub open spec fn layer_valid<L: Layer>(layer: L) -> bool {
    &&& layer.output().len() == layer.output_len()
    &&& layer.input_gradient().len() == layer.input_len()
}

/// Every layer gives vectors of the length that the next one takes.
pub open spec fn chained<L: Layer>(layers: Seq<L>) -> bool {
    forall|i: int|
        0 <= i < layers.len() - 1 ==> (#[trigger] layers[i]).output_len() == layers[i
            + 1].input_len()
}

/// Every layer is valid.
pub open spec fn all_valid<L: Layer>(layers: Seq<L>) -> bool {
    forall|i: int| 0 <= i < layers.len() ==> layer_valid(#[trigger] layers[i])
}

/// Two chains have as many layers, and layer for layer the same sizes.
pub open spec fn same_shapes<L: Layer>(a: Seq<L>, b: Seq<L>) -> bool {
    &&& a.len() == b.len()
    &&& forall|i: int|
        0 <= i < a.len() ==> (#[trigger] a[i]).input_len() == b[i].input_len() && a[i].output_len()
            == b[i].output_len()
}

/// Two chains have as many layers, and layer for layer the same kept
/// output.
pub open spec fn same_outputs<L: Layer>(a: Seq<L>, b: Seq<L>) -> bool {
    &&& a.len() == b.len()
    &&& forall|i: int| 0 <= i < a.len() ==> (#[trigger] a[i]).output() == b[i].output()
}

/// Two chains have as many layers, and layer for layer the same kept input
/// gradient.
pub open spec fn same_input_gradients<L: Layer>(a: Seq<L>, b: Seq<L>) -> bool {
    &&& a.len() == b.len()
    &&& forall|i: int|
        0 <= i < a.len() ==> (#[trigger] a[i]).input_gradient() == b[i].input_gradient()
}

/// What layer `i` of a chain is fed on the way forward: `input` if it is the
/// first layer, and else the output kept by the layer before it.
pub open spec fn fed<L: Layer>(layers: Seq<L>, input: Seq<L::Scalar>, i: int) -> Seq<L::Scalar>
    recommends
        0 <= i < layers.len(),
{
    if i <= 0 {
        input
    } else {
        layers[i - 1].output()
    }
}

/// What is handed back to layer `i` of a chain on the way back: `gradient`
/// if it is the last layer, and else the input gradient kept by the layer
/// after it.
pub open spec fn handed_back<L: Layer>(layers: Seq<L>, gradient: Seq<L::Scalar>, i: int) -> Seq<
    L::Scalar,
>
    recommends
        0 <= i < layers.len(),
{
    if i >= layers.len() - 1 {
        gradient
    } else {
        layers[i + 1].input_gradient()
    }
}

/// Whether `after` is the chain `before` after a forward pass on `input`:
/// every layer has made its own forward pass, the first on `input` and each
/// other on the output that the pass has left in the layer before it.
pub open spec fn forward_pass<L: Layer>(
    before: Seq<L>,
    input: Seq<L::Scalar>,
    after: Seq<L>,
) -> bool {
    &&& after.len() == before.len()
    &&& forall|i: int|
        0 <= i < before.len() ==> (#[trigger] before[i]).forwarded(fed(after, input, i), after[i])
}

/// Whether `after` is the chain `before` after a backward pass that starts
/// from `gradient`: every layer has made its own backward pass, told what it
/// was fed on the way forward and the gradient with respect to its output.
/// For the last layer that gradient is `gradient`; for any other it is the
/// input gradient that the pass has left in the layer after it.
pub open spec fn backward_pass<L: Layer>(
    before: Seq<L>,
    input: Seq<L::Scalar>,
    gradient: Seq<L::Scalar>,
    after: Seq<L>,
) -> bool {
    &&& after.len() == before.len()
    &&& forall|i: int|
        0 <= i < before.len() ==> (#[trigger] before[i]).propagated(
            fed(before, input, i),
            handed_back(after, gradient, i),
            after[i],
        )
}

/// Whether `after` is the chain `before` after every layer has applied its
/// gathered gradients at `learning_rate`.
pub open spec fn update_pass<L: Layer>(before: Seq<L>, learning_rate: L::Scalar, after: Seq<L>) -> bool {
    &&& after.len() == before.len()
    &&& forall|i: int|
        0 <= i < before.len() ==> (#[trigger] before[i]).updated(learning_rate, after[i])
}

/// A layer of one of two kinds, so that a model can chain layers of both.
///
/// Whatever is asked of the layer is asked of the layer inside it, and
/// nothing else is done. No pass changes the kind of a layer.
#[derive(Clone)]
pub enum NetLayer<Lin, Soft> {
    /// A dense layer.
    Linear(Lin),
    /// A softmax layer.
    Softmax(Soft),
}

impl<S, Lin: Layer<Scalar = S>, Soft: Layer<Scalar = S>> Layer for NetLayer<Lin, Soft> {
    type Scalar = S;

    open spec fn input_len(&self) -> nat {
        match self {
            NetLayer::Linear(layer) => layer.input_len(),
            NetLayer::Softmax(layer) => layer.input_len(),
        }
    }

    open spec fn output_len(&self) -> nat {
        match self {
            NetLayer::Linear(layer) => layer.output_len(),
            NetLayer::Softmax(layer) => layer.output_len(),
        }
    }

    open spec fn output(&self) -> Seq<S> {
        match self {
            NetLayer::Linear(layer) => layer.output(),
            NetLayer::Softmax(layer) => layer.output(),
        }
    }

    open spec fn input_gradient(&self) -> Seq<S> {
        match self {
            NetLayer::Linear(layer) => layer.input_gradient(),
            NetLayer::Softmax(layer) => layer.input_gradient(),
        }
    }

    open spec fn forwarded(self, input: Seq<S>, after: Self) -> bool {
        match (self, after) {
            (NetLayer::Linear(layer), NetLayer::Linear(next)) => layer.forwarded(input, next),
            (NetLayer::Softmax(layer), NetLayer::Softmax(next)) => layer.forwarded(input, next),
            _ => false,
        }
    }

    open spec fn propagated(self, input: Seq<S>, output_gradient: Seq<S>, after: Self) -> bool {
        match (self, after) {
            (NetLayer::Linear(layer), NetLayer::Linear(next)) => layer.propagated(
                input,
                output_gradient,
                next,
            ),
            (NetLayer::Softmax(layer), NetLayer::Softmax(next)) => layer.propagated(
                input,
                output_gradient,
                next,
            ),
            _ => false,
        }
    }

    open spec fn updated(self, learning_rate: S, after: Self) -> bool {
        match (self, after) {
            (NetLayer::Linear(layer), NetLayer::Linear(next)) => layer.updated(learning_rate, next),
            (NetLayer::Softmax(layer), NetLayer::Softmax(next)) => layer.updated(
                learning_rate,
                next,
            ),
            _ => false,
        }
    }

    fn inputs(&self) -> (n: usize) {
        match self {
            NetLayer::Linear(layer) => layer.inputs(),
            NetLayer::Softmax(layer) => layer.inputs(),
        }
    }

    fn outputs(&self) -> (n: usize) {
        match self {
            NetLayer::Linear(layer) => layer.outputs(),
            NetLayer::Softmax(layer) => layer.outputs(),
        }
    }

    fn activation(&self) -> (a: &Vec<S>) {
        match self {
            NetLayer::Linear(layer) => layer.activation(),
            NetLayer::Softmax(layer) => layer.activation(),
        }
    }

    fn prev_derivative(&self) -> (d: &Vec<S>) {
        match self {
            NetLayer::Linear(layer) => layer.prev_derivative(),
            NetLayer::Softmax(layer) => layer.prev_derivative(),
        }
    }

    fn forward(&mut self, prev_activation: &Vec<S>) {
        match self {
            NetLayer::Linear(layer) => layer.forward(prev_activation),
            NetLayer::Softmax(layer) => layer.forward(prev_activation),
        }
    }

    fn backward(&mut self, prev_activation: &Vec<S>, next_derivative: &Vec<S>) {
        match self {
            NetLayer::Linear(layer) => layer.backward(prev_activation, next_derivative),
            NetLayer::Softmax(layer) => layer.backward(prev_activation, next_derivative),
        }
    }

    fn apply_gradient(&mut self, learning_rate: &S) {
        match self {
            NetLayer::Linear(layer) => layer.apply_gradient(learning_rate),
            NetLayer::Softmax(layer) => layer.apply_gradient(learning_rate),
        }
    }
}

/// Why the model refused a layer or a vector.
#[derive(Clone, Copy, Debug, PartialEq, Eq, Structural)]
pub enum ModelError {
    /// The model has no layer.
    Empty,
    /// A layer does not take vectors of the length that the layer before it
    /// gives.
    ShapeMismatch,
    /// The input does not have the length that the first layer takes.
    InputSize,
    /// The loss gradient does not have the length that the last layer gives.
    GradientSize,
}

/// An ordered chain of layers.
#[derive(Clone)]
pub struct Model<L: Layer> {
    layers: Vec<L>,
}

impl<L: Layer> View for Model<L> {
    type V = Seq<L>;

    closed spec fn view(&self) -> Seq<L> {
        self.layers@
    }
}

impl<L: Layer> Model<L> {
    /// The layers fit each other and each is valid.
    pub open spec fn wf(&self) -> bool {
        chained(self@) && all_valid(self@)
    }

    /// A model without layers.
    pub fn new() -> (model: Self)
        ensures
            model@ == Seq::<L>::empty(),
            model.wf(),
    {
        Model { layers: Vec::new() }
    }

    /// Number of layers.
    pub fn num_layers(&self) -> (n: usize)
        ensures
            n == self@.len(),
    {
        self.layers.len()
    }

    /// The layers, first to last.
    pub fn layers(&self) -> (layers: &Vec<L>)
        ensures
            layers@ == self@,
    {
        &self.layers
    }

    /// Appends `layer` to the chain, unless it does not fit the layer that
    /// is last so far; a layer that does not fit is dropped and the model
    /// stays as it is. The first layer always fits.
    pub fn add_layer(&mut self, layer: L) -> (r: Result<(), ModelError>)
        requires
            old(self).wf(),
            layer_valid(layer),
        ensures
            final(self).wf(),
            r is Ok <==> (old(self)@.len() == 0 || old(self)@.last().output_len()
                == layer.input_len()),
            r is Ok ==> final(self)@ == old(self)@.push(layer),
            r is Err ==> final(self)@ == old(self)@ && r == Err::<(), ModelError>(
                ModelError::ShapeMismatch,
            ),
    {
        let n = self.layers.len();
        if n > 0 && self.layers[n - 1].outputs() != layer.inputs() {
            return Err(ModelError::ShapeMismatch);
        }
        self.layers.push(layer);
        Ok(())
    }

    /// Feeds `state` through the chain and returns what the last layer
    /// gives, which has the length that this layer gives whatever the
    /// numbers in `state` are. Only the kept outputs are overwritten: every
    /// layer keeps its sizes and its input gradient.
    ///
    /// A model without layers refuses every input, and any other model
    /// refuses an input that does not have the length its first layer
    /// takes; a refused input changes nothing.
    pub fn forward(&mut self, state: &Vec<L::Scalar>) -> (r: Result<&Vec<L::Scalar>, ModelError>)
        requires
            old(self).wf(),
        ensures
            final(self).wf(),
            same_shapes(final(self)@, old(self)@),
            same_input_gradients(final(self)@, old(self)@),
            r is Ok <==> old(self)@.len() > 0 && state@.len() == old(self)@[0].input_len(),
            r matches Ok(out) ==> {
                &&& forward_pass(old(self)@, state@, final(self)@)
                &&& out@ == final(self)@.last().output()
                &&& out@.len() == old(self)@.last().output_len()
            },
            r matches Err(e) ==> {
                &&& final(self)@ == old(self)@
                &&& e == (if old(self)@.len() == 0 {
                    ModelError::Empty
                } else {
                    ModelError::InputSize
                })
            },
    {
        let n = self.layers.len();
        if n == 0 {
            return Err(ModelError::Empty);
        }
        if state.len() != self.layers[0].inputs() {
            return Err(ModelError::InputSize);
        }
        let mut i: usize = 0;
        while i < n
            invariant
                0 <= i <= n,
                n == old(self)@.len(),
                old(self).wf(),
                state@.len() == old(self)@[0].input_len(),
                same_shapes(self@, old(self)@),
                same_input_gradients(self@, old(self)@),
                all_valid(self@),
                forall|j: int|
                    0 <= j < i ==> (#[trigger] old(self)@[j]).forwarded(
                        fed(self@, state@, j),
                        self@[j],
                    ),
                forall|j: int| i <= j < n ==> (#[trigger] self@[j]) == old(self)@[j],
            decreases n - i,
        {
            self.forward_at(i, state);
            i = i + 1;
        }
        Ok(self.layers[n - 1].activation())
    }

    /// Sends the gradient of the loss with respect to the model's output
    /// back through the chain, last layer first. Each layer is told what it
    /// was fed on the way forward (`state` for the first layer, the kept
    /// output of the layer before it for any other) and the gradient with
    /// respect to its own output (`loss_derivative` for the last layer, the
    /// input gradient that the layer after it has just found for any other).
    /// Every layer keeps its sizes and its kept output.
    ///
    /// A model without layers refuses the pass, and any other model refuses
    /// a `state` or a `loss_derivative` of the wrong length; a refused pass
    /// changes nothing.
    pub fn backprop(&mut self, state: &Vec<L::Scalar>, loss_derivative: &Vec<L::Scalar>) -> (r:
        Result<(), ModelError>)
        requires
            old(self).wf(),
        ensures
            final(self).wf(),
            same_shapes(final(self)@, old(self)@),
            same_outputs(final(self)@, old(self)@),
            r is Ok <==> {
                &&& old(self)@.len() > 0
                &&& state@.len() == old(self)@[0].input_len()
                &&& loss_derivative@.len() == old(self)@.last().output_len()
            },
            r is Ok ==> backward_pass(old(self)@, state@, loss_derivative@, final(self)@),
            r matches Err(e) ==> {
                &&& final(self)@ == old(self)@
                &&& e == (if old(self)@.len() == 0 {
                    ModelError::Empty
                } else if state@.len() != old(self)@[0].input_len() {
                    ModelError::InputSize
                } else {
                    ModelError::GradientSize
                })
            },
    {
        let n = self.layers.len();
        if n == 0 {
            return Err(ModelError::Empty);
        }
        if state.len() != self.layers[0].inputs() {
            return Err(ModelError::InputSize);
        }
        if loss_derivative.len() != self.layers[n - 1].outputs() {
            return Err(ModelError::GradientSize);
        }
        let mut k: usize = n;
        while k > 0
            invariant
                0 <= k <= n,
                n == old(self)@.len(),
                old(self).wf(),
                state@.len() == old(self)@[0].input_len(),
                loss_derivative@.len() == old(self)@.last().output_len(),
                same_shapes(self@, old(self)@),
                same_outputs(self@, old(self)@),
                all_valid(self@),
                forall|j: int| 0 <= j < k ==> (#[trigger] self@[j]) == old(self)@[j],
                forall|j: int|
                    k <= j < n ==> (#[trigger] old(self)@[j]).propagated(
                        fed(old(self)@, state@, j),
                        handed_back(self@, loss_derivative@, j),
                        self@[j],
                    ),
            decreases k,
        {
            k = k - 1;
            self.backward_at(k, state, loss_derivative);
        }
        Ok(())
    }

    /// Lets every layer take its gathered gradients, scaled by
    /// `learning_rate`, off its parameters and clear them. Every layer keeps
    /// its sizes and both of its buffers.
    pub fn apply_gradients(&mut self, learning_rate: &L::Scalar)
        requires
            old(self).wf(),
        ensures
            final(self).wf(),
            same_shapes(final(self)@, old(self)@),
            same_outputs(final(self)@, old(self)@),
            same_input_gradients(final(self)@, old(self)@),
            update_pass(old(self)@, *learning_rate, final(self)@),
    {
        let n = self.layers.len();
        let mut i: usize = 0;
        while i < n
            invariant
                0 <= i <= n,
                n == old(self)@.len(),
                old(self).wf(),
                same_shapes(self@, old(self)@),
                same_outputs(self@, old(self)@),
                same_input_gradients(self@, old(self)@),
                all_valid(self@),
                forall|j: int|
                    0 <= j < i ==> (#[trigger] old(self)@[j]).updated(*learning_rate, self@[j]),
                forall|j: int| i <= j < n ==> (#[trigger] self@[j]) == old(self)@[j],
            decreases n - i,
        {
            self.layers[i].apply_gradient(learning_rate);
            i = i + 1;
        }
    }

    /// Layer `i` makes its forward pass on what it is fed; no other layer
    /// changes.
    fn forward_at(&mut self, i: usize, state: &Vec<L::Scalar>)
        requires
            i < old(self)@.len(),
            fed(old(self)@, state@, i as int).len() == old(self)@[i as int].input_len(),
        ensures
            final(self)@ == old(self)@.update(i as int, final(self)@[i as int]),
            old(self)@[i as int].forwarded(fed(old(self)@, state@, i as int), final(self)@[i as int]),
            final(self)@[i as int].input_len() == old(self)@[i as int].input_len(),
            final(self)@[i as int].output_len() == old(self)@[i as int].output_len(),
            final(self)@[i as int].output().len() == old(self)@[i as int].output_len(),
            final(self)@[i as int].input_gradient() == old(self)@[i as int].input_gradient(),
    {
        if i == 0 {
            self.layers[0].forward(state);
            proof {
                assert(self@ =~= old(self)@.update(0, self@[0]));
            }
        } else {
            let (head, tail) = self.layers.split_at_mut(i);
            tail[0].forward(head[i - 1].activation());
            proof {
                assert(self@ =~= old(self)@.update(i as int, self@[i as int]));
            }
        }
    }

    /// Layer `i` makes its backward pass, told what it was fed and what is
    /// handed back to it; no other layer changes.
    fn backward_at(&mut self, i: usize, state: &Vec<L::Scalar>, loss_derivative: &Vec<L::Scalar>)
        requires
            i < old(self)@.len(),
            fed(old(self)@, state@, i as int).len() == old(self)@[i as int].input_len(),
            handed_back(old(self)@, loss_derivative@, i as int).len() == old(self)@[i
                as int].output_len(),
        ensures
            final(self)@ == old(self)@.update(i as int, final(self)@[i as int]),
            old(self)@[i as int].propagated(
                fed(old(self)@, state@, i as int),
                handed_back(old(self)@, loss_derivative@, i as int),
                final(self)@[i as int],
            ),
            final(self)@[i as int].input_len() == old(self)@[i as int].input_len(),
            final(self)@[i as int].output_len() == old(self)@[i as int].output_len(),
            final(self)@[i as int].input_gradient().len() == old(self)@[i as int].input_len(),
            final(self)@[i as int].output() == old(self)@[i as int].output(),
    {
        let n = self.layers.len();
        let (head, rest) = self.layers.split_at_mut(i);
        let (current, after) = rest.split_at_mut(1);
        let input = if i == 0 {
            state
        } else {
            head[i - 1].activation()
        };
        let output_gradient = if i + 1 == n {
            loss_derivative
        } else {
            after[0].prev_derivative()
        };
        current[0].backward(input, output_gradient);
        proof {
            assert(self@ =~= old(self)@.update(i as int, self@[i as int]));
        }
    }
}

} // verus!
