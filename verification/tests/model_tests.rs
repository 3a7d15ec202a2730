use lunar_lander_rl::model::{Layer, Model, ModelError, NetLayer};
use std::cell::RefCell;
use std::rc::Rc;

/// A dense layer with an optional rectifier, in plain `f32` arithmetic.
#[derive(Clone, Debug, PartialEq)]
struct Dense {
    weights: Vec<Vec<f32>>,
    biases: Vec<f32>,
    weight_gradient: Vec<Vec<f32>>,
    bias_gradient: Vec<f32>,
    activation: Vec<f32>,
    prev_derivative: Vec<f32>,
    relu: bool,
}

impl Dense {
    fn new(weights: Vec<Vec<f32>>, biases: Vec<f32>, relu: bool) -> Dense {
        let outputs = weights.len();
        let inputs = weights[0].len();
        Dense {
            weights,
            biases,
            weight_gradient: vec![vec![0.0; inputs]; outputs],
            bias_gradient: vec![0.0; outputs],
            activation: vec![0.0; outputs],
            prev_derivative: vec![0.0; inputs],
            relu,
        }
    }
}

impl Layer for Dense {
    type Scalar = f32;

    fn inputs(&self) -> usize {
        self.prev_derivative.len()
    }

    fn outputs(&self) -> usize {
        self.activation.len()
    }

    fn activation(&self) -> &Vec<f32> {
        &self.activation
    }

    fn prev_derivative(&self) -> &Vec<f32> {
        &self.prev_derivative
    }

    fn forward(&mut self, prev_activation: &Vec<f32>) {
        for o in 0..self.weights.len() {
            let mut sum = self.biases[o];
            for i in 0..prev_activation.len() {
                sum += self.weights[o][i] * prev_activation[i];
            }
            self.activation[o] = if self.relu && sum < 0.0 { 0.0 } else { sum };
        }
    }

    fn backward(&mut self, prev_activation: &Vec<f32>, next_derivative: &Vec<f32>) {
        let mut gradient = next_derivative.clone();
        if self.relu {
            for o in 0..gradient.len() {
                if self.activation[o] <= 0.0 {
                    gradient[o] = 0.0;
                }
            }
        }
        for i in 0..self.prev_derivative.len() {
            let mut sum = 0.0;
            for o in 0..gradient.len() {
                sum += self.weights[o][i] * gradient[o];
            }
            self.prev_derivative[i] = sum;
        }
        for o in 0..gradient.len() {
            for i in 0..prev_activation.len() {
                self.weight_gradient[o][i] += gradient[o] * prev_activation[i];
            }
            self.bias_gradient[o] += gradient[o];
        }
    }

    fn apply_gradient(&mut self, learning_rate: &f32) {
        for o in 0..self.weights.len() {
            for i in 0..self.weights[o].len() {
                self.weights[o][i] -= learning_rate * self.weight_gradient[o][i];
                self.weight_gradient[o][i] = 0.0;
            }
            self.biases[o] -= learning_rate * self.bias_gradient[o];
            self.bias_gradient[o] = 0.0;
        }
    }
}

fn dot(a: &[f32], b: &[f32]) -> f32 {
    a.iter().zip(b.iter()).map(|(x, y)| x * y).sum()
}

fn hidden_layer() -> Dense {
    Dense::new(
        vec![vec![1.0, 0.0], vec![0.0, 1.0], vec![1.0, 1.0], vec![0.5, -0.5]],
        vec![0.125, 0.125, 0.125, 0.125],
        true,
    )
}

fn output_layer() -> Dense {
    Dense::new(
        vec![vec![0.25, -0.5, 0.75, 0.5], vec![0.5, 0.5, 0.5, 0.5]],
        vec![0.0, 0.0],
        false,
    )
}

fn two_layer_model() -> Model<Dense> {
    let mut model: Model<Dense> = Model::new();
    assert_eq!(model.add_layer(hidden_layer()), Ok(()));
    assert_eq!(model.add_layer(output_layer()), Ok(()));
    model
}

#[test]
fn a_new_model_has_no_layers() {
    let model: Model<Dense> = Model::new();
    assert_eq!(model.num_layers(), 0);
    assert!(model.layers().is_empty());
}

#[test]
fn layers_are_kept_in_the_order_they_were_added() {
    let model = two_layer_model();
    assert_eq!(model.num_layers(), 2);
    assert_eq!(model.layers()[0], hidden_layer());
    assert_eq!(model.layers()[1], output_layer());
}

#[test]
fn a_layer_that_does_not_fit_is_refused() {
    let mut model = two_layer_model();
    let misfit = Dense::new(vec![vec![1.0, 1.0, 1.0]], vec![0.0], false);
    assert_eq!(model.add_layer(misfit), Err(ModelError::ShapeMismatch));
    assert_eq!(model.num_layers(), 2);
    assert_eq!(model.layers()[1], output_layer());
    let fits = Dense::new(vec![vec![1.0, 1.0]], vec![0.0], false);
    assert_eq!(model.add_layer(fits), Ok(()));
    assert_eq!(model.num_layers(), 3);
}

#[test]
fn the_first_layer_always_fits() {
    let mut model: Model<Dense> = Model::new();
    assert_eq!(model.add_layer(Dense::new(vec![vec![1.0; 7]; 3], vec![0.0; 3], false)), Ok(()));
    assert_eq!(model.num_layers(), 1);
}

#[test]
fn an_empty_model_refuses_every_pass() {
    let mut model: Model<Dense> = Model::new();
    assert_eq!(model.forward(&vec![1.0]), Err(ModelError::Empty));
    assert_eq!(model.forward(&vec![]), Err(ModelError::Empty));
    assert_eq!(model.backprop(&vec![1.0], &vec![1.0]), Err(ModelError::Empty));
    model.apply_gradients(&0.5);
    assert_eq!(model.num_layers(), 0);
}

#[test]
fn an_input_of_the_wrong_length_is_refused() {
    let mut model = two_layer_model();
    let before = model.clone();
    assert_eq!(model.forward(&vec![0.5]), Err(ModelError::InputSize));
    assert_eq!(model.forward(&vec![0.5, 0.5, 0.5]), Err(ModelError::InputSize));
    assert_eq!(model.backprop(&vec![0.5], &vec![1.0, 0.0]), Err(ModelError::InputSize));
    assert_eq!(model.backprop(&vec![], &vec![1.0]), Err(ModelError::InputSize));
    assert_eq!(model.layers(), before.layers());
}

#[test]
fn a_loss_gradient_of_the_wrong_length_is_refused() {
    let mut model = two_layer_model();
    assert!(model.forward(&vec![0.5, -0.5]).is_ok());
    let before = model.clone();
    assert_eq!(model.backprop(&vec![0.5, -0.5], &vec![1.0]), Err(ModelError::GradientSize));
    assert_eq!(
        model.backprop(&vec![0.5, -0.5], &vec![1.0, 0.0, 0.0]),
        Err(ModelError::GradientSize)
    );
    assert_eq!(model.layers(), before.layers());
}

#[test]
fn forward_feeds_each_layer_the_output_of_the_one_before() {
    let mut model = two_layer_model();
    let out = model.forward(&vec![0.5, -0.5]).unwrap().clone();
    assert_eq!(model.layers()[0].activation, vec![0.625, 0.0, 0.125, 0.625]);
    assert_eq!(out, vec![0.5625, 0.6875]);
    assert_eq!(model.layers()[1].activation, out);
}

#[test]
fn the_output_has_the_length_the_last_layer_gives() {
    let mut model = two_layer_model();
    for input in [
        vec![0.0f32, 0.0],
        vec![1e30, -1e30],
        vec![f32::NAN, 1.0],
        vec![f32::INFINITY, f32::NEG_INFINITY],
        vec![-3.5, 2.25],
    ] {
        assert_eq!(model.forward(&input).unwrap().len(), 2);
    }
    let mut wide: Model<Dense> = Model::new();
    assert_eq!(wide.add_layer(Dense::new(vec![vec![1.0]; 6], vec![0.0; 6], false)), Ok(()));
    assert_eq!(wide.forward(&vec![2.0]).unwrap().len(), 6);
}

#[test]
fn one_step_on_the_first_output_leaves_the_second_alone() {
    let mut model = two_layer_model();
    let input: Vec<f32> = vec![0.5, -0.5];
    assert_eq!(model.forward(&input).unwrap().len(), 2);
    let hidden = model.layers()[0].activation.clone();
    assert!(hidden.iter().all(|h| *h >= 0.0));
    assert!(hidden.iter().any(|h| *h > 0.0));
    let first_row = model.layers()[1].weights[0].clone();
    let second_row = model.layers()[1].weights[1].clone();
    assert_eq!(model.backprop(&input, &vec![1.0, 0.0]), Ok(()));
    model.apply_gradients(&0.1);
    assert_eq!(model.layers()[1].weights[1], second_row);
    assert!(dot(&model.layers()[1].weights[0], &hidden) < dot(&first_row, &hidden));
    assert_eq!(model.layers()[1].weights[0], vec![0.1875, -0.5, 0.7375, 0.4375]);
    assert_eq!(model.layers()[1].biases, vec![-0.1, 0.0]);
}

#[test]
fn backprop_hands_the_input_gradient_upstream() {
    let mut model = two_layer_model();
    let input: Vec<f32> = vec![0.5, -0.5];
    assert!(model.forward(&input).is_ok());
    assert_eq!(model.backprop(&input, &vec![1.0, 0.0]), Ok(()));
    assert_eq!(model.layers()[1].prev_derivative, vec![0.25, -0.5, 0.75, 0.5]);
    assert_eq!(model.layers()[1].weight_gradient[0], vec![0.625, 0.0, 0.125, 0.625]);
    assert_eq!(model.layers()[1].weight_gradient[1], vec![0.0; 4]);
    assert_eq!(model.layers()[0].bias_gradient, vec![0.25, 0.0, 0.75, 0.5]);
    assert_eq!(model.layers()[0].weight_gradient[0], vec![0.125, -0.125]);
    assert_eq!(model.layers()[0].weight_gradient[1], vec![0.0, 0.0]);
    assert_eq!(model.layers()[0].prev_derivative, vec![1.25, 0.5]);
}

#[test]
fn gradients_add_up_until_they_are_applied() {
    let mut model = two_layer_model();
    let input: Vec<f32> = vec![0.5, -0.5];
    assert!(model.forward(&input).is_ok());
    assert_eq!(model.backprop(&input, &vec![1.0, 0.0]), Ok(()));
    assert_eq!(model.backprop(&input, &vec![1.0, 0.0]), Ok(()));
    assert_eq!(model.layers()[1].bias_gradient, vec![2.0, 0.0]);
    assert_eq!(model.layers()[1].weight_gradient[0], vec![1.25, 0.0, 0.25, 1.25]);
    model.apply_gradients(&0.5);
    assert_eq!(model.layers()[1].bias_gradient, vec![0.0, 0.0]);
    assert_eq!(model.layers()[1].weight_gradient[0], vec![0.0; 4]);
    assert_eq!(model.layers()[1].biases, vec![-1.0, 0.0]);
    let after = model.clone();
    model.apply_gradients(&0.5);
    assert_eq!(model.layers(), after.layers());
}

#[test]
fn a_small_step_lowers_the_squared_loss() {
    let input: Vec<f32> = vec![0.5, -0.5];
    for (action, target) in [(0usize, 2.0f32), (1, -1.0), (0, 0.0), (1, 3.5)] {
        let mut model = two_layer_model();
        let before = model.forward(&input).unwrap()[action];
        let mut gradient: Vec<f32> = vec![0.0, 0.0];
        gradient[action] = before - target;
        assert_eq!(model.backprop(&input, &gradient), Ok(()));
        model.apply_gradients(&0.01);
        let after = model.forward(&input).unwrap()[action];
        assert!((after - target) * (after - target) < (before - target) * (before - target));
    }
}

#[test]
fn a_single_layer_learns_from_the_input_itself() {
    let mut model: Model<Dense> = Model::new();
    assert_eq!(model.add_layer(Dense::new(vec![vec![1.0, 2.0]], vec![0.5], false)), Ok(()));
    assert_eq!(model.forward(&vec![3.0, -1.0]), Ok(&vec![1.5]));
    assert_eq!(model.backprop(&vec![3.0, -1.0], &vec![2.0]), Ok(()));
    assert_eq!(model.layers()[0].weight_gradient[0], vec![6.0, -2.0]);
    assert_eq!(model.layers()[0].prev_derivative, vec![2.0, 4.0]);
    model.apply_gradients(&0.5);
    assert_eq!(model.layers()[0].weights[0], vec![-2.0, 3.0]);
    assert_eq!(model.layers()[0].biases, vec![-0.5]);
}

#[test]
fn a_copy_of_the_model_does_not_follow_it() {
    let mut live = two_layer_model();
    let target = live.clone();
    let input: Vec<f32> = vec![0.5, -0.5];
    assert!(live.forward(&input).is_ok());
    assert_eq!(live.backprop(&input, &vec![1.0, -1.0]), Ok(()));
    live.apply_gradients(&0.1);
    assert_eq!(target.layers()[0], hidden_layer());
    assert_eq!(target.layers()[1], output_layer());
    assert_ne!(live.layers()[1].weights, target.layers()[1].weights);
}

/// What a layer was asked to do, as the layer saw it.
#[derive(Clone, Debug, PartialEq)]
enum Call {
    Forward(usize, Vec<i64>),
    Backward(usize, Vec<i64>, Vec<i64>),
    Apply(usize, i64),
}

/// A layer that writes down every call and answers with vectors that tell
/// which layer made them.
struct Scribe {
    id: usize,
    inputs: usize,
    outputs: usize,
    activation: Vec<i64>,
    prev_derivative: Vec<i64>,
    log: Rc<RefCell<Vec<Call>>>,
}

impl Scribe {
    fn new(id: usize, inputs: usize, outputs: usize, log: &Rc<RefCell<Vec<Call>>>) -> Scribe {
        Scribe {
            id,
            inputs,
            outputs,
            activation: vec![0; outputs],
            prev_derivative: vec![0; inputs],
            log: Rc::clone(log),
        }
    }
}

impl Layer for Scribe {
    type Scalar = i64;

    fn inputs(&self) -> usize {
        self.inputs
    }

    fn outputs(&self) -> usize {
        self.outputs
    }

    fn activation(&self) -> &Vec<i64> {
        &self.activation
    }

    fn prev_derivative(&self) -> &Vec<i64> {
        &self.prev_derivative
    }

    fn forward(&mut self, prev_activation: &Vec<i64>) {
        self.log.borrow_mut().push(Call::Forward(self.id, prev_activation.clone()));
        let sum: i64 = prev_activation.iter().sum();
        self.activation = vec![sum + 10 * self.id as i64; self.outputs];
    }

    fn backward(&mut self, prev_activation: &Vec<i64>, next_derivative: &Vec<i64>) {
        self.log.borrow_mut().push(Call::Backward(
            self.id,
            prev_activation.clone(),
            next_derivative.clone(),
        ));
        let sum: i64 = next_derivative.iter().sum();
        self.prev_derivative = vec![sum - 100 * self.id as i64; self.inputs];
    }

    fn apply_gradient(&mut self, learning_rate: &i64) {
        self.log.borrow_mut().push(Call::Apply(self.id, *learning_rate));
    }
}

fn scribes(log: &Rc<RefCell<Vec<Call>>>) -> Model<Scribe> {
    let mut model: Model<Scribe> = Model::new();
    assert_eq!(model.add_layer(Scribe::new(1, 2, 3, log)), Ok(()));
    assert_eq!(model.add_layer(Scribe::new(2, 3, 1, log)), Ok(()));
    assert_eq!(model.add_layer(Scribe::new(3, 1, 2, log)), Ok(()));
    model
}

#[test]
fn the_forward_pass_runs_first_to_last() {
    let log: Rc<RefCell<Vec<Call>>> = Rc::new(RefCell::new(Vec::new()));
    let mut model = scribes(&log);
    assert_eq!(model.forward(&vec![1, 2]), Ok(&vec![89, 89]));
    assert_eq!(
        *log.borrow(),
        vec![
            Call::Forward(1, vec![1, 2]),
            Call::Forward(2, vec![13, 13, 13]),
            Call::Forward(3, vec![59]),
        ]
    );
}

#[test]
fn the_backward_pass_runs_last_to_first() {
    let log: Rc<RefCell<Vec<Call>>> = Rc::new(RefCell::new(Vec::new()));
    let mut model = scribes(&log);
    assert!(model.forward(&vec![1, 2]).is_ok());
    log.borrow_mut().clear();
    assert_eq!(model.backprop(&vec![1, 2], &vec![5, -1]), Ok(()));
    assert_eq!(
        *log.borrow(),
        vec![
            Call::Backward(3, vec![59], vec![5, -1]),
            Call::Backward(2, vec![13, 13, 13], vec![-296]),
            Call::Backward(1, vec![1, 2], vec![-496, -496, -496]),
        ]
    );
}

#[test]
fn backprop_tells_the_first_layer_the_input_it_is_given() {
    let log: Rc<RefCell<Vec<Call>>> = Rc::new(RefCell::new(Vec::new()));
    let mut model = scribes(&log);
    assert!(model.forward(&vec![1, 2]).is_ok());
    log.borrow_mut().clear();
    assert_eq!(model.backprop(&vec![7, 7], &vec![0, 0]), Ok(()));
    assert_eq!(log.borrow()[2], Call::Backward(1, vec![7, 7], vec![-500, -500, -500]));
}

#[test]
fn every_layer_applies_its_gradients_at_the_same_rate() {
    let log: Rc<RefCell<Vec<Call>>> = Rc::new(RefCell::new(Vec::new()));
    let mut model = scribes(&log);
    model.apply_gradients(&4);
    assert_eq!(*log.borrow(), vec![Call::Apply(1, 4), Call::Apply(2, 4), Call::Apply(3, 4)]);
}

#[test]
fn a_refused_pass_calls_no_layer() {
    let log: Rc<RefCell<Vec<Call>>> = Rc::new(RefCell::new(Vec::new()));
    let mut model = scribes(&log);
    assert_eq!(model.forward(&vec![1, 2, 3]), Err(ModelError::InputSize));
    assert_eq!(model.backprop(&vec![1], &vec![5, -1]), Err(ModelError::InputSize));
    assert_eq!(model.backprop(&vec![1, 2], &vec![5]), Err(ModelError::GradientSize));
    assert!(log.borrow().is_empty());
}

#[test]
fn a_layer_of_two_kinds_asks_the_layer_inside_it() {
    let log: Rc<RefCell<Vec<Call>>> = Rc::new(RefCell::new(Vec::new()));
    let mut linear: NetLayer<Scribe, Scribe> = NetLayer::Linear(Scribe::new(4, 2, 1, &log));
    let mut softmax: NetLayer<Scribe, Scribe> = NetLayer::Softmax(Scribe::new(5, 1, 3, &log));
    assert_eq!((linear.inputs(), linear.outputs()), (2, 1));
    assert_eq!((softmax.inputs(), softmax.outputs()), (1, 3));
    linear.forward(&vec![1, 2]);
    softmax.forward(&vec![6]);
    assert_eq!(*linear.activation(), vec![43]);
    assert_eq!(*softmax.activation(), vec![56, 56, 56]);
    linear.backward(&vec![1, 2], &vec![9]);
    softmax.backward(&vec![6], &vec![1, 1, 1]);
    assert_eq!(*linear.prev_derivative(), vec![-391, -391]);
    assert_eq!(*softmax.prev_derivative(), vec![-497]);
    linear.apply_gradient(&2);
    softmax.apply_gradient(&3);
    assert_eq!(
        *log.borrow(),
        vec![
            Call::Forward(4, vec![1, 2]),
            Call::Forward(5, vec![6]),
            Call::Backward(4, vec![1, 2], vec![9]),
            Call::Backward(5, vec![6], vec![1, 1, 1]),
            Call::Apply(4, 2),
            Call::Apply(5, 3),
        ]
    );
}

#[test]
fn a_model_chains_layers_of_both_kinds() {
    let mut model: Model<NetLayer<Dense, Dense>> = Model::new();
    assert_eq!(model.add_layer(NetLayer::Linear(hidden_layer())), Ok(()));
    assert_eq!(model.add_layer(NetLayer::Softmax(output_layer())), Ok(()));
    assert_eq!(
        model.add_layer(NetLayer::Linear(hidden_layer())),
        Ok(())
    );
    assert_eq!(
        model.add_layer(NetLayer::Linear(hidden_layer())),
        Err(ModelError::ShapeMismatch)
    );
    assert_eq!(model.num_layers(), 3);
    assert_eq!(model.forward(&vec![0.5, -0.5]).unwrap().len(), 4);
    match &model.layers()[1] {
        NetLayer::Softmax(layer) => assert_eq!(layer.activation, vec![0.5625, 0.6875]),
        NetLayer::Linear(_) => panic!("the second layer was added as the other kind"),
    }
}

#[test]
fn one_dense_layer_moves_towards_its_target_by_the_rate_times_the_input() {
    let mut model: Model<Dense> = Model::new();
    assert_eq!(model.add_layer(Dense::new(vec![vec![1.0, 2.0]], vec![0.5], false)), Ok(()));
    let input: Vec<f32> = vec![3.0, -1.0];
    let target: f32 = 0.0;
    let before = model.forward(&input).unwrap()[0];
    assert_eq!(before, 1.5);
    assert_eq!(model.backprop(&input, &vec![before - target]), Ok(()));
    model.apply_gradients(&0.125);
    let after = model.forward(&input).unwrap()[0];
    assert_eq!(after, 1.5 * (1.0 - 0.125 * 11.0));
    assert!((after - target) * (after - target) < (before - target) * (before - target));
}

#[test]
fn a_rate_too_large_for_the_input_overshoots() {
    let mut model: Model<Dense> = Model::new();
    assert_eq!(model.add_layer(Dense::new(vec![vec![1.0, 2.0]], vec![0.5], false)), Ok(()));
    let input: Vec<f32> = vec![3.0, -1.0];
    let before = model.forward(&input).unwrap()[0];
    assert_eq!(model.backprop(&input, &vec![before]), Ok(()));
    model.apply_gradients(&0.25);
    let after = model.forward(&input).unwrap()[0];
    assert_eq!(after, 1.5 * (1.0 - 0.25 * 11.0));
    assert!(after * after > before * before);
}

#[test]
fn a_forward_pass_leaves_the_input_gradients() {
    let mut model = two_layer_model();
    let input: Vec<f32> = vec![0.5, -0.5];
    assert!(model.forward(&input).is_ok());
    assert_eq!(model.backprop(&input, &vec![1.0, 0.0]), Ok(()));
    let gradients: Vec<Vec<f32>> =
        model.layers().iter().map(|l| l.prev_derivative.clone()).collect();
    let weights: Vec<Vec<Vec<f32>>> = model.layers().iter().map(|l| l.weights.clone()).collect();
    let first = model.forward(&vec![0.25, 0.75]).unwrap().clone();
    let second = model.forward(&vec![0.25, 0.75]).unwrap().clone();
    assert_eq!(first, second);
    for (layer, gradient) in model.layers().iter().zip(gradients.iter()) {
        assert_eq!(&layer.prev_derivative, gradient);
    }
    for (layer, weight) in model.layers().iter().zip(weights.iter()) {
        assert_eq!(&layer.weights, weight);
    }
}

#[test]
fn a_backward_pass_leaves_the_kept_outputs() {
    let mut model = two_layer_model();
    let input: Vec<f32> = vec![0.5, -0.5];
    assert!(model.forward(&input).is_ok());
    let outputs: Vec<Vec<f32>> = model.layers().iter().map(|l| l.activation.clone()).collect();
    assert_eq!(model.backprop(&input, &vec![1.0, -2.0]), Ok(()));
    for (layer, output) in model.layers().iter().zip(outputs.iter()) {
        assert_eq!(&layer.activation, output);
    }
    let gradients: Vec<Vec<f32>> =
        model.layers().iter().map(|l| l.prev_derivative.clone()).collect();
    model.apply_gradients(&0.5);
    for ((layer, output), gradient) in model.layers().iter().zip(outputs.iter()).zip(gradients.iter())
    {
        assert_eq!(&layer.activation, output);
        assert_eq!(&layer.prev_derivative, gradient);
    }
}
