//! The network: its layers, how it is built, how its parameters are
//! initialised, and the ping-pong activation buffers it runs on.
use vstd::prelude::*;
use crate::layer::{LinearLayer, layer_spec, layer_sizes_fit};

verus! {

/// The layers of the network, first to last.
#[derive(Debug)]
pub struct NeuralNetwork {
    pub layers: Vec<LinearLayer>,
}

/// Width of the network's input.
pub const INPUT_FEATURES: usize = 5;

/// Width of the network's output.
pub const OUTPUT_FEATURES: usize = 2;

/// The layer widths of the network: 5 inputs, two hidden layers of 3, and 2
/// outputs.
pub open spec fn network_widths() -> Seq<(usize, usize)> {
    seq![(5usize, 3usize), (3usize, 3usize), (3usize, 2usize)]
}

/// The layers that [`create_network`] builds.
pub open spec fn network_spec(batches: i32, mode: bool) -> Seq<LinearLayer> {
    network_widths().map_values(|w: (usize, usize)| layer_spec(w.0, w.1, batches, mode))
}

/// The network's arithmetic does not overflow for batches of `batches` rows.
pub open spec fn network_sizes_fit(batches: i32) -> bool {
    i32::MIN <= batches * 6 <= i32::MAX
}

/// The 5-3-3-2 network for batches of `batches` rows, with learning buffers in
/// training mode.
pub fn create_network(batches: i32, mode: bool) -> (network: NeuralNetwork)
    requires
        network_sizes_fit(batches),
    ensures
        network.layers@ == network_spec(batches, mode),
{
    let mut network = NeuralNetwork { layers: Vec::new() };
    assert((5usize as i32) == 5 && (3usize as i32) == 3);
    assert((((3usize * 2) as usize) as i32) == 6 && (((2usize * 2) as usize) as i32) == 4);
    assert(layer_sizes_fit(5, 3, batches));
    assert(layer_sizes_fit(3, 3, batches));
    assert(layer_sizes_fit(3, 2, batches));
    let l1 = LinearLayer::new(5, 3, batches, mode);
    let l2 = LinearLayer::new(3, 3, batches, mode);
    let l3 = LinearLayer::new(3, 2, batches, mode);
    network.layers.push(l1);
    network.layers.push(l2);
    network.layers.push(l3);
    assert(network.layers@ =~= network_spec(batches, mode));
    network
}

/// What the parameters of one layer are initialised with: `weights` values
/// drawn uniformly from the Glorot range of a layer with `fan_in` inputs,
/// `bias` zeros and `gamma` ones.
#[derive(Clone, Copy, Debug, PartialEq, Eq)]
pub struct NoiseFill {
    pub fan_in: usize,
    pub weights: usize,
    pub bias: usize,
    pub gamma: usize,
}

/// The initialisation of a layer's parameters.
pub open spec fn noise_fill_spec(layer: LinearLayer) -> NoiseFill {
    NoiseFill {
        fan_in: layer.in_features,
        weights: (layer.in_features * layer.out_features * 2) as usize,
        bias: (layer.out_features * 2) as usize,
        gamma: layer.in_features,
    }
}

/// The counts of [`noise_fill_spec`] do not overflow.
pub open spec fn noise_fill_fits(layer: LinearLayer) -> bool {
    &&& layer.in_features * layer.out_features * 2 <= usize::MAX
    &&& layer.out_features * 2 <= usize::MAX
}

/// How each layer of the network is initialised, first to last.
pub fn fill_network_with_noise(neural_network: &NeuralNetwork) -> (fills: Vec<NoiseFill>)
    requires
        forall|i: int|
            0 <= i < neural_network.layers@.len() ==> noise_fill_fits(
                #[trigger] neural_network.layers@[i],
            ),
    ensures
        fills@ == neural_network.layers@.map_values(|l: LinearLayer| noise_fill_spec(l)),
{
    let mut fills: Vec<NoiseFill> = Vec::new();
    let n = neural_network.layers.len();
    for i in 0..n
        invariant
            n == neural_network.layers@.len(),
            forall|j: int|
                0 <= j < neural_network.layers@.len() ==> noise_fill_fits(
                    #[trigger] neural_network.layers@[j],
                ),
            fills@ =~= neural_network.layers@.take(i as int).map_values(
                |l: LinearLayer| noise_fill_spec(l),
            ),
    {
        let layer = &neural_network.layers[i];
        assert(noise_fill_fits(neural_network.layers@[i as int]));
        let total_weights = layer.in_features * layer.out_features * 2;
        let fill = NoiseFill {
            fan_in: layer.in_features,
            weights: total_weights,
            bias: layer.out_features * 2,
            gamma: layer.in_features,
        };
        fills.push(fill);
        assert(neural_network.layers@.take(i + 1) =~= neural_network.layers@.take(i as int).push(
            neural_network.layers@[i as int],
        ));
    }
    assert(neural_network.layers@.take(n as int) =~= neural_network.layers@);
    fills
}

/// The number of elements of each ping-pong activation buffer: twice the
/// input width, per row.
pub open spec fn ping_pong_len_spec(batches: i32) -> int {
    5 * 2 * (batches as usize)
}

/// The length of each of the two ping-pong activation buffers for batches of
/// `batches` rows (a negative `batches` wraps, as a cast to `usize` does).
pub fn ping_pong_len(batches: i32) -> (len: usize)
    requires
        ping_pong_len_spec(batches) <= usize::MAX,
    ensures
        len == ping_pong_len_spec(batches),
{
    5 * 2 * batches as usize
}

} // verus!
