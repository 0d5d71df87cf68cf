//! Properties that tie the network's construction, initialisation and forward
//! pass together.
use vstd::prelude::*;
use crate::layer::{layer_spec, layer_sizes_fit};
use crate::network::{
    network_spec, network_sizes_fit, noise_fill_spec, noise_fill_fits, ping_pong_len_spec,
    INPUT_FEATURES, OUTPUT_FEATURES,
};
use crate::forward::{
    step_within_limits, pass_within_limits, swiglu_width, saved_input_len, saved_linear_len,
    layer_gemm_shape,
};

verus! {

/// The three layers of the network, one by one.
proof fn lemma_network_layers(batches: i32, mode: bool)
    ensures
        network_spec(batches, mode).len() == 3,
        network_spec(batches, mode)[0] == layer_spec(5, 3, batches, mode),
        network_spec(batches, mode)[1] == layer_spec(3, 3, batches, mode),
        network_spec(batches, mode)[2] == layer_spec(3, 2, batches, mode),
{
}

/// The layers of the network fit together: it takes `INPUT_FEATURES` inputs,
/// each layer takes as many inputs as the one before it gives activations,
/// and the last gives `OUTPUT_FEATURES` outputs.
pub proof fn lemma_network_layers_chain(batches: i32, mode: bool)
    ensures
        network_spec(batches, mode).len() == 3,
        network_spec(batches, mode)[0].in_features == INPUT_FEATURES,
        network_spec(batches, mode)[2].out_features == OUTPUT_FEATURES,
        forall|i: int|
            0 <= i < 2 ==> (#[trigger] network_spec(batches, mode)[i]).out_features
                == network_spec(batches, mode)[i + 1].in_features,
{
    let layers = network_spec(batches, mode);
    lemma_network_layers(batches, mode);
}

/// The learning buffers of every layer exist exactly in training mode.
pub proof fn lemma_learning_buffers_iff_training(batches: i32, mode: bool)
    ensures
        forall|i: int|
            0 <= i < network_spec(batches, mode).len() ==> {
                let l = #[trigger] network_spec(batches, mode)[i];
                &&& (l.grad_weights is Some) == mode
                &&& (l.grad_bias is Some) == mode
                &&& (l.grad_gamma is Some) == mode
                &&& (l.saved_input is Some) == mode
                &&& (l.saved_no_normalized_input is Some) == mode
                &&& (l.saved_linear is Some) == mode
            },
{
}

/// The sizes that a step relies on are the sizes its layer was built with:
/// the weights are the `m x k` operand of the product, there is one bias per
/// linear output and one gain per input, and in training mode each buffer a
/// step saves into is exactly as long as what it saves.
pub proof fn lemma_step_matches_layer(
    in_features: usize,
    out_features: usize,
    batches: i32,
    mode: bool,
)
    requires
        layer_sizes_fit(in_features, out_features, batches),
        0 <= batches,
        in_features <= i32::MAX,
        out_features * 2 <= i32::MAX,
    ensures
        ({
            let layer = layer_spec(in_features, out_features, batches, mode);
            let shape = layer_gemm_shape(swiglu_width(layer), batches, in_features as i32);
            &&& layer.weights == shape.m * shape.k
            &&& shape.lda == shape.m && shape.ldc == shape.m && shape.ldb == shape.k
            &&& layer.bias == swiglu_width(layer)
            &&& layer.gamma == in_features as i32
            &&& mode ==> {
                &&& layer.saved_no_normalized_input == Some(saved_input_len(layer, batches))
                &&& layer.saved_input == Some(saved_input_len(layer, batches))
                &&& layer.saved_linear == Some(saved_linear_len(layer, batches))
            }
        }),
{
    let layer = layer_spec(in_features, out_features, batches, mode);
    let sw = (out_features * 2) as usize;
    assert((out_features as i32) == out_features);
    assert((in_features as i32) == in_features);
    assert((sw as i32) == sw);
    assert(swiglu_width(layer) == sw);
    assert((batches as usize) == batches);
    assert(layer.weights == in_features * sw);
    assert(in_features * sw == sw * in_features) by (nonlinear_arith);
}

/// A network built by `create_network` for a non-negative number of rows can
/// be initialised and run: every layer's initialisation counts and every step
/// of the pass stay within limits.
pub proof fn lemma_created_network_runs(batches: i32, mode: bool)
    requires
        network_sizes_fit(batches),
        0 <= batches,
    ensures
        pass_within_limits(network_spec(batches, mode), batches, mode),
        forall|i: int|
            0 <= i < network_spec(batches, mode).len() ==> noise_fill_fits(
                #[trigger] network_spec(batches, mode)[i],
            ),
{
    let layers = network_spec(batches, mode);
    assert((batches as u32) == batches && (batches as usize) == batches);
    assert((5usize as i32) == 5 && (3usize as i32) == 3 && (2usize as i32) == 2);
    assert((6i32 as u32) == 6 && (4i32 as u32) == 4 && (3i32 as u32) == 3 && (2i32 as u32) == 2);
    assert((6i32 as usize) == 6 && (4i32 as usize) == 4);
    lemma_network_layers(batches, mode);
    assert forall|i: int| 0 <= i < layers.len() implies step_within_limits(
        #[trigger] layers[i],
        batches,
        mode,
    ) && noise_fill_fits(layers[i]) by {
        let l = layers[i];
        if i == 0 {
            assert(l == layer_spec(5, 3, batches, mode));
            assert(swiglu_width(l) == 6);
        } else if i == 1 {
            assert(l == layer_spec(3, 3, batches, mode));
            assert(swiglu_width(l) == 6);
        } else {
            assert(l == layer_spec(3, 2, batches, mode));
            assert(swiglu_width(l) == 4);
        }
    }
}

/// Each ping-pong buffer holds every activation of the pass: the input a step
/// reads and the linear outputs it writes both fit.
pub proof fn lemma_ping_pong_holds_activations(batches: i32, mode: bool)
    requires
        network_sizes_fit(batches),
        0 <= batches,
    ensures
        forall|i: int|
            0 <= i < network_spec(batches, mode).len() ==> {
                let l = #[trigger] network_spec(batches, mode)[i];
                &&& saved_input_len(l, batches) <= ping_pong_len_spec(batches)
                &&& saved_linear_len(l, batches) <= ping_pong_len_spec(batches)
            },
{
    let layers = network_spec(batches, mode);
    assert((batches as usize) == batches);
    assert((5usize as i32) == 5 && (3usize as i32) == 3 && (2usize as i32) == 2);
    assert((6i32 as usize) == 6 && (4i32 as usize) == 4);
    assert(layers[0] == layer_spec(5, 3, batches, mode));
    assert(layers[1] == layer_spec(3, 3, batches, mode));
    assert(layers[2] == layer_spec(3, 2, batches, mode));
    assert forall|i: int| 0 <= i < layers.len() implies {
        let l = #[trigger] layers[i];
        &&& saved_input_len(l, batches) <= ping_pong_len_spec(batches)
        &&& saved_linear_len(l, batches) <= ping_pong_len_spec(batches)
    } by {
        let l = layers[i];
        let b = batches as usize;
        if i == 0 {
            assert(l == layer_spec(5, 3, batches, mode));
            assert(swiglu_width(l) == 6);
            assert(saved_input_len(l, batches) == b * 5);
            assert(saved_linear_len(l, batches) == b * 6);
        } else if i == 1 {
            assert(l == layer_spec(3, 3, batches, mode));
            assert(swiglu_width(l) == 6);
            assert(saved_input_len(l, batches) == b * 3);
            assert(saved_linear_len(l, batches) == b * 6);
        } else {
            assert(l == layer_spec(3, 2, batches, mode));
            assert(swiglu_width(l) == 4);
            assert(saved_input_len(l, batches) == b * 3);
            assert(saved_linear_len(l, batches) == b * 4);
        }
        assert(ping_pong_len_spec(batches) == 10 * b);
        assert(saved_input_len(l, batches) <= ping_pong_len_spec(batches));
    }
}

/// A layer's initialisation fills each of its parameter buffers exactly.
pub proof fn lemma_noise_fill_matches_layer(
    in_features: usize,
    out_features: usize,
    batches: i32,
    mode: bool,
)
    requires
        layer_sizes_fit(in_features, out_features, batches),
    ensures
        ({
            let layer = layer_spec(in_features, out_features, batches, mode);
            let fill = noise_fill_spec(layer);
            &&& fill.weights == layer.weights
            &&& fill.bias == layer.bias
            &&& fill.gamma == layer.gamma
            &&& fill.fan_in == layer.in_features
        }),
{
    assert(in_features * out_features * 2 == in_features * (out_features * 2)) by (nonlinear_arith);
}

} // verus!
