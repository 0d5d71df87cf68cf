//! One layer of the network: a SwiGLU feed-forward layer with RMS
//! pre-normalisation, described by the number of elements of each of its
//! device buffers.
use vstd::prelude::*;

verus! {

/// A layer of `in_features` inputs and `out_features` activations. Its linear
/// part has `2 * out_features` outputs, the two halves that SwiGLU combines.
///
/// Every buffer field holds the number of `f32` elements that the device
/// buffer of that name is allocated with. The learning buffers exist only in
/// training mode (`None` otherwise).
#[derive(Clone, Copy, Debug, PartialEq, Eq)]
pub struct LinearLayer {
    pub in_features: usize,
    pub out_features: usize,
    pub weights: usize,
    pub bias: usize,
    pub gamma: usize,
    pub grad_weights: Option<usize>,
    pub grad_bias: Option<usize>,
    pub grad_gamma: Option<usize>,
    /// The normalised input of the last forward pass.
    pub saved_input: Option<usize>,
    /// The raw input of the last forward pass.
    pub saved_no_normalized_input: Option<usize>,
    /// The linear outputs (before the activation) of the last forward pass.
    pub saved_linear: Option<usize>,
}

/// The length of a learning buffer of `n` elements: present in training mode
/// only.
pub open spec fn learning_len(n: i32, mode: bool) -> Option<usize> {
    if mode {
        Some(n as usize)
    } else {
        None
    }
}

/// The length that a learning buffer of `n` elements is allocated with: in
/// training mode `n` (a negative `n` wraps, as a cast to `usize` does), and no
/// buffer at all in inference mode.
pub fn alloc_learning_slice(n: i32, mode: bool) -> (len: Option<usize>)
    ensures
        len == learning_len(n, mode),
{
    if !mode {
        return None;
    }
    Some(n as usize)
}

/// The arithmetic of [`LinearLayer::new`] does not overflow.
pub open spec fn layer_sizes_fit(in_features: usize, out_features: usize, batches: i32) -> bool {
    &&& out_features * 2 <= usize::MAX
    &&& in_features * (out_features * 2) <= usize::MAX
    &&& i32::MIN <= batches * (in_features as i32) <= i32::MAX
    &&& i32::MIN <= batches * (((out_features * 2) as usize) as i32) <= i32::MAX
}

/// The layer that [`LinearLayer::new`] describes.
pub open spec fn layer_spec(
    in_features: usize,
    out_features: usize,
    batches: i32,
    mode: bool,
) -> LinearLayer {
    let swiglu = (out_features * 2) as usize;
    let weights = (in_features * swiglu) as usize;
    LinearLayer {
        in_features,
        out_features,
        weights,
        bias: swiglu,
        gamma: in_features,
        grad_weights: learning_len(weights as i32, mode),
        grad_bias: learning_len(swiglu as i32, mode),
        grad_gamma: learning_len(in_features as i32, mode),
        saved_input: learning_len((batches * (in_features as i32)) as i32, mode),
        saved_no_normalized_input: learning_len((batches * (in_features as i32)) as i32, mode),
        saved_linear: learning_len((batches * (swiglu as i32)) as i32, mode),
    }
}

impl LinearLayer {
    /// A layer of `in_features` inputs and `out_features` activations for
    /// batches of `batches` rows: `in_features * 2 * out_features` weights,
    /// `2 * out_features` biases and `in_features` normalisation gains; in
    /// training mode also a gradient buffer of each of these sizes and the
    /// buffers that a forward pass saves for the backward pass.
    pub fn new(in_features: usize, out_features: usize, batches: i32, mode: bool) -> (layer: Self)
        requires
            layer_sizes_fit(in_features, out_features, batches),
        ensures
            layer == layer_spec(in_features, out_features, batches, mode),
    {
        let swiglu = out_features * 2;
        let weights = in_features * swiglu;
        LinearLayer {
            in_features,
            out_features,
            weights,
            bias: swiglu,
            gamma: in_features,
            grad_weights: alloc_learning_slice(weights as i32, mode),
            grad_bias: alloc_learning_slice(swiglu as i32, mode),
            grad_gamma: alloc_learning_slice(in_features as i32, mode),
            saved_input: alloc_learning_slice(batches * in_features as i32, mode),
            saved_no_normalized_input: alloc_learning_slice(batches * in_features as i32, mode),
            saved_linear: alloc_learning_slice(batches * swiglu as i32, mode),
        }
    }
}

} // verus!
