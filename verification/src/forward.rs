//! The forward pass: which device work each layer's step does, in order, and
//! how the two ping-pong activation buffers alternate between the steps.
use vstd::prelude::*;
use crate::launch::{
    Kernel, KernelArg, KernelLaunch, LaunchSpec, rmsnorm, rmsnorm_launch, add_bias_batched, add_bias_batched_launch,
    swiglu_forward, swiglu_forward_launch,
};
use crate::layer::LinearLayer;
use crate::network::NeuralNetwork;

verus! {

/// The device buffers that a forward step touches: the two ping-pong
/// activation buffers, and the buffers of the layer being run.
#[derive(Clone, Copy, Debug, PartialEq, Eq)]
pub enum DeviceBuffer {
    PingA,
    PingB,
    Weights,
    Bias,
    Gamma,
    SavedInput,
    SavedNoNormalizedInput,
    SavedLinear,
}

/// The activation buffer that step `k` of a pass reads from.
pub open spec fn ping_input(k: int) -> DeviceBuffer {
    if k % 2 == 0 {
        DeviceBuffer::PingA
    } else {
        DeviceBuffer::PingB
    }
}

/// The activation buffer that step `k` of a pass writes to.
pub open spec fn ping_output(k: int) -> DeviceBuffer {
    if k % 2 == 0 {
        DeviceBuffer::PingB
    } else {
        DeviceBuffer::PingA
    }
}

/// The activation buffer that holds the result after `ping_pong_index` steps.
pub fn output_buffer(ping_pong_index: i32) -> (buf: DeviceBuffer)
    ensures
        buf == ping_input(ping_pong_index as int),
{
    if ping_pong_index % 2 == 0 {
        DeviceBuffer::PingA
    } else {
        DeviceBuffer::PingB
    }
}


/// The shape of a column-major product `C = A * B` with neither operand
/// transposed, as cuBLAS takes it: `C` is `m x n`, `A` is `m x k`, `B` is
/// `k x n`, with leading dimensions `lda`, `ldb` and `ldc`.
#[derive(Clone, Copy, Debug, PartialEq, Eq)]
pub struct GemmShape {
    pub m: i32,
    pub n: i32,
    pub k: i32,
    pub lda: i32,
    pub ldb: i32,
    pub ldc: i32,
}

/// One piece of device work of a forward step.
#[derive(Debug, PartialEq, Eq)]
pub enum StepAction {
    /// Copy the first `len` elements of `from` into `into`.
    Save { from: DeviceBuffer, len: usize, into: DeviceBuffer },
    /// Launch a kernel.
    Launch(KernelLaunch<DeviceBuffer>),
    /// `c = a * b` (scaled by one, nothing of `c` kept).
    Gemm { shape: GemmShape, a: DeviceBuffer, b: DeviceBuffer, c: DeviceBuffer },
}

/// The mathematical value of a [`StepAction`].
pub enum StepActionSpec {
    Save { from: DeviceBuffer, len: usize, into: DeviceBuffer },
    Launch(LaunchSpec<DeviceBuffer>),
    Gemm { shape: GemmShape, a: DeviceBuffer, b: DeviceBuffer, c: DeviceBuffer },
}

impl View for StepAction {
    type V = StepActionSpec;

    open spec fn view(&self) -> StepActionSpec {
        match self {
            StepAction::Save { from, len, into } => StepActionSpec::Save {
                from: *from,
                len: *len,
                into: *into,
            },
            StepAction::Launch(l) => StepActionSpec::Launch(l@),
            StepAction::Gemm { shape, a, b, c } => StepActionSpec::Gemm {
                shape: *shape,
                a: *a,
                b: *b,
                c: *c,
            },
        }
    }
}

/// The values of a sequence of actions.
pub open spec fn actions_view(actions: Seq<StepAction>) -> Seq<StepActionSpec> {
    actions.map_values(|a: StepAction| a@)
}

/// The product of a layer with `in_features` inputs and `swiglu_features`
/// linear outputs, over `batches` rows: weights (`swiglu_features x
/// in_features`) times the normalised input (`in_features x batches`).
pub open spec fn layer_gemm_shape(swiglu_features: i32, batches: i32, in_features: i32) -> GemmShape {
    GemmShape {
        m: swiglu_features,
        n: batches,
        k: in_features,
        lda: swiglu_features,
        ldb: in_features,
        ldc: swiglu_features,
    }
}

/// The `i32` width of a layer's linear output, `2 * out_features`.
pub open spec fn swiglu_width(layer: LinearLayer) -> i32 {
    ((layer.out_features as i32) * 2) as i32
}

/// The number of raw (or normalised) input elements that a step saves.
pub open spec fn saved_input_len(layer: LinearLayer, batches: i32) -> usize {
    ((batches as usize) * layer.in_features) as usize
}

/// The number of linear outputs that a step saves.
pub open spec fn saved_linear_len(layer: LinearLayer, batches: i32) -> usize {
    ((batches as usize) * (swiglu_width(layer) as usize)) as usize
}

/// The device work of step `k` of a pass, on `layer`, in order: in training
/// mode save the raw input; normalise the input in place; multiply it by the
/// weights into the other ping-pong buffer; add the bias; in training mode
/// save the linear output and the normalised input; apply SwiGLU in place.
pub open spec fn step_actions(layer: LinearLayer, batches: i32, k: int, mode: bool) -> Seq<
    StepActionSpec,
> {
    let input = ping_input(k);
    let output = ping_output(k);
    let in_f = layer.in_features as i32;
    let out_f = layer.out_features as i32;
    let sw = swiglu_width(layer);
    let head = if mode {
        seq![
            StepActionSpec::Save {
                from: input,
                len: saved_input_len(layer, batches),
                into: DeviceBuffer::SavedNoNormalizedInput,
            },
        ]
    } else {
        Seq::empty()
    };
    let core = seq![
        StepActionSpec::Launch(rmsnorm_launch(input, input, DeviceBuffer::Gamma, in_f, batches)),
        StepActionSpec::Gemm {
            shape: layer_gemm_shape(sw, batches, in_f),
            a: DeviceBuffer::Weights,
            b: input,
            c: output,
        },
        StepActionSpec::Launch(add_bias_batched_launch(output, DeviceBuffer::Bias, sw, batches)),
    ];
    let saves = if mode {
        seq![
            StepActionSpec::Save {
                from: output,
                len: saved_linear_len(layer, batches),
                into: DeviceBuffer::SavedLinear,
            },
            StepActionSpec::Save {
                from: input,
                len: saved_input_len(layer, batches),
                into: DeviceBuffer::SavedInput,
            },
        ]
    } else {
        Seq::empty()
    };
    head + core + saves + seq![StepActionSpec::Launch(swiglu_forward_launch(output, out_f, batches))]
}

/// A step on `layer` neither overflows nor finds a saved buffer missing.
pub open spec fn step_within_limits(layer: LinearLayer, batches: i32, mode: bool) -> bool {
    &&& i32::MIN <= (layer.out_features as i32) * 2 <= i32::MAX
    &&& (batches as u32) * (swiglu_width(layer) as u32) <= u32::MAX
    &&& (batches as u32) * ((layer.out_features as i32) as u32) <= u32::MAX
    &&& mode ==> {
        &&& (batches as usize) * layer.in_features <= usize::MAX
        &&& (batches as usize) * (swiglu_width(layer) as usize) <= usize::MAX
        &&& layer.saved_input is Some
        &&& layer.saved_no_normalized_input is Some
        &&& layer.saved_linear is Some
    }
}

/// The device work of one forward step: layer `layer_index` of the network,
/// as step `ping_pong_index` of the pass (its parity picks which ping-pong
/// buffer is the input), for batches of `batches` rows.
pub fn step(
    network: &NeuralNetwork,
    batches: i32,
    ping_pong_index: i32,
    layer_index: usize,
    mode: bool,
) -> (actions: Vec<StepAction>)
    requires
        layer_index < network.layers@.len(),
        step_within_limits(network.layers@[layer_index as int], batches, mode),
    ensures
        actions_view(actions@) == step_actions(
            network.layers@[layer_index as int],
            batches,
            ping_pong_index as int,
            mode,
        ),
{
    let layer = &network.layers[layer_index];
    let ghost lay = network.layers@[layer_index as int];
    let (in_buf, out_buf) = if ping_pong_index % 2 == 0 {
        (DeviceBuffer::PingA, DeviceBuffer::PingB)
    } else {
        (DeviceBuffer::PingB, DeviceBuffer::PingA)
    };
    assert(in_buf == ping_input(ping_pong_index as int) && out_buf == ping_output(
        ping_pong_index as int,
    ));
    let in_features = layer.in_features as i32;
    let out_features = layer.out_features as i32;
    let swiglu_features = out_features * 2;
    let mut actions: Vec<StepAction> = Vec::new();
    if mode {
        let u_batches = batches as usize;
        actions.push(
            StepAction::Save {
                from: in_buf,
                len: u_batches * layer.in_features,
                into: DeviceBuffer::SavedNoNormalizedInput,
            },
        );
    }
    let ghost n_head = actions@.len();
    actions.push(
        StepAction::Launch(rmsnorm(in_buf, in_buf, DeviceBuffer::Gamma, in_features, batches)),
    );
    let shape = GemmShape {
        m: swiglu_features,
        n: batches,
        k: in_features,
        lda: swiglu_features,
        ldb: in_features,
        ldc: swiglu_features,
    };
    actions.push(StepAction::Gemm { shape, a: DeviceBuffer::Weights, b: in_buf, c: out_buf });
    actions.push(
        StepAction::Launch(add_bias_batched(out_buf, DeviceBuffer::Bias, &swiglu_features, batches)),
    );
    if mode {
        let u_batches = batches as usize;
        actions.push(
            StepAction::Save {
                from: out_buf,
                len: u_batches * swiglu_features as usize,
                into: DeviceBuffer::SavedLinear,
            },
        );
        actions.push(
            StepAction::Save {
                from: in_buf,
                len: u_batches * layer.in_features,
                into: DeviceBuffer::SavedInput,
            },
        );
    }
    actions.push(StepAction::Launch(swiglu_forward(out_buf, out_features, batches)));
    assert(actions_view(actions@) =~= step_actions(lay, batches, ping_pong_index as int, mode));
    actions
}


/// The device work of a whole forward pass: one step per layer, first to
/// last, and the ping-pong index after the last step.
#[derive(Debug)]
pub struct NetworkPass {
    pub steps: Vec<Vec<StepAction>>,
    pub ping_pong_index: i32,
}

/// Every step of a pass over the network's layers stays within limits.
pub open spec fn pass_within_limits(layers: Seq<LinearLayer>, batches: i32, mode: bool) -> bool {
    &&& layers.len() <= i32::MAX
    &&& forall|i: int| 0 <= i < layers.len() ==> step_within_limits(#[trigger] layers[i], batches, mode)
}

/// The forward pass over all layers of the network: step `i` runs layer `i`
/// with ping-pong index `i`, so that the buffers alternate from layer to
/// layer; the pass ends with the index equal to the number of layers.
pub fn process_network(network: &NeuralNetwork, batches: i32, mode: bool) -> (pass: NetworkPass)
    requires
        pass_within_limits(network.layers@, batches, mode),
    ensures
        pass.steps@.len() == network.layers@.len(),
        pass.ping_pong_index == network.layers@.len(),
        forall|i: int|
            0 <= i < network.layers@.len() ==> actions_view(#[trigger] pass.steps@[i]@)
                == step_actions(network.layers@[i], batches, i, mode),
{
    let layers = network.layers.len();
    let mut ping_pong_index: i32 = 0;
    let mut layer_index: usize = 0;
    let mut steps: Vec<Vec<StepAction>> = Vec::new();
    for i in 0..layers
        invariant
            layers == network.layers@.len(),
            pass_within_limits(network.layers@, batches, mode),
            ping_pong_index == i,
            layer_index == i,
            steps@.len() == i,
            forall|j: int|
                0 <= j < i ==> actions_view(#[trigger] steps@[j]@) == step_actions(
                    network.layers@[j],
                    batches,
                    j,
                    mode,
                ),
    {
        let actions = step(network, batches, ping_pong_index, layer_index, mode);
        steps.push(actions);
        ping_pong_index += 1;
        layer_index += 1;
    }
    NetworkPass { steps, ping_pong_index }
}

/// The ping-pong buffers alternate: the first step reads buffer A (where
/// the program puts the network's input), a step never reads and writes the
/// same activation buffer, and what step `k` writes is what step `k + 1`
/// reads.
pub proof fn lemma_ping_pong_alternates(k: int)
    ensures
        ping_input(0) == DeviceBuffer::PingA,
        ping_input(k) != ping_output(k),
        ping_output(k) == ping_input(k + 1),
        ping_input(k) == ping_input(k + 2),
{
}

/// Position of the product in a step's work: after the raw-input save in
/// training mode and the normalisation.
pub open spec fn gemm_position(mode: bool) -> int {
    if mode {
        2
    } else {
        1
    }
}

/// Consecutive steps of a pass chain through the ping-pong buffers: the
/// product of step `k + 1` multiplies the buffer that the product of step `k`
/// wrote (and that the bias and activation of step `k` then updated in
/// place), and never the buffer it writes itself.
pub proof fn lemma_steps_chain(
    layer: LinearLayer,
    next: LinearLayer,
    batches: i32,
    k: int,
    mode: bool,
)
    ensures
        step_actions(layer, batches, k, mode)[gemm_position(mode)] matches StepActionSpec::Gemm {
            c: written,
            ..
        } && step_actions(next, batches, k + 1, mode)[gemm_position(mode)] matches StepActionSpec::Gemm {
            b: read,
            c: next_written,
            ..
        } && read == written && next_written != read,
        step_actions(layer, batches, k, mode).last() == StepActionSpec::Launch(
            swiglu_forward_launch(
                ping_output(k),
                layer.out_features as i32,
                batches,
            ),
        ),
{
    let s = step_actions(layer, batches, k, mode);
    let t = step_actions(next, batches, k + 1, mode);
    if mode {
        assert(s[2] == StepActionSpec::Gemm {
            shape: layer_gemm_shape(swiglu_width(layer), batches, layer.in_features as i32),
            a: DeviceBuffer::Weights,
            b: ping_input(k),
            c: ping_output(k),
        });
        assert(t[2] == StepActionSpec::Gemm {
            shape: layer_gemm_shape(swiglu_width(next), batches, next.in_features as i32),
            a: DeviceBuffer::Weights,
            b: ping_input(k + 1),
            c: ping_output(k + 1),
        });
    } else {
        assert(s[1] == StepActionSpec::Gemm {
            shape: layer_gemm_shape(swiglu_width(layer), batches, layer.in_features as i32),
            a: DeviceBuffer::Weights,
            b: ping_input(k),
            c: ping_output(k),
        });
        assert(t[1] == StepActionSpec::Gemm {
            shape: layer_gemm_shape(swiglu_width(next), batches, next.in_features as i32),
            a: DeviceBuffer::Weights,
            b: ping_input(k + 1),
            c: ping_output(k + 1),
        });
    }
}

/// After a pass of `n >= 1` steps, the buffer that [`output_buffer`] picks
/// for the final index is the one the last step wrote and activated.
pub proof fn lemma_output_is_last_written(last: LinearLayer, batches: i32, n: int, mode: bool)
    requires
        n >= 1,
    ensures
        ping_input(n) == ping_output(n - 1),
        step_actions(last, batches, n - 1, mode)[gemm_position(mode)] matches StepActionSpec::Gemm {
            c: written,
            ..
        } && written == ping_input(n),
{
    lemma_steps_chain(last, last, batches, n - 1, mode);
}

/// Where a step saves from: in training mode the raw input and the
/// normalised input are copied out of the buffer the step reads (the one the
/// product multiplies), and the linear output out of the buffer the step
/// writes (the one the product fills), before the activation overwrites it.
pub proof fn lemma_step_saves_from_the_right_buffers(
    layer: LinearLayer,
    batches: i32,
    k: int,
)
    ensures
        ({
            let s = step_actions(layer, batches, k, true);
            &&& s.len() == 7
            &&& s[2] matches StepActionSpec::Gemm { b: read, c: written, .. }
                && forall|i: int|
                0 <= i < s.len() ==> (#[trigger] s[i] matches StepActionSpec::Save { from, into, .. }
                    ==> {
                    &&& (into == DeviceBuffer::SavedNoNormalizedInput || into
                        == DeviceBuffer::SavedInput) ==> from == read && from == ping_input(k)
                    &&& into == DeviceBuffer::SavedLinear ==> from == written && from
                        == ping_output(k)
                })
            &&& s[0] matches StepActionSpec::Save { into, len, .. } && into
                == DeviceBuffer::SavedNoNormalizedInput && len == saved_input_len(layer, batches)
            &&& s[4] matches StepActionSpec::Save { into, len, .. } && into
                == DeviceBuffer::SavedLinear && len == saved_linear_len(layer, batches)
            &&& s[5] matches StepActionSpec::Save { into, len, .. } && into
                == DeviceBuffer::SavedInput && len == saved_input_len(layer, batches)
            &&& s[6] matches StepActionSpec::Launch(l) && l.kernel == Kernel::SwigluForward
        }),
{
    let s = step_actions(layer, batches, k, true);
    assert(s.len() == 7);
    assert forall|i: int| 0 <= i < s.len() implies (#[trigger] s[i] matches StepActionSpec::Save {
        from,
        into,
        ..
    } ==> {
        &&& (into == DeviceBuffer::SavedNoNormalizedInput || into == DeviceBuffer::SavedInput)
            ==> from == ping_input(k)
        &&& into == DeviceBuffer::SavedLinear ==> from == ping_output(k)
    }) by {
        if i == 0 {
        } else if i == 1 {
        } else if i == 2 {
        } else if i == 3 {
        } else if i == 4 {
        } else if i == 5 {
        } else {
        }
    }
}

/// What each piece of a step's work is told: the normalisation runs in place
/// on the step's input over `in_features` values per row with the layer's
/// gains; the product multiplies the weights (`2 * out_features` by
/// `in_features`) by that input into the other buffer; the bias, one value
/// per linear output, is added there; and SwiGLU turns that buffer's rows into
/// `out_features` activations. Every launch is told the row count `batches`.
pub proof fn lemma_step_work(layer: LinearLayer, batches: i32, k: int, mode: bool)
    requires
        layer.in_features <= i32::MAX,
        layer.out_features * 2 <= i32::MAX,
    ensures
        ({
            let s = step_actions(layer, batches, k, mode);
            let h = if mode { 1int } else { 0int };
            let input = ping_input(k);
            let output = ping_output(k);
            let in_f = layer.in_features as i32;
            let sw = (2 * layer.out_features) as i32;
            &&& s.len() == if mode { 7int } else { 4int }
            &&& s[h] matches StepActionSpec::Launch(l) && l.kernel == Kernel::Rmsnorm
                && l.args[0] == KernelArg::Buffer(input) && l.args[1] == KernelArg::Buffer(input)
                && l.args[2] == KernelArg::Buffer(DeviceBuffer::Gamma)
                && l.args[3] == KernelArg::<DeviceBuffer>::Int(in_f)
                && l.args[5] == KernelArg::<DeviceBuffer>::Int(batches)
            &&& s[h + 1] matches StepActionSpec::Gemm { shape, a, b, c } && a == DeviceBuffer::Weights
                && b == input && c == output && c != b && shape.m == sw && shape.n == batches
                && shape.k == in_f && shape.lda == sw && shape.ldb == in_f && shape.ldc == sw
            &&& s[h + 2] matches StepActionSpec::Launch(l) && l.kernel == Kernel::AddBiasBatched
                && l.args[0] == KernelArg::Buffer(output)
                && l.args[1] == KernelArg::Buffer(DeviceBuffer::Bias)
                && l.args[2] == KernelArg::<DeviceBuffer>::Int(batches)
                && l.args[3] == KernelArg::<DeviceBuffer>::Int(sw)
            &&& s.last() matches StepActionSpec::Launch(l) && l.kernel == Kernel::SwigluForward
                && l.args[0] == KernelArg::Buffer(output)
                && l.args[1] == KernelArg::<DeviceBuffer>::Int(layer.out_features as i32)
                && l.args[2] == KernelArg::<DeviceBuffer>::Int(batches)
        }),
{
    assert((layer.out_features as i32) == layer.out_features);
    assert(swiglu_width(layer) == (2 * layer.out_features) as i32);
}

} // verus!
