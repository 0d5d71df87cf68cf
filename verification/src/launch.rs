//! Launch plans for the engine's CUDA kernels.
//!
//! Each kernel launch is described as plain data: which kernel, the grid and
//! block shape, and the argument list in the order the kernel takes it. A
//! caller that owns the device buffers executes the plan; the functions here
//! decide everything else.
use vstd::prelude::*;

verus! {

/// Threads per block of the per-row normalisation kernels.
pub const ROW_BLOCK_THREADS: u32 = 256;

/// The kernels of the engine, by the name they are compiled under.
#[derive(Clone, Copy, Debug, PartialEq, Eq)]
pub enum Kernel {
    SwigluForward,
    AddBiasBatched,
    Rmsnorm,
    RmsnormBackward,
    MseLossBackward,
    SwigluBackward,
    BiasBackward,
    SgdStep,
}

/// The name that each kernel is compiled under.
pub open spec fn kernel_name(kernel: Kernel) -> Seq<char> {
    match kernel {
        Kernel::SwigluForward => "swiglu_forward"@,
        Kernel::AddBiasBatched => "add_bias_batched"@,
        Kernel::Rmsnorm => "rmsnorm"@,
        Kernel::RmsnormBackward => "rmsnorm_backward"@,
        Kernel::MseLossBackward => "mse_loss_backward"@,
        Kernel::SwigluBackward => "swiglu_backward"@,
        Kernel::BiasBackward => "bias_backward"@,
        Kernel::SgdStep => "sgd_step"@,
    }
}

impl Kernel {
    /// The name that the kernel is compiled under, by which it is loaded from
    /// the compiled module.
    pub fn name(self) -> (name: &'static str)
        ensures
            name@ == kernel_name(self),
    {
        match self {
            Kernel::SwigluForward => "swiglu_forward",
            Kernel::AddBiasBatched => "add_bias_batched",
            Kernel::Rmsnorm => "rmsnorm",
            Kernel::RmsnormBackward => "rmsnorm_backward",
            Kernel::MseLossBackward => "mse_loss_backward",
            Kernel::SwigluBackward => "swiglu_backward",
            Kernel::BiasBackward => "bias_backward",
            Kernel::SgdStep => "sgd_step",
        }
    }
}

/// One argument pushed to a kernel. `B` names a device buffer; the two float
/// constants are named rather than carried, and the executor supplies their
/// values.
#[derive(Debug, PartialEq, Eq)]
pub enum KernelArg<B> {
    /// A buffer that the launch reads; pushed as a shared reference.
    Buffer(B),
    /// A buffer that the launch writes; pushed as an exclusive reference, so
    /// that the launch is ordered as a write to it.
    WrittenBuffer(B),
    Int(i32),
    /// The normalisation epsilon.
    Epsilon,
    /// The learning rate of an update step.
    LearningRate,
}

/// Grid and block dimensions of a launch, as CUDA takes them.
#[derive(Clone, Copy, Debug, PartialEq, Eq)]
pub struct LaunchShape {
    pub grid_dim: (u32, u32, u32),
    pub block_dim: (u32, u32, u32),
    pub shared_mem_bytes: u32,
}

/// A planned kernel launch.
#[derive(Debug, PartialEq, Eq)]
pub struct KernelLaunch<B> {
    pub kernel: Kernel,
    pub shape: LaunchShape,
    pub args: Vec<KernelArg<B>>,
}

/// The mathematical value of a [`KernelLaunch`].
pub struct LaunchSpec<B> {
    pub kernel: Kernel,
    pub shape: LaunchShape,
    pub args: Seq<KernelArg<B>>,
}

impl<B> View for KernelLaunch<B> {
    type V = LaunchSpec<B>;

    open spec fn view(&self) -> LaunchSpec<B> {
        LaunchSpec { kernel: self.kernel, shape: self.shape, args: self.args@ }
    }
}

/// The shape of a one-dimensional launch over `n` elements: blocks of 1024
/// threads, as many as it takes to cover `n`, and no dynamic shared memory.
pub open spec fn elems_shape(n: u32) -> LaunchShape {
    LaunchShape {
        grid_dim: (((n as int + 1023) / 1024) as u32, 1, 1),
        block_dim: (1024, 1, 1),
        shared_mem_bytes: 0,
    }
}

/// The shape of a launch with one block of 256 threads per row.
pub open spec fn rows_shape(rows: i32) -> LaunchShape {
    LaunchShape { grid_dim: (rows as u32, 1, 1), block_dim: (256, 1, 1), shared_mem_bytes: 0 }
}

/// Number of threads that a launch of the given shape starts.
pub open spec fn thread_count(shape: LaunchShape) -> int {
    shape.grid_dim.0 * shape.grid_dim.1 * shape.grid_dim.2 * shape.block_dim.0 * shape.block_dim.1
        * shape.block_dim.2
}

/// `cudarc::driver::LaunchConfig::for_num_elems`: its source builds a config
/// with `grid_dim = (n.div_ceil(1024), 1, 1)`, `block_dim = (1024, 1, 1)` and
/// `shared_mem_bytes = 0`; this wrapper moves those fields over one for one.
#[verifier::external_body]
fn for_num_elems(n: u32) -> (shape: LaunchShape)
    ensures
        shape == elems_shape(n),
{
    let cfg = cudarc::driver::LaunchConfig::for_num_elems(n);
    LaunchShape {
        grid_dim: cfg.grid_dim,
        block_dim: cfg.block_dim,
        shared_mem_bytes: cfg.shared_mem_bytes,
    }
}

/// The launch of the row-normalisation kernel over `batches` rows.
fn rows_launch_shape(batches: i32) -> (shape: LaunchShape)
    ensures
        shape == rows_shape(batches),
{
    LaunchShape {
        grid_dim: (batches as u32, 1, 1),
        block_dim: (ROW_BLOCK_THREADS, 1, 1),
        shared_mem_bytes: 0,
    }
}

pub open spec fn add_bias_batched_launch<B>(
    out_buf: B,
    bias: B,
    swiglu_features: i32,
    batches: i32,
) -> LaunchSpec<B> {
    LaunchSpec {
        kernel: Kernel::AddBiasBatched,
        shape: elems_shape(((batches as u32) * (swiglu_features as u32)) as u32),
        args: seq![
            KernelArg::Buffer(out_buf),
            KernelArg::Buffer(bias),
            KernelArg::Int(batches),
            KernelArg::Int(swiglu_features),
        ],
    }
}

/// Adds the bias of `swiglu_features` values to each of `batches` rows of
/// `out_buf`, one thread per element.
pub fn add_bias_batched<B>(out_buf: B, bias: B, swiglu_features: &i32, batches: i32) -> (launch:
    KernelLaunch<B>)
    requires
        (batches as u32) * (*swiglu_features as u32) <= u32::MAX,
    ensures
        launch@ == add_bias_batched_launch(out_buf, bias, *swiglu_features, batches),
{
    let shape = for_num_elems(batches as u32 * *swiglu_features as u32);
    let args = vec![
        KernelArg::Buffer(out_buf),
        KernelArg::Buffer(bias),
        KernelArg::Int(batches),
        KernelArg::Int(*swiglu_features),
    ];
    KernelLaunch { kernel: Kernel::AddBiasBatched, shape, args }
}


pub open spec fn rmsnorm_launch<B>(
    in_buf: B,
    out_buf: B,
    gamma: B,
    features: i32,
    batches: i32,
) -> LaunchSpec<B> {
    LaunchSpec {
        kernel: Kernel::Rmsnorm,
        shape: rows_shape(batches),
        args: seq![
            KernelArg::Buffer(in_buf),
            KernelArg::Buffer(out_buf),
            KernelArg::Buffer(gamma),
            KernelArg::Int(features),
            KernelArg::Epsilon,
            KernelArg::Int(batches),
        ],
    }
}

/// RMS-normalises each of `batches` rows of `features` values of `in_buf`,
/// scaled by `gamma`, into `out_buf`: one block per row.
pub fn rmsnorm<B>(in_buf: B, out_buf: B, gamma: B, features: i32, batches: i32) -> (launch:
    KernelLaunch<B>)
    ensures
        launch@ == rmsnorm_launch(in_buf, out_buf, gamma, features, batches),
{
    let shape = rows_launch_shape(batches);
    let args = vec![
        KernelArg::Buffer(in_buf),
        KernelArg::Buffer(out_buf),
        KernelArg::Buffer(gamma),
        KernelArg::Int(features),
        KernelArg::Epsilon,
        KernelArg::Int(batches),
    ];
    KernelLaunch { kernel: Kernel::Rmsnorm, shape, args }
}

pub open spec fn rmsnorm_backward_launch<B>(
    grad_output: B,
    input: B,
    gamma: B,
    grad_input: B,
    grad_gamma: B,
    features: i32,
    batches: i32,
) -> LaunchSpec<B> {
    LaunchSpec {
        kernel: Kernel::RmsnormBackward,
        shape: rows_shape(batches),
        args: seq![
            KernelArg::Buffer(grad_output),
            KernelArg::Buffer(input),
            KernelArg::Buffer(gamma),
            KernelArg::Buffer(grad_input),
            KernelArg::Buffer(grad_gamma),
            KernelArg::Int(features),
            KernelArg::Epsilon,
            KernelArg::Int(batches),
        ],
    }
}

/// Back-propagates through the RMS normalisation: from the incoming gradient
/// and the raw input it computes the input gradient and accumulates the
/// gradient of `gamma`, one block per row.
pub fn rmsnorm_backward<B>(
    grad_output: B,
    input: B,
    gamma: B,
    grad_input: B,
    grad_gamma: B,
    features: i32,
    batches: i32,
) -> (launch: KernelLaunch<B>)
    ensures
        launch@ == rmsnorm_backward_launch(
            grad_output,
            input,
            gamma,
            grad_input,
            grad_gamma,
            features,
            batches,
        ),
{
    let shape = rows_launch_shape(batches);
    let args = vec![
        KernelArg::Buffer(grad_output),
        KernelArg::Buffer(input),
        KernelArg::Buffer(gamma),
        KernelArg::Buffer(grad_input),
        KernelArg::Buffer(grad_gamma),
        KernelArg::Int(features),
        KernelArg::Epsilon,
        KernelArg::Int(batches),
    ];
    KernelLaunch { kernel: Kernel::RmsnormBackward, shape, args }
}

pub open spec fn mse_loss_backward_launch<B>(
    pred: B,
    target: B,
    grad_out: B,
    total: i32,
) -> LaunchSpec<B> {
    LaunchSpec {
        kernel: Kernel::MseLossBackward,
        shape: elems_shape(total as u32),
        args: seq![
            KernelArg::Buffer(pred),
            KernelArg::Buffer(target),
            KernelArg::Buffer(grad_out),
            KernelArg::Int(total),
        ],
    }
}

/// The gradient of the mean squared error of `total` predictions against
/// their targets, one thread per element.
pub fn mse_loss_backward<B>(pred: B, target: B, grad_out: B, total: i32) -> (launch: KernelLaunch<
    B,
>)
    ensures
        launch@ == mse_loss_backward_launch(pred, target, grad_out, total),
{
    let shape = for_num_elems(total as u32);
    let args = vec![
        KernelArg::Buffer(pred),
        KernelArg::Buffer(target),
        KernelArg::Buffer(grad_out),
        KernelArg::Int(total),
    ];
    KernelLaunch { kernel: Kernel::MseLossBackward, shape, args }
}

pub open spec fn swiglu_backward_launch<B>(
    gradient: B,
    grad_linear: B,
    saved_linear: B,
    out_features: i32,
    batches: i32,
) -> LaunchSpec<B> {
    LaunchSpec {
        kernel: Kernel::SwigluBackward,
        shape: elems_shape(((batches as u32) * (out_features as u32)) as u32),
        args: seq![
            KernelArg::Buffer(gradient),
            KernelArg::Buffer(grad_linear),
            KernelArg::Buffer(saved_linear),
            KernelArg::Int(out_features),
            KernelArg::Int(batches),
        ],
    }
}

/// Back-propagates through the SwiGLU activation: from the incoming gradient
/// of `batches * out_features` activations and the saved pre-activations it
/// writes the gradient of both halves of the linear output.
pub fn swiglu_backward<B>(
    gradient: B,
    grad_linear: B,
    saved_linear: B,
    out_features: i32,
    batches: i32,
) -> (launch: KernelLaunch<B>)
    requires
        (batches as u32) * (out_features as u32) <= u32::MAX,
    ensures
        launch@ == swiglu_backward_launch(gradient, grad_linear, saved_linear, out_features, batches),
{
    let shape = for_num_elems(batches as u32 * out_features as u32);
    let args = vec![
        KernelArg::Buffer(gradient),
        KernelArg::Buffer(grad_linear),
        KernelArg::Buffer(saved_linear),
        KernelArg::Int(out_features),
        KernelArg::Int(batches),
    ];
    KernelLaunch { kernel: Kernel::SwigluBackward, shape, args }
}

pub open spec fn bias_backward_launch<B>(
    grad_linear: B,
    grad_bias: B,
    swiglu_features: i32,
    batches: i32,
) -> LaunchSpec<B> {
    LaunchSpec {
        kernel: Kernel::BiasBackward,
        shape: elems_shape(swiglu_features as u32),
        args: seq![
            KernelArg::Buffer(grad_linear),
            KernelArg::Buffer(grad_bias),
            KernelArg::Int(swiglu_features),
            KernelArg::Int(batches),
        ],
    }
}

/// Sums the gradient of the `swiglu_features` linear outputs over the
/// `batches` rows into the bias gradient, one thread per feature.
pub fn bias_backward<B>(grad_linear: B, grad_bias: B, swiglu_features: i32, batches: i32) -> (launch:
    KernelLaunch<B>)
    ensures
        launch@ == bias_backward_launch(grad_linear, grad_bias, swiglu_features, batches),
{
    let shape = for_num_elems(swiglu_features as u32);
    let args = vec![
        KernelArg::Buffer(grad_linear),
        KernelArg::Buffer(grad_bias),
        KernelArg::Int(swiglu_features),
        KernelArg::Int(batches),
    ];
    KernelLaunch { kernel: Kernel::BiasBackward, shape, args }
}

pub open spec fn sgd_step_launch<B>(param: B, param_len: usize, grad: B) -> LaunchSpec<B> {
    LaunchSpec {
        kernel: Kernel::SgdStep,
        shape: elems_shape((param_len as i32) as u32),
        args: seq![
            KernelArg::WrittenBuffer(param),
            KernelArg::Buffer(grad),
            KernelArg::LearningRate,
            KernelArg::Int(param_len as i32),
        ],
    }
}

/// One plain gradient-descent step on the `param_len` values of `param`, one
/// thread per value. `param` is the one buffer the step writes. When the
/// length fits an `i32`, the kernel is told exactly `param_len` values and the
/// launch has a thread for each of them.
pub fn sgd_step<B>(param: B, param_len: usize, grad: B) -> (launch: KernelLaunch<B>)
    ensures
        launch@ == sgd_step_launch(param, param_len, grad),
        param_len <= i32::MAX ==> {
            &&& launch@.args[3] == KernelArg::<B>::Int(param_len as i32)
            &&& (param_len as i32) as int == param_len
            &&& thread_count(launch@.shape) >= param_len
        },
{
    let total = param_len as i32;
    let shape = for_num_elems(total as u32);
    let args = vec![
        KernelArg::WrittenBuffer(param),
        KernelArg::Buffer(grad),
        KernelArg::LearningRate,
        KernelArg::Int(total),
    ];
    proof {
        if param_len <= i32::MAX {
            assert((total as u32) as int == param_len);
            lemma_elems_shape_covers(total as u32);
        }
    }
    KernelLaunch { kernel: Kernel::SgdStep, shape, args }
}

pub open spec fn swiglu_forward_launch<B>(out_buf: B, out_features: i32, batches: i32) -> LaunchSpec<
    B,
> {
    LaunchSpec {
        kernel: Kernel::SwigluForward,
        shape: elems_shape(((batches as u32) * (out_features as u32)) as u32),
        args: seq![KernelArg::Buffer(out_buf), KernelArg::Int(out_features), KernelArg::Int(batches)],
    }
}

/// The SwiGLU activation, in place: each of the `batches` rows of
/// `2 * out_features` linear outputs in `out_buf` becomes `out_features`
/// activations, one thread per activation.
pub fn swiglu_forward<B>(out_buf: B, out_features: i32, batches: i32) -> (launch: KernelLaunch<B>)
    requires
        (batches as u32) * (out_features as u32) <= u32::MAX,
    ensures
        launch@ == swiglu_forward_launch(out_buf, out_features, batches),
{
    let shape = for_num_elems(batches as u32 * out_features as u32);
    let args = vec![
        KernelArg::Buffer(out_buf),
        KernelArg::Int(out_features),
        KernelArg::Int(batches),
    ];
    KernelLaunch { kernel: Kernel::SwigluForward, shape, args }
}

/// Every element of a launch over `n` elements gets a thread, and no block is
/// started that gets none: the grid covers `n` and one block less would not.
pub proof fn lemma_elems_shape_covers(n: u32)
    ensures
        thread_count(elems_shape(n)) >= n,
        thread_count(elems_shape(n)) < n + 1024,
        elems_shape(n).grid_dim.0 * 1024 >= n,
        n > 0 ==> (elems_shape(n).grid_dim.0 - 1) * 1024 < n,
{
    let g = (n as int + 1023) / 1024;
    assert(0 <= g <= 4194304);
    assert(g * 1024 >= n && g * 1024 < n + 1024) by (nonlinear_arith)
        requires g == (n as int + 1023) / 1024, n >= 0;
    assert(thread_count(elems_shape(n)) == g * 1024) by (nonlinear_arith)
        requires g == elems_shape(n).grid_dim.0, elems_shape(n).grid_dim.1 == 1,
            elems_shape(n).grid_dim.2 == 1, elems_shape(n).block_dim == (1024u32, 1u32, 1u32),
            thread_count(elems_shape(n)) == elems_shape(n).grid_dim.0 * elems_shape(n).grid_dim.1 * elems_shape(n).grid_dim.2 * elems_shape(n).block_dim.0 * elems_shape(n).block_dim.1 * elems_shape(n).block_dim.2;
}


/// The bias launch adds a bias row of `swiglu_features` values to each of
/// `batches` rows: the kernel is handed the output and the bias buffer, the
/// row count and the row width exactly as given, and starts a thread for
/// every one of the `batches * swiglu_features` elements.
pub proof fn lemma_add_bias_batched_sizes<B>(out_buf: B, bias: B, swiglu_features: i32, batches: i32)
    requires
        (batches as u32) * (swiglu_features as u32) <= u32::MAX,
    ensures
        ({
            let l = add_bias_batched_launch(out_buf, bias, swiglu_features, batches);
            &&& l.kernel == Kernel::AddBiasBatched
            &&& l.args.len() == 4
            &&& l.args[0] == KernelArg::Buffer(out_buf)
            &&& l.args[1] == KernelArg::Buffer(bias)
            &&& l.args[2] == KernelArg::<B>::Int(batches)
            &&& l.args[3] == KernelArg::<B>::Int(swiglu_features)
            &&& thread_count(l.shape) >= (batches as u32) * (swiglu_features as u32)
            &&& thread_count(l.shape) < (batches as u32) * (swiglu_features as u32) + 1024
            &&& l.shape.block_dim == (1024u32, 1u32, 1u32)
        }),
{
    lemma_elems_shape_covers(((batches as u32) * (swiglu_features as u32)) as u32);
}

/// The normalisation launch works on `batches` rows of `features` values
/// each: one block per row, the row width and row count handed over as
/// given, and the epsilon between them; the input, output and gain buffers
/// come first, in that order.
pub proof fn lemma_rmsnorm_sizes<B>(in_buf: B, out_buf: B, gamma: B, features: i32, batches: i32)
    ensures
        ({
            let l = rmsnorm_launch(in_buf, out_buf, gamma, features, batches);
            &&& l.kernel == Kernel::Rmsnorm
            &&& l.args.len() == 6
            &&& l.args[0] == KernelArg::Buffer(in_buf)
            &&& l.args[1] == KernelArg::Buffer(out_buf)
            &&& l.args[2] == KernelArg::Buffer(gamma)
            &&& l.args[3] == KernelArg::<B>::Int(features)
            &&& l.args[4] == KernelArg::<B>::Epsilon
            &&& l.args[5] == KernelArg::<B>::Int(batches)
            &&& l.shape.grid_dim == (batches as u32, 1u32, 1u32)
            &&& l.shape.block_dim == (ROW_BLOCK_THREADS, 1u32, 1u32)
        }),
{
}

/// The backward normalisation launch works on the same rows as the forward
/// one: `features` values per row, `batches` rows, one block per row, with
/// the five buffers in the order the kernel takes them.
pub proof fn lemma_rmsnorm_backward_sizes<B>(
    grad_output: B,
    input: B,
    gamma: B,
    grad_input: B,
    grad_gamma: B,
    features: i32,
    batches: i32,
)
    ensures
        ({
            let l = rmsnorm_backward_launch(
                grad_output,
                input,
                gamma,
                grad_input,
                grad_gamma,
                features,
                batches,
            );
            let fwd = rmsnorm_launch(input, grad_input, gamma, features, batches);
            &&& l.kernel == Kernel::RmsnormBackward
            &&& l.args.len() == 8
            &&& l.args[0] == KernelArg::Buffer(grad_output)
            &&& l.args[1] == KernelArg::Buffer(input)
            &&& l.args[2] == KernelArg::Buffer(gamma)
            &&& l.args[3] == KernelArg::Buffer(grad_input)
            &&& l.args[4] == KernelArg::Buffer(grad_gamma)
            &&& l.args[5] == KernelArg::<B>::Int(features)
            &&& l.args[6] == KernelArg::<B>::Epsilon
            &&& l.args[7] == KernelArg::<B>::Int(batches)
            &&& l.shape == fwd.shape
        }),
{
}

/// The SwiGLU launch turns each of `batches` rows into `out_features`
/// activations: it is told the activation width and row count as given, and
/// starts a thread for every one of the `batches * out_features` activations.
pub proof fn lemma_swiglu_forward_sizes<B>(out_buf: B, out_features: i32, batches: i32)
    requires
        (batches as u32) * (out_features as u32) <= u32::MAX,
    ensures
        ({
            let l = swiglu_forward_launch(out_buf, out_features, batches);
            &&& l.kernel == Kernel::SwigluForward
            &&& l.args.len() == 3
            &&& l.args[0] == KernelArg::Buffer(out_buf)
            &&& l.args[1] == KernelArg::<B>::Int(out_features)
            &&& l.args[2] == KernelArg::<B>::Int(batches)
            &&& thread_count(l.shape) >= (batches as u32) * (out_features as u32)
            &&& thread_count(l.shape) < (batches as u32) * (out_features as u32) + 1024
            &&& l.shape.block_dim == (1024u32, 1u32, 1u32)
        }),
{
    lemma_elems_shape_covers(((batches as u32) * (out_features as u32)) as u32);
}

/// The SwiGLU backward launch runs over the same activations as the forward
/// one (same shape), told the same activation width and row count.
pub proof fn lemma_swiglu_backward_sizes<B>(
    gradient: B,
    grad_linear: B,
    saved_linear: B,
    out_features: i32,
    batches: i32,
)
    requires
        (batches as u32) * (out_features as u32) <= u32::MAX,
    ensures
        ({
            let l = swiglu_backward_launch(gradient, grad_linear, saved_linear, out_features, batches);
            &&& l.kernel == Kernel::SwigluBackward
            &&& l.args.len() == 5
            &&& l.args[0] == KernelArg::Buffer(gradient)
            &&& l.args[1] == KernelArg::Buffer(grad_linear)
            &&& l.args[2] == KernelArg::Buffer(saved_linear)
            &&& l.args[3] == KernelArg::<B>::Int(out_features)
            &&& l.args[4] == KernelArg::<B>::Int(batches)
            &&& l.shape == swiglu_forward_launch(saved_linear, out_features, batches).shape
            &&& thread_count(l.shape) >= (batches as u32) * (out_features as u32)
            &&& thread_count(l.shape) < (batches as u32) * (out_features as u32) + 1024
            &&& l.shape.block_dim == (1024u32, 1u32, 1u32)
        }),
{
    lemma_elems_shape_covers(((batches as u32) * (out_features as u32)) as u32);
}

/// The loss-gradient launch is told the element count as given and, for a
/// non-negative count, starts a thread for each element.
pub proof fn lemma_mse_loss_backward_sizes<B>(pred: B, target: B, grad_out: B, total: i32)
    ensures
        ({
            let l = mse_loss_backward_launch(pred, target, grad_out, total);
            &&& l.kernel == Kernel::MseLossBackward
            &&& l.args == seq![
                KernelArg::Buffer(pred),
                KernelArg::Buffer(target),
                KernelArg::Buffer(grad_out),
                KernelArg::<B>::Int(total),
            ]
            &&& total >= 0 ==> thread_count(l.shape) >= total && thread_count(l.shape) < total + 1024
        }),
{
    lemma_elems_shape_covers(total as u32);
}

/// The bias-gradient launch has one thread per feature, and is told the
/// feature count and row count as given.
pub proof fn lemma_bias_backward_sizes<B>(grad_linear: B, grad_bias: B, swiglu_features: i32, batches: i32)
    ensures
        ({
            let l = bias_backward_launch(grad_linear, grad_bias, swiglu_features, batches);
            &&& l.kernel == Kernel::BiasBackward
            &&& l.args == seq![
                KernelArg::Buffer(grad_linear),
                KernelArg::Buffer(grad_bias),
                KernelArg::<B>::Int(swiglu_features),
                KernelArg::<B>::Int(batches),
            ]
            &&& swiglu_features >= 0 ==> thread_count(l.shape) >= swiglu_features
                && thread_count(l.shape) < swiglu_features + 1024
        }),
{
    lemma_elems_shape_covers(swiglu_features as u32);
}

} // verus!
