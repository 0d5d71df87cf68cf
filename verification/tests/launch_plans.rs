use basic_ai_engine::launch::{
    add_bias_batched, bias_backward, mse_loss_backward, rmsnorm, rmsnorm_backward, sgd_step,
    swiglu_backward, swiglu_forward, Kernel, KernelArg, LaunchShape,
};

fn elems(blocks: u32) -> LaunchShape {
    LaunchShape { grid_dim: (blocks, 1, 1), block_dim: (1024, 1, 1), shared_mem_bytes: 0 }
}

#[test]
fn add_bias_batched_plans_one_thread_per_element() {
    let l = add_bias_batched("out", "bias", &6, 1);
    assert_eq!(l.kernel, Kernel::AddBiasBatched);
    assert_eq!(l.shape, elems(1));
    assert_eq!(
        l.args,
        vec![KernelArg::Buffer("out"), KernelArg::Buffer("bias"), KernelArg::Int(1), KernelArg::Int(6)]
    );
}

#[test]
fn add_bias_batched_rounds_blocks_up() {
    // 1025 elements need two blocks of 1024 threads.
    let l = add_bias_batched(0u8, 1u8, &1025, 1);
    assert_eq!(l.shape, elems(2));
    let l = add_bias_batched(0u8, 1u8, &512, 4);
    assert_eq!(l.shape, elems(2));
    let l = add_bias_batched(0u8, 1u8, &512, 2);
    assert_eq!(l.shape, elems(1));
}

#[test]
fn rmsnorm_plans_one_block_of_256_per_row() {
    let l = rmsnorm("in", "out", "gamma", 5, 3);
    assert_eq!(l.kernel, Kernel::Rmsnorm);
    assert_eq!(l.shape, LaunchShape { grid_dim: (3, 1, 1), block_dim: (256, 1, 1), shared_mem_bytes: 0 });
    assert_eq!(
        l.args,
        vec![
            KernelArg::Buffer("in"),
            KernelArg::Buffer("out"),
            KernelArg::Buffer("gamma"),
            KernelArg::Int(5),
            KernelArg::Epsilon,
            KernelArg::Int(3),
        ]
    );
}

#[test]
fn rmsnorm_backward_argument_order() {
    let l = rmsnorm_backward("dy", "x", "gamma", "dx", "dgamma", 4, 2);
    assert_eq!(l.kernel, Kernel::RmsnormBackward);
    assert_eq!(l.shape, LaunchShape { grid_dim: (2, 1, 1), block_dim: (256, 1, 1), shared_mem_bytes: 0 });
    assert_eq!(
        l.args,
        vec![
            KernelArg::Buffer("dy"),
            KernelArg::Buffer("x"),
            KernelArg::Buffer("gamma"),
            KernelArg::Buffer("dx"),
            KernelArg::Buffer("dgamma"),
            KernelArg::Int(4),
            KernelArg::Epsilon,
            KernelArg::Int(2),
        ]
    );
}

#[test]
fn mse_loss_backward_grid_covers_total() {
    // The block count is the rounded-up quotient, not the element count.
    let l = mse_loss_backward("pred", "target", "grad", 5000);
    assert_eq!(l.kernel, Kernel::MseLossBackward);
    assert_eq!(l.shape, elems(5));
    assert_eq!(
        l.args,
        vec![
            KernelArg::Buffer("pred"),
            KernelArg::Buffer("target"),
            KernelArg::Buffer("grad"),
            KernelArg::Int(5000),
        ]
    );
    assert_eq!(mse_loss_backward(0u8, 1u8, 2u8, 1024).shape, elems(1));
    assert_eq!(mse_loss_backward(0u8, 1u8, 2u8, 1).shape, elems(1));
    assert_eq!(mse_loss_backward(0u8, 1u8, 2u8, 0).shape, elems(0));
}

#[test]
fn mse_loss_backward_negative_total_wraps() {
    // -1 as u32 is u32::MAX, which takes 4194304 blocks.
    assert_eq!(mse_loss_backward(0u8, 1u8, 2u8, -1).shape, elems(4194304));
}

#[test]
fn swiglu_backward_plans_per_activation() {
    let l = swiglu_backward("dy", "dlin", "lin", 3, 4);
    assert_eq!(l.kernel, Kernel::SwigluBackward);
    assert_eq!(l.shape, elems(1));
    assert_eq!(
        l.args,
        vec![
            KernelArg::Buffer("dy"),
            KernelArg::Buffer("dlin"),
            KernelArg::Buffer("lin"),
            KernelArg::Int(3),
            KernelArg::Int(4),
        ]
    );
    assert_eq!(swiglu_backward(0u8, 1u8, 2u8, 1000, 3).shape, elems(3));
}

#[test]
fn bias_backward_plans_per_feature() {
    let l = bias_backward("dlin", "dbias", 6, 10);
    assert_eq!(l.kernel, Kernel::BiasBackward);
    assert_eq!(l.shape, elems(1));
    assert_eq!(
        l.args,
        vec![KernelArg::Buffer("dlin"), KernelArg::Buffer("dbias"), KernelArg::Int(6), KernelArg::Int(10)]
    );
    assert_eq!(bias_backward(0u8, 1u8, 2049, 1).shape, elems(3));
}

#[test]
fn sgd_step_plans_per_parameter() {
    let l = sgd_step("w", 30, "dw");
    assert_eq!(l.kernel, Kernel::SgdStep);
    assert_eq!(l.shape, elems(1));
    assert_eq!(
        l.args,
        vec![
            KernelArg::WrittenBuffer("w"),
            KernelArg::Buffer("dw"),
            KernelArg::LearningRate,
            KernelArg::Int(30),
        ]
    );
    assert_eq!(sgd_step(0u8, 3000, 1u8).shape, elems(3));
}

#[test]
fn sgd_step_covers_every_parameter() {
    for len in [1usize, 1023, 1024, 1025, 70_000] {
        let l = sgd_step(0u8, len, 1u8);
        assert_eq!(l.args[3], KernelArg::Int(len as i32));
        assert!(l.shape.grid_dim.0 as usize * l.shape.block_dim.0 as usize >= len);
    }
}

#[test]
fn only_sgd_step_writes_through_its_arguments() {
    let plans = [
        add_bias_batched(0u8, 1u8, &6, 1).args,
        rmsnorm(0u8, 1u8, 2u8, 5, 1).args,
        rmsnorm_backward(0u8, 1u8, 2u8, 3u8, 4u8, 5, 1).args,
        mse_loss_backward(0u8, 1u8, 2u8, 5).args,
        swiglu_backward(0u8, 1u8, 2u8, 3, 1).args,
        bias_backward(0u8, 1u8, 6, 1).args,
        swiglu_forward(0u8, 3, 1).args,
    ];
    for args in plans.iter() {
        assert!(!args.iter().any(|a| matches!(a, KernelArg::WrittenBuffer(_))));
    }
    let plan = sgd_step(7u8, 10, 8u8);
    let written: Vec<&KernelArg<u8>> = plan
        .args
        .iter()
        .filter(|a| matches!(a, KernelArg::WrittenBuffer(_)))
        .collect();
    assert_eq!(written, vec![&KernelArg::WrittenBuffer(7u8)]);
}

#[test]
fn swiglu_forward_plans_per_activation() {
    let l = swiglu_forward("out", 3, 1);
    assert_eq!(l.kernel, Kernel::SwigluForward);
    assert_eq!(l.shape, elems(1));
    assert_eq!(l.args, vec![KernelArg::Buffer("out"), KernelArg::Int(3), KernelArg::Int(1)]);
}

#[test]
fn grid_times_block_covers_every_element() {
    for n in [0i32, 1, 2, 1023, 1024, 1025, 4096, 100_000] {
        let s = mse_loss_backward(0u8, 1u8, 2u8, n).shape;
        let threads = s.grid_dim.0 as u64 * s.block_dim.0 as u64;
        assert!(threads >= n as u64);
        assert!(threads < n as u64 + 1024);
    }
}

#[test]
fn kernel_names() {
    assert_eq!(Kernel::SwigluForward.name(), "swiglu_forward");
    assert_eq!(Kernel::AddBiasBatched.name(), "add_bias_batched");
    assert_eq!(Kernel::Rmsnorm.name(), "rmsnorm");
    assert_eq!(Kernel::RmsnormBackward.name(), "rmsnorm_backward");
    assert_eq!(Kernel::MseLossBackward.name(), "mse_loss_backward");
    assert_eq!(Kernel::SwigluBackward.name(), "swiglu_backward");
    assert_eq!(Kernel::BiasBackward.name(), "bias_backward");
    assert_eq!(Kernel::SgdStep.name(), "sgd_step");
}
