use basic_ai_engine::backward::backprop;
use basic_ai_engine::forward::{
    output_buffer, process_network, step, DeviceBuffer, GemmShape, StepAction,
};
use basic_ai_engine::launch::{add_bias_batched, rmsnorm, swiglu_forward};
use basic_ai_engine::layer::{alloc_learning_slice, LinearLayer};
use basic_ai_engine::network::{
    create_network, fill_network_with_noise, ping_pong_len, NoiseFill, INPUT_FEATURES,
    OUTPUT_FEATURES,
};

#[test]
fn learning_slices_only_in_training() {
    assert_eq!(alloc_learning_slice(30, true), Some(30));
    assert_eq!(alloc_learning_slice(0, true), Some(0));
    assert_eq!(alloc_learning_slice(30, false), None);
    assert_eq!(alloc_learning_slice(-1, true), Some(usize::MAX));
}

#[test]
fn layer_buffer_sizes_in_training() {
    let l = LinearLayer::new(5, 3, 2, true);
    assert_eq!(l.in_features, 5);
    assert_eq!(l.out_features, 3);
    assert_eq!(l.weights, 30);
    assert_eq!(l.bias, 6);
    assert_eq!(l.gamma, 5);
    assert_eq!(l.grad_weights, Some(30));
    assert_eq!(l.grad_bias, Some(6));
    assert_eq!(l.grad_gamma, Some(5));
    assert_eq!(l.saved_input, Some(10));
    assert_eq!(l.saved_no_normalized_input, Some(10));
    assert_eq!(l.saved_linear, Some(12));
}

#[test]
fn layer_buffer_sizes_in_inference() {
    let l = LinearLayer::new(3, 2, 4, false);
    assert_eq!(l.weights, 12);
    assert_eq!(l.bias, 4);
    assert_eq!(l.gamma, 3);
    assert_eq!(l.grad_weights, None);
    assert_eq!(l.grad_bias, None);
    assert_eq!(l.grad_gamma, None);
    assert_eq!(l.saved_input, None);
    assert_eq!(l.saved_no_normalized_input, None);
    assert_eq!(l.saved_linear, None);
}

#[test]
fn created_network_is_5_3_3_2_and_chains() {
    let net = create_network(1, true);
    let widths: Vec<(usize, usize)> =
        net.layers.iter().map(|l| (l.in_features, l.out_features)).collect();
    assert_eq!(widths, vec![(5, 3), (3, 3), (3, 2)]);
    assert_eq!(net.layers[0].in_features, INPUT_FEATURES);
    assert_eq!(net.layers[2].out_features, OUTPUT_FEATURES);
    for i in 0..2 {
        assert_eq!(net.layers[i].out_features, net.layers[i + 1].in_features);
    }
    assert_eq!(net.layers[1], LinearLayer::new(3, 3, 1, true));
}

#[test]
fn learning_buffers_follow_the_mode() {
    for mode in [true, false] {
        let net = create_network(3, mode);
        for l in &net.layers {
            assert_eq!(l.grad_weights.is_some(), mode);
            assert_eq!(l.grad_bias.is_some(), mode);
            assert_eq!(l.grad_gamma.is_some(), mode);
            assert_eq!(l.saved_input.is_some(), mode);
            assert_eq!(l.saved_no_normalized_input.is_some(), mode);
            assert_eq!(l.saved_linear.is_some(), mode);
        }
    }
}

#[test]
fn noise_fills_match_the_parameter_buffers() {
    let net = create_network(1, true);
    let fills = fill_network_with_noise(&net);
    assert_eq!(
        fills,
        vec![
            NoiseFill { fan_in: 5, weights: 30, bias: 6, gamma: 5 },
            NoiseFill { fan_in: 3, weights: 18, bias: 6, gamma: 3 },
            NoiseFill { fan_in: 3, weights: 12, bias: 4, gamma: 3 },
        ]
    );
    for (f, l) in fills.iter().zip(net.layers.iter()) {
        assert_eq!(f.weights, l.weights);
        assert_eq!(f.bias, l.bias);
        assert_eq!(f.gamma, l.gamma);
    }
}

#[test]
fn ping_pong_buffers_hold_every_activation() {
    assert_eq!(ping_pong_len(1), 10);
    assert_eq!(ping_pong_len(4), 40);
    let net = create_network(4, true);
    for l in &net.layers {
        assert!(4 * l.in_features <= ping_pong_len(4));
        assert!(4 * 2 * l.out_features <= ping_pong_len(4));
    }
}

#[test]
fn output_buffer_follows_parity() {
    assert_eq!(output_buffer(0), DeviceBuffer::PingA);
    assert_eq!(output_buffer(1), DeviceBuffer::PingB);
    assert_eq!(output_buffer(2), DeviceBuffer::PingA);
    assert_eq!(output_buffer(3), DeviceBuffer::PingB);
    assert_eq!(output_buffer(-3), DeviceBuffer::PingB);
}

#[test]
fn training_step_does_the_work_in_order() {
    let net = create_network(1, true);
    let actions = step(&net, 1, 0, 0, true);
    assert_eq!(
        actions,
        vec![
            StepAction::Save {
                from: DeviceBuffer::PingA,
                len: 5,
                into: DeviceBuffer::SavedNoNormalizedInput,
            },
            StepAction::Launch(rmsnorm(DeviceBuffer::PingA, DeviceBuffer::PingA, DeviceBuffer::Gamma, 5, 1)),
            StepAction::Gemm {
                shape: GemmShape { m: 6, n: 1, k: 5, lda: 6, ldb: 5, ldc: 6 },
                a: DeviceBuffer::Weights,
                b: DeviceBuffer::PingA,
                c: DeviceBuffer::PingB,
            },
            StepAction::Launch(add_bias_batched(DeviceBuffer::PingB, DeviceBuffer::Bias, &6, 1)),
            StepAction::Save { from: DeviceBuffer::PingB, len: 6, into: DeviceBuffer::SavedLinear },
            StepAction::Save { from: DeviceBuffer::PingA, len: 5, into: DeviceBuffer::SavedInput },
            StepAction::Launch(swiglu_forward(DeviceBuffer::PingB, 3, 1)),
        ]
    );
}

#[test]
fn inference_step_saves_nothing() {
    let net = create_network(2, false);
    let actions = step(&net, 2, 1, 2, false);
    assert_eq!(
        actions,
        vec![
            StepAction::Launch(rmsnorm(DeviceBuffer::PingB, DeviceBuffer::PingB, DeviceBuffer::Gamma, 3, 2)),
            StepAction::Gemm {
                shape: GemmShape { m: 4, n: 2, k: 3, lda: 4, ldb: 3, ldc: 4 },
                a: DeviceBuffer::Weights,
                b: DeviceBuffer::PingB,
                c: DeviceBuffer::PingA,
            },
            StepAction::Launch(add_bias_batched(DeviceBuffer::PingA, DeviceBuffer::Bias, &4, 2)),
            StepAction::Launch(swiglu_forward(DeviceBuffer::PingA, 2, 2)),
        ]
    );
}

#[test]
fn pass_runs_every_layer_and_alternates_buffers() {
    let net = create_network(1, true);
    let pass = process_network(&net, 1, true);
    assert_eq!(pass.ping_pong_index, 3);
    assert_eq!(pass.steps.len(), 3);
    for (i, actions) in pass.steps.iter().enumerate() {
        assert_eq!(actions, &step(&net, 1, i as i32, i, true));
    }
    let gemm_buffers: Vec<(DeviceBuffer, DeviceBuffer)> = pass
        .steps
        .iter()
        .map(|s| {
            s.iter()
                .find_map(|a| match a {
                    StepAction::Gemm { b, c, .. } => Some((*b, *c)),
                    _ => None,
                })
                .unwrap()
        })
        .collect();
    assert_eq!(
        gemm_buffers,
        vec![
            (DeviceBuffer::PingA, DeviceBuffer::PingB),
            (DeviceBuffer::PingB, DeviceBuffer::PingA),
            (DeviceBuffer::PingA, DeviceBuffer::PingB),
        ]
    );
    // The result is where the last step wrote.
    assert_eq!(output_buffer(pass.ping_pong_index), gemm_buffers[2].1);
}

#[test]
fn step_saves_exactly_fill_the_saved_buffers() {
    let net = create_network(3, true);
    for (i, l) in net.layers.iter().enumerate() {
        for a in step(&net, 3, i as i32, i, true) {
            if let StepAction::Save { len, into, .. } = a {
                let cap = match into {
                    DeviceBuffer::SavedInput => l.saved_input,
                    DeviceBuffer::SavedNoNormalizedInput => l.saved_no_normalized_input,
                    DeviceBuffer::SavedLinear => l.saved_linear,
                    _ => None,
                };
                assert_eq!(cap, Some(len));
            }
            if let StepAction::Gemm { shape, .. } = a {
                assert_eq!((shape.m * shape.k) as usize, l.weights);
                assert_eq!(shape.m as usize, l.bias);
                assert_eq!(shape.k as usize, l.gamma);
            }
        }
    }
}

#[test]
fn empty_network_pass_does_nothing() {
    let net = basic_ai_engine::network::NeuralNetwork { layers: Vec::new() };
    let pass = process_network(&net, 1, true);
    assert_eq!(pass.ping_pong_index, 0);
    assert!(pass.steps.is_empty());
}

#[test]
fn backprop_succeeds() {
    assert_eq!(backprop(), Ok(()));
}
