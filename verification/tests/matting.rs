use fakecam::filter::{Filter, FilterError};
use fakecam::frame::Frame;
use fakecam::rvmfilter::{
    preprocess, tensor_to_frame, tensor_to_mask, validate, EngineFault, InferenceEngine,
    ModelConfig, RVMFilter, RecurrentState,
};
use fakecam::tensor::Tensor;

fn solid(width: usize, height: usize, channels: usize, fill: u8) -> Frame {
    Frame { width, height, channels, data: vec![fill; width * height * channels] }
}

fn cfg(swap_channels: bool) -> ModelConfig {
    ModelConfig { swap_channels, downsample_ratio: Tensor { shape: vec![1], data: vec![64] } }
}

fn scalar(tag: u8) -> Tensor {
    Tensor { shape: vec![1], data: vec![tag] }
}

fn assert_zero_state(state: &RecurrentState) {
    for t in [&state.r1, &state.r2, &state.r3, &state.r4] {
        assert_eq!(t.shape, vec![1, 1, 1, 1]);
        assert_eq!(t.data, vec![0]);
    }
}

/// Records every input list it receives and answers with well-shaped
/// outputs: a solid foreground, a solid alpha plane, and four recurrent
/// scalars tagged by call number.
struct ScriptedEngine {
    recorded: Vec<Vec<Tensor>>,
    fgr_fill: u8,
    pha_fill: u8,
}

impl ScriptedEngine {
    fn answering(fgr_fill: u8, pha_fill: u8) -> ScriptedEngine {
        ScriptedEngine { recorded: Vec::new(), fgr_fill, pha_fill }
    }
}

impl InferenceEngine for ScriptedEngine {
    fn load(_model_path: &str) -> Result<Self, EngineFault> {
        Ok(ScriptedEngine::answering(0, 255))
    }

    fn run(&mut self, inputs: &Vec<Tensor>) -> Result<Vec<Tensor>, EngineFault> {
        self.recorded.push(inputs.iter().map(|t| t.duplicate()).collect());
        let call = self.recorded.len() as u8;
        let h = inputs[0].shape[2];
        let w = inputs[0].shape[3];
        let fgr = Tensor { shape: vec![1, 3, h, w], data: vec![self.fgr_fill; 3 * h * w] };
        let pha = Tensor { shape: vec![1, 1, h, w], data: vec![self.pha_fill; h * w] };
        Ok(vec![
            fgr,
            pha,
            scalar(100 * call + 1),
            scalar(100 * call + 2),
            scalar(100 * call + 3),
            scalar(100 * call + 4),
        ])
    }
}

/// Breaks the model's arity contract: answers with five outputs.
struct FiveOutputEngine {}

impl InferenceEngine for FiveOutputEngine {
    fn load(_model_path: &str) -> Result<Self, EngineFault> {
        Ok(FiveOutputEngine {})
    }

    fn run(&mut self, inputs: &Vec<Tensor>) -> Result<Vec<Tensor>, EngineFault> {
        let h = inputs[0].shape[2];
        let w = inputs[0].shape[3];
        let fgr = Tensor { shape: vec![1, 3, h, w], data: vec![0; 3 * h * w] };
        let pha = Tensor { shape: vec![1, 1, h, w], data: vec![255; h * w] };
        Ok(vec![fgr, pha, scalar(1), scalar(2), scalar(3)])
    }
}

/// Answers six outputs whose foreground tensor has the wrong spatial shape.
struct WrongShapeEngine {}

impl InferenceEngine for WrongShapeEngine {
    fn load(_model_path: &str) -> Result<Self, EngineFault> {
        Ok(WrongShapeEngine {})
    }

    fn run(&mut self, inputs: &Vec<Tensor>) -> Result<Vec<Tensor>, EngineFault> {
        let h = inputs[0].shape[2];
        let w = inputs[0].shape[3] + 1;
        let fgr = Tensor { shape: vec![1, 3, h, w], data: vec![0; 3 * h * w] };
        let pha = Tensor { shape: vec![1, 1, h, w], data: vec![255; h * w] };
        Ok(vec![fgr, pha, scalar(1), scalar(2), scalar(3), scalar(4)])
    }
}

/// Cannot load any model and fails every run.
struct UnavailableEngine {}

impl InferenceEngine for UnavailableEngine {
    fn load(_model_path: &str) -> Result<Self, EngineFault> {
        Err(EngineFault {})
    }

    fn run(&mut self, _inputs: &Vec<Tensor>) -> Result<Vec<Tensor>, EngineFault> {
        Err(EngineFault {})
    }
}

fn filter_with<E: InferenceEngine>(engine: E, swap_channels: bool) -> RVMFilter<E> {
    RVMFilter { engine, cfg: cfg(swap_channels), state: RecurrentState::init() }
}

#[test]
fn shape_mismatch_is_validation_error_and_engine_is_never_invoked() {
    let mut filter = filter_with(ScriptedEngine::answering(9, 9), false);
    let mut src = solid(100, 100, 3, 50);
    let before = src.data.clone();
    let bg = solid(200, 100, 3, 60);
    assert_eq!(filter.filter_inplace(&mut src, &bg), Err(FilterError::ValidationError));
    assert_eq!(filter.engine.recorded.len(), 0);
    assert_eq!(src.data, before);
    assert_zero_state(&filter.state);
}

#[test]
fn non_three_channel_frames_are_rejected() {
    let mut filter = filter_with(ScriptedEngine::answering(9, 9), false);
    let mut src = solid(8, 8, 1, 50);
    let bg = solid(8, 8, 3, 60);
    assert_eq!(filter.filter_inplace(&mut src, &bg), Err(FilterError::ValidationError));
    assert_eq!(filter.engine.recorded.len(), 0);
}

#[test]
fn successful_call_composites_foreground_over_background() {
    let mut filter = filter_with(ScriptedEngine::answering(200, 255), false);
    let mut src = solid(4, 3, 3, 50);
    let bg = solid(4, 3, 3, 7);
    assert_eq!(filter.filter_inplace(&mut src, &bg), Ok(()));
    // Full alpha keeps the predicted foreground everywhere.
    assert_eq!(src.data, vec![200; 4 * 3 * 3]);
    assert_eq!(src.width, 4);
    assert_eq!(src.height, 3);
    assert_eq!(src.channels, 3);
}

#[test]
fn zero_alpha_yields_the_background() {
    let mut filter = filter_with(ScriptedEngine::answering(200, 0), false);
    let mut src = solid(4, 3, 3, 50);
    let bg = solid(4, 3, 3, 7);
    assert_eq!(filter.filter_inplace(&mut src, &bg), Ok(()));
    assert_eq!(src.data, bg.data);
}

#[test]
fn successful_call_commits_the_returned_recurrent_state() {
    let mut filter = filter_with(ScriptedEngine::answering(10, 255), false);
    let mut src = solid(2, 2, 3, 50);
    let bg = solid(2, 2, 3, 7);
    assert_eq!(filter.filter_inplace(&mut src, &bg), Ok(()));
    assert_eq!(filter.state.r1.data, vec![101]);
    assert_eq!(filter.state.r2.data, vec![102]);
    assert_eq!(filter.state.r3.data, vec![103]);
    assert_eq!(filter.state.r4.data, vec![104]);
}

#[test]
fn recurrence_continuity_feeds_last_outputs_into_next_call() {
    let mut filter = filter_with(ScriptedEngine::answering(10, 255), false);
    let mut f1 = solid(2, 2, 3, 40);
    let mut f2 = solid(2, 2, 3, 90);
    let bg = solid(2, 2, 3, 7);
    assert_eq!(filter.filter_inplace(&mut f1, &bg), Ok(()));
    assert_eq!(filter.filter_inplace(&mut f2, &bg), Ok(()));
    assert_eq!(filter.engine.recorded.len(), 2);
    // The first call carries the zero seed in positions 1 through 4.
    for k in 1..5 {
        assert_eq!(filter.engine.recorded[0][k].shape, vec![1, 1, 1, 1]);
        assert_eq!(filter.engine.recorded[0][k].data, vec![0]);
    }
    // The second call carries exactly the tensors the first call returned.
    assert_eq!(filter.engine.recorded[1][1].data, vec![101]);
    assert_eq!(filter.engine.recorded[1][2].data, vec![102]);
    assert_eq!(filter.engine.recorded[1][3].data, vec![103]);
    assert_eq!(filter.engine.recorded[1][4].data, vec![104]);
    // And the filter now holds the second call's outputs.
    assert_eq!(filter.state.r1.data, vec![201]);
    assert_eq!(filter.state.r4.data, vec![204]);
}

#[test]
fn engine_receives_image_ratio_and_state_positionally() {
    let mut filter = filter_with(ScriptedEngine::answering(10, 255), true);
    let mut src = Frame { width: 2, height: 1, channels: 3, data: vec![1, 2, 3, 4, 5, 6] };
    let bg = solid(2, 1, 3, 7);
    assert_eq!(filter.filter_inplace(&mut src, &bg), Ok(()));
    let inputs = &filter.engine.recorded[0];
    assert_eq!(inputs.len(), 6);
    assert_eq!(inputs[0].shape, vec![1, 3, 1, 2]);
    // Swapped channel order: the third channel's plane comes first.
    assert_eq!(inputs[0].data, vec![3, 6, 2, 5, 1, 4]);
    assert_eq!(inputs[5].shape, vec![1]);
    assert_eq!(inputs[5].data, vec![64]);
}

#[test]
fn five_outputs_are_a_logic_error_and_leave_everything_unchanged() {
    let mut filter = filter_with(FiveOutputEngine {}, false);
    let mut src = solid(3, 3, 3, 50);
    let before = src.data.clone();
    let bg = solid(3, 3, 3, 7);
    assert_eq!(filter.filter_inplace(&mut src, &bg), Err(FilterError::LogicError));
    assert_eq!(src.data, before);
    assert_zero_state(&filter.state);
}

#[test]
fn misshapen_outputs_are_a_backend_error_and_leave_everything_unchanged() {
    let mut filter = filter_with(WrongShapeEngine {}, false);
    let mut src = solid(3, 3, 3, 50);
    let before = src.data.clone();
    let bg = solid(3, 3, 3, 7);
    assert_eq!(filter.filter_inplace(&mut src, &bg), Err(FilterError::BackendError));
    assert_eq!(src.data, before);
    assert_zero_state(&filter.state);
}

#[test]
fn failing_run_is_a_backend_error_and_leaves_everything_unchanged() {
    let mut filter = filter_with(UnavailableEngine {}, false);
    let mut src = solid(3, 3, 3, 50);
    let before = src.data.clone();
    let bg = solid(3, 3, 3, 7);
    assert_eq!(filter.filter_inplace(&mut src, &bg), Err(FilterError::BackendError));
    assert_eq!(src.data, before);
    assert_zero_state(&filter.state);
}

#[test]
fn construction_fails_cleanly_on_a_missing_model() {
    let r = RVMFilter::<UnavailableEngine>::new("/no/such/model.onnx", cfg(false));
    assert!(matches!(r, Err(FilterError::BackendError)));
}

#[test]
fn construction_starts_in_the_zero_state() {
    let r = RVMFilter::<ScriptedEngine>::new("model.onnx", cfg(false)).unwrap();
    assert_zero_state(&r.state);
    assert_eq!(r.cfg.swap_channels, false);
    assert_eq!(r.cfg.downsample_ratio.data, vec![64]);
}

#[test]
fn filter_clone_path_returns_composite_and_keeps_source() {
    let mut filter = filter_with(ScriptedEngine::answering(30, 255), false);
    let src = solid(2, 2, 3, 50);
    let bg = solid(2, 2, 3, 7);
    let out = filter.filter(&src, &bg).unwrap();
    assert_eq!(out.data, vec![30; 2 * 2 * 3]);
    assert_eq!(src.data, vec![50; 2 * 2 * 3]);
}

#[test]
fn validate_accepts_equal_three_channel_shapes() {
    let src = solid(7, 5, 3, 1);
    let bg = solid(7, 5, 3, 2);
    assert_eq!(validate(&src, &bg), Ok(()));
    let bg2 = solid(5, 7, 3, 2);
    assert_eq!(validate(&src, &bg2), Err(FilterError::ValidationError));
}

#[test]
fn preprocess_packs_planes_in_model_channel_order() {
    let frame = Frame { width: 2, height: 1, channels: 3, data: vec![1, 2, 3, 4, 5, 6] };
    let plain = preprocess(&frame, false);
    assert_eq!(plain.shape, vec![1, 3, 1, 2]);
    assert_eq!(plain.data, vec![1, 4, 2, 5, 3, 6]);
    let swapped = preprocess(&frame, true);
    assert_eq!(swapped.shape, vec![1, 3, 1, 2]);
    assert_eq!(swapped.data, vec![3, 6, 2, 5, 1, 4]);
}

#[test]
fn tensor_to_frame_inverts_preprocess() {
    let frame = Frame {
        width: 3,
        height: 2,
        channels: 3,
        data: (0..18).map(|i| i as u8).collect(),
    };
    for swap in [false, true] {
        let t = preprocess(&frame, swap);
        let back = tensor_to_frame(&t, 3, 2, swap).unwrap();
        assert_eq!(back.data, frame.data);
        assert_eq!(back.width, 3);
        assert_eq!(back.height, 2);
    }
}

#[test]
fn tensor_to_frame_rejects_wrong_shapes() {
    let t = Tensor { shape: vec![1, 3, 2, 2], data: vec![0; 12] };
    assert!(tensor_to_frame(&t, 2, 2, false).is_ok());
    let wrong_rank = Tensor { shape: vec![3, 2, 2], data: vec![0; 12] };
    assert_eq!(tensor_to_frame(&wrong_rank, 2, 2, false), Err(FilterError::BackendError));
    let short = Tensor { shape: vec![1, 3, 2, 2], data: vec![0; 11] };
    assert_eq!(tensor_to_frame(&short, 2, 2, false), Err(FilterError::BackendError));
}

#[test]
fn tensor_to_mask_reads_the_single_plane() {
    let t = Tensor { shape: vec![1, 1, 1, 2], data: vec![9, 8] };
    let mask = tensor_to_mask(&t, 2, 1).unwrap();
    assert_eq!(mask.channels, 1);
    assert_eq!(mask.data, vec![9, 8]);
    let wrong = Tensor { shape: vec![1, 3, 1, 2], data: vec![9, 8, 7, 6, 5, 4] };
    assert_eq!(tensor_to_mask(&wrong, 2, 1), Err(FilterError::BackendError));
}
