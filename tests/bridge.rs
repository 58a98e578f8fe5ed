use video_buffer::{
    DisplayBackend, DisplayBridge, DisplayPresenter, PixelFormat, Renderer, TripleBuffer,
    VideoBufferError,
};

struct MockRenderer {
    render_count: usize,
}

impl MockRenderer {
    fn new() -> Self {
        Self { render_count: 0 }
    }
}

impl Renderer for MockRenderer {
    const FORMAT: PixelFormat = PixelFormat::Rgba8;

    fn render(&mut self, frame: &mut [u8], width: u32, height: u32) {
        self.render_count += 1;
        let expected_size = (width * height * 4) as usize;
        assert_eq!(frame.len(), expected_size);

        for i in 0..frame.len() {
            frame[i] = ((self.render_count + i) % 256) as u8;
        }
    }
}

struct MockBackend {
    init_called: bool,
    present_count: usize,
    last_frame: Vec<u8>,
}

impl MockBackend {
    fn new() -> Self {
        Self {
            init_called: false,
            present_count: 0,
            last_frame: Vec::new(),
        }
    }
}

impl DisplayBackend for MockBackend {
    const FORMAT: PixelFormat = PixelFormat::Rgba8;

    fn init(&mut self, _width: u32, _height: u32) -> Result<(), VideoBufferError> {
        self.init_called = true;
        Ok(())
    }

    fn present(&mut self, frame: &[u8]) -> Result<(), VideoBufferError> {
        self.present_count += 1;
        self.last_frame = frame.to_vec();
        Ok(())
    }
}

struct FailingBackend {
    fail_init: bool,
    presents: usize,
}

impl DisplayBackend for FailingBackend {
    const FORMAT: PixelFormat = PixelFormat::Rgba8;

    fn init(&mut self, _width: u32, _height: u32) -> Result<(), VideoBufferError> {
        if self.fail_init {
            Err(VideoBufferError::InitFailed("no surface".to_string()))
        } else {
            Ok(())
        }
    }

    fn present(&mut self, _frame: &[u8]) -> Result<(), VideoBufferError> {
        self.presents += 1;
        Err(VideoBufferError::PresentFailed("lost device".to_string()))
    }
}

struct UninitBackend;

impl DisplayBackend for UninitBackend {
    const FORMAT: PixelFormat = PixelFormat::Rgba8;

    fn init(&mut self, _width: u32, _height: u32) -> Result<(), VideoBufferError> {
        Ok(())
    }

    fn present(&mut self, _frame: &[u8]) -> Result<(), VideoBufferError> {
        Err(VideoBufferError::NotInitialized)
    }
}

struct PrgbRenderer;

impl Renderer for PrgbRenderer {
    const FORMAT: PixelFormat = PixelFormat::Prgb8;

    fn render(&mut self, frame: &mut [u8], _width: u32, _height: u32) {
        for (i, b) in frame.iter_mut().enumerate() {
            *b = (i % 4) as u8 * 10;
        }
    }
}

#[test]
fn test_bridge_creation() {
    let backend = MockBackend::new();
    let bridge = DisplayBridge::new(backend, 320, 200, PixelFormat::Rgba8).unwrap();

    assert_eq!(bridge.width(), 320);
    assert_eq!(bridge.height(), 200);
    assert!(bridge.backend().init_called);
}

#[test]
fn test_render_frame_no_conversion() {
    let backend = MockBackend::new();
    let mut bridge = DisplayBridge::new(backend, 100, 100, PixelFormat::Rgba8).unwrap();
    let mut renderer = MockRenderer::new();

    assert!(!bridge.converts());

    bridge.render_frame(&mut renderer).unwrap();

    assert_eq!(renderer.render_count, 1);
    assert_eq!(bridge.backend().present_count, 1);
    assert_eq!(bridge.backend().last_frame.len(), 100 * 100 * 4);
}

#[test]
fn test_multiple_frames() {
    let backend = MockBackend::new();
    let mut bridge = DisplayBridge::new(backend, 50, 50, PixelFormat::Rgba8).unwrap();
    let mut renderer = MockRenderer::new();

    for i in 0..10 {
        bridge.render_frame(&mut renderer).unwrap();
        assert_eq!(renderer.render_count, i + 1);
    }

    assert_eq!(bridge.backend().present_count, 10);
}

#[test]
fn bridge_test_triple_buffer_cycling() {
    let backend = MockBackend::new();
    let mut bridge = DisplayBridge::new(backend, 10, 10, PixelFormat::Rgba8).unwrap();
    let mut renderer = MockRenderer::new();

    for _ in 0..3 {
        bridge.render_frame(&mut renderer).unwrap();
    }

    assert_eq!(renderer.render_count, 3);
    assert_eq!(bridge.backend().present_count, 3);
}

#[test]
fn bridge_presents_the_frame_just_rendered() {
    let mut bridge = DisplayBridge::new(MockBackend::new(), 4, 4, PixelFormat::Rgba8).unwrap();
    let mut renderer = MockRenderer::new();
    for n in 1..=4usize {
        bridge.render_frame(&mut renderer).unwrap();
        let expected: Vec<u8> = (0..64).map(|i| ((n + i) % 256) as u8).collect();
        assert_eq!(bridge.backend().last_frame, expected);
    }
}

#[test]
fn bridge_converts_for_the_backend_layout() {
    let mut bridge = DisplayBridge::new(MockBackend::new(), 2, 1, PixelFormat::Prgb8).unwrap();
    assert!(bridge.converts());
    bridge.render_frame(&mut PrgbRenderer).unwrap();
    assert_eq!(bridge.backend().last_frame, vec![10, 20, 30, 0, 10, 20, 30, 0]);
}

#[test]
fn bridge_returns_init_failure() {
    let backend = FailingBackend { fail_init: true, presents: 0 };
    let r = DisplayBridge::new(backend, 8, 8, PixelFormat::Rgba8);
    assert!(matches!(r, Err(VideoBufferError::InitFailed(ref m)) if m == "no surface"));
}

#[test]
fn bridge_returns_present_failure() {
    let backend = FailingBackend { fail_init: false, presents: 0 };
    let mut bridge = DisplayBridge::new(backend, 8, 8, PixelFormat::Rgba8).unwrap();
    let r = bridge.render_frame(&mut MockRenderer::new());
    assert!(matches!(r, Err(VideoBufferError::PresentFailed(ref m)) if m == "lost device"));
    assert_eq!(bridge.backend().presents, 1);
}

#[test]
fn bridge_returns_not_initialized() {
    let mut bridge = DisplayBridge::new(UninitBackend, 8, 8, PixelFormat::Rgba8).unwrap();
    let r = bridge.render_frame(&mut MockRenderer::new());
    assert_eq!(r, Err(VideoBufferError::NotInitialized));
}

#[test]
fn bridge_from_init_passes_the_error_on() {
    let r = DisplayBridge::from_init(
        MockBackend::new(),
        Err(VideoBufferError::InitFailed("x".to_string())),
        4,
        4,
        PixelFormat::Rgba8,
    );
    assert!(matches!(r, Err(VideoBufferError::InitFailed(ref m)) if m == "x"));
    let ok = DisplayBridge::from_init(MockBackend::new(), Ok(()), 4, 4, PixelFormat::Prgb8).unwrap();
    assert!(ok.converts());
    assert!(!ok.backend().init_called);
}

#[test]
fn presenter_limits_to_thirty_fps() {
    let presenter = DisplayPresenter::new(MockBackend::new(), 4, 4, PixelFormat::Rgba8).unwrap();
    let mut presenter = presenter.with_max_fps(30);
    let frame = vec![1u8; 64];
    assert_eq!(presenter.present_frame(&frame, 0), Ok(true));
    assert_eq!(presenter.present_frame(&frame, 10), Ok(false));
    assert_eq!(presenter.present_frame(&frame, 40), Ok(true));
    assert_eq!(presenter.backend().present_count, 2);
}

#[test]
fn presenter_gate_boundary() {
    let presenter = DisplayPresenter::new(MockBackend::new(), 1, 1, PixelFormat::Rgba8).unwrap();
    let mut presenter = presenter.with_max_fps(40);
    assert!(presenter.is_due(100));
    assert_eq!(presenter.present_frame(&[0, 0, 0, 0], 100), Ok(true));
    assert!(!presenter.is_due(124));
    assert!(presenter.is_due(125));
    assert!(!presenter.is_due(50));
}

#[test]
fn presenter_without_limit_shows_every_frame() {
    let mut presenter = DisplayPresenter::new(MockBackend::new(), 1, 1, PixelFormat::Rgba8).unwrap();
    for t in [5u64, 5, 6, 0] {
        assert_eq!(presenter.present_frame(&[1, 2, 3, 4], t), Ok(true));
    }
    assert_eq!(presenter.backend().present_count, 4);
}

#[test]
fn presenter_skip_leaves_buffer_alone() {
    let tb = TripleBuffer::new(2, 2, PixelFormat::Rgba8);
    let presenter = DisplayPresenter::new(MockBackend::new(), 2, 2, PixelFormat::Rgba8).unwrap();
    let mut presenter = presenter.with_max_fps(30);

    let mut slot = tb.render_buffer();
    slot.set(0, 77);
    slot.release();
    tb.commit_render();

    assert_eq!(presenter.present(&tb, 0), Ok(true));
    assert_eq!(presenter.backend().last_frame[0], 77);
    let roles = tb.roles();
    assert_eq!(presenter.present(&tb, 10), Ok(false));
    assert_eq!(tb.roles(), roles);
    assert_eq!(presenter.present(&tb, 40), Ok(true));
    assert_eq!(presenter.backend().present_count, 2);
}

#[test]
fn presenter_converts_raw_frames() {
    let mut presenter = DisplayPresenter::new(MockBackend::new(), 1, 1, PixelFormat::Prgb8).unwrap();
    assert!(presenter.converts());
    assert_eq!(presenter.present_frame(&[255, 1, 2, 3], 0), Ok(true));
    assert_eq!(presenter.backend().last_frame, vec![1, 2, 3, 255]);
}

#[test]
fn presenter_failure_does_not_count_as_shown() {
    let backend = FailingBackend { fail_init: false, presents: 0 };
    let presenter = DisplayPresenter::new(backend, 1, 1, PixelFormat::Rgba8).unwrap();
    let mut presenter = presenter.with_max_fps(30);
    let r = presenter.present_frame(&[0, 0, 0, 0], 0);
    assert!(matches!(r, Err(VideoBufferError::PresentFailed(_))));
    assert!(presenter.is_due(1));
}

#[test]
fn presenter_returns_init_failure() {
    let backend = FailingBackend { fail_init: true, presents: 0 };
    let r = DisplayPresenter::new(backend, 1, 1, PixelFormat::Rgba8);
    assert!(matches!(r, Err(VideoBufferError::InitFailed(_))));
}

#[test]
fn presenter_record_outcome_settles_each_answer() {
    let presenter = DisplayPresenter::new(MockBackend::new(), 1, 1, PixelFormat::Rgba8).unwrap();
    let mut presenter = presenter.with_max_fps(30);
    assert_eq!(presenter.record_outcome(Ok(()), 0), Ok(true));
    assert!(!presenter.is_due(10));
    assert!(presenter.is_due(40));
    let failed = presenter.record_outcome(Err(VideoBufferError::PresentFailed("gone".to_string())), 40);
    assert_eq!(failed, Err(VideoBufferError::PresentFailed("gone".to_string())));
    assert!(!presenter.is_due(20));
    assert!(presenter.is_due(40));
    assert_eq!(presenter.record_outcome(Err(VideoBufferError::NotInitialized), 50), Err(VideoBufferError::NotInitialized));
    assert_eq!(presenter.record_outcome(Ok(()), 50), Ok(true));
    assert!(!presenter.is_due(60));
    assert!(presenter.is_due(84));
}
