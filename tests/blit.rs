use jpegdec_blit::color::convert;
use jpegdec_blit::compositor::{CompositeError, Framebuffer, Rect};
use jpegdec_blit::display::{
    after_events, frame_interval_micros, next_state, should_decode, Key, LoopEvent, LoopState,
};
use jpegdec_blit::session::{DecodeError, DecodePass, DecodeReport, Scale};
use jpegdec_blit::step_gate::StepGate;

fn rect(x: usize, y: usize, width: usize, height: usize) -> Rect {
    Rect { x, y, width, height, bpp: 16 }
}

fn nonzero(fb: &Framebuffer) -> usize {
    fb.cells().iter().filter(|c| **c != 0).count()
}

#[test]
fn convert_primaries() {
    assert_eq!(convert(0xF800), 0x00F8_0000);
    assert_eq!(convert(0x07E0), 0x0000_FC00);
    assert_eq!(convert(0x001F), 0x0000_00F8);
    assert_eq!(convert(0xFFFF), 0x00F8_FCF8);
    assert_eq!(convert(0x0000), 0);
    assert_eq!(convert(0x8410), 0x0080_8080);
}

#[test]
fn convert_fields_for_every_pixel() {
    for p in 0..=u16::MAX {
        let c = convert(p);
        assert_eq!(c >> 24, 0);
        assert_eq!((c >> 16) & 0xFF, (((p >> 11) & 0x1F) as u32) << 3);
        assert_eq!((c >> 8) & 0xFF, (((p >> 5) & 0x3F) as u32) << 2);
        assert_eq!(c & 0xFF, ((p & 0x1F) as u32) << 3);
    }
}

#[test]
fn new_framebuffer_is_zero() {
    let fb = Framebuffer::new(64, 48);
    assert_eq!(fb.width(), 64);
    assert_eq!(fb.height(), 48);
    assert_eq!(fb.cells().len(), 64 * 48);
    assert_eq!(nonzero(&fb), 0);
}

#[test]
fn composite_inside_writes_block_only() {
    let mut fb = Framebuffer::new(64, 64);
    let pixels: Vec<u16> = (1..=8u16).map(|i| i << 11).collect();
    assert_eq!(fb.composite(&rect(3, 5, 4, 2), &pixels), Ok(()));
    assert_eq!(nonzero(&fb), 8);
    for row in 0..2 {
        for col in 0..4 {
            let src = pixels[row * 4 + col];
            assert_eq!(fb.cell(3 + col, 5 + row), convert(src));
        }
    }
    assert_eq!(fb.cell(2, 5), 0);
    assert_eq!(fb.cell(7, 5), 0);
    assert_eq!(fb.cell(3, 4), 0);
    assert_eq!(fb.cell(3, 7), 0);
}

#[test]
fn composite_at_far_corner() {
    let mut fb = Framebuffer::new(8, 8);
    assert_eq!(fb.composite(&rect(6, 6, 2, 2), &[0xFFFF; 4]), Ok(()));
    assert_eq!(fb.cell(7, 7), 0x00F8_FCF8);
    assert_eq!(nonzero(&fb), 4);
}

#[test]
fn composite_empty_block() {
    let mut fb = Framebuffer::new(8, 8);
    assert_eq!(fb.composite(&rect(8, 8, 0, 0), &[]), Ok(()));
    assert_eq!(nonzero(&fb), 0);
}

#[test]
fn composite_past_right_edge_writes_nothing() {
    let mut fb = Framebuffer::new(8, 8);
    assert_eq!(fb.composite(&rect(6, 0, 3, 1), &[0xFFFF; 3]), Err(CompositeError::OutOfBounds));
    assert_eq!(nonzero(&fb), 0);
}

#[test]
fn composite_past_bottom_edge_writes_nothing() {
    let mut fb = Framebuffer::new(8, 8);
    assert_eq!(fb.composite(&rect(0, 7, 1, 2), &[0xFFFF; 2]), Err(CompositeError::OutOfBounds));
    assert_eq!(nonzero(&fb), 0);
}

#[test]
fn composite_huge_offset_writes_nothing() {
    let mut fb = Framebuffer::new(8, 8);
    let r = rect(usize::MAX, usize::MAX, 1, 1);
    assert_eq!(fb.composite(&r, &[0xFFFF]), Err(CompositeError::OutOfBounds));
    assert_eq!(nonzero(&fb), 0);
}

#[test]
fn composite_rejects_eight_bit_pixels() {
    let mut fb = Framebuffer::new(8, 8);
    let r = Rect { x: 0, y: 0, width: 2, height: 1, bpp: 8 };
    assert_eq!(fb.composite(&r, &[0xFFFF; 2]), Err(CompositeError::UnsupportedPixelFormat));
    assert_eq!(nonzero(&fb), 0);
}

/// Emits an image of `w` by `h` as `bw` by `bh` blocks in raster order of
/// blocks, each pixel red.
fn decode_tiles(pass: &mut DecodePass, fb: &mut Framebuffer, w: usize, h: usize, bw: usize, bh: usize) -> usize {
    let mut area = 0;
    let mut y = 0;
    while y < h {
        let mut x = 0;
        while x < w {
            let r = rect(x, y, bw, bh);
            let pixels = vec![0xF800u16; bw * bh];
            if pass.on_block(fb, &r, &pixels).is_ok() {
                area += bw * bh;
            }
            x += bw;
        }
        y += bh;
    }
    area
}

#[test]
fn full_scale_tiles_cover_the_image_once() {
    let mut fb = Framebuffer::new(64, 64);
    let mut pass = DecodePass::new(false);
    let area = decode_tiles(&mut pass, &mut fb, 64, 64, 16, 8);
    assert_eq!(area, 64 * 64);
    assert_eq!(pass.emitted(), 32);
    assert_eq!(pass.written(), 32);
    assert_eq!(pass.skipped(), 0);
    assert!(fb.cells().iter().all(|c| *c == 0x00F8_0000));
}

#[test]
fn half_and_quarter_scale_cover_less() {
    for (scale, side) in [(Scale::Half, 32usize), (Scale::Quarter, 16usize)] {
        assert_eq!(64 / scale.divisor() as usize, side);
        let mut fb = Framebuffer::new(64, 64);
        let mut pass = DecodePass::new(false);
        let area = decode_tiles(&mut pass, &mut fb, side, side, 8, 8);
        assert_eq!(area, side * side);
        assert_eq!(nonzero(&fb), side * side);
        assert_eq!(fb.cell(side - 1, side - 1), 0x00F8_0000);
        assert_eq!(fb.cell(side, 0), 0);
        assert_eq!(fb.cell(0, side), 0);
    }
}

#[test]
fn scale_divisors_and_flags() {
    assert_eq!(Scale::Full.divisor(), 1);
    assert_eq!(Scale::Half.divisor(), 2);
    assert_eq!(Scale::Quarter.divisor(), 4);
    assert_eq!(Scale::Eighth.divisor(), 8);
    assert_eq!(Scale::Full.decoder_flag(), 0);
    assert_eq!(Scale::Half.decoder_flag(), 2);
    assert_eq!(Scale::Quarter.decoder_flag(), 4);
    assert_eq!(Scale::Eighth.decoder_flag(), 8);
}

#[test]
fn block_past_edge_is_skipped_and_pass_continues() {
    let mut fb = Framebuffer::new(16, 16);
    let mut pass = DecodePass::new(false);
    assert_eq!(pass.on_block(&mut fb, &rect(8, 8, 16, 16), &[0xFFFF; 256]), Err(CompositeError::OutOfBounds));
    assert_eq!(pass.on_block(&mut fb, &rect(0, 0, 2, 2), &[0xFFFF; 4]), Ok(()));
    assert_eq!(nonzero(&fb), 4);
    let report = pass.finish(true, true, String::new(), 1234).unwrap();
    assert_eq!(
        report,
        DecodeReport { rectangles_emitted: 2, rectangles_written: 1, rectangles_skipped: 1, elapsed_micros: 1234 }
    );
}

#[test]
fn rejected_block_aborts_when_asked() {
    let mut fb = Framebuffer::new(16, 16);
    let mut pass = DecodePass::new(true);
    let r = Rect { x: 0, y: 0, width: 1, height: 1, bpp: 8 };
    assert!(pass.on_block(&mut fb, &r, &[7]).is_err());
    assert!(pass.on_block(&mut fb, &rect(20, 0, 1, 1), &[7]).is_err());
    match pass.finish(true, true, String::new(), 5) {
        Err(DecodeError::CompositorRejected(e)) => assert_eq!(e, CompositeError::UnsupportedPixelFormat),
        other => panic!("unexpected {:?}", other),
    }
}

#[test]
fn open_failure_carries_decoder_message() {
    let pass = DecodePass::new(false);
    match pass.finish(false, false, String::from("invalid file"), 0) {
        Err(DecodeError::OpenFailed { message }) => assert_eq!(message, "invalid file"),
        other => panic!("unexpected {:?}", other),
    }
}

#[test]
fn decode_failure_after_open() {
    let pass = DecodePass::new(false);
    assert!(matches!(pass.finish(true, false, String::new(), 0), Err(DecodeError::DecodeFailed)));
}

#[test]
fn step_gate_draws_one_block_per_pass() {
    let mut gate = StepGate::new(149);
    let mut fb = Framebuffer::new(40, 4);
    for frame in 1..=10u32 {
        assert_eq!(gate.target(), frame);
        gate.begin_pass();
        let mut pass = DecodePass::new(false);
        let mut drawn_at = Vec::new();
        for k in 0..40usize {
            let r = rect(k, 0, 1, 1);
            if pass.on_gated_block(&mut gate, &mut fb, &r, &[0xFFFF]) {
                drawn_at.push(k);
            }
        }
        assert_eq!(drawn_at, vec![(frame - 1) as usize]);
        assert_eq!(gate.drawn(), 1);
        assert_eq!(pass.emitted(), 40);
        assert_eq!(nonzero(&fb), frame as usize);
        gate.end_frame();
    }
}

#[test]
fn step_gate_draws_nothing_in_a_short_pass() {
    let mut gate = StepGate::new(149);
    for _ in 0..5 {
        gate.end_frame();
    }
    assert_eq!(gate.target(), 6);
    gate.begin_pass();
    let hits = (0..5).filter(|_| gate.offer()).count();
    assert_eq!(hits, 0);
    assert_eq!(gate.drawn(), 0);
}

#[test]
fn step_gate_wraps_after_ceiling() {
    let mut gate = StepGate::new(149);
    for _ in 0..148 {
        gate.end_frame();
    }
    assert_eq!(gate.target(), 149);
    gate.end_frame();
    assert_eq!(gate.target(), 1);
}

#[test]
fn full_frame_of_pure_red() {
    let mut fb = Framebuffer::new(640, 480);
    let mut pass = DecodePass::new(false);
    let pixels = vec![0xF800u16; 640 * 480];
    assert_eq!(pass.on_block(&mut fb, &rect(0, 0, 640, 480), &pixels), Ok(()));
    assert!(fb.cells().iter().all(|c| *c == 0x00F8_0000));
    let report = pass.finish(true, true, String::new(), 10).unwrap();
    assert_eq!(report.rectangles_emitted, 1);
}

#[test]
fn loop_exits_on_escape_or_close() {
    assert_eq!(next_state(LoopState::Running, LoopEvent::KeyDown(Key::Escape)), LoopState::Exiting);
    assert_eq!(next_state(LoopState::Running, LoopEvent::CloseRequested), LoopState::Exiting);
    assert_eq!(next_state(LoopState::Running, LoopEvent::KeyDown(Key::Other)), LoopState::Running);
    assert_eq!(next_state(LoopState::Exiting, LoopEvent::Other), LoopState::Exiting);
    let events = [LoopEvent::Other, LoopEvent::KeyDown(Key::Other)];
    assert_eq!(after_events(LoopState::Running, &events), LoopState::Running);
    let events = [LoopEvent::Other, LoopEvent::CloseRequested, LoopEvent::Other];
    assert_eq!(after_events(LoopState::Running, &events), LoopState::Exiting);
    assert_eq!(after_events(LoopState::Running, &[]), LoopState::Running);
}

#[test]
fn decode_schedule_and_frame_interval() {
    assert!(should_decode(false, false));
    assert!(!should_decode(false, true));
    assert!(should_decode(true, true));
    assert_eq!(frame_interval_micros(60), 16_666);
    assert_eq!(frame_interval_micros(1), 1_000_000);
}
