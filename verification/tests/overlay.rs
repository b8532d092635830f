use counterfire2::effects::{ActiveEffect, KillTrigger, Side, EFFECT_TOTAL_US};
use counterfire2::overlay::{
    canvas_size_changed, encode_frame, overlay_step, rebuild_canvas_after, FrameAction, OverlayRunExit, next_command_offset, resolve_canvas_size, screen_dimension, side_label,
    BitmapDraw, CommandError, CommandWriter, OverlayOptions, RectBits, COMMAND_REGION_END, SHMEM_LEN,
};

#[test]
fn canvas_size() {
    let o = OverlayOptions { width: Some(0), height: None, vsync: true };
    assert_eq!(resolve_canvas_size(o, (1920, 1080)), (1, 1080));
    let p = OverlayOptions { width: None, height: Some(600), vsync: false };
    assert_eq!(resolve_canvas_size(p, (0, 1080)), (1, 600));
    assert!(!canvas_size_changed(p, (800, 1), (800, 600)));
    assert!(canvas_size_changed(p, (801, 1), (800, 600)));
    assert_eq!(screen_dimension(-5), 1);
    assert_eq!(screen_dimension(2560), 2560);
    assert_eq!(side_label(Some(Side::Ct)), "CT");
    assert_eq!(side_label(None), "自动/未知");
}

#[test]
fn command_bytes() {
    let mut w = CommandWriter::new(64, 10);
    assert_eq!(w.pos(), 10);
    w.push_space(1).unwrap();
    w.pop_space().unwrap();
    w.write_i32(-2).unwrap();
    w.write_f32_bits(1.5f32.to_bits()).unwrap();
    let mut expected = vec![0x09, 0x01, 4, 0, 1, 0, 0, 0, 0x0A, 0x01, 0, 0];
    expected.extend_from_slice(&(-2i32).to_le_bytes());
    expected.extend_from_slice(&1.5f32.to_le_bytes());
    assert_eq!(w.bytes(), &expected[..]);
    assert_eq!(w.pos(), 10 + expected.len());
    let mut small = CommandWriter::new(13, 10);
    assert_eq!(small.write_u32(7), Err(CommandError::BufferFull));
    assert_eq!(small.write_u16(0x0102), Ok(()));
    assert_eq!(small.bytes(), &[0x02, 0x01]);
    let mut edge = CommandWriter::new(usize::MAX, usize::MAX - 1);
    assert_eq!(edge.write_u32(1), Err(CommandError::OffsetOverflow));
}

#[test]
fn frame_layout() {
    let d = BitmapDraw {
        bitmap_id: 3,
        src: RectBits { x: 0, y: 0, w: 10f32.to_bits(), h: 20f32.to_bits() },
        dst: RectBits { x: 1f32.to_bits(), y: 2f32.to_bits(), w: 3f32.to_bits(), h: 4f32.to_bits() },
        opacity: 0.5f32.to_bits(),
        interp_mode: 1,
    };
    let w = encode_frame(24, &[d]).unwrap();
    let b = w.bytes();
    assert_eq!(b.len(), 52 + 48);
    assert_eq!(&b[0..4], &[0x01, 0x01, 16, 0]);
    assert_eq!(&b[20..24], &[0x0C, 0x01, 44, 0]);
    assert_eq!(&b[24..28], &3u32.to_le_bytes());
    assert_eq!(&b[60..64], &0.5f32.to_le_bytes());
    assert_eq!(&b[64..68], &1i32.to_le_bytes());
    assert_eq!(&b[68..72], &[0x09, 0x01, 4, 0]);
    assert_eq!(&b[96..100], &[0x0A, 0x01, 0, 0]);
    assert_eq!(w.pos(), 24 + 100);
    assert!(encode_frame(SHMEM_LEN - 100, &[d]).is_ok());
    assert!(encode_frame(SHMEM_LEN - 99, &[d]).is_err());
    assert!(encode_frame(SHMEM_LEN - 52, &[]).is_ok());
}

#[test]
fn frame_offsets_rotate() {
    assert_eq!(next_command_offset(24), 24 + 65536);
    let mut o = 24u32;
    for _ in 0..1000 {
        o = next_command_offset(o);
        assert!((24..COMMAND_REGION_END).contains(&o));
    }
    assert_eq!(next_command_offset(COMMAND_REGION_END - 65536), 24);
}

fn effect(round_kills: u32, start_us: u64) -> ActiveEffect {
    let t = KillTrigger { round_kills, weapon: None, is_headshot: false, side: None };
    ActiveEffect::with_badge(&t, 0, start_us)
}

#[test]
fn overlay_frame_steps() {
    // Nothing on screen and nothing new: nothing to draw.
    let (next, action) = overlay_step(None, None, 5_000, false);
    assert!(next.is_none());
    assert_eq!(action, FrameAction::Draw);

    // A new effect replaces the one on screen.
    let (next, action) = overlay_step(Some(effect(1, 0)), Some(effect(2, 1_000)), 2_000, false);
    let kept = next.unwrap();
    assert_eq!((kept.start_us(), kept.spec().key()), (1_000, effect(2, 0).spec().key()));
    assert_eq!(action, FrameAction::Draw);

    // The effect on screen stays while its time lasts, and is dropped after.
    let (next, _) = overlay_step(Some(effect(1, 100)), None, 100 + EFFECT_TOTAL_US - 1, false);
    assert_eq!(next.unwrap().start_us(), 100);
    let (next, _) = overlay_step(Some(effect(1, 100)), None, 100 + EFFECT_TOTAL_US, false);
    assert!(next.is_none());

    // A new effect that is already over is not shown either.
    let (next, _) = overlay_step(Some(effect(1, 100)), Some(effect(2, 0)), EFFECT_TOTAL_US, false);
    assert!(next.is_none());

    // A changed canvas clears and ends the run.
    let (_, action) = overlay_step(Some(effect(1, 0)), None, 10, true);
    assert_eq!(action, FrameAction::ClearAndExit);
}

#[test]
fn canvas_rebuilt_only_after_a_size_change() {
    assert!(rebuild_canvas_after(OverlayRunExit::CanvasSizeChanged));
    assert!(!rebuild_canvas_after(OverlayRunExit::Stopped));
}
