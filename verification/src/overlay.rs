//! The drawing side of the overlay: canvas size, the command stream written
//! into shared memory for each frame, and where in shared memory each frame goes.
use vstd::prelude::*;

use crate::effects::{elapsed_since, side_suffix, ActiveEffect, Side, EFFECT_TOTAL_US};

verus! {

/// Length of the shared memory that commands are written into.
pub const SHMEM_LEN: usize = 16777216;

pub const CMD_CLEAR: u16 = 0x0101;

pub const CMD_PUSH_SPACE: u16 = 0x0109;

pub const CMD_POP_SPACE: u16 = 0x010A;

pub const CMD_DRAW_BITMAP: u16 = 0x010C;

pub const SPACE_ID_MONITOR_LOCAL: u32 = 1;

pub const INTERP_LINEAR: i32 = 1;

/// Where the first frame's commands start.
pub const FIRST_COMMAND_OFFSET: u32 = 24;

/// Distance between the starts of two frames' commands.
pub const FRAME_STRIDE: u32 = 65536;

/// Frames start before this offset; past it the next frame starts over at
/// `FIRST_COMMAND_OFFSET`.
pub const COMMAND_REGION_END: u32 = 14680064;

/// Canvas size overrides and whether to wait for the compositor each frame.
#[derive(Debug, Clone, Copy, PartialEq, Eq, Structural)]
pub struct OverlayOptions {
    pub width: Option<u32>,
    pub height: Option<u32>,
    pub vsync: bool,
}

/// Why the drawing loop ended.
#[derive(Debug, Clone, Copy, PartialEq, Eq, Structural)]
pub enum OverlayRunExit {
    Stopped,
    CanvasSizeChanged,
}

pub open spec fn at_least_one(v: u32) -> u32 {
    if v < 1 {
        1
    } else {
        v
    }
}

/// The canvas size: each override where given, else the screen's, and at least 1.
pub open spec fn canvas_size(options: OverlayOptions, screen: (u32, u32)) -> (u32, u32) {
    (
        at_least_one(
            match options.width {
                Some(w) => w,
                None => screen.0,
            },
        ),
        at_least_one(
            match options.height {
                Some(h) => h,
                None => screen.1,
            },
        ),
    )
}

pub fn resolve_canvas_size(options: OverlayOptions, screen: (u32, u32)) -> (r: (u32, u32))
    ensures
        r == canvas_size(options, screen),
{
    let w = match options.width {
        Some(w) => w,
        None => screen.0,
    };
    let h = match options.height {
        Some(h) => h,
        None => screen.1,
    };
    (if w < 1 { 1 } else { w }, if h < 1 { 1 } else { h })
}

/// A screen metric as a dimension: at least 1.
pub fn screen_dimension(metric: i32) -> (r: u32)
    ensures
        metric < 1 ==> r == 1,
        metric >= 1 ==> r == metric,
{
    if metric < 1 {
        1
    } else {
        metric as u32
    }
}

/// Whether the canvas must be rebuilt: its size for the current screen
/// differs from the size it was built with.
pub fn canvas_size_changed(options: OverlayOptions, screen: (u32, u32), built: (u32, u32)) -> (r: bool)
    ensures
        r == (canvas_size(options, screen) != built),
{
    let now = resolve_canvas_size(options, screen);
    now.0 != built.0 || now.1 != built.1
}

/// How a side is shown in the effect log.
pub open spec fn side_label_text(side: Option<Side>) -> Seq<char> {
    match side {
        Some(s) => side_suffix(s),
        None => "自动/未知"@,
    }
}

pub fn side_label(side: Option<Side>) -> (r: &'static str)
    ensures
        r@ == side_label_text(side),
{
    match side {
        Some(s) => s.suffix(),
        None => "自动/未知",
    }
}

/// Little-endian bytes of a `u16`.
pub open spec fn le_u16(v: u16) -> Seq<u8> {
    seq![(v % 256) as u8, (v / 256) as u8]
}

/// Little-endian bytes of a `u32`.
pub open spec fn le_u32(v: u32) -> Seq<u8> {
    seq![(v % 256) as u8, ((v / 256) % 256) as u8, ((v / 65536) % 256) as u8, (v / 16777216) as u8]
}

/// A command's header: its code and the length of its body.
pub open spec fn header(code: u16, body_len: u16) -> Seq<u8> {
    le_u16(code) + le_u16(body_len)
}

/// The clear command, with the colour as the bit patterns of four `f32`.
pub open spec fn clear_cmd(r: u32, g: u32, b: u32, a: u32) -> Seq<u8> {
    header(CMD_CLEAR, 16) + le_u32(r) + le_u32(g) + le_u32(b) + le_u32(a)
}

pub open spec fn push_space_cmd(space_id: u32) -> Seq<u8> {
    header(CMD_PUSH_SPACE, 4) + le_u32(space_id)
}

pub open spec fn pop_space_cmd() -> Seq<u8> {
    header(CMD_POP_SPACE, 0)
}

/// A rectangle as the bit patterns of four `f32`: left, top, width, height.
#[derive(Debug, Clone, Copy, PartialEq, Eq, Structural)]
pub struct RectBits {
    pub x: u32,
    pub y: u32,
    pub w: u32,
    pub h: u32,
}

/// One image to draw: source and destination rectangles, opacity, as the bit
/// patterns of `f32` values, and the interpolation mode.
#[derive(Debug, Clone, Copy, PartialEq, Eq, Structural)]
pub struct BitmapDraw {
    pub bitmap_id: u32,
    pub src: RectBits,
    pub dst: RectBits,
    pub opacity: u32,
    pub interp_mode: i32,
}

pub open spec fn draw_cmd(d: BitmapDraw) -> Seq<u8> {
    header(CMD_DRAW_BITMAP, 44) + le_u32(d.bitmap_id) + le_u32(d.src.x) + le_u32(d.src.y) + le_u32(d.src.w)
        + le_u32(d.src.h) + le_u32(d.dst.x) + le_u32(d.dst.y) + le_u32(d.dst.w) + le_u32(d.dst.h) + le_u32(
        d.opacity,
    ) + le_u32(d.interp_mode as u32)
}

pub open spec fn draws_bytes(ds: Seq<BitmapDraw>) -> Seq<u8>
    decreases ds.len(),
{
    if ds.len() == 0 {
        Seq::empty()
    } else {
        draws_bytes(ds.drop_last()) + draw_cmd(ds.last())
    }
}

/// A frame's commands: clear the canvas, draw the images, then clear the
/// monitor-local space.
pub open spec fn frame_bytes(ds: Seq<BitmapDraw>) -> Seq<u8> {
    clear_cmd(0, 0, 0, 0) + draws_bytes(ds) + push_space_cmd(SPACE_ID_MONITOR_LOCAL) + clear_cmd(0, 0, 0, 0)
        + pop_space_cmd()
}

/// Why a command cannot be written.
#[derive(Debug, Clone, Copy, PartialEq, Eq, Structural)]
pub enum CommandError {
    /// The end of the command lies past the largest offset there is.
    OffsetOverflow,
    /// The command does not fit in the buffer.
    BufferFull,
}

/// Writes commands into a buffer of `capacity` bytes from offset `start` on;
/// the bytes written are kept to be copied into the buffer.
pub struct CommandWriter {
    capacity: usize,
    start: usize,
    bytes: Vec<u8>,
}

impl CommandWriter {
    #[verifier::type_invariant]
    closed spec fn inv(&self) -> bool {
        self.bytes@.len() == 0 || self.start + self.bytes@.len() <= self.capacity
    }

    pub closed spec fn capacity_spec(&self) -> usize {
        self.capacity
    }

    pub closed spec fn start_spec(&self) -> usize {
        self.start
    }

    /// The bytes written so far.
    pub closed spec fn written(&self) -> Seq<u8> {
        self.bytes@
    }

    /// The offset the next command goes to.
    pub open spec fn position(&self) -> int {
        self.start_spec() + self.written().len()
    }

    /// A writer for a buffer of `capacity` bytes, writing from `start` on.
    pub fn new(capacity: usize, start: usize) -> (r: CommandWriter)
        ensures
            r.capacity_spec() == capacity,
            r.start_spec() == start,
            r.written() == Seq::<u8>::empty(),
    {
        CommandWriter { capacity, start, bytes: Vec::new() }
    }

    /// The offset the next command goes to.
    pub fn pos(&self) -> (r: usize)
        ensures
            r == self.position(),
    {
        proof {
            use_type_invariant(self);
        }
        self.start + self.bytes.len()
    }

    /// The bytes written so far, to go at offset `start` of the buffer.
    pub fn bytes(&self) -> (r: &[u8])
        ensures
            r@ == self.written(),
    {
        self.bytes.as_slice()
    }

    /// Appends `data` where it fits before the end of the buffer.
    pub fn write_bytes(&mut self, data: &[u8]) -> (r: Result<(), CommandError>)
        ensures
            final(self).capacity_spec() == old(self).capacity_spec(),
            final(self).start_spec() == old(self).start_spec(),
            old(self).position() + data@.len() > usize::MAX ==> r == Err::<(), CommandError>(
                CommandError::OffsetOverflow,
            ),
            old(self).position() + data@.len() <= usize::MAX && old(self).position() + data@.len()
                > old(self).capacity_spec() ==> r == Err::<(), CommandError>(CommandError::BufferFull),
            r is Ok <==> old(self).position() + data@.len() <= old(self).capacity_spec(),
            r is Ok ==> final(self).written() == old(self).written() + data@,
            r is Err ==> final(self).written() == old(self).written(),
    {
        proof {
            use_type_invariant(&*self);
        }
        let pos = self.start + self.bytes.len();
        let end = match pos.checked_add(data.len()) {
            Some(e) => e,
            None => {
                return Err(CommandError::OffsetOverflow);
            },
        };
        if end > self.capacity {
            return Err(CommandError::BufferFull);
        }
        let mut v: Vec<u8> = Vec::new();
        std::mem::swap(&mut v, &mut self.bytes);
        let ghost before = v@;
        let mut i: usize = 0;
        while i < data.len()
            invariant
                i <= data@.len(),
                v@ == before + data@.subrange(0, i as int),
            decreases data@.len() - i,
        {
            v.push(data[i]);
            assert(v@ =~= before + data@.subrange(0, i + 1));
            i = i + 1;
        }
        assert(data@.subrange(0, data@.len() as int) =~= data@);
        self.bytes = v;
        Ok(())
    }

    pub fn write_u16(&mut self, value: u16) -> (r: Result<(), CommandError>)
        ensures
            final(self).capacity_spec() == old(self).capacity_spec(),
            final(self).start_spec() == old(self).start_spec(),
            r is Ok <==> old(self).position() + 2 <= old(self).capacity_spec(),
            r is Ok ==> final(self).written() == old(self).written() + le_u16(value),
            r is Err ==> final(self).written() == old(self).written(),
    {
        let b0: u8 = (value % 256) as u8;
        let b1: u8 = (value / 256) as u8;
        let data: [u8; 2] = [b0, b1];
        assert(data@ =~= le_u16(value));
        self.write_bytes(&data)
    }

    pub fn write_u32(&mut self, value: u32) -> (r: Result<(), CommandError>)
        ensures
            final(self).capacity_spec() == old(self).capacity_spec(),
            final(self).start_spec() == old(self).start_spec(),
            r is Ok <==> old(self).position() + 4 <= old(self).capacity_spec(),
            r is Ok ==> final(self).written() == old(self).written() + le_u32(value),
            r is Err ==> final(self).written() == old(self).written(),
    {
        let b0: u8 = (value % 256) as u8;
        let b1: u8 = ((value / 256) % 256) as u8;
        let b2: u8 = ((value / 65536) % 256) as u8;
        let b3: u8 = (value / 16777216) as u8;
        let data: [u8; 4] = [b0, b1, b2, b3];
        assert(data@ =~= le_u32(value));
        self.write_bytes(&data)
    }

    /// Writes a signed value as the little-endian bytes of its two's complement.
    pub fn write_i32(&mut self, value: i32) -> (r: Result<(), CommandError>)
        ensures
            final(self).capacity_spec() == old(self).capacity_spec(),
            final(self).start_spec() == old(self).start_spec(),
            r is Ok <==> old(self).position() + 4 <= old(self).capacity_spec(),
            r is Ok ==> final(self).written() == old(self).written() + le_u32(value as u32),
            r is Err ==> final(self).written() == old(self).written(),
    {
        self.write_u32(value as u32)
    }

    /// Writes the bit pattern of an `f32`.
    pub fn write_f32_bits(&mut self, bits: u32) -> (r: Result<(), CommandError>)
        ensures
            final(self).capacity_spec() == old(self).capacity_spec(),
            final(self).start_spec() == old(self).start_spec(),
            r is Ok <==> old(self).position() + 4 <= old(self).capacity_spec(),
            r is Ok ==> final(self).written() == old(self).written() + le_u32(bits),
            r is Err ==> final(self).written() == old(self).written(),
    {
        self.write_u32(bits)
    }

    /// Writes a clear command with the colour given as `f32` bit patterns.
    pub fn clear(&mut self, r: u32, g: u32, b: u32, a: u32) -> (res: Result<(), CommandError>)
        ensures
            final(self).capacity_spec() == old(self).capacity_spec(),
            final(self).start_spec() == old(self).start_spec(),
            res is Ok <==> old(self).position() + 20 <= old(self).capacity_spec(),
            res is Ok ==> final(self).written() == old(self).written() + clear_cmd(r, g, b, a),
    {
        self.write_u16(CMD_CLEAR)?;
        self.write_u16(16)?;
        self.write_f32_bits(r)?;
        self.write_f32_bits(g)?;
        self.write_f32_bits(b)?;
        let res = self.write_f32_bits(a);
        assert(res is Ok ==> final(self).written() =~= old(self).written() + clear_cmd(r, g, b, a));
        res
    }

    pub fn push_space(&mut self, space_id: u32) -> (r: Result<(), CommandError>)
        ensures
            final(self).capacity_spec() == old(self).capacity_spec(),
            final(self).start_spec() == old(self).start_spec(),
            r is Ok <==> old(self).position() + 8 <= old(self).capacity_spec(),
            r is Ok ==> final(self).written() == old(self).written() + push_space_cmd(space_id),
    {
        self.write_u16(CMD_PUSH_SPACE)?;
        self.write_u16(4)?;
        let r = self.write_u32(space_id);
        assert(r is Ok ==> final(self).written() =~= old(self).written() + push_space_cmd(space_id));
        r
    }

    pub fn pop_space(&mut self) -> (r: Result<(), CommandError>)
        ensures
            final(self).capacity_spec() == old(self).capacity_spec(),
            final(self).start_spec() == old(self).start_spec(),
            r is Ok <==> old(self).position() + 4 <= old(self).capacity_spec(),
            r is Ok ==> final(self).written() == old(self).written() + pop_space_cmd(),
    {
        self.write_u16(CMD_POP_SPACE)?;
        let r = self.write_u16(0);
        assert(r is Ok ==> final(self).written() =~= old(self).written() + pop_space_cmd());
        r
    }

    pub fn draw_bitmap(&mut self, d: BitmapDraw) -> (r: Result<(), CommandError>)
        ensures
            final(self).capacity_spec() == old(self).capacity_spec(),
            final(self).start_spec() == old(self).start_spec(),
            r is Ok <==> old(self).position() + 48 <= old(self).capacity_spec(),
            r is Ok ==> final(self).written() == old(self).written() + draw_cmd(d),
    {
        self.write_u16(CMD_DRAW_BITMAP)?;
        self.write_u16(44)?;
        self.write_u32(d.bitmap_id)?;
        self.write_f32_bits(d.src.x)?;
        self.write_f32_bits(d.src.y)?;
        self.write_f32_bits(d.src.w)?;
        self.write_f32_bits(d.src.h)?;
        self.write_f32_bits(d.dst.x)?;
        self.write_f32_bits(d.dst.y)?;
        self.write_f32_bits(d.dst.w)?;
        self.write_f32_bits(d.dst.h)?;
        self.write_f32_bits(d.opacity)?;
        let r = self.write_i32(d.interp_mode);
        assert(r is Ok ==> final(self).written() =~= old(self).written() + draw_cmd(d));
        r
    }
}

proof fn lemma_draws_len(ds: Seq<BitmapDraw>)
    ensures
        draws_bytes(ds).len() == 48 * ds.len(),
    decreases ds.len(),
{
    if ds.len() > 0 {
        lemma_draws_len(ds.drop_last());
    }
}

/// Writes a frame's commands at `offset` of the shared memory: all of them
/// where they fit, and an error otherwise.
pub fn encode_frame(offset: usize, draws: &[BitmapDraw]) -> (r: Result<CommandWriter, CommandError>)
    ensures
        r is Ok <==> offset + 52 + 48 * draws@.len() <= SHMEM_LEN,
        r matches Ok(w) ==> w.start_spec() == offset && w.capacity_spec() == SHMEM_LEN && w.written()
            == frame_bytes(draws@),
{
    proof {
        lemma_draws_len(draws@);
    }
    let mut w = CommandWriter::new(SHMEM_LEN, offset);
    w.clear(0, 0, 0, 0)?;
    let n = draws.len();
    let mut i: usize = 0;
    assert(draws@.subrange(0, 0) =~= Seq::<BitmapDraw>::empty());
    while i < n
        invariant
            n == draws@.len(),
            i <= n,
            w.start_spec() == offset,
            w.capacity_spec() == SHMEM_LEN,
            w.written() == clear_cmd(0, 0, 0, 0) + draws_bytes(draws@.subrange(0, i as int)),
            offset + 20 + 48 * i <= SHMEM_LEN,
            draws_bytes(draws@).len() == 48 * draws@.len(),
        decreases n - i,
    {
        proof {
            lemma_draws_len(draws@.subrange(0, i as int));
        }
        let r = w.draw_bitmap(draws[i]);
        if r.is_err() {
            assert(offset + 52 + 48 * draws@.len() > SHMEM_LEN) by (nonlinear_arith)
                requires
                    offset + 20 + 48 * i + 48 > SHMEM_LEN,
                    i < draws@.len(),
            ;
            return Err(CommandError::BufferFull);
        }
        assert(draws@.subrange(0, i + 1).drop_last() =~= draws@.subrange(0, i as int));
        assert(w.written() =~= clear_cmd(0, 0, 0, 0) + draws_bytes(draws@.subrange(0, i + 1)));
        i = i + 1;
    }
    assert(draws@.subrange(0, n as int) =~= draws@);
    w.push_space(SPACE_ID_MONITOR_LOCAL)?;
    w.clear(0, 0, 0, 0)?;
    w.pop_space()?;
    assert(w.written() =~= frame_bytes(draws@));
    Ok(w)
}

/// What the overlay does with a frame: draw the effect state, or clear the
/// canvas and end the run so that it is built again at the new size.
#[derive(Debug, Clone, Copy, PartialEq, Eq, Structural)]
pub enum FrameAction {
    Draw,
    ClearAndExit,
}

/// Whether the overlay is connected again after a run ends: where the run
/// ended because the screen size changed, so that the canvas is built at the
/// new size; a run that was stopped is not resumed.
pub fn rebuild_canvas_after(exit: OverlayRunExit) -> (r: bool)
    ensures
        r == (exit == OverlayRunExit::CanvasSizeChanged),
{
    match exit {
        OverlayRunExit::CanvasSizeChanged => true,
        OverlayRunExit::Stopped => false,
    }
}

/// Whether an effect is still on screen at `now_us`.
pub open spec fn effect_alive(e: ActiveEffect, now_us: u64) -> bool {
    elapsed_since(e.started_at(), now_us) < EFFECT_TOTAL_US
}

/// The effect on screen after a frame's triggers: the newest trigger's effect
/// replaces the one on screen, and an effect whose time is over is dropped.
pub open spec fn next_active(active: Option<ActiveEffect>, incoming: Option<ActiveEffect>, now_us: u64) -> Option<
    ActiveEffect,
> {
    let candidate = if incoming is Some {
        incoming
    } else {
        active
    };
    match candidate {
        Some(e) => if effect_alive(e, now_us) {
            Some(e)
        } else {
            None
        },
        None => None,
    }
}

/// One frame of the overlay: the effect that stays on screen, given the one
/// that was there, the newest one triggered since the last frame and the time;
/// and whether to draw it, or to clear the canvas and end the run because the
/// screen size changed.
pub fn overlay_step(
    active: Option<ActiveEffect>,
    incoming: Option<ActiveEffect>,
    now_us: u64,
    canvas_changed: bool,
) -> (r: (Option<ActiveEffect>, FrameAction))
    ensures
        r.0 == next_active(active, incoming, now_us),
        r.1 == (if canvas_changed {
            FrameAction::ClearAndExit
        } else {
            FrameAction::Draw
        }),
{
    let candidate = match incoming {
        Some(e) => Some(e),
        None => active,
    };
    let next = match candidate {
        Some(e) => {
            if e.is_alive(now_us) {
                Some(e)
            } else {
                None
            }
        },
        None => None,
    };
    let action = if canvas_changed {
        FrameAction::ClearAndExit
    } else {
        FrameAction::Draw
    };
    (next, action)
}

/// Where the next frame's commands start: one stride on, or back at the
/// first offset where that reaches the end of the command region.
pub open spec fn next_offset(current: u32) -> u32 {
    if current + FRAME_STRIDE >= COMMAND_REGION_END {
        FIRST_COMMAND_OFFSET
    } else {
        (current + FRAME_STRIDE) as u32
    }
}

pub fn next_command_offset(current: u32) -> (r: u32)
    requires
        current + FRAME_STRIDE <= u32::MAX,
    ensures
        r == next_offset(current),
{
    let next = current + FRAME_STRIDE;
    if next >= COMMAND_REGION_END {
        FIRST_COMMAND_OFFSET
    } else {
        next
    }
}

/// Frame offsets stay in the command region, and a full stride of commands
/// from any of them stays inside the shared memory.
pub proof fn law_frame_offsets_stay_in_region(current: u32)
    requires
        FIRST_COMMAND_OFFSET <= current < COMMAND_REGION_END,
    ensures
        FIRST_COMMAND_OFFSET <= next_offset(current) < COMMAND_REGION_END,
        next_offset(current) + FRAME_STRIDE <= SHMEM_LEN,
{
}

/// The number that the two bytes of `s` at `off` hold, the low byte first.
pub open spec fn u16_at(s: Seq<u8>, off: int) -> int {
    s[off] + 256 * s[off + 1]
}

/// The number that the four bytes of `s` at `off` hold, the lowest byte first.
pub open spec fn u32_at(s: Seq<u8>, off: int) -> int {
    s[off] + 256 * s[off + 1] + 65536 * s[off + 2] + 16777216 * s[off + 3]
}

proof fn lemma_le_u32_reads_back(v: u32)
    ensures
        le_u32(v).len() == 4,
        u32_at(le_u32(v), 0) == v,
{
    assert(v == (v % 256) + 256 * ((v / 256) % 256) + 65536 * ((v / 65536) % 256) + 16777216 * (v / 16777216))
        by (bit_vector);
}

/// The layout of a draw command as the overlay reads it: 48 bytes, the code
/// `0x010C` and the body length 44 as little-endian `u16`, then as
/// little-endian `u32` in this order the image id, the source rectangle's
/// left, top, width and height, the destination rectangle's left, top, width
/// and height, the opacity and the interpolation mode.
#[verifier::spinoff_prover]
#[verifier::rlimit(40)]
pub proof fn law_draw_command_layout(d: BitmapDraw)
    ensures
        draw_cmd(d).len() == 48,
        u16_at(draw_cmd(d), 0) == 0x010C,
        u16_at(draw_cmd(d), 2) == 44,
        u32_at(draw_cmd(d), 4) == d.bitmap_id,
        u32_at(draw_cmd(d), 8) == d.src.x,
        u32_at(draw_cmd(d), 12) == d.src.y,
        u32_at(draw_cmd(d), 16) == d.src.w,
        u32_at(draw_cmd(d), 20) == d.src.h,
        u32_at(draw_cmd(d), 24) == d.dst.x,
        u32_at(draw_cmd(d), 28) == d.dst.y,
        u32_at(draw_cmd(d), 32) == d.dst.w,
        u32_at(draw_cmd(d), 36) == d.dst.h,
        u32_at(draw_cmd(d), 40) == d.opacity,
        u32_at(draw_cmd(d), 44) == d.interp_mode as u32,
{
    lemma_le_u32_reads_back(d.bitmap_id);
    lemma_le_u32_reads_back(d.src.x);
    lemma_le_u32_reads_back(d.src.y);
    lemma_le_u32_reads_back(d.src.w);
    lemma_le_u32_reads_back(d.src.h);
    lemma_le_u32_reads_back(d.dst.x);
    lemma_le_u32_reads_back(d.dst.y);
    lemma_le_u32_reads_back(d.dst.w);
    lemma_le_u32_reads_back(d.dst.h);
    lemma_le_u32_reads_back(d.opacity);
    lemma_le_u32_reads_back(d.interp_mode as u32);
    let c = draw_cmd(d);
    assert(c.len() == 48);
    assert(c.subrange(24, 28) =~= le_u32(d.dst.x));
}

proof fn lemma_draws_bytes_at(ds: Seq<BitmapDraw>, i: int)
    requires
        0 <= i < ds.len(),
    ensures
        draws_bytes(ds).subrange(48 * i, 48 * i + 48) == draw_cmd(ds[i]),
    decreases ds.len(),
{
    let front = ds.drop_last();
    lemma_draws_len(front);
    assert(draw_cmd(ds.last()).len() == 48);
    if i == ds.len() - 1 {
        assert(draws_bytes(ds).subrange(48 * i, 48 * i + 48) =~= draw_cmd(ds.last()));
    } else {
        lemma_draws_bytes_at(front, i);
        assert(48 * i + 48 <= 48 * front.len()) by (nonlinear_arith)
            requires
                i < front.len(),
        ;
        assert(draws_bytes(ds).subrange(48 * i, 48 * i + 48) =~= draws_bytes(front).subrange(48 * i, 48 * i + 48));
        assert(front[i] == ds[i]);
    }
}

/// The layout of a frame's commands: a clear command (code `0x0101`, body
/// 16), then the draw command of every image in the order given, the image
/// at index `i` at byte `20 + 48 * i`, then a push of the monitor-local space
/// 1 (code `0x0109`, body 4), a clear command and a pop of the space (code
/// `0x010A`, body 0): `52 + 48 * n` bytes for `n` images.
pub proof fn law_frame_layout(ds: Seq<BitmapDraw>, i: int)
    requires
        0 <= i < ds.len(),
    ensures
        frame_bytes(ds).len() == 52 + 48 * ds.len(),
        u16_at(frame_bytes(ds), 0) == 0x0101,
        u16_at(frame_bytes(ds), 2) == 16,
        frame_bytes(ds).subrange(20 + 48 * i, 68 + 48 * i) == draw_cmd(ds[i]),
        u16_at(frame_bytes(ds), 20 + 48 * ds.len() as int) == 0x0109,
        u16_at(frame_bytes(ds), 22 + 48 * ds.len() as int) == 4,
        u32_at(frame_bytes(ds), 24 + 48 * ds.len() as int) == 1,
        u16_at(frame_bytes(ds), 28 + 48 * ds.len() as int) == 0x0101,
        u16_at(frame_bytes(ds), 30 + 48 * ds.len() as int) == 16,
        u16_at(frame_bytes(ds), 48 + 48 * ds.len() as int) == 0x010A,
        u16_at(frame_bytes(ds), 50 + 48 * ds.len() as int) == 0,
{
    let n: int = ds.len() as int;
    let f = frame_bytes(ds);
    let d = draws_bytes(ds);
    lemma_draws_len(ds);
    lemma_draws_bytes_at(ds, i);
    lemma_le_u32_reads_back(1);
    lemma_le_u32_reads_back(0);
    assert(48 * i + 48 <= 48 * n) by (nonlinear_arith)
        requires
            i < n,
    ;
    assert(f.subrange(20 + 48 * i, 68 + 48 * i) =~= d.subrange(48 * i, 48 * i + 48));
    let e: int = 20 + 48 * n;
    assert(f.subrange(0, 4) =~= header(CMD_CLEAR, 16));
    assert(f.subrange(e, e + 8) =~= push_space_cmd(SPACE_ID_MONITOR_LOCAL));
    assert(f.subrange(e + 8, e + 28) =~= clear_cmd(0, 0, 0, 0));
    assert(f.subrange(e + 28, e + 32) =~= pop_space_cmd());
}

} // verus!
