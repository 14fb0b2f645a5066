//! The compositor: a UI layer uploaded from CPU frames by partial updates,
//! blended over a video layer that the player draws into.
//!
//! GL objects are created and driven by the host; this type keeps their
//! names, the surface size, and a model of the UI layer's bytes, and decides
//! what each upload carries.

use vstd::prelude::*;
use vstd::arithmetic::div_mod::lemma_fundamental_div_mod_converse;

verus! {

pub const BYTES_PER_PIXEL: i32 = 4;

/// `GL_FRAMEBUFFER_COMPLETE`.
pub const FRAMEBUFFER_COMPLETE: u32 = 0x8CD5;

/// A rectangle of pixels.
#[derive(Debug, Clone, Copy, PartialEq, Eq, Structural)]
pub struct Rect {
    pub x: i32,
    pub y: i32,
    pub width: i32,
    pub height: i32,
}

pub open spec fn rect_within(r: Rect, width: int, height: int) -> bool {
    &&& 0 <= r.x
    &&& 0 <= r.y
    &&& 0 <= r.width
    &&& 0 <= r.height
    &&& r.x + r.width <= width
    &&& r.y + r.height <= height
}

/// Whether a BGRA frame `full_width` pixels wide, held in `len` bytes, has
/// every row that `r` reads.
pub open spec fn frame_holds(len: int, full_width: int, r: Rect) -> bool {
    &&& r.x + r.width <= full_width
    &&& (r.y + r.height) * full_width * 4 <= len
}

/// The rows of `r` read from a frame of stride `full_width` pixels, packed
/// one after another.
pub open spec fn packed_rows(frame: Seq<u8>, full_width: int, r: Rect) -> Seq<u8> {
    let row_bytes = r.width * 4;
    Seq::new(
        (r.width * r.height * 4) as nat,
        |i: int| frame[(r.y + i / row_bytes) * full_width * 4 + r.x * 4 + i % row_bytes],
    )
}

/// Whether byte `i` of a layer `layer_width` pixels wide lies in `r`.
pub open spec fn in_rect(i: int, layer_width: int, r: Rect) -> bool {
    let px = i / 4;
    let col = px % layer_width;
    let row = px / layer_width;
    r.x <= col < r.x + r.width && r.y <= row < r.y + r.height
}

/// A layer with the pixels of `r` replaced by `rows`, packed row by row.
pub open spec fn apply_update(layer: Seq<u8>, layer_width: int, r: Rect, rows: Seq<u8>) -> Seq<u8> {
    Seq::new(
        layer.len(),
        |i: int|
            if in_rect(i, layer_width, r) {
                let px = i / 4;
                rows[(((px / layer_width) - r.y) * r.width + (px % layer_width - r.x)) * 4 + i % 4]
            } else {
                layer[i]
            },
    )
}

/// A layer of the given size that holds no frame yet.
pub open spec fn blank_layer(width: int, height: int) -> Seq<u8> {
    Seq::new((width * height * 4) as nat, |i: int| 0u8)
}

/// GL object names that the host created for a compositor.
#[derive(Debug, Clone, Copy)]
pub struct GlObjects {
    pub program: u32,
    pub front_texture: u32,
    pub front_uniform: i32,
    pub back_texture: u32,
    pub back_uniform: i32,
    pub vao: u32,
    pub vbo: u32,
    pub fbo: u32,
    pub pbo: u32,
}

/// The state that the compositor's contracts speak of.
pub struct CompositorView {
    pub width: int,
    pub height: int,
    pub front_width: int,
    pub front_height: int,
    pub front: Seq<u8>,
}

pub struct Renderer {
    pub program: u32,
    pub front_texture: u32,
    pub front_uniform: i32,
    pub back_texture: u32,
    pub back_uniform: i32,
    pub vao: u32,
    pub vbo: u32,
    pub fbo: u32,
    pub pbo: u32,
    pub width: i32,
    pub height: i32,
    pub refresh_rate: u32,
    /// The size the UI texture and the staging buffer are allocated at.
    pub front_width: i32,
    pub front_height: i32,
    /// The bytes of the UI texture, BGRA, row by row.
    pub front: Ghost<Seq<u8>>,
}

/// What the host uploads for one partial update: reallocate the UI texture
/// and staging buffer at `resize` when given, copy `staging` into the staging
/// buffer, then update `rect` of the UI texture from it.
#[derive(Debug)]
pub struct PaintUpload {
    pub resize: Option<(i32, i32)>,
    pub staging: Vec<u8>,
    pub rect: Rect,
}

/// Why a compositor could not be made.
#[derive(Debug, Clone, Copy, PartialEq, Eq, Structural)]
pub enum RendererError {
    /// The video framebuffer did not report complete; the status it gave.
    FramebufferIncomplete(u32),
}

/// The state after a resize: new surface size, UI layer left as it is.
pub open spec fn resize_spec(s: CompositorView, width: int, height: int) -> CompositorView {
    CompositorView { width, height, ..s }
}

/// Whether a paint must first reallocate the UI layer at the surface size.
pub open spec fn needs_resync(s: CompositorView) -> bool {
    s.front_width != s.width || s.front_height != s.height
}

/// The state after a partial update of `r` with packed `rows`: the UI layer
/// is first brought to the surface size, then `r` is replaced.
pub open spec fn paint_spec(s: CompositorView, r: Rect, rows: Seq<u8>) -> CompositorView {
    let base = if needs_resync(s) { blank_layer(s.width, s.height) } else { s.front };
    CompositorView {
        front_width: s.width,
        front_height: s.height,
        front: apply_update(base, s.width, r, rows),
        ..s
    }
}

/// Copies the rows of `r` out of a frame of stride `full_width` pixels,
/// packed one after another.
pub fn copy_rows(frame: &[u8], full_width: i32, r: Rect) -> (staging: Vec<u8>)
    requires
        0 <= r.x,
        0 <= r.y,
        0 <= r.width,
        0 <= r.height,
        frame_holds(frame@.len() as int, full_width as int, r),
    ensures
        staging@ == packed_rows(frame@, full_width as int, r),
{
    let ghost fw = full_width as int;
    let ghost rb = r.width * 4;
    let n = frame.len();
    let ghost len = n as int;
    if r.height == 0 {
        proof {
            assert(r.width * r.height * 4 == 0) by (nonlinear_arith)
                requires r.height == 0;
        }
        assert(Seq::<u8>::empty() =~= packed_rows(frame@, fw, r));
        return Vec::new();
    }
    proof {
        assert(fw * 4 <= (r.y + r.height) * fw * 4) by (nonlinear_arith)
            requires r.y + r.height >= 1, fw >= 0;
    }
    let row_bytes = (r.width as usize) * 4;
    let stride = (full_width as usize) * 4;
    let rows = r.height as usize;
    let left = (r.x as usize) * 4;
    let mut out: Vec<u8> = Vec::new();
    let mut row: usize = 0;
    while row < rows
        invariant
            row <= rows,
            rows == r.height,
            row_bytes == rb,
            rb == r.width * 4,
            stride == fw * 4,
            left == r.x * 4,
            0 <= r.x,
            0 <= r.y,
            0 <= r.width,
            0 <= r.height,
            frame_holds(len, fw, r),
            len == frame@.len(),
            len == n,
            out@.len() == row * rb,
            forall|k: int| 0 <= k < out@.len() ==> #[trigger] out@[k] == frame@[(r.y + k / rb) * fw * 4 + r.x * 4 + k % rb],
        decreases rows - row,
    {
        proof {
            assert(left + row_bytes <= stride);
            assert((r.y + row + 1) * stride <= (r.y + r.height) * stride) by (nonlinear_arith)
                requires r.y + row + 1 <= r.y + r.height, stride >= 0;
            assert((r.y + r.height) * fw * 4 == (r.y + r.height) * stride) by (nonlinear_arith)
                requires stride == fw * 4;
            assert((r.y + row) * stride + stride == (r.y + row + 1) * stride) by (nonlinear_arith);
            assert((r.y + row) * stride == (r.y + row) * fw * 4) by (nonlinear_arith)
                requires stride == fw * 4;
        }
        let src = (r.y as usize + row) * stride + left;
        let mut c: usize = 0;
        while c < row_bytes
            invariant
                c <= row_bytes,
                row < rows,
                rows == r.height,
                row_bytes == rb,
                rb == r.width * 4,
                src == (r.y + row) * fw * 4 + r.x * 4,
                src + row_bytes <= len,
                len == frame@.len(),
                len == n,
                out@.len() == row * rb + c,
                forall|k: int| 0 <= k < out@.len() ==> #[trigger] out@[k] == frame@[(r.y + k / rb) * fw * 4 + r.x * 4 + k % rb],
            decreases row_bytes - c,
        {
            proof {
                lemma_fundamental_div_mod_converse(row * rb + c, rb, row as int, c as int);
            }
            out.push(frame[src + c]);
            c = c + 1;
        }
        proof {
            assert(row * rb + rb == (row + 1) * rb) by (nonlinear_arith);
        }
        row = row + 1;
    }
    proof {
        assert(rows * rb == r.width * r.height * 4) by (nonlinear_arith)
            requires rows == r.height, rb == r.width * 4;
        assert(out@ =~= packed_rows(frame@, fw, r));
    }
    out
}

impl View for Renderer {
    type V = CompositorView;

    open spec fn view(&self) -> CompositorView {
        CompositorView {
            width: self.width as int,
            height: self.height as int,
            front_width: self.front_width as int,
            front_height: self.front_height as int,
            front: self.front@,
        }
    }
}

impl Renderer {
    /// Sizes are not negative and the UI layer model has its size's bytes.
    pub open spec fn wf(&self) -> bool {
        &&& self.width >= 0
        &&& self.height >= 0
        &&& self.front_width >= 0
        &&& self.front_height >= 0
        &&& self.front@.len() == self.front_width * self.front_height * 4
    }

    /// A compositor over the host's GL objects, at `size`; fails when the
    /// video framebuffer is not complete.
    pub fn new(objects: GlObjects, size: (i32, i32), refresh_rate: u32, framebuffer_status: u32) -> (r: Result<Renderer, RendererError>)
        requires
            size.0 >= 0,
            size.1 >= 0,
        ensures
            framebuffer_status != FRAMEBUFFER_COMPLETE ==> r == Err::<Renderer, RendererError>(
                RendererError::FramebufferIncomplete(framebuffer_status),
            ),
            framebuffer_status == FRAMEBUFFER_COMPLETE ==> (r matches Ok(c) && {
                &&& c.wf()
                &&& c.width == size.0 && c.height == size.1
                &&& c.front_width == size.0 && c.front_height == size.1
                &&& c.front@ == blank_layer(size.0 as int, size.1 as int)
                &&& c.refresh_rate == refresh_rate
                &&& c.program == objects.program
                &&& c.front_texture == objects.front_texture
                &&& c.front_uniform == objects.front_uniform
                &&& c.back_texture == objects.back_texture
                &&& c.back_uniform == objects.back_uniform
                &&& c.vao == objects.vao
                &&& c.vbo == objects.vbo
                &&& c.fbo == objects.fbo
                &&& c.pbo == objects.pbo
            }),
    {
        if framebuffer_status != FRAMEBUFFER_COMPLETE {
            return Err(RendererError::FramebufferIncomplete(framebuffer_status));
        }
        Ok(Renderer {
            program: objects.program,
            front_texture: objects.front_texture,
            front_uniform: objects.front_uniform,
            back_texture: objects.back_texture,
            back_uniform: objects.back_uniform,
            vao: objects.vao,
            vbo: objects.vbo,
            fbo: objects.fbo,
            pbo: objects.pbo,
            width: size.0,
            height: size.1,
            refresh_rate,
            front_width: size.0,
            front_height: size.1,
            front: Ghost(blank_layer(size.0 as int, size.1 as int)),
        })
    }

    /// Takes a new surface size. The video layer follows at once (the host
    /// resizes it); the UI layer follows at the next paint.
    pub fn resize(&mut self, width: i32, height: i32)
        requires
            old(self).wf(),
            width >= 0,
            height >= 0,
        ensures
            final(self).wf(),
            final(self)@ == resize_spec(old(self)@, width as int, height as int),
            final(self).refresh_rate == old(self).refresh_rate,
            final(self).back_texture == old(self).back_texture,
            final(self).front_texture == old(self).front_texture,
            final(self).fbo == old(self).fbo,
            final(self).pbo == old(self).pbo,
    {
        self.width = width;
        self.height = height;
    }
}

impl Renderer {
    /// A partial update of the UI layer from a frame of stride `full_width`
    /// pixels. The UI layer and staging buffer are first brought to the
    /// surface size if a resize left them behind; then the rows of the
    /// rectangle are packed into the staging buffer for upload.
    pub fn paint(&mut self, x: i32, y: i32, width: i32, height: i32, buffer: &[u8], full_width: i32) -> (u: PaintUpload)
        requires
            old(self).wf(),
            rect_within(Rect { x, y, width, height }, old(self).width as int, old(self).height as int),
            frame_holds(buffer@.len() as int, full_width as int, Rect { x, y, width, height }),
        ensures
            final(self).wf(),
            u.rect == (Rect { x, y, width, height }),
            u.staging@ == packed_rows(buffer@, full_width as int, u.rect),
            u.resize == if needs_resync(old(self)@) {
                Some((old(self).width, old(self).height))
            } else {
                None
            },
            final(self)@ == paint_spec(old(self)@, u.rect, u.staging@),
            final(self).refresh_rate == old(self).refresh_rate,
            final(self).front_texture == old(self).front_texture,
            final(self).back_texture == old(self).back_texture,
            final(self).fbo == old(self).fbo,
            final(self).pbo == old(self).pbo,
    {
        let rect = Rect { x, y, width, height };
        let ghost before = self@;
        let resize = if self.front_width != self.width || self.front_height != self.height {
            self.front_width = self.width;
            self.front_height = self.height;
            Some((self.width, self.height))
        } else {
            None
        };
        let staging = copy_rows(buffer, full_width, rect);
        let ghost base = if needs_resync(before) {
            blank_layer(before.width, before.height)
        } else {
            before.front
        };
        proof {
            assert(self.width * self.height * 4 >= 0) by (nonlinear_arith)
                requires self.width >= 0, self.height >= 0;
        }
        self.front = Ghost(apply_update(base, self.width as int, rect, staging@));
        PaintUpload { resize, staging, rect }
    }
}

/// A partial update of a UI layer already at the surface size changes only
/// the bytes inside its rectangle: every byte outside keeps its value, and
/// every byte inside takes the update's.
pub proof fn lemma_paint_only_inside_rect(s: CompositorView, r: Rect, rows: Seq<u8>)
    requires
        s.front.len() == s.front_width * s.front_height * 4,
        !needs_resync(s),
        rect_within(r, s.width, s.height),
    ensures
        paint_spec(s, r, rows).front.len() == s.front.len(),
        forall|i: int| 0 <= i < s.front.len() && !in_rect(i, s.width, r)
            ==> #[trigger] paint_spec(s, r, rows).front[i] == s.front[i],
        forall|i: int| 0 <= i < s.front.len() && in_rect(i, s.width, r)
            ==> #[trigger] paint_spec(s, r, rows).front[i]
                == rows[((((i / 4) / s.width) - r.y) * r.width + ((i / 4) % s.width - r.x)) * 4 + i % 4],
{
}

/// After a resize, the next partial update first brings the UI layer to the
/// new surface size; applying the same update a second time leaves the layer
/// as the first left it.
pub proof fn lemma_resync_then_idempotent(s: CompositorView, width: int, height: int, r: Rect, rows: Seq<u8>)
    requires
        s.front.len() == s.front_width * s.front_height * 4,
        width >= 0,
        height >= 0,
        rect_within(r, width, height),
    ensures
        ({
            let once = paint_spec(resize_spec(s, width, height), r, rows);
            &&& once.front_width == width
            &&& once.front_height == height
            &&& once.front.len() == width * height * 4
            &&& paint_spec(once, r, rows) == once
        }),
{
    let t = resize_spec(s, width, height);
    let once = paint_spec(t, r, rows);
    assert(width * height * 4 >= 0) by (nonlinear_arith)
        requires width >= 0, height >= 0;
    let twice = paint_spec(once, r, rows);
    assert(twice.front =~= once.front);
}

/// A GL object to delete.
#[derive(Debug, Clone, Copy, PartialEq, Eq, Structural)]
pub enum GlObject {
    Program(u32),
    Texture(u32),
    Buffer(u32),
    Framebuffer(u32),
    VertexArray(u32),
}

/// A layer texture bound to a texture unit and the sampler that reads it.
#[derive(Debug, Clone, Copy, PartialEq, Eq, Structural)]
pub struct LayerBinding {
    pub unit: u32,
    pub texture: u32,
    pub uniform: i32,
}

/// What a draw binds: the blend program, the video layer under the UI
/// layer, and the full-screen quad.
#[derive(Debug, Clone, Copy, PartialEq, Eq, Structural)]
pub struct DrawPlan {
    pub program: u32,
    pub back: LayerBinding,
    pub front: LayerBinding,
    pub vao: u32,
}

impl Renderer {
    /// The bindings of a draw: the video layer on unit 0 for the `back`
    /// sampler, the UI layer on unit 1 for the `front` sampler, so that the
    /// UI is blended over the video.
    pub fn draw_plan(&self) -> (r: DrawPlan)
        ensures
            r == (DrawPlan {
                program: self.program,
                back: LayerBinding { unit: 0, texture: self.back_texture, uniform: self.back_uniform },
                front: LayerBinding { unit: 1, texture: self.front_texture, uniform: self.front_uniform },
                vao: self.vao,
            }),
    {
        DrawPlan {
            program: self.program,
            back: LayerBinding { unit: 0, texture: self.back_texture, uniform: self.back_uniform },
            front: LayerBinding { unit: 1, texture: self.front_texture, uniform: self.front_uniform },
            vao: self.vao,
        }
    }

    /// The GL objects to delete on teardown, in order: the program, both
    /// textures, the staging buffer, the framebuffer, the vertex objects.
    pub fn release(self) -> (r: Vec<GlObject>)
        ensures
            r@ == seq![
                GlObject::Program(self.program),
                GlObject::Texture(self.front_texture),
                GlObject::Texture(self.back_texture),
                GlObject::Buffer(self.pbo),
                GlObject::Framebuffer(self.fbo),
                GlObject::Buffer(self.vbo),
                GlObject::VertexArray(self.vao),
            ],
    {
        let mut objects: Vec<GlObject> = Vec::new();
        objects.push(GlObject::Program(self.program));
        objects.push(GlObject::Texture(self.front_texture));
        objects.push(GlObject::Texture(self.back_texture));
        objects.push(GlObject::Buffer(self.pbo));
        objects.push(GlObject::Framebuffer(self.fbo));
        objects.push(GlObject::Buffer(self.vbo));
        objects.push(GlObject::VertexArray(self.vao));
        objects
    }
}

/// The refresh rate used when no monitor reports one.
pub const DEFAULT_REFRESH_RATE: u32 = 30;

/// The refresh rate in hertz: the first monitor that reports one, in
/// millihertz, else the default.
pub open spec fn refresh_rate_spec(rates: Seq<Option<u32>>) -> u32
    decreases rates.len(),
{
    if rates.len() == 0 {
        DEFAULT_REFRESH_RATE
    } else if rates[0] is Some {
        rates[0]->Some_0 / 1000
    } else {
        refresh_rate_spec(rates.drop_first())
    }
}

pub fn refresh_rate(millihertz: &Vec<Option<u32>>) -> (r: u32)
    ensures
        r == refresh_rate_spec(millihertz@),
{
    let mut i: usize = 0;
    assert(millihertz@.subrange(0, millihertz@.len() as int) =~= millihertz@);
    while i < millihertz.len()
        invariant
            i <= millihertz@.len(),
            refresh_rate_spec(millihertz@) == refresh_rate_spec(millihertz@.subrange(i as int, millihertz@.len() as int)),
        decreases millihertz@.len() - i,
    {
        let ghost rest = millihertz@.subrange(i as int, millihertz@.len() as int);
        assert(rest.drop_first() =~= millihertz@.subrange(i + 1, millihertz@.len() as int));
        if let Some(m) = millihertz[i] {
            return m / 1000;
        }
        i = i + 1;
    }
    DEFAULT_REFRESH_RATE
}

} // verus!
