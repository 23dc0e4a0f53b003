use vstd::prelude::*;

verus! {

/// An RGBA color with 8-bit channels.  A channel value `v` stands for the
/// intensity `v / 255` of the unit color cube.
#[derive(Clone, Copy, PartialEq, Eq, Structural, Debug)]
pub struct Color {
    pub r: u8,
    pub g: u8,
    pub b: u8,
    pub a: u8,
}

impl Color {
    pub fn rgba(r: u8, g: u8, b: u8, a: u8) -> (c: Color)
        ensures
            c == (Color { r, g, b, a }),
    {
        Color { r, g, b, a }
    }
}

/// A 2D RGBA image in row-major order.  `width == 0 || height == 0` is the
/// valid empty state meaning "nothing to render".
pub struct Image {
    pub width: u32,
    pub height: u32,
    pub data: Vec<Color>,
}

impl Image {
    pub open spec fn wf(self) -> bool {
        self.data@.len() == self.width * self.height
    }

    pub open spec fn pixel_count(self) -> int {
        self.width * self.height
    }
}

impl Default for Image {
    /// The empty image: the terminal "nothing to render" state.
    fn default() -> (img: Image)
        ensures
            img.width == 0,
            img.height == 0,
            img.data@ == Seq::<Color>::empty(),
            img.wf(),
    {
        Image { width: 0, height: 0, data: Vec::new() }
    }
}

/// Scale of the fixed-point matrix entries: an entry `e` stands for `e / 65536`.
pub const MATRIX_ONE: i32 = 65536;

/// A 3x3 linear map on color space, row-major, in 16.16 fixed point.
/// It stands for the rotation part of a color-space transformation; the host
/// computes the entries from whatever rotation it wants to apply.
#[derive(Clone, Copy, PartialEq, Eq, Structural, Debug)]
pub struct ColorMatrix {
    pub xx: i32,
    pub xy: i32,
    pub xz: i32,
    pub yx: i32,
    pub yy: i32,
    pub yz: i32,
    pub zx: i32,
    pub zy: i32,
    pub zz: i32,
}

impl ColorMatrix {
    /// The identity map: every color is left where it is.
    pub open spec fn identity_spec() -> ColorMatrix {
        ColorMatrix {
            xx: MATRIX_ONE as i32,
            xy: 0,
            xz: 0,
            yx: 0,
            yy: MATRIX_ONE as i32,
            yz: 0,
            zx: 0,
            zy: 0,
            zz: MATRIX_ONE as i32,
        }
    }

    pub fn identity() -> (m: ColorMatrix)
        ensures
            m == ColorMatrix::identity_spec(),
    {
        ColorMatrix {
            xx: MATRIX_ONE,
            xy: 0,
            xz: 0,
            yx: 0,
            yy: MATRIX_ONE,
            yz: 0,
            zx: 0,
            zy: 0,
            zz: MATRIX_ONE,
        }
    }
}

/// The active color-space transformation: a rotation applied around the
/// center `(1/2, 1/2, 1/2)` of the color cube.
#[derive(Clone, Copy, PartialEq, Eq, Structural, Debug)]
pub struct ColorTransformation {
    pub rotation: ColorMatrix,
}

impl Default for ColorTransformation {
    fn default() -> (t: ColorTransformation)
        ensures
            t.rotation == ColorMatrix::identity_spec(),
    {
        ColorTransformation { rotation: ColorMatrix::identity() }
    }
}

/// The 2D output target.  Until the host designates a surface, rendering to
/// it is a no-op.
pub struct Output {
    pub canvas_id: Option<String>,
}

impl Default for Output {
    fn default() -> (o: Output)
        ensures
            o.canvas_id is None,
    {
        Output { canvas_id: None }
    }
}

/// One row of the transform, applied to a color centered around `1/2`:
/// the exact value of `255 * 65536 * 2 * (row . (c - 1/2))` for channel
/// bytes `r, g, b`.
pub open spec fn row_dot_centered(m0: int, m1: int, m2: int, r: int, g: int, b: int) -> int {
    m0 * (2 * r - 255) + m1 * (2 * g - 255) + m2 * (2 * b - 255)
}

/// Shift the centered result back by `1/2`, rescale to a byte, rounding
/// down, and clamp to the gamut.  `num` is a `row_dot_centered` value, so
/// the represented channel is `num / (2 * 255 * 65536) + 1/2` and the byte
/// is `255` times that: `(num + 255 * 65536) / (2 * 65536)`, clamped.
pub open spec fn quantize_channel(num: int) -> int {
    let shifted = num + 0xff0000;
    let q = shifted / 0x20000;
    if q < 0 {
        0
    } else if q > 255 {
        255
    } else {
        q
    }
}

/// Where a transformed color lands: each channel is the matrix row applied
/// to the centered color, shifted back and clamped; alpha is unchanged.
pub open spec fn transform_color(m: ColorMatrix, c: Color) -> Color {
    Color {
        r: quantize_channel(row_dot_centered(m.xx as int, m.xy as int, m.xz as int, c.r as int, c.g as int, c.b as int)) as u8,
        g: quantize_channel(row_dot_centered(m.yx as int, m.yy as int, m.yz as int, c.r as int, c.g as int, c.b as int)) as u8,
        b: quantize_channel(row_dot_centered(m.zx as int, m.zy as int, m.zz as int, c.r as int, c.g as int, c.b as int)) as u8,
        a: c.a,
    }
}

/// The whole image under `transform_color`, pixel by pixel.
pub open spec fn transformed_data(data: Seq<Color>, m: ColorMatrix) -> Seq<Color> {
    data.map(|i: int, c: Color| transform_color(m, c))
}

fn centered(ch: u8) -> (v: i64)
    ensures
        v == 2 * ch - 255,
{
    2 * (ch as i64) - 255
}

/// Bound on a product from bounds on its factors.
proof fn lemma_mul_bounds(a: int, b: int, bound_a: int, bound_b: int)
    requires
        -bound_a <= a <= bound_a,
        -bound_b <= b <= bound_b,
        0 <= bound_a,
        0 <= bound_b,
    ensures
        -(bound_a * bound_b) <= a * b <= bound_a * bound_b,
{
    assert(-(bound_a * bound_b) <= a * b <= bound_a * bound_b) by (nonlinear_arith)
        requires
            -bound_a <= a <= bound_a,
            -bound_b <= b <= bound_b,
            0 <= bound_a,
            0 <= bound_b,
    ;
}

fn quantize(num: i64) -> (q: u8)
    requires
        -0x20000000000 <= num <= 0x20000000000,
    ensures
        q == quantize_channel(num as int),
{
    let shifted: i64 = num + 0xff0000;
    if shifted < 0 {
        proof {
            vstd::arithmetic::div_mod::lemma_div_is_ordered(shifted as int, -1, 0x20000);
        }
        0u8
    } else {
        let q = shifted / 0x20000;
        if q > 255 {
            255u8
        } else {
            q as u8
        }
    }
}

/// Apply the active rotation to one color: rotate the rgb part around the
/// cube center, keep alpha.
pub fn apply_transformation(m: &ColorMatrix, c: Color) -> (t: Color)
    ensures
        t == transform_color(*m, c),
{
    let cr = centered(c.r);
    let cg = centered(c.g);
    let cb = centered(c.b);
    proof {
        lemma_mul_bounds(m.xx as int, cr as int, 0x80000000, 255);
        lemma_mul_bounds(m.xy as int, cg as int, 0x80000000, 255);
        lemma_mul_bounds(m.xz as int, cb as int, 0x80000000, 255);
        lemma_mul_bounds(m.yx as int, cr as int, 0x80000000, 255);
        lemma_mul_bounds(m.yy as int, cg as int, 0x80000000, 255);
        lemma_mul_bounds(m.yz as int, cb as int, 0x80000000, 255);
        lemma_mul_bounds(m.zx as int, cr as int, 0x80000000, 255);
        lemma_mul_bounds(m.zy as int, cg as int, 0x80000000, 255);
        lemma_mul_bounds(m.zz as int, cb as int, 0x80000000, 255);
    }
    let nr = (m.xx as i64) * cr + (m.xy as i64) * cg + (m.xz as i64) * cb;
    let ng = (m.yx as i64) * cr + (m.yy as i64) * cg + (m.yz as i64) * cb;
    let nb = (m.zx as i64) * cr + (m.zy as i64) * cg + (m.zz as i64) * cb;
    Color { r: quantize(nr), g: quantize(ng), b: quantize(nb), a: c.a }
}

/// A positive unit coefficient quantizes back to the channel itself.
proof fn lemma_quantize_unit(x: int)
    requires
        0 <= x <= 255,
    ensures
        quantize_channel(0x10000 * (2 * x - 255)) == x,
{
    assert(0x10000 * (2 * x - 255) + 0xff0000 == 0x20000 * x);
    assert((0x20000 * x) / 0x20000 == x) by {
        vstd::arithmetic::div_mod::lemma_div_multiples_vanish(x, 0x20000);
    }
}

/// A negative unit coefficient quantizes to the reflected channel.
proof fn lemma_quantize_neg_unit(x: int)
    requires
        0 <= x <= 255,
    ensures
        quantize_channel(-0x10000 * (2 * x - 255)) == 255 - x,
{
    assert(-0x10000 * (2 * x - 255) + 0xff0000 == 0x20000 * (255 - x));
    assert((0x20000 * (255 - x)) / 0x20000 == 255 - x) by {
        vstd::arithmetic::div_mod::lemma_div_multiples_vanish(255 - x, 0x20000);
    }
}

/// A color in the gamut comes back unchanged under the identity rotation:
/// the rotate-then-shift round trip is exact when the rotation does nothing.
pub proof fn lemma_identity_transform(c: Color)
    ensures
        transform_color(ColorMatrix::identity_spec(), c) == c,
{
    assert(row_dot_centered(0x10000, 0, 0, c.r as int, c.g as int, c.b as int) == 0x10000 * (2
        * c.r - 255));
    assert(row_dot_centered(0, 0x10000, 0, c.r as int, c.g as int, c.b as int) == 0x10000 * (2
        * c.g - 255));
    assert(row_dot_centered(0, 0, 0x10000, c.r as int, c.g as int, c.b as int) == 0x10000 * (2
        * c.b - 255));
    lemma_quantize_unit(c.r as int);
    lemma_quantize_unit(c.g as int);
    lemma_quantize_unit(c.b as int);
}

/// The quarter turn around the vertical (green) color axis.  Its entries are
/// exact in fixed point, so it is one of the rotations whose round trip
/// loses nothing.
pub open spec fn quarter_turn_spec() -> ColorMatrix {
    ColorMatrix {
        xx: 0,
        xy: 0,
        xz: MATRIX_ONE as i32,
        yx: 0,
        yy: MATRIX_ONE as i32,
        yz: 0,
        zx: (-MATRIX_ONE) as i32,
        zy: 0,
        zz: 0,
    }
}

/// The inverse quarter turn around the vertical color axis.
pub open spec fn quarter_turn_inv_spec() -> ColorMatrix {
    ColorMatrix {
        xx: 0,
        xy: 0,
        xz: (-MATRIX_ONE) as i32,
        yx: 0,
        yy: MATRIX_ONE as i32,
        yz: 0,
        zx: MATRIX_ONE as i32,
        zy: 0,
        zz: 0,
    }
}

/// Round trip of an exactly representable rotation: applying the quarter
/// turn and then its inverse returns every color unchanged, alpha included.
/// (For rotations with inexact fixed-point entries the round trip is only
/// close, not equal: quantization intervenes twice.)
pub proof fn lemma_quarter_turn_round_trip(c: Color)
    ensures
        transform_color(quarter_turn_inv_spec(), transform_color(quarter_turn_spec(), c)) == c,
{
    let once = transform_color(quarter_turn_spec(), c);
    lemma_quantize_unit(c.b as int);
    lemma_quantize_neg_unit(c.r as int);
    lemma_quantize_unit(c.g as int);
    assert(once == (Color { r: c.b, g: c.g, b: (255 - c.r) as u8, a: c.a }));
    lemma_quantize_neg_unit(once.b as int);
    lemma_quantize_unit(once.r as int);
    lemma_quantize_unit(once.g as int);
    assert(transform_color(quarter_turn_inv_spec(), once) == c);
}

/// Recompute the output image from the input image under the active
/// rotation: same dimensions, every pixel mapped through the transform,
/// stale contents fully overwritten.
pub fn transform_image(input: &Image, xform: &ColorTransformation, output: &mut Image)
    requires
        input.wf(),
    ensures
        final(output).width == input.width,
        final(output).height == input.height,
        final(output).data@ == transformed_data(input.data@, xform.rotation),
        final(output).wf(),
{
    let n = input.data.len();
    let mut data: Vec<Color> = Vec::new();
    let mut i: usize = 0;
    while i < n
        invariant
            n == input.data@.len(),
            i <= n,
            data@.len() == i,
            forall|j: int| 0 <= j < i ==> data@[j] == transform_color(xform.rotation, input.data@[j]),
        decreases n - i,
    {
        let c = apply_transformation(&xform.rotation, input.data[i]);
        data.push(c);
        i += 1;
    }
    output.width = input.width;
    output.height = input.height;
    output.data = data;
    proof {
        assert(output.data@ =~= transformed_data(input.data@, xform.rotation));
    }
}

/// Replace the input image with this frame's data.
pub struct SetInputImageEvent {
    pub width: u32,
    pub height: u32,
    pub data: Vec<Color>,
}

impl SetInputImageEvent {
    pub open spec fn wf(self) -> bool {
        self.data@.len() == self.width * self.height
    }
}

/// Replace the active color-space rotation.
#[derive(Clone, Copy, PartialEq, Eq, Structural, Debug)]
pub struct SetColorTransformationEvent {
    pub rotation: ColorMatrix,
}

/// Designate the 2D output surface.
pub struct SetOutputCanvasEvent {
    pub canvas_id: String,
}

/// Recompute the output image from the input image (internal).
#[derive(Clone, Copy, PartialEq, Eq, Structural, Debug)]
pub struct TransformImageEvent;

/// Re-render the 2D output surface (internal).
#[derive(Clone, Copy, PartialEq, Eq, Structural, Debug)]
pub struct RenderRequest;

/// Consume this frame's SetInputImage event, if any: replace the input image
/// and request a transform recompute downstream.
pub fn set_input_image(event: Option<SetInputImageEvent>, image: &mut Image) -> (out_event: Option<
    TransformImageEvent,
>)
    requires
        event matches Some(e) ==> e.wf(),
    ensures
        event matches Some(e) ==> final(image).width == e.width && final(image).height == e.height
            && final(image).data@ == e.data@ && final(image).wf() && out_event is Some,
        event is None ==> *final(image) == *old(image) && out_event is None,
{
    match event {
        Some(e) => {
            image.width = e.width;
            image.height = e.height;
            image.data = e.data;
            Some(TransformImageEvent)
        },
        None => None,
    }
}

/// Consume this frame's SetColorTransformation event, if any: replace the
/// active rotation and request a transform recompute downstream.
pub fn set_color_transformation(
    event: Option<SetColorTransformationEvent>,
    xform: &mut ColorTransformation,
) -> (out_event: Option<TransformImageEvent>)
    ensures
        event matches Some(e) ==> final(xform).rotation == e.rotation && out_event is Some,
        event is None ==> *final(xform) == *old(xform) && out_event is None,
{
    match event {
        Some(e) => {
            xform.rotation = e.rotation;
            Some(TransformImageEvent)
        },
        None => None,
    }
}

/// Consume this frame's SetOutputCanvas event, if any: record the surface id
/// and request a 2D render downstream.
pub fn set_output_canvas(event: Option<SetOutputCanvasEvent>, output: &mut Output) -> (out_event:
    Option<RenderRequest>)
    ensures
        event matches Some(e) ==> final(output).canvas_id == Some(e.canvas_id) && out_event
            is Some,
        event is None ==> *final(output) == *old(output) && out_event is None,
{
    match event {
        Some(e) => {
            output.canvas_id = Some(e.canvas_id);
            Some(RenderRequest)
        },
        None => None,
    }
}

/// Everything the host needs to write the 2D output to its surface: the
/// surface id, the image dimensions, and the pixel bytes in row-major RGBA
/// order, one byte per channel.
pub struct RenderData {
    pub canvas_id: String,
    pub width: u32,
    pub height: u32,
    pub bytes: Vec<u8>,
}

/// Consume this frame's render request, if any.  With a designated surface
/// and a non-empty output image, hand back exactly the bytes to write; an
/// unset surface or an empty image is the normal "nothing to do" state, not
/// an error.
pub fn render_image(event: Option<RenderRequest>, image: &Image, output: &Output) -> (r: Option<
    RenderData,
>)
    requires
        image.wf(),
    ensures
        r is Some <==> event is Some && output.canvas_id is Some && image.width > 0 && image.height
            > 0,
        r matches Some(d) ==> {
            &&& d.canvas_id == output.canvas_id->0
            &&& d.width == image.width
            &&& d.height == image.height
            &&& d.bytes@.len() == 4 * image.data@.len()
            &&& forall|j: int|
                0 <= j < image.data@.len() ==> d.bytes@[4 * j] == image.data@[j].r && d.bytes@[4 * j
                    + 1] == image.data@[j].g && d.bytes@[4 * j + 2] == image.data@[j].b && d.bytes@[
                    4 * j + 3
                ] == image.data@[j].a
        },
{
    if event.is_none() {
        return None;
    }
    let canvas_id = match &output.canvas_id {
        None => {
            return None;
        },
        Some(id) => id.clone(),
    };
    if image.width == 0 || image.height == 0 {
        return None;
    }
    let n = image.data.len();
    let mut bytes: Vec<u8> = Vec::new();
    let mut i: usize = 0;
    while i < n
        invariant
            n == image.data@.len(),
            i <= n,
            bytes@.len() == 4 * i,
            forall|j: int|
                0 <= j < i ==> bytes@[4 * j] == image.data@[j].r && bytes@[4 * j + 1]
                    == image.data@[j].g && bytes@[4 * j + 2] == image.data@[j].b && bytes@[4 * j
                    + 3] == image.data@[j].a,
        decreases n - i,
    {
        let c = image.data[i];
        bytes.push(c.r);
        bytes.push(c.g);
        bytes.push(c.b);
        bytes.push(c.a);
        i += 1;
    }
    Some(RenderData { canvas_id, width: image.width, height: image.height, bytes })
}

/// The height the 2D output is scaled to: the surface's target width divided
/// by the image's aspect ratio, rounded down (and saturated to the `u32`
/// range for degenerate ratios).
pub open spec fn scaled_height_spec(src_width: int, src_height: int, dst_width: int) -> int {
    let h = (dst_width * src_height) / src_width;
    if h > u32::MAX {
        u32::MAX as int
    } else {
        h
    }
}

/// Scale the output to the surface's target width, preserving the image's
/// aspect ratio.
pub fn scaled_height(src_width: u32, src_height: u32, dst_width: u32) -> (h: u32)
    requires
        src_width >= 1,
    ensures
        h == scaled_height_spec(src_width as int, src_height as int, dst_width as int),
{
    proof {
        vstd::arithmetic::mul::lemma_mul_nonnegative(dst_width as int, src_height as int);
        assert(dst_width * src_height <= 0xffff_ffff * 0xffff_ffff) by (nonlinear_arith)
            requires
                0 <= dst_width <= 0xffff_ffff,
                0 <= src_height <= 0xffff_ffff,
        ;
    }
    let num = (dst_width as u64) * (src_height as u64);
    let q = num / (src_width as u64);
    if q > u32::MAX as u64 {
        u32::MAX
    } else {
        q as u32
    }
}

} // verus!
