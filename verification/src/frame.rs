//! The frames that the picture unit draws on, kept in pixel grids of the
//! `image` crate.

use vstd::prelude::*;
use image::{ImageBuffer, Rgba};

verus! {

/// A pixel grid of the `image` crate, an `ImageBuffer` of `Rgba<u8>` pixels
/// over a `Vec<u8>`, held opaquely: Verus sees nothing inside it. What it
/// holds is spoken of through `canvas_pixels` and `canvas_size`.
#[verifier::external_body]
pub struct Canvas {
    image: ImageBuffer<Rgba<u8>, Vec<u8>>,
}

/// The pixels that a canvas holds, row by row from the top, each as its
/// red, green, blue and alpha samples.
pub uninterp spec fn canvas_pixels(canvas: Canvas) -> Seq<[u8; 4]>;

/// Width and height that a canvas was made with.
pub uninterp spec fn canvas_size(canvas: Canvas) -> (u32, u32);

/// `ImageBuffer::new`. Believed of it: the buffer has the size asked for and
/// every sample in it is zero. It multiplies the four samples of a pixel by
/// the width and then by the height, and panics where either product does
/// not fit the machine word or the samples do not fit a vector; the
/// precondition leaves both out.
#[verifier::external_body]
fn canvas_new(width: u32, height: u32) -> (canvas: Canvas)
    requires
        4 * width <= usize::MAX,
        4 * width * height <= isize::MAX,
    ensures
        canvas_size(canvas) == (width, height),
        canvas_pixels(canvas) == Seq::new((width * height) as nat, |i: int| [0u8, 0u8, 0u8, 0u8]),
{
    Canvas { image: ImageBuffer::new(width, height) }
}

/// `ImageBuffer::put_pixel`. Believed of it: the pixel at column `x` of row
/// `y` becomes `color`, every other pixel and the size stay. It panics
/// outside the bounds, which the precondition leaves out; within them it
/// does not unwind.
#[verifier::external_body]
fn canvas_put(canvas: &mut Canvas, x: u32, y: u32, color: [u8; 4])
    requires
        x < canvas_size(*old(canvas)).0,
        y < canvas_size(*old(canvas)).1,
    ensures
        canvas_size(*final(canvas)) == canvas_size(*old(canvas)),
        canvas_pixels(*final(canvas)) == canvas_pixels(*old(canvas)).update(
            y * canvas_size(*old(canvas)).0 + x,
            color,
        ),
    no_unwind
{
    canvas.image.put_pixel(x, y, Rgba(color))
}

/// `ImageBuffer::get_pixel`. Believed of it: it returns the pixel at column
/// `x` of row `y`. It panics outside the bounds, which the precondition
/// leaves out.
#[verifier::external_body]
fn canvas_get(canvas: &Canvas, x: u32, y: u32) -> (color: [u8; 4])
    requires
        x < canvas_size(*canvas).0,
        y < canvas_size(*canvas).1,
    ensures
        color == canvas_pixels(*canvas)[y * canvas_size(*canvas).0 + x],
{
    canvas.image.get_pixel(x, y).0
}

/// Width of a frame in pixels.
pub const FRAME_WIDTH: u32 = 256;
/// Height of a frame in pixels.
pub const FRAME_HEIGHT: u32 = 240;

/// One picture of 256 by 240 pixels. Its view is the pixels row by row from
/// the top, each as red, green, blue and alpha.
pub struct Frame {
    canvas: Canvas,
}

impl Frame {
    #[verifier::type_invariant]
    spec fn sized(self) -> bool {
        canvas_size(self.canvas) == (FRAME_WIDTH, FRAME_HEIGHT) && canvas_pixels(self.canvas).len() == 61440
    }

    /// The pixels, row by row from the top.
    pub closed spec fn view(&self) -> Seq<[u8; 4]> {
        canvas_pixels(self.canvas)
    }

    /// The pixels of a frame that nothing was drawn on.
    pub open spec fn black() -> Seq<[u8; 4]> {
        Seq::new(61440, |i: int| [0u8, 0u8, 0u8, 0u8])
    }

    /// A frame on which nothing is drawn.
    pub fn new() -> (frame: Frame)
        ensures
            frame@ == Frame::black(),
    {
        Frame { canvas: canvas_new(FRAME_WIDTH, FRAME_HEIGHT) }
    }

    /// Draws one pixel.
    pub fn set_pixel(&mut self, x: u32, y: u32, color: [u8; 4])
        requires
            x < 256,
            y < 240,
        ensures
            final(self)@ == old(self)@.update(y * 256 + x, color),
    {
        proof {
            use_type_invariant(&*self);
        }
        canvas_put(&mut self.canvas, x, y, color);
    }

    /// The pixel at column `x` of row `y`.
    pub fn pixel(&self, x: u32, y: u32) -> (color: [u8; 4])
        requires
            x < 256,
            y < 240,
        ensures
            color == self@[y * 256 + x],
    {
        proof {
            use_type_invariant(self);
        }
        canvas_get(&self.canvas, x, y)
    }
}

} // verus!
