//! Decoding, input preparation and box drawing on images of the `image` crate.
use crate::boxes::{Annotation, Detections, PixelBox};
use crate::labels::LabelMap;
use crate::shape::{check_input, rgb_len, InputShape, PassError};
use image::DynamicImage;
use vstd::prelude::*;

verus! {

#[verifier::external_type_specification]
#[verifier::external_body]
pub struct ExDynamicImage(image::DynamicImage);

#[verifier::external_type_specification]
#[verifier::external_body]
pub struct ExImageError(image::ImageError);

/// Largest pixel coordinate up to which boxes are outlined: every integer up to
/// it is exact as an `f32`.
pub const DRAW_LIMIT: u32 = 16777216;

/// Colour of drawn boxes and labels: white, half transparent.
pub const BOX_COLOR: [u8; 4] = [255, 255, 255, 128];

/// Whether `image::load_from_memory_with_format` decodes these bytes as JPEG.
pub uninterp spec fn decodable(bytes: Seq<u8>) -> bool;

/// Width and height of the image that `image::load_from_memory_with_format`
/// decodes from these bytes as JPEG.
pub uninterp spec fn decoded_size(bytes: Seq<u8>) -> (u32, u32);

/// RGB samples of the image decoded from `bytes`, scaled by `resize_to_fill`
/// with nearest-neighbour filtering to `width` x `height`.
pub uninterp spec fn resized_rgb(bytes: Seq<u8>, width: u32, height: u32) -> Seq<u8>;

/// `resize_to_fill` can scale a `src_width` x `src_height` image to cover
/// `width` x `height`: all sides are positive, and the intermediate size that it
/// computes in `u32` fits.
pub open spec fn scalable(src_width: u32, src_height: u32, width: u32, height: u32) -> bool {
    &&& src_width > 0
    &&& src_height > 0
    &&& width > 0
    &&& height > 0
    &&& (src_height as int * width as int) / (src_width as int) <= u32::MAX
    &&& (src_width as int * height as int) / (src_height as int) <= u32::MAX
}

/// A decoded frame: the image with its width and height.
pub struct Picture {
    image: DynamicImage,
    width: u32,
    height: u32,
    source: Ghost<Seq<u8>>,
}

impl Picture {
    /// Width of the image.
    pub closed spec fn spec_width(&self) -> u32 {
        self.width
    }

    /// Height of the image.
    pub closed spec fn spec_height(&self) -> u32 {
        self.height
    }

    /// The encoded bytes the image was decoded from.
    pub closed spec fn source(&self) -> Seq<u8> {
        self.source@
    }

    /// The decoded image.
    pub closed spec fn spec_image(&self) -> DynamicImage {
        self.image
    }

    pub fn width(&self) -> (r: u32)
        ensures
            r == self.spec_width(),
    {
        self.width
    }

    pub fn height(&self) -> (r: u32)
        ensures
            r == self.spec_height(),
    {
        self.height
    }

    pub fn image(&self) -> (r: &DynamicImage)
        ensures
            *r == self.spec_image(),
    {
        &self.image
    }
}

/// Relies on image::load_from_memory_with_format, which decodes the bytes as JPEG
/// (the camera's format), and on image::GenericImageView::dimensions of the
/// result; both depend on the bytes alone.
#[verifier::external_body]
fn load(bytes: &[u8]) -> (r: Result<Picture, image::ImageError>)
    ensures
        r is Ok <==> decodable(bytes@),
        r matches Ok(p) ==> (p.spec_width(), p.spec_height()) == decoded_size(bytes@) && p.source() == bytes@,
{
    let image = image::load_from_memory_with_format(bytes, image::ImageFormat::Jpeg)?;
    let (width, height) = image::GenericImageView::dimensions(&image);
    Ok(Picture { image, width, height, source: Ghost(bytes@) })
}

/// Relies on image::DynamicImage::resize_to_fill with nearest-neighbour filtering,
/// then image::DynamicImage::to_rgb8: the image scaled to cover `width` x `height`,
/// cropped to exactly that size, as interleaved 8-bit RGB samples.
#[verifier::external_body]
fn resize_rgb(pic: &Picture, width: u32, height: u32) -> (r: Vec<u8>)
    requires
        scalable(pic.spec_width(), pic.spec_height(), width, height),
    ensures
        r@ == resized_rgb(pic.source(), width, height),
        r@.len() == rgb_len(height as int, width as int),
{
    pic.image.resize_to_fill(width, height, image::imageops::FilterType::Nearest).to_rgb8().into_raw()
}

/// Relies on imageproc::drawing::draw_hollow_rect_mut with an
/// imageproc::rect::Rect built by `Rect::at(left, top).of_size(width, height)`,
/// which requires a positive size. The edges are drawn as line segments through
/// `f32` coordinates, which stay exact while they are at most `DRAW_LIMIT`.
#[verifier::external_body]
fn outline(img: &mut DynamicImage, left: i32, top: i32, width: u32, height: u32, color: [u8; 4])
    requires
        width > 0,
        height > 0,
        left >= 0,
        top >= 0,
        left as int + width as int <= DRAW_LIMIT,
        top as int + height as int <= DRAW_LIMIT,
{
    let rect = imageproc::rect::Rect::at(left, top).of_size(width, height);
    imageproc::drawing::draw_hollow_rect_mut(img, rect, image::Rgba(color));
}

/// Decodes an encoded frame.
pub fn decode_frame(frame: &[u8]) -> (r: Result<Picture, PassError>)
    ensures
        r is Ok <==> decodable(frame@),
        r is Err ==> r == Err::<Picture, PassError>(PassError::Decode),
        r matches Ok(p) ==> (p.spec_width(), p.spec_height()) == decoded_size(frame@) && p.source() == frame@,
{
    match load(frame) {
        Ok(p) => Ok(p),
        Err(_) => Err(PassError::Decode),
    }
}

/// Whether a `width` x `height` picture can be prepared as input of `shape` for a
/// tensor of `tensor_len` bytes, and if not, why.
pub open spec fn input_outcome(width: u32, height: u32, shape: InputShape, tensor_len: usize) -> Result<(), PassError> {
    if width == 0 || height == 0 {
        Err(PassError::EmptyImage)
    } else if !scalable(width, height, shape.width, shape.height) {
        Err(PassError::Unscalable)
    } else if tensor_len != shape.byte_len() {
        Err(PassError::SizeMismatch)
    } else {
        Ok(())
    }
}

/// Resizes a picture to the model's input shape, `shape.width` x `shape.height`,
/// and checks that the pixels fill an input tensor of `tensor_len` bytes exactly.
pub fn prepare_input(pic: &Picture, shape: &InputShape, tensor_len: usize) -> (r: Result<Vec<u8>, PassError>)
    requires
        shape.wf(),
    ensures
        r is Ok <==> input_outcome(pic.spec_width(), pic.spec_height(), *shape, tensor_len) is Ok,
        r matches Err(e) ==> input_outcome(pic.spec_width(), pic.spec_height(), *shape, tensor_len) == Err::<
            (),
            PassError,
        >(e),
        r matches Ok(p) ==> p@ == resized_rgb(pic.source(), shape.width, shape.height) && p@.len()
            == shape.byte_len() && tensor_len == shape.byte_len(),
{
    let w = pic.width();
    let h = pic.height();
    if w == 0 || h == 0 {
        return Err(PassError::EmptyImage);
    }
    proof {
        assert(h as int * shape.width as int <= u32::MAX as int * u32::MAX as int) by (nonlinear_arith);
        assert(w as int * shape.height as int <= u32::MAX as int * u32::MAX as int) by (nonlinear_arith);
    }
    let tall: u64 = (h as u64 * shape.width as u64) / (w as u64);
    let wide: u64 = (w as u64 * shape.height as u64) / (h as u64);
    if tall > u32::MAX as u64 || wide > u32::MAX as u64 {
        return Err(PassError::Unscalable);
    }
    let pixels = resize_rgb(pic, shape.width, shape.height);
    match check_input(shape, tensor_len, &pixels) {
        Ok(()) => Ok(pixels),
        Err(e) => Err(e),
    }
}

/// Decodes a frame and prepares the model input from it: the decoded picture and
/// its pixels, resized to `shape`, which fill an input tensor of `tensor_len`
/// bytes exactly. Inference is run only on such pixels.
pub fn prepare_frame(frame: &[u8], shape: &InputShape, tensor_len: usize) -> (r: Result<(Picture, Vec<u8>), PassError>)
    requires
        shape.wf(),
    ensures
        !decodable(frame@) ==> r == Err::<(Picture, Vec<u8>), PassError>(PassError::Decode),
        decodable(frame@) ==> (r is Ok <==> input_outcome(
            decoded_size(frame@).0,
            decoded_size(frame@).1,
            *shape,
            tensor_len,
        ) is Ok),
        decodable(frame@) ==> (r matches Err(e) ==> input_outcome(
            decoded_size(frame@).0,
            decoded_size(frame@).1,
            *shape,
            tensor_len,
        ) == Err::<(), PassError>(e)),
        r matches Ok((p, px)) ==> {
            &&& p.source() == frame@
            &&& (p.spec_width(), p.spec_height()) == decoded_size(frame@)
            &&& px@ == resized_rgb(frame@, shape.width, shape.height)
            &&& px@.len() == shape.byte_len()
            &&& tensor_len == shape.byte_len()
        },
{
    let pic = decode_frame(frame)?;
    let pixels = prepare_input(&pic, shape, tensor_len)?;
    Ok((pic, pixels))
}

/// An image with the boxes of one inference pass drawn on it.
pub struct Annotated {
    pub image: DynamicImage,
    /// Width of the image, to which the boxes were scaled.
    pub width: u32,
    /// Height of the image, to which the boxes were scaled.
    pub height: u32,
    /// The selected detections, in output order. Each is outlined on `image`
    /// unless its box reaches past `DRAW_LIMIT`.
    pub annotations: Vec<Annotation>,
}

/// Draws the outline of one box.
fn draw_box(img: &mut DynamicImage, b: &PixelBox)
    requires
        b.drawable(),
        b.x1 <= DRAW_LIMIT,
        b.y1 <= DRAW_LIMIT,
{
    outline(img, b.x0 as i32, b.y0 as i32, b.x1 - b.x0, b.y1 - b.y0, BOX_COLOR);
}

/// Draws an outline for every detection whose score exceeds `threshold`, with the
/// boxes scaled to the picture's own width and height (boxes reaching past
/// `DRAW_LIMIT` are listed but not outlined); a picture with no such detection is
/// returned untouched.
pub fn draw_boxes(threshold: u32, pic: Picture, detections: &Detections, labels: &LabelMap) -> (r: Annotated)
    ensures
        r.width == pic.spec_width(),
        r.height == pic.spec_height(),
        r.annotations@ == detections.plan(threshold, pic.spec_width(), pic.spec_height(), labels@.len()),
        r.annotations@.len() == 0 ==> r.image == pic.spec_image(),
{
    let width = pic.width();
    let height = pic.height();
    let mut img = pic.image;
    let ghost original = img;
    let annotations = detections.plan_boxes(threshold, width, height, labels.len());
    proof {
        crate::boxes::lemma_only_confident_drawn(detections, threshold, width, height, labels@.len());
    }
    let mut i: usize = 0;
    while i < annotations.len()
        invariant
            i <= annotations@.len(),
            annotations@.len() == 0 ==> img == original,
            forall|j: int| 0 <= j < annotations@.len() ==> (#[trigger] annotations@[j]).bbox.drawable(),
        decreases annotations@.len() - i,
    {
        let b = annotations[i].bbox;
        if b.x1 <= DRAW_LIMIT && b.y1 <= DRAW_LIMIT {
            draw_box(&mut img, &b);
        }
        i = i + 1;
    }
    Annotated { image: img, width, height, annotations }
}

} // verus!
