//! The model's declared input shape and the checks made before inference.
use vstd::prelude::*;

verus! {

/// Why a detection pass stopped; the next pass is unaffected.
#[derive(Clone, Copy, Debug, PartialEq, Eq, Structural)]
pub enum PassError {
    /// The frame is not a decodable image.
    Decode,
    /// The decoded image has no pixels.
    EmptyImage,
    /// The model's input tensor is not `[1, H, W, 3]` with a size that fits memory.
    BadShape,
    /// The image's aspect ratio is too extreme to scale it to the input shape.
    Unscalable,
    /// The prepared pixels do not fill the input tensor exactly.
    SizeMismatch,
}

/// Input dimensions of the model: `height` rows of `width` RGB pixels.
#[derive(Clone, Copy, Debug, PartialEq, Eq, Structural)]
pub struct InputShape {
    pub height: u32,
    pub width: u32,
}

/// Bytes of interleaved 8-bit RGB samples in a `height` x `width` image.
pub open spec fn rgb_len(height: int, width: int) -> int {
    height * width * 3
}

/// Tensor dimensions `[1, H, W, 3]` with `H` and `W` positive, fitting `u32`, and
/// a byte size that fits `usize`.
pub open spec fn valid_dims(dims: Seq<usize>) -> bool {
    &&& dims.len() == 4
    &&& dims[0] == 1
    &&& dims[3] == 3
    &&& 0 < dims[1] <= u32::MAX
    &&& 0 < dims[2] <= u32::MAX
    &&& rgb_len(dims[1] as int, dims[2] as int) <= usize::MAX
}

impl InputShape {
    pub open spec fn wf(self) -> bool {
        &&& self.height > 0
        &&& self.width > 0
        &&& rgb_len(self.height as int, self.width as int) <= usize::MAX
    }

    /// Number of bytes in the input tensor.
    pub open spec fn byte_len(self) -> int {
        rgb_len(self.height as int, self.width as int)
    }

    /// Reads the shape from the model's input tensor dimensions `[1, H, W, 3]`.
    pub fn from_dims(dims: &Vec<usize>) -> (r: Result<InputShape, PassError>)
        ensures
            r is Ok <==> valid_dims(dims@),
            r is Err ==> r == Err::<InputShape, PassError>(PassError::BadShape),
            r matches Ok(s) ==> s.wf() && s.height == dims@[1] && s.width == dims@[2],
    {
        if dims.len() != 4 || dims[0] != 1 || dims[3] != 3 {
            return Err(PassError::BadShape);
        }
        let h = dims[1];
        let w = dims[2];
        if h == 0 || w == 0 || h > u32::MAX as usize || w > u32::MAX as usize {
            return Err(PassError::BadShape);
        }
        let hw = h.checked_mul(w);
        match hw {
            None => {
                proof {
                    assert(h * w * 3 >= h * w) by (nonlinear_arith);
                }
                Err(PassError::BadShape)
            },
            Some(hw) => {
                match hw.checked_mul(3) {
                    None => Err(PassError::BadShape),
                    Some(_) => Ok(InputShape { height: h as u32, width: w as u32 }),
                }
            },
        }
    }

    /// Number of bytes in the input tensor.
    pub fn tensor_len(&self) -> (r: usize)
        requires
            self.wf(),
        ensures
            r == self.byte_len(),
    {
        proof {
            assert(self.height as int * self.width as int <= rgb_len(self.height as int, self.width as int))
                by (nonlinear_arith)
                requires
                    self.width > 0,
            ;
        }
        (self.height as usize) * (self.width as usize) * 3
    }
}

/// Admits prepared pixels for inference only when they fill the model's input
/// tensor exactly: the shape's byte size, which is also the tensor's size.
pub fn check_input(shape: &InputShape, tensor_len: usize, pixels: &Vec<u8>) -> (r: Result<(), PassError>)
    requires
        shape.wf(),
    ensures
        r is Ok <==> (pixels@.len() == shape.byte_len() && tensor_len == shape.byte_len()),
        r is Err ==> r == Err::<(), PassError>(PassError::SizeMismatch),
{
    let n = shape.tensor_len();
    if pixels.len() == n && tensor_len == n {
        Ok(())
    } else {
        Err(PassError::SizeMismatch)
    }
}

} // verus!
