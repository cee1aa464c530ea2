//! Images fetched from the native runtime, as plain values.
//!
//! The native image manager hands out dimensions and a linear RGBA byte
//! buffer, four bytes per pixel. The buffer length is what the binding must
//! get right: it allocates `4 * width * height` bytes for the native call to
//! fill, guarding the multiplication, and only a buffer of exactly that
//! length becomes an [`Image`].

use vstd::prelude::*;

verus! {

/// Reference to an image the native runtime manages: the identifier of the
/// user whose avatar it is, and the requested square size in pixels.
#[derive(Clone, Copy, PartialEq, Eq, Structural, Debug)]
pub struct ImageHandle {
    pub id: i64,
    pub size: u32,
}

/// A decoded image: dimensions and linear RGBA data, four bytes per pixel.
#[derive(Clone, PartialEq, Eq, Debug)]
pub struct Image {
    width: u32,
    height: u32,
    data: Vec<u8>,
}

/// The number of bytes an RGBA buffer for the given dimensions must have:
/// `4 * width * height`, or nothing where that exceeds what a buffer length
/// can hold.
pub fn image_data_len(width: u32, height: u32) -> (r: Option<u64>)
    ensures
        r matches Some(n) ==> n == 4 * (width as int) * (height as int),
        r is None <==> 4 * (width as int) * (height as int) > u64::MAX,
{
    proof {
        assert(0 <= (width as int) * (height as int) <= 0xffff_ffff * 0xffff_ffff)
            by (nonlinear_arith)
            requires
                0 <= width <= 0xffff_ffff,
                0 <= height <= 0xffff_ffff,
        ;
        assert(4 * ((width as int) * (height as int)) == 4 * (width as int) * (height as int))
            by (nonlinear_arith);
    }
    let wh: u64 = (width as u64) * (height as u64);
    if wh > u64::MAX / 4 {
        None
    } else {
        Some(4 * wh)
    }
}

impl Image {
    /// The data holds exactly four bytes for each pixel.
    pub closed spec fn wf(self) -> bool {
        self.data@.len() == 4 * (self.width as int) * (self.height as int)
    }

    /// The image's width in pixels.
    pub closed spec fn spec_width(self) -> u32 {
        self.width
    }

    /// The image's height in pixels.
    pub closed spec fn spec_height(self) -> u32 {
        self.height
    }

    /// The image's linear RGBA bytes.
    pub closed spec fn spec_data(self) -> Seq<u8> {
        self.data@
    }

    /// Assembles an image out of what the native calls returned: the
    /// dimensions reported by the image manager and the buffer its data
    /// call filled. Succeeds exactly when the buffer holds four bytes per
    /// pixel.
    pub fn from_native(width: u32, height: u32, data: Vec<u8>) -> (r: Option<Image>)
        ensures
            r is Some <==> data@.len() == 4 * (width as int) * (height as int),
            r matches Some(img) ==> {
                &&& img.wf()
                &&& img.spec_width() == width
                &&& img.spec_height() == height
                &&& img.spec_data() == data@
            },
    {
        match image_data_len(width, height) {
            Some(need) => {
                if data.len() as u64 == need {
                    Some(Image { width, height, data })
                } else {
                    None
                }
            }
            None => {
                let l: usize = data.len();
                proof {
                    assert(l as int <= usize::MAX as int <= u64::MAX as int);
                }
                None
            }
        }
    }

    /// Returns the image's width in pixels.
    pub fn width(&self) -> (r: u32)
        ensures
            r == self.spec_width(),
    {
        self.width
    }

    /// Returns the image's height in pixels.
    pub fn height(&self) -> (r: u32)
        ensures
            r == self.spec_height(),
    {
        self.height
    }

    /// Returns the image's linear RGBA bytes.
    pub fn data(&self) -> (r: &Vec<u8>)
        ensures
            r@ == self.spec_data(),
    {
        &self.data
    }
}

} // verus!
