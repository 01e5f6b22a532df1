use vstd::prelude::*;

verus! {

/// A decoded image: raw pixel bytes together with the image dimensions.
///
/// The pixel layout is fixed: 4 channels (red, green, blue, alpha), one byte
/// each, in row-major order, so a well-formed image holds exactly
/// `width * height * 4` bytes.
pub struct RgbaImage {
    pub data: Vec<u8>,
    pub width: u32,
    pub height: u32,
}

impl RgbaImage {
    /// A well-formed image holds one 4-byte pixel per cell of the
    /// `width` by `height` grid.
    pub open spec fn wf(self) -> bool {
        self.data@.len() == self.width as int * self.height as int * 4
    }

    pub fn new(data: Vec<u8>, width: u32, height: u32) -> (img: RgbaImage)
        requires
            data@.len() == width as int * height as int * 4,
        ensures
            img.wf(),
            img.data@ == data@,
            img.width == width,
            img.height == height,
    {
        RgbaImage { data, width, height }
    }

    pub fn width(&self) -> (w: u32)
        ensures
            w == self.width,
    {
        self.width
    }

    pub fn height(&self) -> (h: u32)
        ensures
            h == self.height,
    {
        self.height
    }

    /// Hands the pixel bytes to the caller, consuming the image.
    pub fn into_buffer(self) -> (buf: Vec<u8>)
        ensures
            buf@ == self.data@,
    {
        self.data
    }
}

} // verus!
