//! The in-memory picture that every stage of the pipeline works on.

use vstd::prelude::*;

verus! {

/// The mathematical value of a [`PixelBuffer`]: its dimensions and its
/// channel values, row by row, four per pixel.
pub struct Raster {
    pub width: nat,
    pub height: nat,
    pub data: Seq<u8>,
}

impl Raster {
    /// Both dimensions are positive and every pixel has its four channels.
    pub open spec fn well_formed(self) -> bool {
        &&& self.width > 0
        &&& self.height > 0
        &&& self.data.len() == self.width * self.height * 4
    }
}

/// The raster of the given dimensions and channel values.
pub open spec fn raster(width: u32, height: u32, data: Seq<u8>) -> Raster {
    Raster { width: width as nat, height: height as nat, data }
}

/// A rectangular grid of RGBA pixels, eight bits per channel.
#[derive(Debug, PartialEq, Eq)]
pub struct PixelBuffer {
    width: u32,
    height: u32,
    data: Vec<u8>,
}

impl View for PixelBuffer {
    type V = Raster;

    closed spec fn view(&self) -> Raster {
        raster(self.width, self.height, self.data@)
    }
}

impl Clone for PixelBuffer {
    fn clone(&self) -> (out: Self)
        ensures
            out@ == self@,
    {
        proof {
            use_type_invariant(self);
        }
        let data = self.data.clone();
        PixelBuffer { width: self.width, height: self.height, data }
    }
}

impl PixelBuffer {
    #[verifier::type_invariant]
    spec fn inv(&self) -> bool {
        self@.well_formed()
    }

    /// Builds a buffer, or gives `None` when a dimension is zero or `data`
    /// does not hold exactly four channels per pixel.
    pub fn new(width: u32, height: u32, data: Vec<u8>) -> (result: Option<PixelBuffer>)
        ensures
            raster(width, height, data@).well_formed() <==> result is Some,
            result matches Some(buf) ==> buf@ == raster(width, height, data@),
    {
        if width == 0 || height == 0 {
            return None;
        }
        assert(width * height <= 0xFFFF_FFFF * 0xFFFF_FFFF) by (nonlinear_arith)
            requires
                width <= 0xFFFF_FFFF,
                height <= 0xFFFF_FFFF,
        ;
        let pixels: u128 = (width as u128) * (height as u128);
        let expected: u128 = pixels * 4;
        if data.len() as u128 != expected {
            return None;
        }
        Some(PixelBuffer { width, height, data })
    }

    /// The buffer of the same dimensions that holds `data`, or `None` when
    /// `data` has another length than this buffer's channel values.
    pub fn with_data(&self, data: Vec<u8>) -> (result: Option<PixelBuffer>)
        ensures
            data@.len() == self@.data.len() <==> result is Some,
            result matches Some(buf) ==> buf@ == (Raster { data: data@, ..self@ })
                && buf@.well_formed(),
    {
        proof {
            use_type_invariant(self);
        }
        if data.len() != self.data.len() {
            return None;
        }
        Some(PixelBuffer { width: self.width, height: self.height, data })
    }

    /// Width in pixels.
    pub fn width(&self) -> (w: u32)
        ensures
            w == self@.width,
            w > 0,
    {
        proof {
            use_type_invariant(self);
        }
        self.width
    }

    /// Height in pixels.
    pub fn height(&self) -> (h: u32)
        ensures
            h == self@.height,
            h > 0,
    {
        proof {
            use_type_invariant(self);
        }
        self.height
    }

    /// The channel values, row by row.
    pub fn data(&self) -> (bytes: &[u8])
        ensures
            bytes@ == self@.data,
            self@.well_formed(),
    {
        proof {
            use_type_invariant(self);
        }
        self.data.as_slice()
    }
}

} // verus!
