//! The engine calls that the binding asks for.
use vstd::prelude::*;

verus! {

/// The pixel format of every image: three floats per pixel.
pub const FORMAT_FLOAT3: u32 = 3;

/// The size of one float in bytes.
pub const FLOAT_BYTES: usize = 4;

/// The image slots of a filter.
#[derive(Debug, Copy, Clone, Hash, PartialEq, Eq, Structural)]
pub enum Image {
    Albedo,
    Normal,
    Color,
    Output,
}

impl Image {
    pub open spec fn spec_name(self) -> Seq<char> {
        match self {
            Image::Albedo => "albedo"@,
            Image::Normal => "normal"@,
            Image::Color => "color"@,
            Image::Output => "output"@,
        }
    }

    /// The name the engine knows the slot by.
    pub fn name(&self) -> (name: &'static str)
        ensures
            name@ == self.spec_name(),
    {
        match self {
            Image::Albedo => "albedo",
            Image::Normal => "normal",
            Image::Color => "color",
            Image::Output => "output",
        }
    }
}

/// The scalar parameters of a filter.
#[derive(Debug, Copy, Clone, Hash, PartialEq, Eq, Structural)]
pub enum Parameter {
    Hdr,
    Srgb,
    CleanAux,
    InputScale,
    Quality,
}

impl Parameter {
    pub open spec fn spec_name(self) -> Seq<char> {
        match self {
            Parameter::Hdr => "hdr"@,
            Parameter::Srgb => "srgb"@,
            Parameter::CleanAux => "clean_aux"@,
            Parameter::InputScale => "inputScale"@,
            Parameter::Quality => "quality"@,
        }
    }

    /// The name the engine knows the parameter by.
    pub fn name(&self) -> (name: &'static str)
        ensures
            name@ == self.spec_name(),
    {
        match self {
            Parameter::Hdr => "hdr",
            Parameter::Srgb => "srgb",
            Parameter::CleanAux => "clean_aux",
            Parameter::InputScale => "inputScale",
            Parameter::Quality => "quality",
        }
    }
}

/// One call into the engine, with its arguments. Handles are addresses; a
/// call that creates something is answered with the new handle, or with 0.
#[derive(Debug, Copy, Clone, Hash, PartialEq, Eq)]
pub enum Call {
    /// Create a device of the given type. Answered with its handle.
    NewDevice { device_type: u32 },
    /// Activate a device after its creation.
    CommitDevice { device: usize },
    /// Add one to the device's reference count.
    RetainDevice { device: usize },
    /// Take one from the device's reference count.
    ReleaseDevice { device: usize },
    /// Ask for the error the device recorded last. Answered with a code
    /// and a message.
    GetDeviceError { device: usize },
    /// Allocate engine memory. Answered with the buffer's handle.
    NewBuffer { device: usize, byte_size: usize },
    /// Ask for the size of a buffer. Answered with its size in bytes.
    GetBufferSize { buffer: usize },
    /// Copy the caller's floats into the buffer.
    WriteBuffer { buffer: usize, byte_offset: usize, byte_size: usize },
    /// Copy the buffer's floats out to the caller.
    ReadBuffer { buffer: usize, byte_offset: usize, byte_size: usize },
    /// Free the buffer.
    ReleaseBuffer { buffer: usize },
    /// Create a filter of the type [`crate::RayTracing::kind_name`]. Answered
    /// with its handle.
    NewFilter { device: usize },
    /// Put a buffer into one of the filter's image slots.
    SetFilterImage {
        filter: usize,
        image: Image,
        buffer: usize,
        format: u32,
        width: usize,
        height: usize,
        byte_offset: usize,
        pixel_stride: usize,
        row_stride: usize,
    },
    /// Empty one of the filter's image slots.
    UnsetFilterImage { filter: usize, image: Image },
    /// Set a boolean parameter.
    SetFilterBool { filter: usize, parameter: Parameter, value: bool },
    /// Set a float parameter, given by its bit pattern.
    SetFilterFloat { filter: usize, parameter: Parameter, bits: u32 },
    /// Set an integer parameter.
    SetFilterInt { filter: usize, parameter: Parameter, number: i32 },
    /// Finish the filter's configuration.
    CommitFilter { filter: usize },
    /// Run the filter.
    ExecuteFilter { filter: usize },
    /// Destroy the filter.
    ReleaseFilter { filter: usize },
}

/// The number of bytes that `len` floats take.
pub open spec fn byte_size(len: int) -> int {
    FLOAT_BYTES * len
}

/// The call that puts a whole image of `width` by `height` pixels, held in
/// `buffer` from its first byte on and without padding, into a slot.
pub open spec fn image_call(
    filter: usize,
    image: Image,
    buffer: usize,
    width: usize,
    height: usize,
) -> Call {
    Call::SetFilterImage {
        filter,
        image,
        buffer,
        format: FORMAT_FLOAT3,
        width,
        height,
        byte_offset: 0,
        pixel_stride: 0,
        row_stride: 0,
    }
}

} // verus!
