//! Buffers: engine memory that holds pixel data.
use crate::call::{byte_size, Call, FLOAT_BYTES};
use crate::device::Device;
use vstd::prelude::*;

verus! {

/// A region of engine memory that holds a fixed number of floats, made by
/// one device. It keeps that device alive for as long as it exists.
///
/// Its handle and its device's handle are never null, and its size in bytes
/// fits a `usize`.
pub struct Buffer {
    buf: usize,
    size: usize,
    device: usize,
}

impl Device {
    /// The call that asks the engine for memory for `len` floats. The handle
    /// it answers with goes to [`Device::create_buffer`].
    pub fn new_buffer(&self, len: usize) -> (call: Call)
        requires
            byte_size(len as int) <= usize::MAX,
        ensures
            call == (Call::NewBuffer { device: self.raw(), byte_size: byte_size(len as int) as usize }),
    {
        Call::NewBuffer { device: self.raw(), byte_size: FLOAT_BYTES * len }
    }

    /// Makes a buffer of `len` floats from the handle the engine answered
    /// with. `None` for the null handle: the engine had no memory, and
    /// nothing is to be done. Else the buffer, and the calls that keep the
    /// device for it and fill it with the caller's `len` floats.
    pub fn create_buffer(&self, handle: usize, len: usize) -> (created: Option<(Buffer, Vec<Call>)>)
        requires
            byte_size(len as int) <= usize::MAX,
        ensures
            handle == 0 <==> created is None,
            created matches Some((buffer, calls)) ==> {
                &&& buffer.raw() == handle
                &&& buffer.size() == len
                &&& buffer.device() == self.raw()
                &&& calls@ == seq![
                    Call::RetainDevice { device: self.raw() },
                    buffer.writing(),
                ]
            },
    {
        if handle == 0 {
            None
        } else {
            let device = self.raw();
            let buffer = Buffer { buf: handle, size: len, device };
            let calls = vec![Call::RetainDevice { device }, buffer.write_call()];
            Some((buffer, calls))
        }
    }

    /// The call that asks the engine how many bytes a buffer holds that was
    /// allocated elsewhere. The size it answers with goes to
    /// [`Device::create_buffer_from_raw`].
    pub fn buffer_size(&self, buffer: usize) -> (call: Call)
        ensures
            call == (Call::GetBufferSize { buffer }),
    {
        Call::GetBufferSize { buffer }
    }

    /// Wraps a buffer that was allocated elsewhere and holds `bytes` bytes.
    /// The caller vouches that the handle is valid and that the buffer was
    /// made by this device. The call returned keeps the device for it.
    pub fn create_buffer_from_raw(&self, buffer: usize, bytes: usize) -> (wrapped: (Buffer, Call))
        requires
            buffer != 0,
        ensures
            wrapped.0.raw() == buffer,
            wrapped.0.size() == bytes / FLOAT_BYTES,
            wrapped.0.device() == self.raw(),
            wrapped.1 == (Call::RetainDevice { device: self.raw() }),
    {
        let device = self.raw();
        let size = bytes / FLOAT_BYTES;
        (Buffer { buf: buffer, size, device }, Call::RetainDevice { device })
    }

    /// Whether `buf` was made by this device.
    pub fn same_device_as_buf(&self, buf: &Buffer) -> (same: bool)
        ensures
            same == (buf.device() == self.raw()),
    {
        self.raw() == buf.device
    }
}

impl Buffer {
    #[verifier::type_invariant]
    spec fn inv(self) -> bool {
        &&& self.buf != 0
        &&& self.device != 0
        &&& byte_size(self.size as int) <= usize::MAX
    }

    pub closed spec fn spec_raw(&self) -> usize {
        self.buf
    }

    pub closed spec fn spec_size(&self) -> usize {
        self.size
    }

    /// The handle of the device that made the buffer.
    pub closed spec fn device(&self) -> usize {
        self.device
    }

    /// The call that writes the caller's floats over the whole buffer.
    pub open spec fn writing(&self) -> Call {
        Call::WriteBuffer {
            buffer: self.raw(),
            byte_offset: 0,
            byte_size: byte_size(self.size() as int) as usize,
        }
    }

    /// The call that copies the whole buffer out to the caller's floats.
    pub open spec fn reading(&self) -> Call {
        Call::ReadBuffer {
            buffer: self.raw(),
            byte_offset: 0,
            byte_size: byte_size(self.size() as int) as usize,
        }
    }

    pub(crate) fn write_call(&self) -> (call: Call)
        ensures
            call == self.writing(),
    {
        proof {
            use_type_invariant(self);
        }
        Call::WriteBuffer { buffer: self.buf, byte_offset: 0, byte_size: FLOAT_BYTES * self.size }
    }

    pub(crate) fn read_call(&self) -> (call: Call)
        ensures
            call == self.reading(),
    {
        proof {
            use_type_invariant(self);
        }
        Call::ReadBuffer { buffer: self.buf, byte_offset: 0, byte_size: FLOAT_BYTES * self.size }
    }

    /// Overwrites the whole buffer with `len` floats of the caller's: the
    /// call that does it, or `None` if the buffer holds another number of
    /// floats. The buffer itself stays as it is.
    pub fn write(&mut self, len: usize) -> (call: Option<Call>)
        ensures
            *final(self) == *old(self),
            len == old(self).size() ==> call == Some(old(self).writing()),
            len != old(self).size() ==> call is None,
    {
        if self.size != len {
            None
        } else {
            Some(self.write_call())
        }
    }

    /// Copies the whole buffer into `len` floats of the caller's: the call
    /// that does it, or `None` if the buffer holds another number of floats.
    pub fn read_to_slice(&mut self, len: usize) -> (call: Option<Call>)
        ensures
            *final(self) == *old(self),
            len == old(self).size() ==> call == Some(old(self).reading()),
            len != old(self).size() ==> call is None,
    {
        if self.size != len {
            None
        } else {
            Some(self.read_call())
        }
    }

    /// Copies the whole buffer out: the call that does it, into
    /// [`Buffer::size`] floats that the caller provides.
    pub fn read(&mut self) -> (call: Call)
        ensures
            *final(self) == *old(self),
            call == old(self).reading(),
    {
        self.read_call()
    }

    /// The buffer's handle. It must not be released behind the buffer's
    /// back.
    #[verifier::when_used_as_spec(spec_raw)]
    pub fn raw(&self) -> (handle: usize)
        ensures
            handle == self.raw(),
            handle != 0,
    {
        proof {
            use_type_invariant(self);
        }
        self.buf
    }

    pub(crate) fn device_handle(&self) -> (device: usize)
        ensures
            device == self.device(),
    {
        self.device
    }

    /// The number of floats the buffer holds.
    #[verifier::when_used_as_spec(spec_size)]
    pub fn size(&self) -> (size: usize)
        ensures
            size == self.size(),
    {
        self.size
    }

    /// The calls that free a buffer with the given handle and let go of its
    /// device.
    pub open spec fn release_calls(buffer: usize, device: usize) -> Seq<Call> {
        seq![Call::ReleaseBuffer { buffer }, Call::ReleaseDevice { device }]
    }

    /// Gives the buffer up: the calls that free it and let go of its device.
    pub fn release(self) -> (calls: Vec<Call>)
        ensures
            calls@ == Buffer::release_calls(self.raw(), self.device()),
    {
        vec![Call::ReleaseBuffer { buffer: self.buf }, Call::ReleaseDevice { device: self.device }]
    }
}

/// Writing a buffer and reading it move the same bytes of the same buffer:
/// a read asks for exactly what a write of the right length has put in.
pub proof fn write_and_read_move_the_same_bytes(buffer: Buffer)
    ensures
        buffer.writing() matches Call::WriteBuffer { buffer: written, byte_offset, byte_size }
            && written == buffer.raw() && buffer.reading() == (Call::ReadBuffer {
            buffer: written,
            byte_offset,
            byte_size,
        }),
{
}

} // verus!
