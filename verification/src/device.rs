//! Devices: the compute contexts the engine runs on.
use crate::call::Call;
use crate::Error;
use vstd::prelude::*;

verus! {

/// Let the engine pick the fastest device it has.
pub const DEVICE_TYPE_DEFAULT: u32 = 0;

pub const DEVICE_TYPE_CPU: u32 = 1;

pub const DEVICE_TYPE_SYCL: u32 = 2;

pub const DEVICE_TYPE_CUDA: u32 = 3;

pub const DEVICE_TYPE_HIP: u32 = 4;

pub const DEVICE_TYPE_METAL: u32 = 5;

/// The call that asks the engine for a device of the given type.
pub fn get_handle(device_type: u32) -> (call: Call)
    ensures
        call == (Call::NewDevice { device_type }),
{
    Call::NewDevice { device_type }
}

/// A committed device. Its handle is never null, and it doubles as the
/// device's identity: buffers remember the handle of the device that made
/// them, and a filter accepts only buffers that carry its own device's.
///
/// The functions named after a kind of device return the call that asks for
/// one. The handle the engine answers with goes to [`Device::create`], or to
/// [`Device::try_create`] where the kind may be missing on this machine.
pub struct Device {
    handle: usize,
}

impl Device {
    #[verifier::type_invariant]
    spec fn inv(self) -> bool {
        self.handle != 0
    }

    pub closed spec fn spec_raw(&self) -> usize {
        self.handle
    }

    /// Asks for the fastest device available.
    pub fn new() -> (call: Call)
        ensures
            call == (Call::NewDevice { device_type: DEVICE_TYPE_DEFAULT }),
    {
        get_handle(DEVICE_TYPE_DEFAULT)
    }

    /// Asks for the CPU.
    pub fn cpu() -> (call: Call)
        ensures
            call == (Call::NewDevice { device_type: DEVICE_TYPE_CPU }),
    {
        get_handle(DEVICE_TYPE_CPU)
    }

    /// Asks for a SYCL device, which may be missing.
    pub fn sycl() -> (call: Call)
        ensures
            call == (Call::NewDevice { device_type: DEVICE_TYPE_SYCL }),
    {
        get_handle(DEVICE_TYPE_SYCL)
    }

    /// Asks for a CUDA device, which may be missing.
    pub fn cuda() -> (call: Call)
        ensures
            call == (Call::NewDevice { device_type: DEVICE_TYPE_CUDA }),
    {
        get_handle(DEVICE_TYPE_CUDA)
    }

    /// Asks for a HIP device, which may be missing.
    pub fn hip() -> (call: Call)
        ensures
            call == (Call::NewDevice { device_type: DEVICE_TYPE_HIP }),
    {
        get_handle(DEVICE_TYPE_HIP)
    }

    /// Asks for a Metal device, which may be missing.
    pub fn metal() -> (call: Call)
        ensures
            call == (Call::NewDevice { device_type: DEVICE_TYPE_METAL }),
    {
        get_handle(DEVICE_TYPE_METAL)
    }

    /// Takes the handle the engine answered with for a kind of device that
    /// is always there. The device must be committed with the call returned
    /// before anything else is done with it.
    pub fn create(handle: usize) -> (created: (Device, Call))
        requires
            handle != 0,
        ensures
            created.0.raw() == handle,
            created.1 == (Call::CommitDevice { device: handle }),
    {
        (Device { handle }, Call::CommitDevice { device: handle })
    }

    /// Takes the handle the engine answered with for a kind of device that
    /// may be missing: `None` for the null handle, and nothing is to be done
    /// then. Else the device, and the call that commits it.
    pub fn try_create(handle: usize) -> (created: Option<(Device, Call)>)
        ensures
            handle == 0 <==> created is None,
            created matches Some((device, commit)) ==> device.raw() == handle && commit == (
            Call::CommitDevice { device: handle }),
    {
        if handle != 0 {
            Some((Device { handle }, Call::CommitDevice { device: handle }))
        } else {
            None
        }
    }

    /// Wraps a device that was created and committed elsewhere. The caller
    /// vouches for the handle.
    pub fn from_raw(device: usize) -> (wrapped: Device)
        requires
            device != 0,
        ensures
            wrapped.raw() == device,
    {
        Device { handle: device }
    }

    /// The device's handle. It must not be released behind the device's
    /// back.
    #[verifier::when_used_as_spec(spec_raw)]
    pub fn raw(&self) -> (handle: usize)
        ensures
            handle == self.raw(),
            handle != 0,
    {
        proof {
            use_type_invariant(self);
        }
        self.handle
    }

    /// The call that asks the engine for the error it recorded last on this
    /// device. The engine does not report a failure where it happens: this
    /// has to be asked after every execution.
    pub fn poll_error(&self) -> (call: Call)
        ensures
            call == (Call::GetDeviceError { device: self.raw() }),
    {
        Call::GetDeviceError { device: self.handle }
    }

    /// Reads the engine's answer to [`Device::poll_error`]: `Ok` for code 0,
    /// else the error kind with the engine's message. The code must be one
    /// that stands for an error kind ([`Error::try_from_primitive`] tells).
    pub fn get_error(&self, code: u32, message: String) -> (result: Result<(), (Error, String)>)
        requires
            Error::from_code(code) is Some,
        ensures
            code == 0 <==> result is Ok,
            result matches Err((error, text)) ==> Some(error) == Error::from_code(code) && text
                == message,
    {
        match Error::try_from_primitive(code).unwrap() {
            Error::NoError => Ok(()),
            error => Err((error, message)),
        }
    }

    /// Gives the device up. The call takes back the reference that its
    /// creation made.
    pub fn release(self) -> (call: Call)
        ensures
            call == (Call::ReleaseDevice { device: self.raw() }),
    {
        Call::ReleaseDevice { device: self.handle }
    }
}

} // verus!
