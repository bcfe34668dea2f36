//! The ray tracing denoising filter.
use crate::buffer::Buffer;
use crate::call::{byte_size, image_call, Call, Image, Parameter, FLOAT_BYTES, FORMAT_FLOAT3};
use crate::device::Device;
use crate::{Error, Quality};
use vstd::prelude::*;

verus! {
/// The bit pattern of the input scale that leaves the choice to the engine:
/// a NaN.
pub const INPUT_SCALE_AUTO: u32 = 0x7fc0_0000;

/// An auxiliary image as a filter holds it: the buffer, its size in floats,
/// and whether the filter allocated the buffer itself and so has to free it.
pub struct Staged {
    pub buffer: usize,
    pub size: usize,
    pub owned: bool,
}

/// What the engine answered when asked for memory for `len` floats.
#[derive(Debug, Copy, Clone, PartialEq, Eq)]
pub struct Allocation {
    pub handle: usize,
    pub len: usize,
}

/// How an auxiliary image given as floats gets into the filter.
#[derive(Debug, Copy, Clone, PartialEq, Eq)]
pub enum Staging {
    /// The buffer staged already has the right size: this call overwrites
    /// it, and nothing else is to be done.
    Overwrite(Call),
    /// A buffer has to be allocated with this call. The handle the engine
    /// answers with goes to [`RayTracing::adopt_albedo`] or
    /// [`RayTracing::adopt_normal`].
    Allocate(Call),
}

/// A filter as contracts see it.
pub struct RayTracingView {
    pub handle: usize,
    pub device: usize,
    pub albedo: Option<Staged>,
    pub normal: Option<Staged>,
    pub hdr: bool,
    pub input_scale: u32,
    pub srgb: bool,
    pub clean_aux: bool,
    pub width: usize,
    pub height: usize,
    pub quality: Quality,
}

/// The auxiliary image that stays staged when images have `pixels` floats.
pub open spec fn kept(staged: Option<Staged>, pixels: int) -> Option<Staged> {
    match staged {
        Some(aux) if aux.size == pixels => staged,
        _ => None,
    }
}

/// Whether an auxiliary image is staged that does not have `pixels` floats.
pub open spec fn misfit(staged: Option<Staged>, pixels: int) -> bool {
    staged matches Some(aux) && aux.size != pixels
}

/// The calls that dispose of an auxiliary image that leaves the filter:
/// what the filter allocated is freed, what the caller lent is left alone.
pub open spec fn disposal(staged: Option<Staged>, device: usize) -> Seq<Call> {
    match staged {
        Some(aux) if aux.owned => Buffer::release_calls(aux.buffer, device),
        _ => Seq::empty(),
    }
}

/// The call that writes `len` floats over a whole buffer.
pub open spec fn overwrite(buffer: usize, len: usize) -> Call {
    Call::WriteBuffer { buffer, byte_offset: 0, byte_size: byte_size(len as int) as usize }
}

/// The call that asks for memory for `len` floats.
pub open spec fn request(device: usize, len: usize) -> Call {
    Call::NewBuffer { device, byte_size: byte_size(len as int) as usize }
}

/// How `len` floats get into a slot that holds `staged`: over the buffer
/// that is there if it has that size, else into a new one.
pub open spec fn staging(staged: Option<Staged>, device: usize, len: usize) -> Staging {
    match staged {
        Some(aux) if aux.size == len => Staging::Overwrite(overwrite(aux.buffer, len)),
        _ => Staging::Allocate(request(device, len)),
    }
}

/// An auxiliary image in a buffer that the filter allocated.
pub open spec fn allocated(allocation: Allocation) -> Staged {
    Staged { buffer: allocation.handle, size: allocation.len, owned: true }
}

/// An auxiliary image in a buffer of the caller's.
pub open spec fn lent(buffer: &Buffer) -> Staged {
    Staged { buffer: buffer.raw(), size: buffer.size(), owned: false }
}

/// The calls that make a buffer of a fresh allocation: keep the device for
/// it and fill it.
pub open spec fn adoption(allocation: Allocation, device: usize) -> Seq<Call> {
    seq![Call::RetainDevice { device }, overwrite(allocation.handle, allocation.len)]
}

/// The call that gives back an allocation that will not be used, if there
/// is one.
pub open spec fn refusal(allocation: Option<Allocation>) -> Seq<Call> {
    match allocation {
        Some(a) if a.handle != 0 => seq![Call::ReleaseBuffer { buffer: a.handle }],
        _ => Seq::empty(),
    }
}

impl RayTracingView {
    /// The number of floats in an image of the configured dimensions.
    pub open spec fn pixels(self) -> int {
        3 * self.width * self.height
    }

    /// The checks made before an execution, in their order: the staged
    /// albedo fits; with an albedo staged, the staged normal fits; the input
    /// belongs to the filter's device; the output does; the input fits; the
    /// output does. A normal staged without an albedo is not looked at: it
    /// is never sent.
    pub open spec fn check(
        self,
        input_device: usize,
        input_size: usize,
        output_device: usize,
        output_size: usize,
    ) -> Result<(), Error> {
        if misfit(self.albedo, self.pixels()) {
            Err(Error::InvalidImageDimensions)
        } else if self.albedo is Some && misfit(self.normal, self.pixels()) {
            Err(Error::InvalidImageDimensions)
        } else if input_device != self.device {
            Err(Error::InvalidArgument)
        } else if output_device != self.device {
            Err(Error::InvalidArgument)
        } else if input_size != self.pixels() {
            Err(Error::InvalidImageDimensions)
        } else if output_size != self.pixels() {
            Err(Error::InvalidImageDimensions)
        } else {
            Ok(())
        }
    }

    /// The calls that settle the two auxiliary slots, the albedo's first:
    /// the albedo is put in if one is staged, and the normal only together
    /// with it. A slot that gets no image is emptied, so that the engine
    /// does not go on with an image that an earlier execution put there.
    pub open spec fn auxiliary(self) -> Seq<Call> {
        match self.albedo {
            None => seq![
                Call::UnsetFilterImage { filter: self.handle, image: Image::Albedo },
                Call::UnsetFilterImage { filter: self.handle, image: Image::Normal },
            ],
            Some(albedo) => seq![
                image_call(self.handle, Image::Albedo, albedo.buffer, self.width, self.height),
                match self.normal {
                    None => Call::UnsetFilterImage { filter: self.handle, image: Image::Normal },
                    Some(normal) => image_call(
                        self.handle,
                        Image::Normal,
                        normal.buffer,
                        self.width,
                        self.height,
                    ),
                },
            ],
        }
    }

    /// The calls of one execution that reads its input from the buffer
    /// `input` and leaves its result in the buffer `output`: every image
    /// slot is settled and every parameter set, then the filter is committed
    /// and run.
    pub open spec fn run(self, input: usize, output: usize) -> Seq<Call> {
        self.auxiliary() + seq![
            image_call(self.handle, Image::Color, input, self.width, self.height),
            image_call(self.handle, Image::Output, output, self.width, self.height),
            Call::SetFilterBool { filter: self.handle, parameter: Parameter::Hdr, value: self.hdr },
            Call::SetFilterBool {
                filter: self.handle,
                parameter: Parameter::Srgb,
                value: self.srgb,
            },
            Call::SetFilterBool {
                filter: self.handle,
                parameter: Parameter::CleanAux,
                value: self.clean_aux,
            },
            Call::SetFilterFloat {
                filter: self.handle,
                parameter: Parameter::InputScale,
                bits: self.input_scale,
            },
            Call::SetFilterInt {
                filter: self.handle,
                parameter: Parameter::Quality,
                number: self.quality.raw() as i32,
            },
            Call::CommitFilter { filter: self.handle },
            Call::ExecuteFilter { filter: self.handle },
        ]
    }

    /// An execution on two buffers, where the input may be the output's
    /// buffer itself: the error of the first check that fails, else the
    /// calls that run the filter.
    pub open spec fn execution(self, input: &Buffer, output: &Buffer) -> Result<Seq<Call>, Error> {
        match self.check(input.device(), input.size(), output.device(), output.size()) {
            Err(error) => Err(error),
            Ok(_) => Ok(self.run(input.raw(), output.raw())),
        }
    }

    /// The start of an execution on floats of the caller's, which are the
    /// filter's own device's to hold: the error of the first check that
    /// fails, else the requests for the memory that will hold them.
    /// `input_len` is `None` where the output's floats are the input too.
    pub open spec fn allotment(self, input_len: Option<usize>, output_len: usize) -> Result<
        Seq<Call>,
        Error,
    > {
        let source_len = match input_len {
            Some(len) => len,
            None => output_len,
        };
        match self.check(self.device, source_len, self.device, output_len) {
            Err(error) => Err(error),
            Ok(_) => Ok(
                (match input_len {
                    Some(len) => seq![request(self.device, len)],
                    None => Seq::empty(),
                }) + seq![request(self.device, output_len)],
            ),
        }
    }

    /// The filter after its dimensions are set: auxiliary images that do not
    /// have the new size are gone.
    pub open spec fn resized(self, width: usize, height: usize) -> RayTracingView {
        RayTracingView {
            albedo: kept(self.albedo, 3 * width * height),
            normal: kept(self.normal, 3 * width * height),
            width,
            height,
            ..self
        }
    }

    /// The calls that dispose of what a change of dimensions removes.
    pub open spec fn evictions(self, width: usize, height: usize) -> Seq<Call> {
        let pixels = 3 * width * height;
        (if kept(self.albedo, pixels) is None {
            disposal(self.albedo, self.device)
        } else {
            Seq::empty()
        }) + (if kept(self.normal, pixels) is None {
            disposal(self.normal, self.device)
        } else {
            Seq::empty()
        })
    }

    /// An execution on floats of the caller's, once the engine has answered
    /// the requests for memory: its outcome, and the calls to make. `input`
    /// is `None` where the output's buffer holds the input too.
    ///
    /// The checks come first. Where they fail, or where the engine had no
    /// memory, the allocations are handed back and nothing else happens.
    /// Else the buffers are filled, the filter runs, the result is copied
    /// out, and the buffers are freed.
    pub open spec fn transient(self, input: Option<Allocation>, output: Allocation) -> (
        Result<(), Error>,
        Seq<Call>,
    ) {
        let source = match input {
            Some(allocation) => allocation,
            None => output,
        };
        let checked = self.check(self.device, source.len, self.device, output.len);
        if checked is Err {
            (checked, refusal(input) + refusal(Some(output)))
        } else if source.handle == 0 || output.handle == 0 {
            (Err(Error::OutOfMemory), refusal(input) + refusal(Some(output)))
        } else {
            (
                Ok(()),
                (match input {
                    Some(allocation) => adoption(allocation, self.device),
                    None => Seq::empty(),
                }) + adoption(output, self.device) + self.run(source.handle, output.handle) + seq![
                    Call::ReadBuffer {
                        buffer: output.handle,
                        byte_offset: 0,
                        byte_size: byte_size(output.len as int) as usize,
                    },
                ] + Buffer::release_calls(output.handle, self.device) + (match input {
                    Some(allocation) => Buffer::release_calls(allocation.handle, self.device),
                    None => Seq::empty(),
                }),
            )
        }
    }

    /// The calls that destroy the filter: the filter itself, its hold on the
    /// device, and the auxiliary images it allocated.
    pub open spec fn teardown(self) -> Seq<Call> {
        seq![
            Call::ReleaseFilter { filter: self.handle },
            Call::ReleaseDevice { device: self.device },
        ] + disposal(self.albedo, self.device) + disposal(self.normal, self.device)
    }
}

/// An auxiliary image held by a filter: allocated by the filter, or lent by
/// the caller for as long as the filter lives.
enum Aux<'a> {
    Owned(Buffer),
    Borrowed(&'a Buffer),
}

impl<'a> Aux<'a> {
    spec fn spec_buffer(&self) -> &Buffer {
        match self {
            Aux::Owned(buffer) => buffer,
            Aux::Borrowed(buffer) => buffer,
        }
    }

    spec fn staged(&self) -> Staged {
        Staged {
            buffer: self.spec_buffer().raw(),
            size: self.spec_buffer().size(),
            owned: self is Owned,
        }
    }

    fn buffer(&self) -> (buffer: &Buffer)
        ensures
            buffer == self.spec_buffer(),
    {
        match self {
            Aux::Owned(buffer) => buffer,
            Aux::Borrowed(buffer) => buffer,
        }
    }
}

spec fn staged_view<'a>(slot: Option<Aux<'a>>) -> Option<Staged> {
    match slot {
        Some(aux) => Some(aux.staged()),
        None => None,
    }
}

spec fn made_by<'a>(slot: Option<Aux<'a>>, device: usize) -> bool {
    slot matches Some(aux) ==> aux.spec_buffer().device() == device
}

/// Adds to `calls` what disposes of the image in `slot`.
fn dispose<'a>(slot: &Option<Aux<'a>>, device: usize, calls: &mut Vec<Call>)
    requires
        made_by(*slot, device),
    ensures
        final(calls)@ == old(calls)@ + disposal(staged_view(*slot), device),
{
    if let Some(Aux::Owned(buffer)) = slot {
        calls.push(Call::ReleaseBuffer { buffer: buffer.raw() });
        calls.push(Call::ReleaseDevice { device });
    }
}

/// Whether `count` stands for `pixels`: it holds that number, or it is
/// `None` and the number is more than a `usize` holds.
spec fn counts(count: Option<usize>, pixels: int) -> bool {
    match count {
        Some(number) => number == pixels,
        None => pixels > usize::MAX,
    }
}

/// The number of floats in an image of `width` by `height` pixels, where a
/// `usize` holds it.
fn count(width: usize, height: usize) -> (count: Option<usize>)
    ensures
        counts(count, 3 * width * height),
{
    assert(3 * (width * height) == 3 * width * height && width * height <= 3 * (width * height))
        by (nonlinear_arith);
    match width.checked_mul(height) {
        Some(area) => area.checked_mul(3),
        None => None,
    }
}

/// Whether `size` is the number that `count` holds.
fn holds(count: Option<usize>, size: usize) -> (holds: bool)
    ensures
        holds == (count == Some(size)),
{
    match count {
        Some(number) => number == size,
        None => false,
    }
}

/// Whether an image is in `slot` whose size is the number that `count`
/// holds.
fn fits<'a>(slot: &Option<Aux<'a>>, count: Option<usize>) -> (fits: bool)
    ensures
        fits == (staged_view(*slot) matches Some(aux) && count == Some(aux.size)),
{
    match slot {
        Some(aux) => holds(count, aux.buffer().size()),
        None => false,
    }
}

impl Device {
    /// The call that asks the engine for a ray tracing filter on this
    /// device. The handle it answers with goes to [`RayTracing::new`].
    pub fn new_filter(&self) -> (call: Call)
        ensures
            call == (Call::NewFilter { device: self.raw() }),
    {
        Call::NewFilter { device: self.raw() }
    }
}

/// A denoising filter for images rendered with Monte Carlo ray tracing.
///
/// It is bound to one device, which it keeps alive, and can be configured
/// and run any number of times. Its handle is never null, the number of
/// floats per image that it expects is three times width times height
/// (dimensions for which no `usize` holds that number fit no image), and
/// every auxiliary image it holds was made by its own device.
pub struct RayTracing<'a> {
    handle: usize,
    device: &'a Device,
    albedo: Option<Aux<'a>>,
    normal: Option<Aux<'a>>,
    hdr: bool,
    input_scale: u32,
    srgb: bool,
    clean_aux: bool,
    img_dims: (usize, usize, Option<usize>),
    filter_quality: Quality,
}

impl<'a> View for RayTracing<'a> {
    type V = RayTracingView;

    closed spec fn view(&self) -> RayTracingView {
        RayTracingView {
            handle: self.handle,
            device: self.device.raw(),
            albedo: staged_view(self.albedo),
            normal: staged_view(self.normal),
            hdr: self.hdr,
            input_scale: self.input_scale,
            srgb: self.srgb,
            clean_aux: self.clean_aux,
            width: self.img_dims.0,
            height: self.img_dims.1,
            quality: self.filter_quality,
        }
    }
}

impl<'a> RayTracing<'a> {
    #[verifier::type_invariant]
    spec fn inv(self) -> bool {
        &&& self.handle != 0
        &&& counts(self.img_dims.2, 3 * self.img_dims.0 * self.img_dims.1)
        &&& made_by(self.albedo, self.device.raw())
        &&& made_by(self.normal, self.device.raw())
    }

    /// The name the engine knows this kind of filter by.
    pub fn kind_name() -> (name: &'static str)
        ensures
            name@ == "RT"@,
    {
        "RT"
    }

    /// Makes a filter on `device` from the handle the engine answered with.
    /// The null handle means that the engine had no memory. Else the
    /// filter, with nothing staged, every flag off, the input scale left to
    /// the engine, the default quality and no dimensions yet; and the call
    /// that keeps the device for it.
    pub fn new(device: &'a Device, handle: usize) -> (made: Result<(RayTracing<'a>, Call), Error>)
        ensures
            handle == 0 ==> made == Err::<(RayTracing<'a>, Call), Error>(Error::OutOfMemory),
            handle != 0 ==> made is Ok,
            made matches Ok((filter, retain)) ==> {
                &&& filter@ == (RayTracingView {
                    handle,
                    device: device.raw(),
                    albedo: None,
                    normal: None,
                    hdr: false,
                    input_scale: INPUT_SCALE_AUTO,
                    srgb: false,
                    clean_aux: false,
                    width: 0,
                    height: 0,
                    quality: Quality::Default,
                })
                &&& retain == (Call::RetainDevice { device: device.raw() })
            },
    {
        if handle == 0 {
            return Err(Error::OutOfMemory);
        }
        let filter = RayTracing {
            handle,
            device,
            albedo: None,
            normal: None,
            hdr: false,
            input_scale: INPUT_SCALE_AUTO,
            srgb: false,
            clean_aux: false,
            img_dims: (0, 0, Some(0)),
            filter_quality: Quality::Default,
        };
        Ok((filter, Call::RetainDevice { device: device.raw() }))
    }

    /// Sets the quality of the output.
    ///
    /// Balanced lowers the precision where the device can; it is meant for
    /// real-time use.
    pub fn filter_quality(&mut self, quality: Quality) -> (same: &mut RayTracing<'a>)
        ensures
            same@ == (RayTracingView { quality, ..old(self)@ }),
            *final(self) == *final(same),
    {
        proof {
            use_type_invariant(&*self);
        }
        self.filter_quality = quality;
        self
    }

    /// Sets whether the color image is HDR.
    pub fn hdr(&mut self, hdr: bool) -> (same: &mut RayTracing<'a>)
        ensures
            same@ == (RayTracingView { hdr, ..old(self)@ }),
            *final(self) == *final(same),
    {
        proof {
            use_type_invariant(&*self);
        }
        self.hdr = hdr;
        self
    }

    /// The older name of [`RayTracing::input_scale`].
    pub fn hdr_scale(&mut self, hdr_scale: u32) -> (same: &mut RayTracing<'a>)
        ensures
            same@ == (RayTracingView { input_scale: hdr_scale, ..old(self)@ }),
            *final(self) == *final(same),
    {
        proof {
            use_type_invariant(&*self);
        }
        self.input_scale = hdr_scale;
        self
    }

    /// Sets the scale that is applied to input values before filtering,
    /// given by the bit pattern of the float. [`INPUT_SCALE_AUTO`] leaves it
    /// to the engine.
    pub fn input_scale(&mut self, input_scale: u32) -> (same: &mut RayTracing<'a>)
        ensures
            same@ == (RayTracingView { input_scale, ..old(self)@ }),
            *final(self) == *final(same),
    {
        proof {
            use_type_invariant(&*self);
        }
        self.input_scale = input_scale;
        self
    }

    /// Sets whether the color image is encoded with the sRGB curve rather
    /// than linear. The output is encoded alike.
    pub fn srgb(&mut self, srgb: bool) -> (same: &mut RayTracing<'a>)
        ensures
            same@ == (RayTracingView { srgb, ..old(self)@ }),
            *final(self) == *final(same),
    {
        proof {
            use_type_invariant(&*self);
        }
        self.srgb = srgb;
        self
    }

    /// Sets whether the auxiliary images are free of noise.
    pub fn clean_aux(&mut self, clean_aux: bool) -> (same: &mut RayTracing<'a>)
        ensures
            same@ == (RayTracingView { clean_aux, ..old(self)@ }),
            *final(self) == *final(same),
    {
        proof {
            use_type_invariant(&*self);
        }
        self.clean_aux = clean_aux;
        self
    }

    /// Sets the dimensions of the images. An auxiliary image that does not
    /// have three floats for each of `width` times `height` pixels leaves
    /// the filter, so that no later execution sees it. The calls returned
    /// dispose of what left.
    pub fn image_dimensions(&mut self, width: usize, height: usize) -> (calls: Vec<Call>)
        ensures
            final(self)@ == old(self)@.resized(width, height),
            calls@ == old(self)@.evictions(width, height),
    {
        proof {
            use_type_invariant(&*self);
        }
        let buffer_dims = count(width, height);
        let mut calls = Vec::new();
        let device = self.device.raw();
        if !fits(&self.albedo, buffer_dims) {
            dispose(&self.albedo, device, &mut calls);
            self.albedo = None;
        }
        if !fits(&self.normal, buffer_dims) {
            dispose(&self.normal, device, &mut calls);
            self.normal = None;
        }
        self.img_dims = (width, height, buffer_dims);
        calls
    }

    /// Stages an albedo image given as `len` floats, three per pixel with
    /// values from 0 to 1: how they get into the filter. The filter itself
    /// changes only when a new buffer is adopted.
    pub fn albedo(&self, len: usize) -> (plan: Staging)
        requires
            byte_size(len as int) <= usize::MAX,
        ensures
            plan == staging(self@.albedo, self@.device, len),
    {
        stage(&self.albedo, self.device.raw(), len)
    }

    /// Stages an albedo and a normal image given as floats: how each of them
    /// gets into the filter. The normal holds the shading normal, three
    /// floats per pixel with values from -1 to 1.
    pub fn albedo_normal(&self, albedo_len: usize, normal_len: usize) -> (plan: (Staging, Staging))
        requires
            byte_size(albedo_len as int) <= usize::MAX,
            byte_size(normal_len as int) <= usize::MAX,
        ensures
            plan.0 == staging(self@.albedo, self@.device, albedo_len),
            plan.1 == staging(self@.normal, self@.device, normal_len),
    {
        let device = self.device.raw();
        (stage(&self.albedo, device, albedo_len), stage(&self.normal, device, normal_len))
    }

    /// Takes the engine's answer to the request that [`RayTracing::albedo`]
    /// made. `None` for the null handle: the engine had no memory, and the
    /// filter stays as it is. Else the new buffer is the staged albedo, and
    /// the calls returned fill it and dispose of the one it replaces.
    pub fn adopt_albedo(&mut self, allocation: Allocation) -> (calls: Option<Vec<Call>>)
        requires
            byte_size(allocation.len as int) <= usize::MAX,
        ensures
            allocation.handle == 0 ==> calls is None && final(self)@ == old(self)@,
            allocation.handle != 0 ==> calls is Some && final(self)@ == (RayTracingView {
                albedo: Some(allocated(allocation)),
                ..old(self)@
            }),
            calls matches Some(calls) ==> calls@ == adoption(allocation, old(self)@.device)
                + disposal(old(self)@.albedo, old(self)@.device),
    {
        proof {
            use_type_invariant(&*self);
        }
        match self.device.create_buffer(allocation.handle, allocation.len) {
            None => None,
            Some((buffer, mut calls)) => {
                dispose(&self.albedo, self.device.raw(), &mut calls);
                self.albedo = Some(Aux::Owned(buffer));
                Some(calls)
            },
        }
    }

    /// Takes the engine's answer to the request that
    /// [`RayTracing::albedo_normal`] made for the normal. `None` for the
    /// null handle: the engine had no memory, and the filter stays as it is.
    /// Else the new buffer is the staged normal, and the calls returned fill
    /// it and dispose of the one it replaces.
    pub fn adopt_normal(&mut self, allocation: Allocation) -> (calls: Option<Vec<Call>>)
        requires
            byte_size(allocation.len as int) <= usize::MAX,
        ensures
            allocation.handle == 0 ==> calls is None && final(self)@ == old(self)@,
            allocation.handle != 0 ==> calls is Some && final(self)@ == (RayTracingView {
                normal: Some(allocated(allocation)),
                ..old(self)@
            }),
            calls matches Some(calls) ==> calls@ == adoption(allocation, old(self)@.device)
                + disposal(old(self)@.normal, old(self)@.device),
    {
        proof {
            use_type_invariant(&*self);
        }
        match self.device.create_buffer(allocation.handle, allocation.len) {
            None => None,
            Some((buffer, mut calls)) => {
                dispose(&self.normal, self.device.raw(), &mut calls);
                self.normal = Some(Aux::Owned(buffer));
                Some(calls)
            },
        }
    }

    /// Stages an albedo and a normal image that the caller holds in
    /// buffers. `None` if either buffer was made by another device, and the
    /// filter stays as it is. Else both are staged; they stay the caller's,
    /// and the calls returned dispose of what they replace.
    pub fn albedo_normal_buffer(&mut self, albedo: &'a Buffer, normal: &'a Buffer) -> (calls:
        Option<Vec<Call>>)
        ensures
            albedo.device() != old(self)@.device || normal.device() != old(self)@.device ==> calls
                is None && final(self)@ == old(self)@,
            albedo.device() == old(self)@.device && normal.device() == old(self)@.device ==> calls
                is Some && final(self)@ == (RayTracingView {
                albedo: Some(lent(albedo)),
                normal: Some(lent(normal)),
                ..old(self)@
            }),
            calls matches Some(calls) ==> calls@ == disposal(old(self)@.albedo, old(self)@.device)
                + disposal(old(self)@.normal, old(self)@.device),
    {
        proof {
            use_type_invariant(&*self);
        }
        if !self.device.same_device_as_buf(albedo) || !self.device.same_device_as_buf(normal) {
            return None;
        }
        let mut calls = Vec::new();
        dispose(&self.albedo, self.device.raw(), &mut calls);
        dispose(&self.normal, self.device.raw(), &mut calls);
        self.albedo = Some(Aux::Borrowed(albedo));
        self.normal = Some(Aux::Borrowed(normal));
        Some(calls)
    }

    /// Stages an albedo image that the caller holds in a buffer. `None` if
    /// the buffer was made by another device, and the filter stays as it is.
    /// Else it is staged; it stays the caller's, and the calls returned
    /// dispose of what it replaces.
    pub fn albedo_buffer(&mut self, albedo: &'a Buffer) -> (calls: Option<Vec<Call>>)
        ensures
            albedo.device() != old(self)@.device ==> calls is None && final(self)@ == old(self)@,
            albedo.device() == old(self)@.device ==> calls is Some && final(self)@ == (
            RayTracingView { albedo: Some(lent(albedo)), ..old(self)@ }),
            calls matches Some(calls) ==> calls@ == disposal(old(self)@.albedo, old(self)@.device),
    {
        proof {
            use_type_invariant(&*self);
        }
        if !self.device.same_device_as_buf(albedo) {
            return None;
        }
        let mut calls = Vec::new();
        dispose(&self.albedo, self.device.raw(), &mut calls);
        self.albedo = Some(Aux::Borrowed(albedo));
        Some(calls)
    }

    /// Starts an execution that reads `color_len` floats of the caller's
    /// and leaves its result in `output_len` floats of the caller's. Every
    /// length is checked before the engine is touched: an error comes with
    /// no call at all. Else the calls returned ask for the memory for the
    /// color and for the output, in this order, and the engine's answers go
    /// to [`RayTracing::execute_filter`].
    pub fn filter(&self, color_len: usize, output_len: usize) -> (requests: Result<Vec<Call>, Error>)
        requires
            byte_size(color_len as int) <= usize::MAX,
            byte_size(output_len as int) <= usize::MAX,
        ensures
            requests matches Ok(calls) ==> self@.allotment(Some(color_len), output_len) == Ok::<
                Seq<Call>,
                Error,
            >(calls@),
            requests matches Err(error) ==> self@.allotment(Some(color_len), output_len) == Err::<
                Seq<Call>,
                Error,
            >(error),
    {
        let device = self.device.raw();
        match self.validate(device, color_len, device, output_len) {
            Err(error) => Err(error),
            Ok(_) => {
                let calls = vec![
                    Call::NewBuffer { device, byte_size: FLOAT_BYTES * color_len },
                    Call::NewBuffer { device, byte_size: FLOAT_BYTES * output_len },
                ];
                assert(calls@ =~= self@.allotment(Some(color_len), output_len)->Ok_0);
                Ok(calls)
            },
        }
    }

    /// Runs the filter on the buffer `color` and leaves the result in the
    /// buffer `output`: the error of the first check that fails, and then
    /// nothing is to be done, else the calls that run it. What the engine
    /// makes of them has to be asked with [`Device::poll_error`].
    pub fn filter_buffer(&self, color: &Buffer, output: &mut Buffer) -> (run: Result<
        Vec<Call>,
        Error,
    >)
        ensures
            *final(output) == *old(output),
            run matches Ok(calls) ==> self@.execution(color, old(output)) == Ok::<Seq<Call>, Error>(
                calls@,
            ),
            run matches Err(error) ==> self@.execution(color, old(output)) == Err::<
                Seq<Call>,
                Error,
            >(error),
    {
        self.execute_filter_buffer(Some(color), output)
    }

    /// Starts an execution that reads `len` floats of the caller's and
    /// leaves its result in their place. The length is checked before the
    /// engine is touched: an error comes with no call at all. Else the call
    /// returned asks for the memory, and the engine's answer goes to
    /// [`RayTracing::execute_filter`].
    pub fn filter_in_place(&self, len: usize) -> (requests: Result<Vec<Call>, Error>)
        requires
            byte_size(len as int) <= usize::MAX,
        ensures
            requests matches Ok(calls) ==> self@.allotment(None, len) == Ok::<Seq<Call>, Error>(
                calls@,
            ),
            requests matches Err(error) ==> self@.allotment(None, len) == Err::<Seq<Call>, Error>(
                error,
            ),
    {
        let device = self.device.raw();
        match self.validate(device, len, device, len) {
            Err(error) => Err(error),
            Ok(_) => {
                let calls = vec![Call::NewBuffer { device, byte_size: FLOAT_BYTES * len }];
                assert(calls@ =~= self@.allotment(None, len)->Ok_0);
                Ok(calls)
            },
        }
    }

    /// Runs the filter on the buffer `color` and leaves the result in it:
    /// the error of the first check that fails, and then nothing is to be
    /// done, else the calls that run it.
    pub fn filter_in_place_buffer(&self, color: &mut Buffer) -> (run: Result<Vec<Call>, Error>)
        ensures
            *final(color) == *old(color),
            run matches Ok(calls) ==> self@.execution(old(color), old(color)) == Ok::<
                Seq<Call>,
                Error,
            >(calls@),
            run matches Err(error) ==> self@.execution(old(color), old(color)) == Err::<
                Seq<Call>,
                Error,
            >(error),
    {
        self.execute_filter_buffer(None, color)
    }

    /// Carries out an execution on floats of the caller's, once the engine
    /// has answered the requests that [`RayTracing::filter`] or
    /// [`RayTracing::filter_in_place`] made: the outcome, and the calls to
    /// make whatever it is. `color` is `None` for an execution in place.
    ///
    /// After an error the calls only hand back what the engine allocated.
    /// Else they copy the caller's floats in, run the filter, copy the
    /// result out to the output's floats and free the memory.
    pub fn execute_filter(&self, color: Option<Allocation>, output: Allocation) -> (done: (
        Result<(), Error>,
        Vec<Call>,
    ))
        requires
            byte_size(output.len as int) <= usize::MAX,
            color matches Some(allocation) ==> byte_size(allocation.len as int) <= usize::MAX,
        ensures
            done.0 == self@.transient(color, output).0,
            done.1@ == self@.transient(color, output).1,
    {
        let device = self.device.raw();
        let source = match color {
            Some(allocation) => allocation,
            None => output,
        };
        let mut calls = Vec::new();
        let checked = self.validate(device, source.len, device, output.len);
        if checked.is_err() || source.handle == 0 || output.handle == 0 {
            if let Some(allocation) = color {
                refuse(allocation, &mut calls);
            }
            refuse(output, &mut calls);
            let outcome = if checked.is_err() {
                checked
            } else {
                Err(Error::OutOfMemory)
            };
            return (outcome, calls);
        }
        let color = match color {
            None => None,
            Some(allocation) => {
                let (buffer, mut fill) = self.device.create_buffer(
                    allocation.handle,
                    allocation.len,
                ).unwrap();
                calls.append(&mut fill);
                Some(buffer)
            },
        };
        let (mut out, mut fill) = self.device.create_buffer(output.handle, output.len).unwrap();
        calls.append(&mut fill);
        let mut run = self.execute_filter_buffer(color.as_ref(), &mut out).unwrap();
        calls.append(&mut run);
        calls.push(out.read());
        let mut free = out.release();
        calls.append(&mut free);
        if let Some(buffer) = color {
            let mut free = buffer.release();
            calls.append(&mut free);
        }
        (Ok(()), calls)
    }

    fn validate(
        &self,
        input_device: usize,
        input_size: usize,
        output_device: usize,
        output_size: usize,
    ) -> (checked: Result<(), Error>)
        ensures
            checked == self@.check(input_device, input_size, output_device, output_size),
    {
        proof {
            use_type_invariant(self);
        }
        let pixels = self.img_dims.2;
        if let Some(albedo) = &self.albedo {
            if !holds(pixels, albedo.buffer().size()) {
                return Err(Error::InvalidImageDimensions);
            }
            if let Some(normal) = &self.normal {
                if !holds(pixels, normal.buffer().size()) {
                    return Err(Error::InvalidImageDimensions);
                }
            }
        }
        if input_device != self.device.raw() || output_device != self.device.raw() {
            return Err(Error::InvalidArgument);
        }
        if !holds(pixels, input_size) || !holds(pixels, output_size) {
            return Err(Error::InvalidImageDimensions);
        }
        Ok(())
    }

    fn auxiliary_calls(&self) -> (calls: Vec<Call>)
        ensures
            calls@ == self@.auxiliary(),
    {
        let filter = self.handle;
        let unset_normal = Call::UnsetFilterImage { filter, image: Image::Normal };
        match &self.albedo {
            None => vec![Call::UnsetFilterImage { filter, image: Image::Albedo }, unset_normal],
            // A normal is of use only together with an albedo.
            Some(albedo) => vec![
                self.set_image(Image::Albedo, albedo.buffer().raw()),
                match &self.normal {
                    None => unset_normal,
                    Some(normal) => self.set_image(Image::Normal, normal.buffer().raw()),
                },
            ],
        }
    }

    fn set_image(&self, image: Image, buffer: usize) -> (call: Call)
        ensures
            call == image_call(self@.handle, image, buffer, self@.width, self@.height),
    {
        Call::SetFilterImage {
            filter: self.handle,
            image,
            buffer,
            format: FORMAT_FLOAT3,
            width: self.img_dims.0,
            height: self.img_dims.1,
            byte_offset: 0,
            pixel_stride: 0,
            row_stride: 0,
        }
    }

    fn execute_filter_buffer(&self, color: Option<&Buffer>, output: &mut Buffer) -> (run: Result<
        Vec<Call>,
        Error,
    >)
        ensures
            *final(output) == *old(output),
            run matches Ok(calls) ==> self@.execution(
                match color {
                    Some(buffer) => buffer,
                    None => old(output),
                },
                old(output),
            ) == Ok::<Seq<Call>, Error>(calls@),
            run matches Err(error) ==> self@.execution(
                match color {
                    Some(buffer) => buffer,
                    None => old(output),
                },
                old(output),
            ) == Err::<Seq<Call>, Error>(error),
    {
        let color_buffer: &Buffer = match color {
            Some(buffer) => buffer,
            None => &*output,
        };
        match self.validate(
            color_buffer.device_handle(),
            color_buffer.size(),
            output.device_handle(),
            output.size(),
        ) {
            Err(error) => {
                return Err(error);
            },
            Ok(_) => {},
        }
        let filter = self.handle;
        let mut calls = self.auxiliary_calls();
        let mut rest = vec![
            self.set_image(Image::Color, color_buffer.raw()),
            self.set_image(Image::Output, output.raw()),
            Call::SetFilterBool { filter, parameter: Parameter::Hdr, value: self.hdr },
            Call::SetFilterBool { filter, parameter: Parameter::Srgb, value: self.srgb },
            Call::SetFilterBool { filter, parameter: Parameter::CleanAux, value: self.clean_aux },
            Call::SetFilterFloat { filter, parameter: Parameter::InputScale, bits: self.input_scale },
            Call::SetFilterInt {
                filter,
                parameter: Parameter::Quality,
                number: self.filter_quality.as_raw_oidn_quality() as i32,
            },
            Call::CommitFilter { filter },
            Call::ExecuteFilter { filter },
        ];
        calls.append(&mut rest);
        Ok(calls)
    }

    /// Gives the filter up: the calls that destroy it, let go of its
    /// device, and free the auxiliary images it allocated. What the caller
    /// lent stays the caller's.
    pub fn release(self) -> (calls: Vec<Call>)
        ensures
            calls@ == self@.teardown(),
    {
        proof {
            use_type_invariant(&self);
        }
        let device = self.device.raw();
        let mut calls = vec![
            Call::ReleaseFilter { filter: self.handle },
            Call::ReleaseDevice { device },
        ];
        dispose(&self.albedo, device, &mut calls);
        dispose(&self.normal, device, &mut calls);
        calls
    }
}

/// Adds to `calls` what hands an allocation back, if it is one.
fn refuse(allocation: Allocation, calls: &mut Vec<Call>)
    ensures
        final(calls)@ == old(calls)@ + refusal(Some(allocation)),
{
    if allocation.handle != 0 {
        calls.push(Call::ReleaseBuffer { buffer: allocation.handle });
    }
}

/// How `len` floats get into `slot`.
fn stage<'a>(slot: &Option<Aux<'a>>, device: usize, len: usize) -> (plan: Staging)
    requires
        byte_size(len as int) <= usize::MAX,
    ensures
        plan == staging(staged_view(*slot), device, len),
{
    if fits(slot, Some(len)) {
        match slot {
            Some(aux) => Staging::Overwrite(aux.buffer().write_call()),
            None => Staging::Allocate(Call::NewBuffer { device, byte_size: FLOAT_BYTES * len }),
        }
    } else {
        Staging::Allocate(Call::NewBuffer { device, byte_size: FLOAT_BYTES * len })
    }
}

/// Once the dimensions are set, whatever they are, every auxiliary image
/// that is still staged has their size. An albedo that did not fit is gone,
/// and an execution after that hands no auxiliary image to the engine: the
/// only buffers it names are the input and the output it was given.
pub proof fn resizing_forgets_what_does_not_fit(
    filter: RayTracingView,
    width: usize,
    height: usize,
    input: usize,
    output: usize,
)
    ensures
        filter.resized(width, height).pixels() == 3 * width * height,
        !misfit(filter.resized(width, height).albedo, filter.resized(width, height).pixels()),
        !misfit(filter.resized(width, height).normal, filter.resized(width, height).pixels()),
        misfit(filter.albedo, 3 * width * height) ==> {
            let run = filter.resized(width, height).run(input, output);
            &&& filter.resized(width, height).albedo is None
            &&& forall|i: int|
                0 <= i < run.len() ==> (#[trigger] run[i] matches Call::SetFilterImage {
                    image,
                    buffer,
                    ..
                } ==> image == Image::Color && buffer == input || image == Image::Output && buffer
                    == output)
        },
{
}

/// Every execution settles both auxiliary slots before it commits the
/// filter: a slot whose image it does not send is emptied. So an image that
/// an earlier execution sent and that has left the filter since, or a normal
/// whose albedo has, is not in the engine's filter when it runs.
pub proof fn unsent_images_are_removed(filter: RayTracingView, input: usize, output: usize)
    ensures
        filter.run(input, output).len() == 11,
        filter.run(input, output)[9] == (Call::CommitFilter { filter: filter.handle }),
        filter.run(input, output)[10] == (Call::ExecuteFilter { filter: filter.handle }),
        filter.albedo is None ==> filter.run(input, output)[0] == (Call::UnsetFilterImage {
            filter: filter.handle,
            image: Image::Albedo,
        }),
        filter.albedo is None || filter.normal is None ==> filter.run(input, output)[1] == (
        Call::UnsetFilterImage { filter: filter.handle, image: Image::Normal }),
        filter.albedo matches Some(albedo) ==> filter.run(input, output)[0] == image_call(
            filter.handle,
            Image::Albedo,
            albedo.buffer,
            filter.width,
            filter.height,
        ),
        filter.albedo is Some ==> (filter.normal matches Some(normal) ==> filter.run(
            input,
            output,
        )[1] == image_call(filter.handle, Image::Normal, normal.buffer, filter.width, filter.height)),
{
}

/// A normal image reaches the engine only behind an albedo image: an
/// execution that names a normal has named the staged albedo first.
pub proof fn normal_goes_with_albedo(filter: RayTracingView, input: usize, output: usize)
    ensures
        forall|i: int|
            0 <= i < filter.run(input, output).len() ==> (#[trigger] filter.run(
                input,
                output,
            )[i] matches Call::SetFilterImage { image: Image::Normal, .. } ==> filter.albedo
                matches Some(albedo) && filter.run(input, output)[0] == image_call(
                filter.handle,
                Image::Albedo,
                albedo.buffer,
                filter.width,
                filter.height,
            )),
{
}

/// Floats of the caller's whose number is not three times width times
/// height are rejected as having the wrong dimensions before any memory is
/// asked for, whatever else holds of the filter.
pub proof fn wrong_length_is_rejected(filter: RayTracingView, color_len: usize, output_len: usize)
    requires
        color_len != filter.pixels() || output_len != filter.pixels(),
    ensures
        filter.allotment(Some(color_len), output_len) == Err::<Seq<Call>, Error>(
            Error::InvalidImageDimensions,
        ),
        color_len == output_len ==> filter.allotment(None, output_len) == Err::<Seq<Call>, Error>(
            Error::InvalidImageDimensions,
        ),
{
}

/// Buffers of the filter's own device of which one does not hold three
/// floats for each pixel are rejected as having the wrong dimensions.
pub proof fn wrong_size_is_rejected(filter: RayTracingView, color: &Buffer, output: &Buffer)
    requires
        color.device() == filter.device,
        output.device() == filter.device,
        color.size() != filter.pixels() || output.size() != filter.pixels(),
    ensures
        filter.execution(color, output) == Err::<Seq<Call>, Error>(Error::InvalidImageDimensions),
{
}

/// A buffer that another device made is rejected as an invalid argument,
/// by an execution on two buffers, whichever of the two it is, and by one in
/// place (`color` and `output` are then the same buffer). This is stated
/// where the staged images fit: they are looked at first, and one that does
/// not fit gives its own error.
pub proof fn foreign_buffer_is_rejected(filter: RayTracingView, color: &Buffer, output: &Buffer)
    requires
        !misfit(filter.albedo, filter.pixels()),
        filter.albedo is Some ==> !misfit(filter.normal, filter.pixels()),
        color.device() != filter.device || output.device() != filter.device,
    ensures
        filter.execution(color, output) == Err::<Seq<Call>, Error>(Error::InvalidArgument),
{
}

} // verus!
