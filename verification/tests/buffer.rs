use oidn::call::Image;
use oidn::{Buffer, Call, Device, Error};
use std::collections::HashMap;

/// A stand-in for the engine: it keeps what the calls put into it, and its
/// filter copies the color image to the output.
struct Engine {
    next: usize,
    devices: HashMap<usize, i64>,
    buffers: HashMap<usize, Vec<f32>>,
    images: HashMap<(usize, Image), (usize, usize, usize)>,
    committed: Vec<usize>,
    executed: usize,
    /// The auxiliary slots that held an image when a filter ran last.
    auxiliary: Vec<Image>,
    error: (u32, String),
    out_of_memory: bool,
    log: Vec<Call>,
}

impl Engine {
    fn new() -> Engine {
        Engine {
            next: 0x1000,
            devices: HashMap::new(),
            buffers: HashMap::new(),
            images: HashMap::new(),
            committed: Vec::new(),
            executed: 0,
            auxiliary: Vec::new(),
            error: (0, String::new()),
            out_of_memory: false,
            log: Vec::new(),
        }
    }

    fn handle(&mut self) -> usize {
        self.next += 0x10;
        self.next
    }

    /// Performs a call that is answered with a number.
    fn ask(&mut self, call: Call) -> usize {
        self.log.push(call);
        match call {
            Call::NewDevice { .. } => {
                let handle = self.handle();
                self.devices.insert(handle, 1);
                handle
            }
            Call::NewBuffer { device, byte_size } => {
                assert!(self.devices.contains_key(&device));
                if self.out_of_memory {
                    return 0;
                }
                let handle = self.handle();
                self.buffers.insert(handle, vec![0.0; byte_size / 4]);
                handle
            }
            Call::NewFilter { device } => {
                assert!(self.devices.contains_key(&device));
                self.handle()
            }
            Call::GetBufferSize { buffer } => self.buffers[&buffer].len() * 4,
            other => panic!("{other:?} has no answer"),
        }
    }

    /// Performs a call that is not answered. `host` finds the caller's
    /// floats that belong to a buffer.
    fn perform(&mut self, call: Call, host: &mut [(usize, &mut [f32])]) {
        self.log.push(call);
        match call {
            Call::CommitDevice { device } => assert!(self.devices.contains_key(&device)),
            Call::RetainDevice { device } => *self.devices.get_mut(&device).unwrap() += 1,
            Call::ReleaseDevice { device } => {
                let count = self.devices.get_mut(&device).unwrap();
                *count -= 1;
                if *count == 0 {
                    self.devices.remove(&device);
                }
            }
            Call::WriteBuffer { buffer, byte_offset, byte_size } => {
                let floats = host.iter().find(|(handle, _)| *handle == buffer).unwrap();
                let memory = self.buffers.get_mut(&buffer).unwrap();
                assert_eq!(byte_offset, 0);
                assert_eq!(byte_size, memory.len() * 4);
                memory.copy_from_slice(&floats.1[..]);
            }
            Call::ReadBuffer { buffer, byte_offset, byte_size } => {
                let floats = host.iter_mut().find(|(handle, _)| *handle == buffer).unwrap();
                let memory = &self.buffers[&buffer];
                assert_eq!(byte_offset, 0);
                assert_eq!(byte_size, memory.len() * 4);
                floats.1.copy_from_slice(memory);
            }
            Call::ReleaseBuffer { buffer } => {
                assert!(self.buffers.remove(&buffer).is_some());
            }
            Call::SetFilterImage { filter, image, buffer, format, width, height, .. } => {
                assert_eq!(format, 3);
                assert!(self.buffers.contains_key(&buffer));
                self.images.insert((filter, image), (buffer, width, height));
            }
            Call::UnsetFilterImage { filter, image } => {
                self.images.remove(&(filter, image));
            }
            Call::SetFilterBool { .. } | Call::SetFilterFloat { .. } | Call::SetFilterInt { .. } => {}
            Call::CommitFilter { filter } => self.committed.push(filter),
            Call::ExecuteFilter { filter } => {
                assert!(self.committed.contains(&filter));
                let (color, width, height) = self.images[&(filter, Image::Color)];
                let (output, _, _) = self.images[&(filter, Image::Output)];
                self.auxiliary = [Image::Albedo, Image::Normal]
                    .into_iter()
                    .filter(|image| self.images.contains_key(&(filter, *image)))
                    .collect();
                for image in &self.auxiliary {
                    let (buffer, _, _) = self.images[&(filter, *image)];
                    assert_eq!(self.buffers[&buffer].len(), 3 * width * height);
                }
                let pixels = self.buffers[&color].clone();
                if pixels.len() != 3 * width * height {
                    self.error = (2, String::from("image size mismatch"));
                    return;
                }
                self.buffers.get_mut(&output).unwrap().copy_from_slice(&pixels);
                self.executed += 1;
            }
            Call::ReleaseFilter { .. } => {}
            other => panic!("{other:?} wants an answer"),
        }
    }

    fn perform_all(&mut self, calls: &[Call], host: &mut [(usize, &mut [f32])]) {
        for call in calls {
            self.perform(*call, host);
        }
    }
}

fn new_device(engine: &mut Engine) -> Device {
    let handle = engine.ask(Device::new());
    let (device, commit) = Device::create(handle);
    engine.perform(commit, &mut []);
    device
}

fn create_buffer(engine: &mut Engine, device: &Device, contents: &[f32]) -> Option<Buffer> {
    let handle = engine.ask(device.new_buffer(contents.len()));
    let (buffer, calls) = device.create_buffer(handle, contents.len())?;
    let mut floats = contents.to_vec();
    engine.perform_all(&calls, &mut [(handle, &mut floats[..])]);
    Some(buffer)
}

fn write(engine: &mut Engine, buffer: &mut Buffer, contents: &[f32]) -> Option<()> {
    let call = buffer.write(contents.len())?;
    let mut floats = contents.to_vec();
    engine.perform(call, &mut [(buffer.raw(), &mut floats[..])]);
    Some(())
}

fn read_to_slice(engine: &mut Engine, buffer: &mut Buffer, contents: &mut [f32]) -> Option<()> {
    let call = buffer.read_to_slice(contents.len())?;
    engine.perform(call, &mut [(buffer.raw(), contents)]);
    Some(())
}

fn read(engine: &mut Engine, buffer: &mut Buffer) -> Vec<f32> {
    let mut contents = vec![0.0; buffer.size()];
    let call = buffer.read();
    engine.perform(call, &mut [(buffer.raw(), &mut contents[..])]);
    contents
}

fn get_error(engine: &mut Engine, device: &Device) -> Result<(), (Error, String)> {
    engine.log.push(device.poll_error());
    let (code, message) = engine.error.clone();
    device.get_error(code, message)
}

#[test]
fn buffer_read_write() {
    let mut engine = Engine::new();
    let device = new_device(&mut engine);
    let mut buffer = match create_buffer(&mut engine, &device, &[0.0]) {
        Some(buffer) => buffer,
        None => {
            println!("Test skipped due to buffer creation failing");
            return;
        }
    };
    write(&mut engine, &mut buffer, &[1.0]).unwrap();
    assert_eq!(read(&mut engine, &mut buffer), vec![1.0]);
    let mut slice = vec![0.0];
    read_to_slice(&mut engine, &mut buffer, &mut slice).unwrap();
    assert_eq!(slice, vec![1.0]);
    if let Err((err, str)) = get_error(&mut engine, &device) {
        panic!("test failed with {err:?}: {str}")
    }
}

#[test]
fn buffer_import_read_write() {
    let mut engine = Engine::new();
    let device = new_device(&mut engine);
    let raw_buffer = engine.ask(Call::NewBuffer {
        device: device.raw(),
        byte_size: std::mem::size_of::<f32>(),
    });
    if raw_buffer == 0 {
        println!("Test skipped due to buffer creation failing");
        return;
    }
    let bytes = engine.ask(device.buffer_size(raw_buffer));
    let (mut buffer, retain) = device.create_buffer_from_raw(raw_buffer, bytes);
    engine.perform(retain, &mut []);
    write(&mut engine, &mut buffer, &[1.0]).unwrap();
    assert_eq!(read(&mut engine, &mut buffer), vec![1.0]);
    let mut slice = vec![0.0];
    read_to_slice(&mut engine, &mut buffer, &mut slice).unwrap();
    assert_eq!(slice, vec![1.0]);
    if let Err((err, str)) = get_error(&mut engine, &device) {
        panic!("test failed with {err:?}: {str}")
    }
}

#[test]
fn what_is_written_is_read_back() {
    let mut engine = Engine::new();
    let device = new_device(&mut engine);
    for n in [0usize, 1, 2, 6, 48, 1000] {
        let zeros = vec![0.0f32; n];
        let mut buffer = create_buffer(&mut engine, &device, &zeros).unwrap();
        let contents: Vec<f32> = (0..n).map(|i| i as f32 * 0.5 - 3.0).collect();
        write(&mut engine, &mut buffer, &contents).unwrap();
        assert_eq!(read(&mut engine, &mut buffer), contents);
        let mut slice = vec![0.0f32; n];
        read_to_slice(&mut engine, &mut buffer, &mut slice).unwrap();
        assert_eq!(slice, contents);
    }
}

#[test]
fn creation_copies_the_contents_in() {
    let mut engine = Engine::new();
    let device = new_device(&mut engine);
    let mut buffer = create_buffer(&mut engine, &device, &[0.25, 0.5, 0.75]).unwrap();
    assert_eq!(read(&mut engine, &mut buffer), vec![0.25, 0.5, 0.75]);
}

#[test]
fn new_buffer_asks_for_four_bytes_a_float() {
    let device = Device::from_raw(0x40);
    assert_eq!(device.new_buffer(6), Call::NewBuffer { device: 0x40, byte_size: 24 });
    assert_eq!(device.new_buffer(0), Call::NewBuffer { device: 0x40, byte_size: 0 });
}

#[test]
fn create_buffer_keeps_the_device_and_fills_the_buffer() {
    let device = Device::from_raw(0x40);
    let (buffer, calls) = device.create_buffer(0x80, 6).unwrap();
    assert_eq!(buffer.raw(), 0x80);
    assert_eq!(buffer.size(), 6);
    assert!(device.same_device_as_buf(&buffer));
    assert_eq!(
        calls,
        vec![
            Call::RetainDevice { device: 0x40 },
            Call::WriteBuffer { buffer: 0x80, byte_offset: 0, byte_size: 24 },
        ]
    );
}

#[test]
fn create_buffer_gives_nothing_for_the_null_handle() {
    let device = Device::from_raw(0x40);
    assert!(device.create_buffer(0, 6).is_none());
}

#[test]
fn create_buffer_fails_when_the_engine_has_no_memory() {
    let mut engine = Engine::new();
    let device = new_device(&mut engine);
    engine.out_of_memory = true;
    assert!(create_buffer(&mut engine, &device, &[0.0]).is_none());
    assert!(engine.buffers.is_empty());
}

#[test]
fn a_wrapped_buffer_holds_a_float_for_every_four_bytes() {
    let device = Device::from_raw(0x40);
    assert_eq!(device.buffer_size(0x80), Call::GetBufferSize { buffer: 0x80 });
    let (buffer, retain) = device.create_buffer_from_raw(0x80, 24);
    assert_eq!(buffer.raw(), 0x80);
    assert_eq!(buffer.size(), 6);
    assert!(device.same_device_as_buf(&buffer));
    assert_eq!(retain, Call::RetainDevice { device: 0x40 });
    let (odd, _) = device.create_buffer_from_raw(0x90, 27);
    assert_eq!(odd.size(), 6);
    let (empty, _) = device.create_buffer_from_raw(0xa0, 3);
    assert_eq!(empty.size(), 0);
}

#[test]
fn write_of_another_length_fails() {
    let device = Device::from_raw(0x40);
    let (mut buffer, _) = device.create_buffer(0x80, 6).unwrap();
    for len in [0usize, 1, 5, 7, 12, usize::MAX] {
        assert_eq!(buffer.write(len), None);
        assert_eq!(buffer.size(), 6);
        assert_eq!(buffer.raw(), 0x80);
    }
    assert_eq!(
        buffer.write(6),
        Some(Call::WriteBuffer { buffer: 0x80, byte_offset: 0, byte_size: 24 })
    );
    assert_eq!(buffer.size(), 6);
}

#[test]
fn a_failed_write_leaves_the_contents() {
    let mut engine = Engine::new();
    let device = new_device(&mut engine);
    let mut buffer = create_buffer(&mut engine, &device, &[1.0, 2.0]).unwrap();
    let calls = engine.log.len();
    assert_eq!(write(&mut engine, &mut buffer, &[3.0]), None);
    assert_eq!(write(&mut engine, &mut buffer, &[3.0, 4.0, 5.0]), None);
    assert_eq!(engine.log.len(), calls);
    assert_eq!(read(&mut engine, &mut buffer), vec![1.0, 2.0]);
}

#[test]
fn read_to_slice_of_another_length_fails() {
    let device = Device::from_raw(0x40);
    let (mut buffer, _) = device.create_buffer(0x80, 6).unwrap();
    assert_eq!(buffer.read_to_slice(5), None);
    assert_eq!(buffer.read_to_slice(7), None);
    assert_eq!(
        buffer.read_to_slice(6),
        Some(Call::ReadBuffer { buffer: 0x80, byte_offset: 0, byte_size: 24 })
    );
    assert_eq!(buffer.size(), 6);
}

#[test]
fn read_takes_the_whole_buffer() {
    let device = Device::from_raw(0x40);
    let (mut buffer, _) = device.create_buffer(0x80, 6).unwrap();
    assert_eq!(buffer.read(), Call::ReadBuffer { buffer: 0x80, byte_offset: 0, byte_size: 24 });
    let (mut empty, _) = device.create_buffer(0x90, 0).unwrap();
    assert_eq!(empty.read(), Call::ReadBuffer { buffer: 0x90, byte_offset: 0, byte_size: 0 });
}

#[test]
fn same_device_goes_by_the_device_that_made_the_buffer() {
    let first = Device::from_raw(0x40);
    let second = Device::from_raw(0x50);
    let (buffer, _) = first.create_buffer(0x80, 1).unwrap();
    assert!(first.same_device_as_buf(&buffer));
    assert!(!second.same_device_as_buf(&buffer));
}

#[test]
fn release_frees_the_buffer_and_lets_go_of_the_device() {
    let device = Device::from_raw(0x40);
    let (buffer, _) = device.create_buffer(0x80, 6).unwrap();
    assert_eq!(
        buffer.release(),
        vec![Call::ReleaseBuffer { buffer: 0x80 }, Call::ReleaseDevice { device: 0x40 }]
    );
}

#[test]
fn a_buffer_keeps_its_device_alive() {
    let mut engine = Engine::new();
    let device = new_device(&mut engine);
    let handle = device.raw();
    let buffer = create_buffer(&mut engine, &device, &[0.0]).unwrap();
    assert_eq!(engine.devices[&handle], 2);
    engine.perform(device.release(), &mut []);
    assert_eq!(engine.devices[&handle], 1);
    engine.perform_all(&buffer.release(), &mut []);
    assert!(engine.devices.is_empty());
    assert!(engine.buffers.is_empty());
}
