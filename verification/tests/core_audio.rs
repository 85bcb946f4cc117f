use audio_loop::backend::core_audio::{
    buffer_extent, checked_channel_sum, decode_buffer_channels, decode_value_ranges, Adjustment, AdjustmentStep,
    BufferExtent, Configuration, ConfigureError, CoreAudioBackend, DeviceInfo, DeviceReply,
    DeviceRequest, NewBackendError, RateRange, Setup, SetupStep, ValueRangeBits,
};

type Backend = CoreAudioBackend<&'static str, &'static str>;

fn info() -> DeviceInfo {
    let rates = vec![RateRange { min: 44100, max: 44100 }, RateRange { min: 48000, max: 96000 }];
    DeviceInfo::new(rates, 64, 1024, &vec![2, 4])
}

fn wanted() -> Configuration {
    Configuration { channel_count: 2, sample_rate: 48000, buffer_size: 512 }
}

fn go(step: SetupStep<&'static str, &'static str>) -> Setup {
    match step {
        SetupStep::Go(setup) => setup,
        _ => panic!("over"),
    }
}

fn failed(step: SetupStep<&'static str, &'static str>) -> NewBackendError {
    match step {
        SetupStep::Failed(error) => error,
        _ => panic!("not failed"),
    }
}

fn backend() -> Backend {
    let setup = go(Setup::new(Some(wanted())).next(DeviceReply::Device(40)));
    let setup = go(setup.next(DeviceReply::Description(info())));
    let setup = go(setup.next(DeviceReply::Done));
    let setup = go(setup.next(DeviceReply::Done));
    match setup.next(DeviceReply::Settings { sample_rate: 48001, frames: 480 }) {
        SetupStep::Ready(backend) => backend,
        _ => panic!("not ready"),
    }
}

#[test]
fn channels_of_all_buffers_count() {
    assert_eq!(info().max_channel_count, 6);
    assert_eq!(DeviceInfo::new(Vec::new(), 0, 0, &Vec::new()).max_channel_count, 0);
}

#[test]
fn channel_counts_that_do_not_fit() {
    assert_eq!(checked_channel_sum(&vec![2, 4]), Some(6));
    assert_eq!(checked_channel_sum(&Vec::new()), Some(0));
    assert_eq!(checked_channel_sum(&vec![u32::MAX, 0]), Some(u32::MAX));
    assert_eq!(checked_channel_sum(&vec![1, u32::MAX]), None);
}

#[test]
fn supported_configuration() {
    let yes = |channel_count, sample_rate, buffer_size| {
        info().supports(&Configuration { channel_count, sample_rate, buffer_size })
    };
    assert!(yes(2, 48000, 512));
    assert!(yes(6, 44100, 64));
    assert!(yes(0, 96000, 1024));
    assert!(!yes(7, 48000, 512));
    assert!(!yes(2, 44101, 512));
    assert!(!yes(2, 96001, 512));
    assert!(!yes(2, 48000, 63));
    assert!(!yes(2, 48000, 1025));
}

#[test]
fn value_ranges_are_decoded() {
    let mut bytes = Vec::new();
    for value in [44100.0f64, 44100.0, 48000.0, 96000.0] {
        bytes.extend_from_slice(&value.to_le_bytes());
    }
    bytes.push(1);
    let ranges = decode_value_ranges(&bytes);
    assert_eq!(
        ranges,
        [
            ValueRangeBits { min: 44100.0f64.to_bits(), max: 44100.0f64.to_bits() },
            ValueRangeBits { min: 48000.0f64.to_bits(), max: 96000.0f64.to_bits() },
        ]
    );
    assert!(decode_value_ranges(&[0; 15]).is_empty());
}

fn buffer_list(count: u32, channels: &[u32]) -> Vec<u8> {
    let mut bytes = count.to_le_bytes().to_vec();
    bytes.extend_from_slice(&[0xff; 4]);
    for channel_count in channels {
        bytes.extend_from_slice(&channel_count.to_le_bytes());
        bytes.extend_from_slice(&[0xee; 12]);
    }
    bytes
}

#[test]
fn buffer_list_is_decoded() {
    assert_eq!(decode_buffer_channels(&buffer_list(2, &[2, 258])), Some(vec![2, 258]));
    assert_eq!(decode_buffer_channels(&buffer_list(0, &[])), Some(vec![]));
    assert_eq!(decode_buffer_channels(&buffer_list(1, &[2, 4])), Some(vec![2]));
}

#[test]
fn buffer_list_that_is_cut_short_is_refused() {
    assert_eq!(decode_buffer_channels(&[]), None);
    assert_eq!(decode_buffer_channels(&[0; 7]), None);
    assert_eq!(decode_buffer_channels(&buffer_list(3, &[2, 4])), None);
    assert_eq!(decode_buffer_channels(&buffer_list(u32::MAX, &[2])), None);
    let mut bytes = buffer_list(1, &[2]);
    bytes.pop();
    assert_eq!(decode_buffer_channels(&bytes), None);
}

#[test]
fn setup_asks_one_thing_after_the_other() {
    let setup = Setup::new(Some(wanted()));
    assert_eq!(setup.request(), DeviceRequest::DefaultDevice);
    let setup = go(setup.next(DeviceReply::Device(40)));
    assert_eq!(setup.request(), DeviceRequest::Describe { device: 40 });
    let setup = go(setup.next(DeviceReply::Description(info())));
    assert_eq!(setup.request(), DeviceRequest::SetSampleRate { device: 40, sample_rate: 48000 });
    let setup = go(setup.next(DeviceReply::Done));
    assert_eq!(setup.request(), DeviceRequest::SetBufferFrames { device: 40, frames: 512 });
    let setup = go(setup.next(DeviceReply::Done));
    assert_eq!(setup.request(), DeviceRequest::ReadBack { device: 40 });
}

#[test]
fn backend_reports_what_the_device_does() {
    let backend = backend();
    assert_eq!(backend.device, 40);
    assert!(!backend.has_started());
    assert_eq!(
        backend.configuration(),
        Configuration { channel_count: 2, sample_rate: 48001, buffer_size: 480 }
    );
}

#[test]
fn default_setup_uses_the_device_as_it_is() {
    let setup = go(Setup::new(None).next(DeviceReply::Device(7)));
    let setup = go(setup.next(DeviceReply::Description(info())));
    assert_eq!(setup.request(), DeviceRequest::ReadBack { device: 7 });
    let step: SetupStep<u8, u8> = setup.next(DeviceReply::Settings { sample_rate: 44100, frames: 256 });
    match step {
        SetupStep::Ready(backend) => assert_eq!(
            backend.configuration(),
            Configuration { channel_count: 6, sample_rate: 44100, buffer_size: 256 }
        ),
        _ => panic!("not ready"),
    }
}

#[test]
fn failed_requests_end_the_setup() {
    let error = failed(Setup::new(Some(wanted())).next(DeviceReply::Failed));
    assert_eq!(error, NewBackendError::NoDefaultDevice);
    let setup = go(Setup::new(None).next(DeviceReply::Device(7)));
    assert_eq!(failed(setup.next(DeviceReply::Failed)), NewBackendError::DeviceQueryFailed);
    for done in 0..3 {
        let setup = go(Setup::new(Some(wanted())).next(DeviceReply::Device(7)));
        let mut setup = go(setup.next(DeviceReply::Description(info())));
        for _ in 0..done {
            setup = go(setup.next(DeviceReply::Done));
        }
        assert_eq!(failed(setup.next(DeviceReply::Failed)), NewBackendError::DeviceQueryFailed);
    }
}

#[test]
fn unsupported_configuration_ends_the_setup() {
    let too_many = Configuration { channel_count: 8, ..wanted() };
    let setup = go(Setup::new(Some(too_many)).next(DeviceReply::Device(7)));
    let error = failed(setup.next(DeviceReply::Description(info())));
    assert_eq!(error, NewBackendError::UnsupportedConfiguration);
}

#[test]
fn buffer_size_is_cut_to_its_low_bits() {
    let huge = Configuration { buffer_size: (1 << 32) + 5, ..wanted() };
    let adjustment = Adjustment::BufferFrames { device: 1, wanted: huge };
    assert_eq!(adjustment.request(), DeviceRequest::SetBufferFrames { device: 1, frames: 5 });
}

#[test]
fn idle_backend_is_configured() {
    let mut backend = backend();
    let asked = Configuration { channel_count: 4, sample_rate: 96000, buffer_size: 64 };
    let adjustment = backend.configure(asked).unwrap();
    assert_eq!(adjustment, Adjustment::SampleRate { device: 40, wanted: asked });
    let adjustment = match adjustment.next(DeviceReply::Done) {
        AdjustmentStep::Go(next) => next,
        _ => panic!("over"),
    };
    let adjustment = match adjustment.next(DeviceReply::Done) {
        AdjustmentStep::Go(next) => next,
        _ => panic!("over"),
    };
    let step = adjustment.next(DeviceReply::Settings { sample_rate: 96000, frames: 128 });
    let real = Configuration { channel_count: 4, sample_rate: 96000, buffer_size: 128 };
    assert_eq!(step, AdjustmentStep::Adjusted(real));
    assert_eq!(backend.finish_configure(Some(real)), Ok(()));
    assert_eq!(backend.configuration(), real);
}

#[test]
fn configuration_is_refused() {
    let mut backend = backend();
    let before = backend.configuration();
    let bad = Configuration { sample_rate: 1, ..wanted() };
    assert_eq!(backend.configure(bad), Err(ConfigureError::UnsupportedConfiguration));
    assert_eq!(backend.finish_configure(None), Err(ConfigureError::DeviceConfigureFailed));
    assert_eq!(backend.configuration(), before);
    backend.attach("callback", true).unwrap();
    backend.finish_start("proc", true).unwrap();
    assert_eq!(backend.configure(wanted()), Err(ConfigureError::AlreadyStarted));
}

#[test]
fn backend_starts_and_stops() {
    let mut backend = backend();
    assert!(backend.stop().is_none());
    assert_eq!(backend.attach("callback", true), Ok(()));
    assert!(!backend.has_started());
    assert_eq!(backend.finish_start("proc", true), Ok(()));
    assert!(backend.has_started());
    let released = backend.stop().unwrap();
    assert_eq!(released.audio_io_proc, "proc");
    assert_eq!(released.callback, Some("callback"));
    assert!(!backend.has_started());
    assert!(backend.stop().is_none());
}

#[test]
fn start_that_fails_hands_back_what_it_got() {
    let mut backend = backend();
    assert_eq!(backend.attach("callback", false), Err("callback"));
    assert_eq!(backend.callback, None);
    assert_eq!(backend.attach("callback", true), Ok(()));
    assert_eq!(backend.finish_start("proc", false), Err("proc"));
    assert!(!backend.has_started());
    assert_eq!(backend.callback, Some("callback"));
}

#[test]
fn extent_of_an_output_buffer() {
    assert_eq!(buffer_extent(4096, 2), BufferExtent { samples: 1024, frames: 512 });
    assert_eq!(buffer_extent(30, 3), BufferExtent { samples: 7, frames: 2 });
    assert_eq!(buffer_extent(0, 1), BufferExtent { samples: 0, frames: 0 });
}
