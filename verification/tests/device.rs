use audio_loop::device::{
    AudioDevice, BufferSize, DefaultConfigError, DeviceNameError, EnumerateError, StreamConfig,
    SupportedConfigsError, SupportedStreamConfigRange,
};

fn device() -> AudioDevice {
    AudioDevice::new(Ok(vec![
        SupportedStreamConfigRange::new(1, 8000, 16000),
        SupportedStreamConfigRange::new(2, 44100, 48000),
        SupportedStreamConfigRange::new(2, 44100, 192000),
        SupportedStreamConfigRange::new(6, 48000, 48000),
    ]))
}

fn parts(config: Option<StreamConfig>) -> Option<(u16, u32, BufferSize)> {
    config.map(|c| (c.channels, c.sample_rate, c.buffer_size))
}

#[test]
fn range_tells_its_bounds() {
    let range = SupportedStreamConfigRange::new(2, 44100, 48000);
    assert_eq!(range.channels(), 2);
    assert_eq!(range.min_sample_rate(), 44100);
    assert_eq!(range.max_sample_rate(), 48000);
}

#[test]
fn sample_rate_is_clamped() {
    let range = SupportedStreamConfigRange::new(2, 44100, 48000);
    for (asked, given) in [(0, 44100), (44100, 44100), (46000, 46000), (48000, 48000), (u32::MAX, 48000)] {
        let config = range.with_sample_rate(asked);
        assert_eq!(config.channels, 2);
        assert_eq!(config.sample_rate, given);
        assert_eq!(config.buffer_size, BufferSize::Default);
    }
}

#[test]
fn first_matching_range_is_used() {
    let found = device().find_output_config(Some(2), Some(48000), BufferSize::Fixed(512));
    assert_eq!(parts(found), Some((2, 48000, BufferSize::Fixed(512))));
    let found = device().find_output_config(Some(2), Some(96000), BufferSize::Default);
    assert_eq!(parts(found), Some((2, 96000, BufferSize::Default)));
    let found = device().find_output_config(None, Some(48000), BufferSize::Default);
    assert_eq!(parts(found), Some((2, 48000, BufferSize::Default)));
}

#[test]
fn middle_of_the_range_is_used_without_a_sample_rate() {
    let found = device().find_output_config(Some(2), None, BufferSize::Default);
    assert_eq!(parts(found), Some((2, 46050, BufferSize::Default)));
    let found = device().find_output_config(None, None, BufferSize::Fixed(64));
    assert_eq!(parts(found), Some((1, 12000, BufferSize::Fixed(64))));
    let odd = AudioDevice::new(Ok(vec![SupportedStreamConfigRange::new(1, 3, 6)]));
    assert_eq!(parts(odd.find_output_config(None, None, BufferSize::Default)), Some((1, 4, BufferSize::Default)));
}

#[test]
fn nothing_is_found_for_an_impossible_request() {
    assert!(device().find_output_config(Some(3), None, BufferSize::Default).is_none());
    assert!(device().find_output_config(Some(1), Some(44100), BufferSize::Default).is_none());
    assert!(device().find_output_config(None, Some(200000), BufferSize::Default).is_none());
    let silent = AudioDevice::new(Ok(Vec::new()));
    assert!(silent.find_output_config(None, None, BufferSize::Default).is_none());
}

#[test]
fn device_that_cannot_be_asked_has_no_config() {
    let broken = AudioDevice::new(Err(SupportedConfigsError));
    assert!(broken.supported_output_configs().is_err());
    assert!(broken.find_output_config(None, None, BufferSize::Default).is_none());
    assert_eq!(device().supported_output_configs().unwrap().len(), 4);
}

#[test]
fn found_config_honours_the_request() {
    for channels in [None, Some(1), Some(2), Some(6)] {
        for rate in [None, Some(8000), Some(44100), Some(48000), Some(192000)] {
            if let Some(config) = device().find_output_config(channels, rate, BufferSize::Fixed(7)) {
                assert!(channels.is_none() || channels == Some(config.channels));
                assert!(rate.is_none() || rate == Some(config.sample_rate));
                assert_eq!(config.buffer_size, BufferSize::Fixed(7));
            }
        }
    }
}

#[test]
fn config_is_cloned() {
    let config = StreamConfig { channels: 2, sample_rate: 48000, buffer_size: BufferSize::Fixed(9) };
    assert_eq!(parts(Some(config.clone())), parts(Some(config)));
}

#[test]
fn device_errors_in_words() {
    assert_eq!(EnumerateError.message(), "Failed to enumerate audio devices");
    assert_eq!(DeviceNameError.message(), "Failed to get device name");
    assert_eq!(SupportedConfigsError.message(), "Failed to get supported configurations");
    assert_eq!(DefaultConfigError.message(), "Failed to get default configuration");
}

#[test]
fn wide_range_has_a_middle() {
    let device = AudioDevice::new(Ok(vec![SupportedStreamConfigRange::new(2, 8000, u32::MAX)]));
    assert!(device.can_find_output_config(Some(2), None));
    let found = device.find_output_config(Some(2), None, BufferSize::Default);
    assert_eq!(parts(found), Some((2, 2147487647, BufferSize::Default)));
}

#[test]
fn search_needs_a_rate_in_the_first_match() {
    let whole = AudioDevice::new(Ok(vec![
        SupportedStreamConfigRange::new(1, 1, u32::MAX),
        SupportedStreamConfigRange::new(2, 5, 4),
        SupportedStreamConfigRange::new(3, 1, u32::MAX - 1),
    ]));
    assert!(whole.can_find_output_config(None, None));
    assert!(!whole.can_find_output_config(Some(2), None));
    assert!(whole.can_find_output_config(Some(3), None));
    assert!(whole.can_find_output_config(Some(4), None));
    assert!(whole.can_find_output_config(None, Some(7)));
    assert!(AudioDevice::new(Err(SupportedConfigsError)).can_find_output_config(None, None));
    let found = whole.find_output_config(Some(3), None, BufferSize::Default);
    assert_eq!(parts(found), Some((3, u32::MAX / 2, BufferSize::Default)));
}
