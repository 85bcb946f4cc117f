//! The decisions of the Core Audio backend.
//!
//! The backend asks the system for one property after the other. Each question is a request, each
//! answer a reply; what comes of a reply is decided here.
use vstd::bytes::{spec_u32_from_le_bytes, spec_u64_from_le_bytes};
use vstd::prelude::*;

verus! {

/// How a device is to be used.
#[derive(Debug, Clone, Copy, PartialEq, Eq, Structural)]
pub struct Configuration {
    /// Number of channels.
    pub channel_count: usize,
    /// Sample rate in Hz.
    pub sample_rate: u32,
    /// Buffer size in frames.
    pub buffer_size: usize,
}

/// An error that can occur when a backend is made.
#[derive(Debug, Clone, Copy, PartialEq, Eq, Structural)]
pub enum NewBackendError {
    NoDefaultDevice,
    DeviceQueryFailed,
    UnsupportedConfiguration,
}

/// An error that can occur when a backend is configured.
#[derive(Debug, Clone, Copy, PartialEq, Eq, Structural)]
pub enum ConfigureError {
    AlreadyStarted,
    UnsupportedConfiguration,
    DeviceConfigureFailed,
}

/// The whole sample rates that lie between two bounds, both included; none where the lower bound
/// is above the upper.
#[derive(Debug, Clone, Copy, PartialEq, Eq, Structural)]
pub struct RateRange {
    pub min: i64,
    pub max: i64,
}

/// The bit patterns of the two floating-point bounds of a range of values.
#[derive(Debug, Clone, Copy, PartialEq, Eq, Structural)]
pub struct ValueRangeBits {
    pub min: u64,
    pub max: u64,
}

/// The number of bytes of one range of values: two floating-point numbers.
pub const VALUE_RANGE_SIZE: usize = 16;

/// Where the first buffer of a buffer list starts: behind the number of buffers, aligned.
pub const BUFFER_LIST_HEADER: usize = 8;

/// The number of bytes of one buffer of a buffer list: channel count, size, and address.
pub const BUFFER_SIZE: usize = 16;

/// The range of values number `i` of a property that holds ranges.
pub open spec fn value_range_at(bytes: Seq<u8>, i: int) -> ValueRangeBits {
    let start = i * VALUE_RANGE_SIZE;
    ValueRangeBits {
        min: spec_u64_from_le_bytes(bytes.subrange(start, start + 8)),
        max: spec_u64_from_le_bytes(bytes.subrange(start + 8, start + 16)),
    }
}

/// Reads a property that holds ranges of values: as many as are there in full.
pub fn decode_value_ranges(bytes: &[u8]) -> (r: Vec<ValueRangeBits>)
    ensures
        r@.len() == bytes@.len() as int / VALUE_RANGE_SIZE as int,
        forall|i: int| 0 <= i < r@.len() ==> #[trigger] r@[i] == value_range_at(bytes@, i),
{
    let len: usize = bytes.len();
    let count: usize = len / VALUE_RANGE_SIZE;
    let mut ranges: Vec<ValueRangeBits> = Vec::new();
    for i in 0..count
        invariant
            len == bytes@.len(),
            count == len as int / VALUE_RANGE_SIZE as int,
            count * VALUE_RANGE_SIZE <= len,
            ranges@.len() == i,
            forall|j: int|
                0 <= j < i ==> #[trigger] ranges@[j] == value_range_at(bytes@, j),
    {
        let start: usize = i * VALUE_RANGE_SIZE;
        let min: u64 = vstd::bytes::u64_from_le_bytes(
            vstd::slice::slice_subrange(bytes, start, start + 8),
        );
        let max: u64 = vstd::bytes::u64_from_le_bytes(
            vstd::slice::slice_subrange(bytes, start + 8, start + 16),
        );
        ranges.push(ValueRangeBits { min, max });
    }
    ranges
}

/// The number of buffers that a buffer list says it has.
pub open spec fn buffer_count(bytes: Seq<u8>) -> int {
    spec_u32_from_le_bytes(bytes.subrange(0, 4)) as int
}

/// The channel count of buffer number `i` of a buffer list.
pub open spec fn buffer_channels_at(bytes: Seq<u8>, i: int) -> u32 {
    let start = BUFFER_LIST_HEADER + i * BUFFER_SIZE;
    spec_u32_from_le_bytes(bytes.subrange(start, start + 4))
}

/// Whether all buffers that a buffer list says it has are there.
pub open spec fn buffer_list_complete(bytes: Seq<u8>) -> bool {
    &&& bytes.len() >= BUFFER_LIST_HEADER
    &&& bytes.len() >= BUFFER_LIST_HEADER + buffer_count(bytes) * BUFFER_SIZE
}

/// Reads the channel counts of the buffers of a buffer list; `None` where the list is cut short.
pub fn decode_buffer_channels(bytes: &[u8]) -> (r: Option<Vec<u32>>)
    ensures
        r is Some <==> buffer_list_complete(bytes@),
        r matches Some(channels) ==> {
            &&& channels@.len() == buffer_count(bytes@)
            &&& forall|i: int|
                0 <= i < channels@.len() ==> #[trigger] channels@[i] == buffer_channels_at(
                    bytes@,
                    i,
                )
        },
{
    let len: usize = bytes.len();
    if len < BUFFER_LIST_HEADER {
        return None;
    }
    let count: usize = vstd::bytes::u32_from_le_bytes(vstd::slice::slice_subrange(bytes, 0, 4))
        as usize;
    if count > (len - BUFFER_LIST_HEADER) / BUFFER_SIZE {
        return None;
    }
    let mut channels: Vec<u32> = Vec::new();
    for i in 0..count
        invariant
            count == buffer_count(bytes@),
            len == bytes@.len(),
            BUFFER_LIST_HEADER + count * BUFFER_SIZE <= len,
            channels@.len() == i,
            forall|j: int|
                0 <= j < i ==> #[trigger] channels@[j] == buffer_channels_at(bytes@, j),
    {
        let start: usize = BUFFER_LIST_HEADER + i * BUFFER_SIZE;
        channels.push(
            vstd::bytes::u32_from_le_bytes(vstd::slice::slice_subrange(bytes, start, start + 4)),
        );
    }
    Some(channels)
}

/// The sum of channel counts.
pub open spec fn channel_sum(channels: Seq<u32>) -> int
    decreases channels.len(),
{
    if channels.len() == 0 {
        0
    } else {
        channel_sum(channels.drop_last()) + channels.last()
    }
}

/// A longer list has no smaller sum.
proof fn lemma_channel_sum_prefix(channels: Seq<u32>, n: int)
    requires
        0 <= n <= channels.len(),
    ensures
        0 <= channel_sum(channels.take(n)) <= channel_sum(channels),
    decreases channels.len() - n, n,
{
    if n < channels.len() {
        lemma_channel_sum_prefix(channels, n + 1);
        assert(channels.take(n + 1).drop_last() =~= channels.take(n));
        lemma_channel_sum_nonnegative(channels.take(n));
    } else {
        assert(channels.take(n) =~= channels);
        lemma_channel_sum_nonnegative(channels);
    }
}

/// Channel counts add up to no negative number.
proof fn lemma_channel_sum_nonnegative(channels: Seq<u32>)
    ensures
        0 <= channel_sum(channels),
    decreases channels.len(),
{
    if channels.len() > 0 {
        lemma_channel_sum_nonnegative(channels.drop_last());
    }
}

/// Adds up channel counts; `None` where the sum does not fit.
pub fn checked_channel_sum(channels: &Vec<u32>) -> (r: Option<u32>)
    ensures
        r is Some <==> channel_sum(channels@) <= u32::MAX,
        r matches Some(sum) ==> sum == channel_sum(channels@),
{
    let mut sum: u32 = 0;
    assert(channels@.take(0) =~= Seq::empty());
    for i in 0..channels.len()
        invariant
            sum == channel_sum(channels@.take(i as int)),
    {
        proof {
            lemma_channel_sum_prefix(channels@, i + 1);
            assert(channels@.take(i + 1).drop_last() =~= channels@.take(i as int));
        }
        match sum.checked_add(channels[i]) {
            Some(next) => {
                sum = next;
            },
            None => return None,
        }
    }
    assert(channels@.take(channels@.len() as int) =~= channels@);
    Some(sum)
}

/// What a device can do.
#[derive(Debug)]
pub struct DeviceInfo {
    /// The number of channels of all buffers together.
    pub max_channel_count: usize,
    /// The sample rates that the device supports.
    pub sample_rate_ranges: Vec<RateRange>,
    /// The smallest buffer, in frames.
    pub min_frames: usize,
    /// The largest buffer, in frames.
    pub max_frames: usize,
}

impl DeviceInfo {
    /// Whether the device can be used as `configuration` asks.
    pub open spec fn can_do(self, configuration: Configuration) -> bool {
        &&& configuration.channel_count <= self.max_channel_count
        &&& self.min_frames <= configuration.buffer_size <= self.max_frames
        &&& exists|i: int|
            0 <= i < self.sample_rate_ranges@.len() && (#[trigger] self.sample_rate_ranges@[i]).min
                <= configuration.sample_rate <= self.sample_rate_ranges@[i].max
    }

    /// Puts together what a device can do from the properties it reports.
    pub fn new(
        sample_rate_ranges: Vec<RateRange>,
        min_frames: usize,
        max_frames: usize,
        buffer_channels: &Vec<u32>,
    ) -> (r: DeviceInfo)
        requires
            channel_sum(buffer_channels@) <= u32::MAX,
        ensures
            r.max_channel_count == channel_sum(buffer_channels@),
            r.sample_rate_ranges == sample_rate_ranges,
            r.min_frames == min_frames,
            r.max_frames == max_frames,
    {
        let max_channel_count: usize = match checked_channel_sum(buffer_channels) {
            Some(sum) => sum as usize,
            None => vstd::pervasive::unreached(),
        };
        DeviceInfo { max_channel_count, sample_rate_ranges, min_frames, max_frames }
    }

    /// Check whether the device supports a configuration.
    pub fn supports(&self, configuration: &Configuration) -> (r: bool)
        ensures
            r == self.can_do(*configuration),
            r ==> configuration.channel_count <= self.max_channel_count,
            r ==> self.min_frames <= configuration.buffer_size && configuration.buffer_size
                <= self.max_frames,
            r ==> exists|i: int|
                0 <= i < self.sample_rate_ranges@.len() && (
                #[trigger] self.sample_rate_ranges@[i]).min <= configuration.sample_rate
                    && configuration.sample_rate <= self.sample_rate_ranges@[i].max,
            forall|i: int|
                configuration.channel_count <= self.max_channel_count && self.min_frames
                    <= configuration.buffer_size && configuration.buffer_size <= self.max_frames
                    && 0 <= i < self.sample_rate_ranges@.len() && (
                #[trigger] self.sample_rate_ranges@[i]).min <= configuration.sample_rate
                    && configuration.sample_rate <= self.sample_rate_ranges@[i].max ==> r,
    {
        if configuration.channel_count > self.max_channel_count || configuration.buffer_size
            < self.min_frames || configuration.buffer_size > self.max_frames {
            return false;
        }
        let sample_rate: i64 = configuration.sample_rate as i64;
        for i in 0..self.sample_rate_ranges.len()
            invariant
                sample_rate == configuration.sample_rate,
                configuration.channel_count <= self.max_channel_count,
                self.min_frames <= configuration.buffer_size <= self.max_frames,
                forall|j: int|
                    0 <= j < i ==> !((#[trigger] self.sample_rate_ranges@[j]).min <= sample_rate
                        <= self.sample_rate_ranges@[j].max),
        {
            let range: RateRange = self.sample_rate_ranges[i];
            if range.min <= sample_rate && sample_rate <= range.max {
                assert(self.sample_rate_ranges@[i as int] == range);
                return true;
            }
        }
        false
    }
}

/// A question to the system about a device, or a change of one.
#[derive(Debug, Clone, Copy, PartialEq, Eq, Structural)]
pub enum DeviceRequest {
    /// Which device is the default output device?
    DefaultDevice,
    /// What can the device do?
    Describe { device: u32 },
    /// Set the nominal sample rate.
    SetSampleRate { device: u32, sample_rate: u32 },
    /// Set the buffer size, in frames.
    SetBufferFrames { device: u32, frames: u32 },
    /// What are the sample rate and the buffer size?
    ReadBack { device: u32 },
}

/// The answer to a request.
#[derive(Debug)]
pub enum DeviceReply {
    /// The default device.
    Device(u32),
    /// What the device can do.
    Description(DeviceInfo),
    /// The change was made.
    Done,
    /// The sample rate in Hz and the buffer size in frames.
    Settings { sample_rate: u32, frames: u32 },
    /// The request failed.
    Failed,
}

impl DeviceRequest {
    /// Whether `reply` is an answer to the request.
    pub open spec fn answered_by(self, reply: DeviceReply) -> bool {
        reply is Failed || match self {
            DeviceRequest::DefaultDevice => reply is Device,
            DeviceRequest::Describe { .. } => reply is Description,
            DeviceRequest::SetSampleRate { .. } => reply is Done,
            DeviceRequest::SetBufferFrames { .. } => reply is Done,
            DeviceRequest::ReadBack { .. } => reply is Settings,
        }
    }
}

/// How far the adjustment of a device has come: sample rate, buffer size, and what came of it. The
/// device may not honor the settings exactly, so it is asked in the end.
#[derive(Debug, Clone, Copy, PartialEq, Eq, Structural)]
pub enum Adjustment {
    SampleRate { device: u32, wanted: Configuration },
    BufferFrames { device: u32, wanted: Configuration },
    ReadBack { device: u32, channel_count: usize },
}

/// What comes of a reply to an adjustment.
#[derive(Debug, Clone, Copy, PartialEq, Eq, Structural)]
pub enum AdjustmentStep {
    /// There is more to do.
    Go(Adjustment),
    /// The device is adjusted, and is used like this.
    Adjusted(Configuration),
    /// The device could not be adjusted.
    Failed,
}

impl Adjustment {
    /// The request that the adjustment waits for the answer of.
    pub open spec fn asks(self) -> DeviceRequest {
        match self {
            Adjustment::SampleRate { device, wanted } => DeviceRequest::SetSampleRate {
                device,
                sample_rate: wanted.sample_rate,
            },
            Adjustment::BufferFrames { device, wanted } => DeviceRequest::SetBufferFrames {
                device,
                frames: wanted.buffer_size as u32,
            },
            Adjustment::ReadBack { device, channel_count } => DeviceRequest::ReadBack { device },
        }
    }

    /// What comes of `reply`.
    pub open spec fn after(self, reply: DeviceReply) -> AdjustmentStep {
        match (self, reply) {
            (Adjustment::SampleRate { device, wanted }, DeviceReply::Done) => AdjustmentStep::Go(
                Adjustment::BufferFrames { device, wanted },
            ),
            (Adjustment::BufferFrames { device, wanted }, DeviceReply::Done) => AdjustmentStep::Go(
                Adjustment::ReadBack { device, channel_count: wanted.channel_count },
            ),
            (
                Adjustment::ReadBack { device, channel_count },
                DeviceReply::Settings { sample_rate, frames },
            ) => AdjustmentStep::Adjusted(
                Configuration { channel_count, sample_rate, buffer_size: frames as usize },
            ),
            (_, _) => AdjustmentStep::Failed,
        }
    }

    /// The request to make now. A buffer size beyond 32 bits is cut to its low 32 bits.
    pub fn request(&self) -> (r: DeviceRequest)
        ensures
            r == self.asks(),
    {
        match *self {
            Adjustment::SampleRate { device, wanted } => DeviceRequest::SetSampleRate {
                device,
                sample_rate: wanted.sample_rate,
            },
            Adjustment::BufferFrames { device, wanted } => DeviceRequest::SetBufferFrames {
                device,
                frames: #[verifier::truncate] (wanted.buffer_size as u32),
            },
            Adjustment::ReadBack { device, channel_count: _ } => DeviceRequest::ReadBack { device },
        }
    }

    /// Decides what comes of the reply to the request.
    pub fn next(self, reply: DeviceReply) -> (r: AdjustmentStep)
        requires
            self.asks().answered_by(reply),
        ensures
            r == self.after(reply),
    {
        match self {
            Adjustment::SampleRate { device, wanted } => match reply {
                DeviceReply::Done => AdjustmentStep::Go(
                    Adjustment::BufferFrames { device, wanted },
                ),
                _ => AdjustmentStep::Failed,
            },
            Adjustment::BufferFrames { device, wanted } => match reply {
                DeviceReply::Done => AdjustmentStep::Go(
                    Adjustment::ReadBack { device, channel_count: wanted.channel_count },
                ),
                _ => AdjustmentStep::Failed,
            },
            Adjustment::ReadBack { device: _, channel_count } => match reply {
                DeviceReply::Settings { sample_rate, frames } => AdjustmentStep::Adjusted(
                    Configuration { channel_count, sample_rate, buffer_size: frames as usize },
                ),
                _ => AdjustmentStep::Failed,
            },
        }
    }
}

/// How far the making of a backend has come. Without a wanted configuration the device is used as
/// it is, with all its channels.
#[derive(Debug)]
pub enum Setup {
    FindDevice { wanted: Option<Configuration> },
    Describe { device: u32, wanted: Option<Configuration> },
    Adjust { device: u32, info: DeviceInfo, adjustment: Adjustment },
}

/// What comes of a reply to a setup.
pub enum SetupStep<P, K> {
    /// There is more to do.
    Go(Setup),
    /// The backend is made.
    Ready(CoreAudioBackend<P, K>),
    /// The backend could not be made.
    Failed(NewBackendError),
}

impl Setup {
    /// The request that the setup waits for the answer of.
    pub open spec fn asks(self) -> DeviceRequest {
        match self {
            Setup::FindDevice { .. } => DeviceRequest::DefaultDevice,
            Setup::Describe { device, .. } => DeviceRequest::Describe { device },
            Setup::Adjust { adjustment, .. } => adjustment.asks(),
        }
    }

    /// What comes of `reply`.
    pub open spec fn after<P, K>(self, reply: DeviceReply) -> SetupStep<P, K> {
        match self {
            Setup::FindDevice { wanted } => match reply {
                DeviceReply::Device(device) => SetupStep::Go(Setup::Describe { device, wanted }),
                _ => SetupStep::Failed(NewBackendError::NoDefaultDevice),
            },
            Setup::Describe { device, wanted } => match reply {
                DeviceReply::Description(info) => match wanted {
                    Some(configuration) => if info.can_do(configuration) {
                        SetupStep::Go(
                            Setup::Adjust {
                                device,
                                info,
                                adjustment: Adjustment::SampleRate {
                                    device,
                                    wanted: configuration,
                                },
                            },
                        )
                    } else {
                        SetupStep::Failed(NewBackendError::UnsupportedConfiguration)
                    },
                    None => SetupStep::Go(
                        Setup::Adjust {
                            device,
                            info,
                            adjustment: Adjustment::ReadBack {
                                device,
                                channel_count: info.max_channel_count,
                            },
                        },
                    ),
                },
                _ => SetupStep::Failed(NewBackendError::DeviceQueryFailed),
            },
            Setup::Adjust { device, info, adjustment } => match adjustment.after(reply) {
                AdjustmentStep::Go(adjustment) => SetupStep::Go(
                    Setup::Adjust { device, info, adjustment },
                ),
                AdjustmentStep::Adjusted(configuration) => SetupStep::Ready(
                    CoreAudioBackend::idle(device, info, configuration),
                ),
                AdjustmentStep::Failed => SetupStep::Failed(NewBackendError::DeviceQueryFailed),
            },
        }
    }

    /// Begins to make a backend on the default output device.
    pub fn new(wanted: Option<Configuration>) -> (r: Setup)
        ensures
            r == (Setup::FindDevice { wanted }),
    {
        Setup::FindDevice { wanted }
    }

    /// The request to make now.
    pub fn request(&self) -> (r: DeviceRequest)
        ensures
            r == self.asks(),
    {
        match self {
            Setup::FindDevice { wanted: _ } => DeviceRequest::DefaultDevice,
            Setup::Describe { device, wanted: _ } => DeviceRequest::Describe { device: *device },
            Setup::Adjust { device: _, info: _, adjustment } => adjustment.request(),
        }
    }

    /// Decides what comes of the reply to the request.
    pub fn next<P, K>(self, reply: DeviceReply) -> (r: SetupStep<P, K>)
        requires
            self.asks().answered_by(reply),
        ensures
            r == self.after::<P, K>(reply),
    {
        match self {
            Setup::FindDevice { wanted } => match reply {
                DeviceReply::Device(device) => SetupStep::Go(Setup::Describe { device, wanted }),
                _ => SetupStep::Failed(NewBackendError::NoDefaultDevice),
            },
            Setup::Describe { device, wanted } => match reply {
                DeviceReply::Description(info) => {
                    let adjustment: Adjustment = match wanted {
                        Some(configuration) => {
                            if !info.supports(&configuration) {
                                return SetupStep::Failed(
                                    NewBackendError::UnsupportedConfiguration,
                                );
                            }
                            Adjustment::SampleRate { device, wanted: configuration }
                        },
                        None => Adjustment::ReadBack {
                            device,
                            channel_count: info.max_channel_count,
                        },
                    };
                    SetupStep::Go(Setup::Adjust { device, info, adjustment })
                },
                _ => SetupStep::Failed(NewBackendError::DeviceQueryFailed),
            },
            Setup::Adjust { device, info, adjustment } => match adjustment.next(reply) {
                AdjustmentStep::Go(adjustment) => SetupStep::Go(
                    Setup::Adjust { device, info, adjustment },
                ),
                AdjustmentStep::Adjusted(configuration) => SetupStep::Ready(
                    CoreAudioBackend {
                        device,
                        device_info: info,
                        configuration,
                        audio_io_proc: None,
                        callback: None,
                    },
                ),
                AdjustmentStep::Failed => SetupStep::Failed(NewBackendError::DeviceQueryFailed),
            },
        }
    }
}

/// A backend on a device, with a registered procedure `P` while it is started, and a callback `K`
/// that the procedure calls.
pub struct CoreAudioBackend<P, K> {
    pub device: u32,
    pub device_info: DeviceInfo,
    pub configuration: Configuration,
    pub audio_io_proc: Option<P>,
    pub callback: Option<K>,
}

/// What a backend gives up when it stops: the procedure to destroy, and then the callback to free.
pub struct Released<P, K> {
    pub audio_io_proc: P,
    pub callback: Option<K>,
}

impl<P, K> CoreAudioBackend<P, K> {
    /// A backend that is not started.
    pub open spec fn idle(
        device: u32,
        device_info: DeviceInfo,
        configuration: Configuration,
    ) -> Self {
        CoreAudioBackend {
            device,
            device_info,
            configuration,
            audio_io_proc: None,
            callback: None,
        }
    }

    /// A procedure that is registered has a callback to call.
    pub open spec fn wf(self) -> bool {
        self.audio_io_proc is Some ==> self.callback is Some
    }

    /// The configuration in use.
    pub fn configuration(&self) -> (r: Configuration)
        ensures
            r == self.configuration,
    {
        self.configuration
    }

    /// Check if the backend is started.
    pub fn has_started(&self) -> (r: bool)
        ensures
            r == self.audio_io_proc is Some,
    {
        self.audio_io_proc.is_some()
    }

    /// Begins to configure the device: refuses while the backend is started, and what the device
    /// does not support.
    pub fn configure(&self, configuration: Configuration) -> (r: Result<
        Adjustment,
        ConfigureError,
    >)
        ensures
            r == if self.audio_io_proc is Some {
                Err(ConfigureError::AlreadyStarted)
            } else if !self.device_info.can_do(configuration) {
                Err(ConfigureError::UnsupportedConfiguration)
            } else {
                Ok(Adjustment::SampleRate { device: self.device, wanted: configuration })
            },
    {
        if self.has_started() {
            return Err(ConfigureError::AlreadyStarted);
        }
        if !self.device_info.supports(&configuration) {
            return Err(ConfigureError::UnsupportedConfiguration);
        }
        Ok(Adjustment::SampleRate { device: self.device, wanted: configuration })
    }

    /// Completes a configuration: `None` stands for a device that could not be adjusted.
    pub fn finish_configure(&mut self, adjusted: Option<Configuration>) -> (r: Result<
        (),
        ConfigureError,
    >)
        requires
            old(self).wf(),
        ensures
            final(self).wf(),
            match adjusted {
                Some(configuration) => {
                    &&& r is Ok
                    &&& *final(self) == (CoreAudioBackend { configuration, ..*old(self) })
                },
                None => {
                    &&& r == Err::<(), ConfigureError>(ConfigureError::DeviceConfigureFailed)
                    &&& *final(self) == *old(self)
                },
            },
    {
        match adjusted {
            Some(configuration) => {
                self.configuration = configuration;
                Ok(())
            },
            None => Err(ConfigureError::DeviceConfigureFailed),
        }
    }

    /// Stops the backend; `None` where it is not started. The first step of a start, too.
    pub fn stop(&mut self) -> (r: Option<Released<P, K>>)
        requires
            old(self).wf(),
        ensures
            final(self).wf(),
            match old(self).audio_io_proc {
                None => r is None && *final(self) == *old(self),
                Some(audio_io_proc) => {
                    &&& r == Some(Released { audio_io_proc, callback: old(self).callback })
                    &&& *final(self) == (CoreAudioBackend {
                        audio_io_proc: None,
                        callback: None,
                        ..*old(self)
                    })
                },
            },
    {
        match self.audio_io_proc.take() {
            Some(audio_io_proc) => Some(
                Released { audio_io_proc, callback: self.callback.take() },
            ),
            None => None,
        }
    }

    /// The second step of a start: keeps the callback once a procedure was created for it, and
    /// otherwise hands it back, to be freed, with the start failed.
    pub fn attach(&mut self, callback: K, created: bool) -> (r: Result<(), K>)
        requires
            old(self).wf(),
            old(self).audio_io_proc is None,
        ensures
            final(self).wf(),
            created ==> r is Ok && *final(self) == (CoreAudioBackend {
                callback: Some(callback),
                ..*old(self)
            }),
            !created ==> r == Err::<(), K>(callback) && *final(self) == *old(self),
    {
        if created {
            self.callback = Some(callback);
            Ok(())
        } else {
            Err(callback)
        }
    }

    /// The last step of a start: keeps the procedure once the device runs it, and otherwise hands
    /// it back, to be destroyed, with the start failed. The callback stays attached either way.
    pub fn finish_start(&mut self, audio_io_proc: P, running: bool) -> (r: Result<(), P>)
        requires
            old(self).wf(),
            old(self).audio_io_proc is None,
            old(self).callback is Some,
        ensures
            final(self).wf(),
            running ==> r is Ok && *final(self) == (CoreAudioBackend {
                audio_io_proc: Some(audio_io_proc),
                ..*old(self)
            }),
            !running ==> r == Err::<(), P>(audio_io_proc) && *final(self) == *old(self),
    {
        if running {
            self.audio_io_proc = Some(audio_io_proc);
            Ok(())
        } else {
            Err(audio_io_proc)
        }
    }
}

/// The extent of an output buffer.
#[derive(Debug, Clone, Copy, PartialEq, Eq, Structural)]
pub struct BufferExtent {
    /// The number of samples.
    pub samples: usize,
    /// The number of whole frames.
    pub frames: usize,
}

/// The extent of an output buffer of `byte_size` bytes of four-byte samples.
pub fn buffer_extent(byte_size: u32, channels: u32) -> (r: BufferExtent)
    requires
        channels > 0,
    ensures
        r.samples == byte_size as int / 4,
        r.frames == byte_size as int / 4 / channels as int,
{
    let samples: usize = byte_size as usize / 4;
    BufferExtent { samples, frames: samples / channels as usize }
}

/// What a setup comes to when `replies` come in one after the other.
pub open spec fn setup_outcome<P, K>(setup: Setup, replies: Seq<DeviceReply>) -> SetupStep<P, K>
    decreases replies.len(),
{
    if replies.len() == 0 {
        SetupStep::Go(setup)
    } else {
        match setup.after::<P, K>(replies[0]) {
            SetupStep::Go(next) => setup_outcome(next, replies.skip(1)),
            done => done,
        }
    }
}

/// With all requests answered, a backend is made exactly if the device supports the wanted
/// configuration. It reports the channels that were wanted, and the sample rate and buffer size
/// that the device has in the end.
pub proof fn law_setup_with_configuration<P, K>(
    wanted: Configuration,
    device: u32,
    info: DeviceInfo,
    sample_rate: u32,
    frames: u32,
)
    ensures
        setup_outcome::<P, K>(
            Setup::FindDevice { wanted: Some(wanted) },
            seq![
                DeviceReply::Device(device),
                DeviceReply::Description(info),
                DeviceReply::Done,
                DeviceReply::Done,
                DeviceReply::Settings { sample_rate, frames },
            ],
        ) == if info.can_do(wanted) {
            SetupStep::Ready(
                CoreAudioBackend::<P, K>::idle(
                    device,
                    info,
                    Configuration {
                        channel_count: wanted.channel_count,
                        sample_rate,
                        buffer_size: frames as usize,
                    },
                ),
            )
        } else {
            SetupStep::Failed(NewBackendError::UnsupportedConfiguration)
        },
{
    let replies = seq![
        DeviceReply::Device(device),
        DeviceReply::Description(info),
        DeviceReply::Done,
        DeviceReply::Done,
        DeviceReply::Settings { sample_rate, frames },
    ];
    reveal_with_fuel(setup_outcome, 6);
    assert(replies.skip(1).skip(1).skip(1).skip(1)[0] == replies[4]);
}

/// Without a wanted configuration the device is left as it is: the backend is made from what the
/// device reports, with all its channels.
pub proof fn law_setup_with_default_configuration<P, K>(
    device: u32,
    info: DeviceInfo,
    sample_rate: u32,
    frames: u32,
)
    ensures
        setup_outcome::<P, K>(
            Setup::FindDevice { wanted: None },
            seq![
                DeviceReply::Device(device),
                DeviceReply::Description(info),
                DeviceReply::Settings { sample_rate, frames },
            ],
        ) == SetupStep::Ready(
            CoreAudioBackend::<P, K>::idle(
                device,
                info,
                Configuration {
                    channel_count: info.max_channel_count,
                    sample_rate,
                    buffer_size: frames as usize,
                },
            ),
        ),
{
    let replies = seq![
        DeviceReply::Device(device),
        DeviceReply::Description(info),
        DeviceReply::Settings { sample_rate, frames },
    ];
    reveal_with_fuel(setup_outcome, 4);
    assert(replies.skip(1).skip(1)[0] == replies[2]);
}

/// A request that fails ends the setup: for want of a default device if that was asked for, and
/// else because the device could not be queried.
pub proof fn law_failed_request_ends_setup<P, K>(setup: Setup, later: Seq<DeviceReply>)
    ensures
        setup_outcome::<P, K>(setup, seq![DeviceReply::Failed] + later) == SetupStep::<
            P,
            K,
        >::Failed(
            if setup is FindDevice {
                NewBackendError::NoDefaultDevice
            } else {
                NewBackendError::DeviceQueryFailed
            },
        ),
{
    let replies = seq![DeviceReply::Failed] + later;
    assert(replies[0] == DeviceReply::Failed);
}

/// An adjustment sets the sample rate and then the buffer size of its device, and then asks for
/// both.
pub proof fn law_adjustment_order(
    device: u32,
    wanted: Configuration,
    sample_rate: u32,
    frames: u32,
)
    ensures
        ({
            let first = Adjustment::SampleRate { device, wanted };
            let second = Adjustment::BufferFrames { device, wanted };
            let third = Adjustment::ReadBack { device, channel_count: wanted.channel_count };
            &&& first.asks() == DeviceRequest::SetSampleRate {
                device,
                sample_rate: wanted.sample_rate,
            }
            &&& first.after(DeviceReply::Done) == AdjustmentStep::Go(second)
            &&& second.asks() == DeviceRequest::SetBufferFrames {
                device,
                frames: wanted.buffer_size as u32,
            }
            &&& second.after(DeviceReply::Done) == AdjustmentStep::Go(third)
            &&& third.asks() == DeviceRequest::ReadBack { device }
            &&& third.after(DeviceReply::Settings { sample_rate, frames })
                == AdjustmentStep::Adjusted(
                Configuration {
                    channel_count: wanted.channel_count,
                    sample_rate,
                    buffer_size: frames as usize,
                },
            )
            &&& first.after(DeviceReply::Failed) is Failed
            &&& second.after(DeviceReply::Failed) is Failed
            &&& third.after(DeviceReply::Failed) is Failed
        }),
{
}

/// A device supports a configuration that asks for no more channels than it has, for a buffer no
/// smaller than its smallest and no larger than its largest, and for a sample rate between the
/// bounds of one of its ranges, bounds included; and it supports no other.
pub proof fn law_device_supports_what_lies_within_its_limits(
    info: DeviceInfo,
    configuration: Configuration,
)
    ensures
        forall|i: int|
            configuration.channel_count <= info.max_channel_count && info.min_frames
                <= configuration.buffer_size && configuration.buffer_size <= info.max_frames && 0
                <= i < info.sample_rate_ranges@.len() && (
            #[trigger] info.sample_rate_ranges@[i]).min <= configuration.sample_rate
                && configuration.sample_rate <= info.sample_rate_ranges@[i].max ==> info.can_do(
                configuration,
            ),
        configuration.channel_count > info.max_channel_count ==> !info.can_do(configuration),
        configuration.buffer_size < info.min_frames ==> !info.can_do(configuration),
        configuration.buffer_size > info.max_frames ==> !info.can_do(configuration),
        (forall|i: int|
            0 <= i < info.sample_rate_ranges@.len() ==> configuration.sample_rate < (
            #[trigger] info.sample_rate_ranges@[i]).min || configuration.sample_rate
                > info.sample_rate_ranges@[i].max) ==> !info.can_do(configuration),
{
}

/// What a device supports, it supports with fewer channels too; and a device that can do more
/// supports all that it did before.
pub proof fn law_more_capable_device_supports_more(
    info: DeviceInfo,
    wider: DeviceInfo,
    configuration: Configuration,
    channel_count: usize,
)
    requires
        info.can_do(configuration),
        channel_count <= configuration.channel_count,
        wider.max_channel_count >= info.max_channel_count,
        wider.min_frames <= info.min_frames,
        wider.max_frames >= info.max_frames,
        info.sample_rate_ranges@.is_prefix_of(wider.sample_rate_ranges@),
    ensures
        info.can_do(Configuration { channel_count, ..configuration }),
        wider.can_do(configuration),
{
    let i = choose|i: int|
        0 <= i < info.sample_rate_ranges@.len() && (#[trigger] info.sample_rate_ranges@[i]).min
            <= configuration.sample_rate <= info.sample_rate_ranges@[i].max;
    assert(wider.sample_rate_ranges@[i] == info.sample_rate_ranges@[i]);
}

/// The channel counts of no buffers add up to nothing, those of one buffer to that buffer's, and
/// those of two lists to what both add up to.
pub proof fn law_channel_counts_add_up(a: Seq<u32>, b: Seq<u32>, count: u32)
    ensures
        channel_sum(Seq::<u32>::empty()) == 0,
        channel_sum(seq![count]) == count,
        channel_sum(a + b) == channel_sum(a) + channel_sum(b),
    decreases b.len(),
{
    assert(seq![count].drop_last() =~= Seq::empty());
    reveal_with_fuel(channel_sum, 2);
    if b.len() == 0 {
        assert(a + b =~= a);
    } else {
        law_channel_counts_add_up(a, b.drop_last(), count);
        assert((a + b).drop_last() =~= a + b.drop_last());
        assert((a + b).last() == b.last());
    }
}

/// A range of values is read as the system lays it out: two eight-byte numbers in a row, the lower
/// bound first, sixteen bytes for each range.
pub proof fn law_value_range_is_read_as_laid_out(bytes: Seq<u8>, i: int, min: u64, max: u64)
    requires
        0 <= i,
        16 * i + 16 <= bytes.len(),
        bytes.subrange(16 * i, 16 * i + 8) == vstd::bytes::spec_u64_to_le_bytes(min),
        bytes.subrange(16 * i + 8, 16 * i + 16) == vstd::bytes::spec_u64_to_le_bytes(max),
    ensures
        value_range_at(bytes, i).min == min,
        value_range_at(bytes, i).max == max,
        i < bytes.len() as int / VALUE_RANGE_SIZE as int,
{
    vstd::bytes::lemma_auto_spec_u64_to_from_le_bytes();
    assert(i * VALUE_RANGE_SIZE == 16 * i);
}

/// A buffer list is read as the system lays it out: the number of buffers in the first four bytes,
/// and behind eight bytes one buffer after the other, sixteen bytes each, that begins with its
/// channel count in four bytes. It is complete if it is that long.
pub proof fn law_buffer_list_is_read_as_laid_out(
    bytes: Seq<u8>,
    count: u32,
    i: int,
    channels: u32,
)
    requires
        bytes.len() >= 8,
        bytes.subrange(0, 4) == vstd::bytes::spec_u32_to_le_bytes(count),
        0 <= i < count,
        8 + 16 * count <= bytes.len() ==> bytes.subrange(8 + 16 * i, 8 + 16 * i + 4)
            == vstd::bytes::spec_u32_to_le_bytes(channels),
    ensures
        buffer_count(bytes) == count,
        buffer_list_complete(bytes) <==> 8 + 16 * count <= bytes.len(),
        buffer_list_complete(bytes) ==> buffer_channels_at(bytes, i) == channels,
{
    vstd::bytes::lemma_auto_spec_u32_to_from_le_bytes();
    assert(vstd::bytes::spec_u32_to_le_bytes(count).len() == 4);
    assert(vstd::bytes::spec_u32_to_le_bytes(channels).len() == 4);
    assert(i * BUFFER_SIZE == 16 * i);
    assert(count * BUFFER_SIZE == 16 * count);
}

/// A buffer list without buffers is complete with its first eight bytes, and none is with fewer.
pub proof fn law_short_buffer_lists(bytes: Seq<u8>)
    ensures
        bytes.len() < 8 ==> !buffer_list_complete(bytes),
        bytes.len() >= 8 && bytes.subrange(0, 4) == vstd::bytes::spec_u32_to_le_bytes(0)
            ==> buffer_list_complete(bytes),
{
    vstd::bytes::lemma_auto_spec_u32_to_from_le_bytes();
    assert(vstd::bytes::spec_u32_to_le_bytes(0).len() == 4);
}

/// A failure answers every request. Besides it, the question for a device is answered by a device,
/// that for a description by a description, a change by the word that it is done, and the question
/// for the settings by settings.
pub proof fn law_every_request_has_its_answer(
    device: u32,
    number: u32,
    info: DeviceInfo,
    sample_rate: u32,
    frames: u32,
    request: DeviceRequest,
)
    ensures
        request.answered_by(DeviceReply::Failed),
        request.answered_by(DeviceReply::Device(number)) <==> request is DefaultDevice,
        request.answered_by(DeviceReply::Description(info)) <==> request is Describe,
        request.answered_by(DeviceReply::Done) <==> request is SetSampleRate
            || request is SetBufferFrames,
        request.answered_by(DeviceReply::Settings { sample_rate, frames })
            <==> request is ReadBack,
{
}

/// A setup asks which device is the default one, then what that device can do, then sets that
/// device to the wanted sample rate and buffer size, and then asks that device for both. It goes on
/// to the adjustment exactly if the device can do what is wanted. Without a wanted configuration it
/// sets nothing.
pub proof fn law_setup_asks_one_thing_after_the_other<P, K>(
    device: u32,
    wanted: Configuration,
    info: DeviceInfo,
)
    ensures
        ({
            let found = Setup::FindDevice { wanted: Some(wanted) };
            let described = Setup::Describe { device, wanted: Some(wanted) };
            &&& found.asks() == DeviceRequest::DefaultDevice
            &&& found.after::<P, K>(DeviceReply::Device(device)) == SetupStep::<P, K>::Go(described)
            &&& described.asks() == DeviceRequest::Describe { device }
            &&& described.after::<P, K>(DeviceReply::Description(info)) is Go
                <==> info.can_do(wanted)
            &&& described.after::<P, K>(DeviceReply::Description(info)) matches SetupStep::Go(next)
                ==> next.asks() == DeviceRequest::SetSampleRate {
                device,
                sample_rate: wanted.sample_rate,
            }
        }),
        ({
            let found = Setup::FindDevice { wanted: None };
            let described = Setup::Describe { device, wanted: None };
            &&& found.asks() == DeviceRequest::DefaultDevice
            &&& found.after::<P, K>(DeviceReply::Device(device)) == SetupStep::<P, K>::Go(described)
            &&& described.asks() == DeviceRequest::Describe { device }
            &&& described.after::<P, K>(DeviceReply::Description(info)) matches SetupStep::Go(next)
                && next.asks() == DeviceRequest::ReadBack { device }
        }),
{
}

/// While a setup adjusts its device, it asks what the adjustment asks; each change that is done
/// leads to the next request to the same device, and the settings that are read back make the
/// backend: on that device, with what it can do, with the sample rate and buffer size that it has,
/// and not started.
pub proof fn law_setup_ends_with_what_the_device_has<P, K>(
    device: u32,
    info: DeviceInfo,
    wanted: Configuration,
    channel_count: usize,
    sample_rate: u32,
    frames: u32,
)
    ensures
        ({
            let first = Setup::Adjust {
                device,
                info,
                adjustment: Adjustment::SampleRate { device, wanted },
            };
            let second = Setup::Adjust {
                device,
                info,
                adjustment: Adjustment::BufferFrames { device, wanted },
            };
            let third = Setup::Adjust {
                device,
                info,
                adjustment: Adjustment::ReadBack { device, channel_count: wanted.channel_count },
            };
            &&& first.asks() == DeviceRequest::SetSampleRate {
                device,
                sample_rate: wanted.sample_rate,
            }
            &&& first.after::<P, K>(DeviceReply::Done) == SetupStep::<P, K>::Go(second)
            &&& second.asks() == DeviceRequest::SetBufferFrames {
                device,
                frames: wanted.buffer_size as u32,
            }
            &&& second.after::<P, K>(DeviceReply::Done) == SetupStep::<P, K>::Go(third)
        }),
        ({
            let last = Setup::Adjust {
                device,
                info,
                adjustment: Adjustment::ReadBack { device, channel_count },
            };
            &&& last.asks() == DeviceRequest::ReadBack { device }
            &&& last.after::<P, K>(DeviceReply::Settings { sample_rate, frames }) matches
                SetupStep::Ready(backend)
            &&& backend.device == device
            &&& backend.device_info == info
            &&& backend.configuration.channel_count == channel_count
            &&& backend.configuration.sample_rate == sample_rate
            &&& backend.configuration.buffer_size == frames
            &&& backend.audio_io_proc is None
            &&& backend.callback is None
        }),
{
}

/// A setup that fails says why: no default device, a device that could not be queried or set, or a
/// configuration that the device does not support.
pub proof fn law_setup_says_why_it_failed<P, K>(
    setup: Setup,
    reply: DeviceReply,
    error: NewBackendError,
)
    requires
        setup.asks().answered_by(reply),
        setup.after::<P, K>(reply) == SetupStep::<P, K>::Failed(error),
    ensures
        error is NoDefaultDevice <==> setup is FindDevice,
        error is NoDefaultDevice ==> reply is Failed,
        error is DeviceQueryFailed <==> !(setup is FindDevice) && reply is Failed,
        error is UnsupportedConfiguration <==> setup is Describe && !(reply is Failed),
{
}

/// A backend that is not started may lack both a procedure and a callback; one that is started has
/// both.
pub proof fn law_started_backend_has_a_callback<P, K>(backend: CoreAudioBackend<P, K>)
    ensures
        backend.audio_io_proc is None ==> backend.wf(),
        backend.callback is Some ==> backend.wf(),
        backend.wf() && backend.audio_io_proc is Some ==> backend.callback is Some,
{
}

} // verus!
