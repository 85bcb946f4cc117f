//! Output devices and the stream configurations they support.
use vstd::prelude::*;

verus! {

/// Buffer size preference.
#[derive(Debug, Clone, Copy, PartialEq, Eq, Structural)]
pub enum BufferSize {
    /// Let the backend choose the buffer size.
    Default,
    /// Request a specific buffer size (in frames).
    Fixed(u32),
}

/// A stream configuration.
#[derive(Debug)]
pub struct StreamConfig {
    /// Number of channels.
    pub channels: u16,
    /// Sample rate in Hz.
    pub sample_rate: u32,
    /// Buffer size preference.
    pub buffer_size: BufferSize,
}

impl Clone for StreamConfig {
    fn clone(&self) -> (r: Self)
        ensures
            r == *self,
    {
        StreamConfig {
            channels: self.channels,
            sample_rate: self.sample_rate,
            buffer_size: self.buffer_size,
        }
    }
}

/// A supported stream configuration range: one channel count, and every sample rate from the
/// lower to the upper bound.
#[derive(Debug)]
pub struct SupportedStreamConfigRange {
    /// Number of channels.
    pub channels: u16,
    /// Lowest sample rate in Hz.
    pub min_sample_rate: u32,
    /// Highest sample rate in Hz.
    pub max_sample_rate: u32,
}

/// The value of `low..=high` that is closest to `x`.
pub open spec fn clamped(x: int, low: int, high: int) -> int {
    if x < low {
        low
    } else if x > high {
        high
    } else {
        x
    }
}

impl SupportedStreamConfigRange {
    /// Whether the bounds are in order, so that the range holds a sample rate at all.
    pub open spec fn ordered(self) -> bool {
        self.min_sample_rate <= self.max_sample_rate
    }

    /// Whether the range meets a request; `None` asks for nothing.
    pub open spec fn matches_request(
        self,
        channels: Option<u16>,
        sample_rate: Option<u32>,
    ) -> bool {
        &&& channels matches Some(ch) ==> self.channels == ch
        &&& sample_rate matches Some(sr) ==> self.min_sample_rate <= sr <= self.max_sample_rate
    }

    /// The configuration that a request gets from a range that meets it: the requested sample
    /// rate, or the middle of the range where none was requested.
    pub open spec fn config_for(
        self,
        sample_rate: Option<u32>,
        buffer_size: BufferSize,
    ) -> StreamConfig {
        StreamConfig {
            channels: self.channels,
            sample_rate: match sample_rate {
                Some(sr) => sr,
                None => ((self.min_sample_rate + self.max_sample_rate) / 2) as u32,
            },
            buffer_size,
        }
    }

    /// Tests whether the range meets a request.
    fn meets(&self, channels: Option<u16>, sample_rate: Option<u32>) -> (r: bool)
        ensures
            r == self.matches_request(channels, sample_rate),
    {
        if let Some(ch) = channels {
            if self.channels() != ch {
                return false;
            }
        }
        if let Some(sr) = sample_rate {
            if sr < self.min_sample_rate() || sr > self.max_sample_rate() {
                return false;
            }
        }
        true
    }

    /// A range of the given channel count and bounds.
    pub fn new(channels: u16, min_sample_rate: u32, max_sample_rate: u32) -> (r: Self)
        ensures
            r == (SupportedStreamConfigRange { channels, min_sample_rate, max_sample_rate }),
    {
        SupportedStreamConfigRange { channels, min_sample_rate, max_sample_rate }
    }

    /// Get the number of channels.
    pub fn channels(&self) -> (r: u16)
        ensures
            r == self.channels,
    {
        self.channels
    }

    /// Get the minimum sample rate.
    pub fn min_sample_rate(&self) -> (r: u32)
        ensures
            r == self.min_sample_rate,
    {
        self.min_sample_rate
    }

    /// Get the maximum sample rate.
    pub fn max_sample_rate(&self) -> (r: u32)
        ensures
            r == self.max_sample_rate,
    {
        self.max_sample_rate
    }

    /// Get a config with a specific sample rate (clamped to the supported range), and with the
    /// buffer size left to the backend.
    pub fn with_sample_rate(&self, sample_rate: u32) -> (r: StreamConfig)
        requires
            self.ordered(),
        ensures
            r.channels == self.channels,
            r.sample_rate == clamped(
                sample_rate as int,
                self.min_sample_rate as int,
                self.max_sample_rate as int,
            ),
            r.buffer_size == BufferSize::Default,
    {
        let raised: u32 = if sample_rate < self.min_sample_rate {
            self.min_sample_rate
        } else {
            sample_rate
        };
        let rate: u32 = if raised > self.max_sample_rate {
            self.max_sample_rate
        } else {
            raised
        };
        StreamConfig { channels: self.channels, sample_rate: rate, buffer_size: BufferSize::Default }
    }
}

/// Whether `i` is the first of `ranges` that meets the request.
pub open spec fn is_first_match(
    ranges: Seq<SupportedStreamConfigRange>,
    channels: Option<u16>,
    sample_rate: Option<u32>,
    i: int,
) -> bool {
    &&& 0 <= i < ranges.len()
    &&& ranges[i].matches_request(channels, sample_rate)
    &&& forall|j: int| 0 <= j < i ==> !(#[trigger] ranges[j]).matches_request(channels, sample_rate)
}

/// An audio output device, as the choice of a configuration sees it: the configurations that the
/// device reports, in the order in which it reports them, or that it could not be asked.
pub struct AudioDevice {
    /// What the device answered when asked for its output configurations.
    pub supported: Result<Vec<SupportedStreamConfigRange>, SupportedConfigsError>,
}

impl AudioDevice {
    /// The configurations that the device reported; none where it could not be asked.
    pub open spec fn ranges(self) -> Seq<SupportedStreamConfigRange> {
        match self.supported {
            Ok(ranges) => ranges@,
            Err(_) => Seq::empty(),
        }
    }

    /// A device that answered with `supported`.
    pub fn new(supported: Result<Vec<SupportedStreamConfigRange>, SupportedConfigsError>) -> (r:
        Self)
        ensures
            r.supported == supported,
    {
        AudioDevice { supported }
    }

    /// Get the supported output configurations for this device.
    pub fn supported_output_configs(&self) -> (r: Result<
        &Vec<SupportedStreamConfigRange>,
        SupportedConfigsError,
    >)
        ensures
            match self.supported {
                Ok(ranges) => r matches Ok(reported) && *reported == ranges,
                Err(_) => r is Err,
            },
    {
        match &self.supported {
            Ok(ranges) => Ok(ranges),
            Err(_) => Err(SupportedConfigsError),
        }
    }

    /// Whether a configuration can be looked for: where no sample rate is asked for, the first
    /// matching range has to hold one.
    pub open spec fn searchable(self, channels: Option<u16>, sample_rate: Option<u32>) -> bool {
        sample_rate is None ==> forall|i: int| #[trigger]
            is_first_match(self.ranges(), channels, sample_rate, i)
                ==> self.ranges()[i].ordered()
    }

    /// Tests whether a configuration can be looked for.
    pub fn can_find_output_config(&self, channels: Option<u16>, sample_rate: Option<u32>) -> (r:
        bool)
        ensures
            r == self.searchable(channels, sample_rate),
    {
        let ranges: &Vec<SupportedStreamConfigRange> = match self.supported_output_configs() {
            Ok(ranges) => ranges,
            Err(_) => return true,
        };
        if sample_rate.is_some() {
            return true;
        }
        for i in 0..ranges.len()
            invariant
                self.ranges() == ranges@,
                sample_rate is None,
                forall|j: int|
                    0 <= j < i ==> !(#[trigger] ranges@[j]).matches_request(channels, sample_rate),
        {
            let range = &ranges[i];
            if range.meets(channels, sample_rate) {
                assert(is_first_match(self.ranges(), channels, sample_rate, i as int));
                proof {
                    assert forall|j: int| #[trigger]
                        is_first_match(self.ranges(), channels, sample_rate, j) implies j == i by {
                        law_first_match_is_unique(
                            self.ranges(),
                            channels,
                            sample_rate,
                            i as int,
                            j,
                        );
                    }
                }
                return range.min_sample_rate <= range.max_sample_rate;
            }
        }
        true
    }

    /// Find an output configuration matching the given requirements.
    ///
    /// Returns the first config that matches all specified criteria.
    /// Use `None` for channels/sample_rate you don't care about.
    pub fn find_output_config(
        &self,
        channels: Option<u16>,
        sample_rate: Option<u32>,
        buffer_size: BufferSize,
    ) -> (r: Option<StreamConfig>)
        requires
            self.searchable(channels, sample_rate),
        ensures
            r is None <==> forall|i: int|
                0 <= i < self.ranges().len() ==> !(#[trigger] self.ranges()[i]).matches_request(
                    channels,
                    sample_rate,
                ),
            r matches Some(config) ==> exists|i: int| #[trigger]
                is_first_match(self.ranges(), channels, sample_rate, i) && config
                    == self.ranges()[i].config_for(sample_rate, buffer_size),
            self.supported is Err ==> r is None,
            forall|range: SupportedStreamConfigRange| #[trigger]
                self.ranges().contains(range) && (channels is None || channels == Some(
                    range.channels,
                )) && (sample_rate is None || (range.min_sample_rate <= sample_rate->0
                    && sample_rate->0 <= range.max_sample_rate)) ==> r is Some,
            self.supported matches Ok(ranges) ==> self.ranges() == ranges@,
            r matches Some(config) ==> {
                &&& config.buffer_size == buffer_size
                &&& channels matches Some(ch) ==> config.channels == ch
                &&& sample_rate matches Some(sr) ==> config.sample_rate == sr
            },
    {
        let ranges: &Vec<SupportedStreamConfigRange> = match self.supported_output_configs() {
            Ok(ranges) => ranges,
            Err(_) => return None,
        };
        for i in 0..ranges.len()
            invariant
                self.ranges() == ranges@,
                self.searchable(channels, sample_rate),
                forall|j: int|
                    0 <= j < i ==> !(#[trigger] ranges@[j]).matches_request(channels, sample_rate),
        {
            let range = &ranges[i];
            if range.meets(channels, sample_rate) {
                assert(is_first_match(self.ranges(), channels, sample_rate, i as int));
                let rate: u32 = match sample_rate {
                    Some(sr) => sr,
                    None => range.min_sample_rate() + (range.max_sample_rate()
                        - range.min_sample_rate()) / 2,
                };
                let mut config = range.with_sample_rate(rate);
                config.buffer_size = buffer_size;
                return Some(config);
            }
        }
        None
    }
}

/// Failed to enumerate audio devices.
#[derive(Debug)]
pub struct EnumerateError;

impl EnumerateError {
    /// The error in words.
    pub fn message(&self) -> (r: String)
        ensures
            r@ == "Failed to enumerate audio devices"@,
    {
        "Failed to enumerate audio devices".to_owned()
    }
}

/// Failed to get a device's name.
#[derive(Debug)]
pub struct DeviceNameError;

impl DeviceNameError {
    /// The error in words.
    pub fn message(&self) -> (r: String)
        ensures
            r@ == "Failed to get device name"@,
    {
        "Failed to get device name".to_owned()
    }
}

/// Failed to get a device's supported configurations.
#[derive(Debug)]
pub struct SupportedConfigsError;

impl SupportedConfigsError {
    /// The error in words.
    pub fn message(&self) -> (r: String)
        ensures
            r@ == "Failed to get supported configurations"@,
    {
        "Failed to get supported configurations".to_owned()
    }
}

/// Failed to get a device's default configuration.
#[derive(Debug)]
pub struct DefaultConfigError;

impl DefaultConfigError {
    /// The error in words.
    pub fn message(&self) -> (r: String)
        ensures
            r@ == "Failed to get default configuration"@,
    {
        "Failed to get default configuration".to_owned()
    }
}

/// A configuration that is found honours the request: it has the channels, the sample rate and
/// the buffer size that were asked for, and a sample rate that the device supports.
pub proof fn law_found_config_honours_request(
    ranges: Seq<SupportedStreamConfigRange>,
    channels: Option<u16>,
    sample_rate: Option<u32>,
    buffer_size: BufferSize,
    i: int,
)
    requires
        is_first_match(ranges, channels, sample_rate, i),
        sample_rate is None ==> ranges[i].ordered(),
    ensures
        ({
            let config = ranges[i].config_for(sample_rate, buffer_size);
            &&& channels matches Some(ch) ==> config.channels == ch
            &&& sample_rate matches Some(sr) ==> config.sample_rate == sr
            &&& config.buffer_size == buffer_size
            &&& config.channels == ranges[i].channels
            &&& ranges[i].min_sample_rate <= config.sample_rate <= ranges[i].max_sample_rate
        }),
{
}

/// The contract of the search names one configuration: there is at most one first match.
pub proof fn law_first_match_is_unique(
    ranges: Seq<SupportedStreamConfigRange>,
    channels: Option<u16>,
    sample_rate: Option<u32>,
    i: int,
    j: int,
)
    requires
        is_first_match(ranges, channels, sample_rate, i),
        is_first_match(ranges, channels, sample_rate, j),
    ensures
        i == j,
{
    assert(ranges[i].matches_request(channels, sample_rate));
    assert(ranges[j].matches_request(channels, sample_rate));
}

/// Asking for less never loses a configuration: a range that meets a request meets every request
/// that leaves some of it open.
pub proof fn law_open_request_is_weaker(
    range: SupportedStreamConfigRange,
    channels: Option<u16>,
    sample_rate: Option<u32>,
)
    requires
        range.matches_request(channels, sample_rate),
    ensures
        range.matches_request(None, sample_rate),
        range.matches_request(channels, None),
        range.matches_request(None, None),
{
}

/// The search is complete: if some range that the device reported has the requested number of
/// channels and holds the requested sample rate, both bounds included, there is a first match. What
/// was not requested does not matter.
pub proof fn law_matching_range_is_found(
    ranges: Seq<SupportedStreamConfigRange>,
    channels: Option<u16>,
    sample_rate: Option<u32>,
    i: int,
)
    requires
        0 <= i < ranges.len(),
        channels matches Some(ch) ==> ranges[i].channels == ch,
        sample_rate matches Some(sr) ==> ranges[i].min_sample_rate <= sr && sr
            <= ranges[i].max_sample_rate,
    ensures
        exists|first: int| first <= i && #[trigger]
            is_first_match(ranges, channels, sample_rate, first),
        !(forall|j: int|
            0 <= j < ranges.len() ==> !(#[trigger] ranges[j]).matches_request(
                channels,
                sample_rate,
            )),
    decreases i,
{
    assert(ranges[i].matches_request(channels, sample_rate));
    if forall|j: int|
        0 <= j < i ==> !(#[trigger] ranges[j]).matches_request(channels, sample_rate) {
        assert(is_first_match(ranges, channels, sample_rate, i));
    } else {
        let j = choose|j: int|
            0 <= j < i && (#[trigger] ranges[j]).matches_request(channels, sample_rate);
        law_match_has_what_was_requested(ranges[j], channels, sample_rate);
        law_matching_range_is_found(ranges, channels, sample_rate, j);
    }
}

/// A range meets a request exactly if it has the requested number of channels and holds the
/// requested sample rate, both bounds included.
pub proof fn law_match_has_what_was_requested(
    range: SupportedStreamConfigRange,
    channels: Option<u16>,
    sample_rate: Option<u32>,
)
    ensures
        range.matches_request(channels, sample_rate) <==> {
            &&& channels is None || channels == Some(range.channels)
            &&& sample_rate is None || range.min_sample_rate <= sample_rate->0
                && sample_rate->0 <= range.max_sample_rate
        },
{
}

/// The first match is the earliest range that has what was requested: none before it has the
/// requested channels and holds the requested rate.
pub proof fn law_nothing_before_the_first_match(
    ranges: Seq<SupportedStreamConfigRange>,
    channels: Option<u16>,
    sample_rate: Option<u32>,
    first: int,
    j: int,
)
    requires
        is_first_match(ranges, channels, sample_rate, first),
        0 <= j < first,
    ensures
        0 <= first < ranges.len(),
        !({
            &&& channels is None || channels == Some(ranges[j].channels)
            &&& sample_rate is None || ranges[j].min_sample_rate <= sample_rate->0
                && sample_rate->0 <= ranges[j].max_sample_rate
        }),
{
    assert(!ranges[j].matches_request(channels, sample_rate));
}

/// Where no sample rate is requested, the middle of the range is taken, rounded down: as far from
/// the lower bound as from the upper one, or one nearer to the lower.
pub proof fn law_open_rate_is_the_middle(
    range: SupportedStreamConfigRange,
    buffer_size: BufferSize,
)
    requires
        range.min_sample_rate <= range.max_sample_rate,
    ensures
        ({
            let config = range.config_for(None, buffer_size);
            let below = config.sample_rate - range.min_sample_rate;
            let above = range.max_sample_rate - config.sample_rate;
            &&& config.channels == range.channels
            &&& config.buffer_size == buffer_size
            &&& 0 <= below <= above <= below + 1
        }),
{
}

/// Clamping leaves a rate of the range as it is, and takes the nearer bound for any other.
pub proof fn law_clamped_rate_is_the_nearest(x: int, low: int, high: int)
    requires
        low <= high,
    ensures
        low <= clamped(x, low, high) <= high,
        low <= x <= high ==> clamped(x, low, high) == x,
        x < low ==> clamped(x, low, high) == low,
        x > high ==> clamped(x, low, high) == high,
{
}

/// A search needs no more of a device than that its ranges are in order; and where a sample rate is
/// requested, not even that.
pub proof fn law_ordered_ranges_can_be_searched(
    device: AudioDevice,
    channels: Option<u16>,
    sample_rate: Option<u32>,
)
    ensures
        sample_rate is Some ==> device.searchable(channels, sample_rate),
        device.supported is Err ==> device.searchable(channels, sample_rate),
        device.supported matches Ok(ranges) ==> (forall|i: int|
            0 <= i < ranges@.len() ==> (#[trigger] ranges@[i]).min_sample_rate
                <= ranges@[i].max_sample_rate) ==> device.searchable(channels, sample_rate),
        device.supported matches Ok(ranges) ==> device.ranges() == ranges@,
{
    if let Ok(ranges) = device.supported {
        if forall|i: int|
            0 <= i < ranges@.len() ==> (#[trigger] ranges@[i]).min_sample_rate
                <= ranges@[i].max_sample_rate {
            assert forall|i: int| #[trigger]
                is_first_match(device.ranges(), channels, sample_rate, i) implies
                device.ranges()[i].ordered() by {
                assert(ranges@[i].min_sample_rate <= ranges@[i].max_sample_rate);
            }
        }
    }
}

/// A range is in order exactly if its lower bound is not above its upper one.
pub proof fn law_ordered_range(range: SupportedStreamConfigRange)
    ensures
        range.ordered() <==> range.min_sample_rate <= range.max_sample_rate,
{
}

} // verus!
