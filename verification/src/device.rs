//! The driver-visible state of one device.
//!
//! The device behaves as a register file behind a get/set interface: every
//! parameter read returns the current register value, every write is validated
//! (range, increment grid, writability, and — while streaming — membership in
//! the live-update allow-list) and either applied in full or rejected with an
//! error code, leaving the state unchanged. [`DeviceModel`] is that register
//! file as plain values, and the contracts of [`DeviceModel::get`],
//! [`DeviceModel::set`] and [`DeviceModel::get_info`] pin the behaviour down
//! exactly; the session types in [`crate::camera`] run the camera protocol on
//! top of it.

use vstd::prelude::*;

use crate::consts::{COUNTER_COUNT, XI_INVALID_ARG, XI_NOT_SUPPORTED, XI_OFF, XI_ON};
use crate::consts::{
    XI_BINNING, XI_DWN_1X1, XI_GAIN_SELECTOR_ALL, XI_LED_HEARTBEAT, XI_LED_SEL1, XI_MONO8,
    XI_TESTPAT_OFF, XI_TRG_OFF, XI_TRG_SOFTWARE,
};
use crate::params::{spec_live_updatable, spec_settable, ParamInfo, ParamKey};

verus! {

/// The largest sensor dimension the model admits. The bound keeps every
/// derived buffer size comfortably inside `u32`.
pub const MAX_SENSOR_DIM: u32 = 8192;

/// The driver-visible state of one connected device: its parameter registers,
/// the ranges it reports for them, the single shared counter-selector
/// register, and whether acquisition is running.
///
/// The two `*_error` fields inject the outcome of the fallible transition
/// calls (begin and end acquisition): zero means the call succeeds, any other
/// value is returned as the driver's error code. They model that a transition
/// may always fail with a device error.
#[verifier::ext_equal]
pub struct DeviceModel {
    /// Width of the region of interest, in pixels.
    pub width: u32,
    /// Height of the region of interest, in pixels.
    pub height: u32,
    /// Horizontal offset of the region of interest, in pixels.
    pub offset_x: u32,
    /// Vertical offset of the region of interest, in pixels.
    pub offset_y: u32,
    /// Grid on which accepted widths lie.
    pub width_inc: u32,
    /// Grid on which accepted heights lie.
    pub height_inc: u32,
    /// Grid on which accepted horizontal offsets lie.
    pub offset_x_inc: u32,
    /// Grid on which accepted vertical offsets lie.
    pub offset_y_inc: u32,
    /// Smallest accepted width.
    pub width_min: u32,
    /// Smallest accepted height.
    pub height_min: u32,
    /// Full sensor width; offset plus width can never exceed it.
    pub sensor_width: u32,
    /// Full sensor height; offset plus height can never exceed it.
    pub sensor_height: u32,
    /// Exposure time in microseconds. Writes are quantised to the grid.
    pub exposure: i32,
    /// Grid on which the device keeps exposure times.
    pub exposure_inc: i32,
    /// Number of exposures in one frame.
    pub exposure_burst_count: i32,
    /// Gain of the selected stage.
    pub gain: i32,
    /// Which gain stage `gain` addresses.
    pub gain_selector: i32,
    /// Resolution reduction value.
    pub downsampling: i32,
    /// Whether downsampling bins or skips.
    pub downsampling_type: i32,
    /// Pixel format of produced frames.
    pub image_data_format: i32,
    /// The generated test pattern.
    pub test_pattern: i32,
    /// Bandwidth limit in megabits per second.
    pub limit_bandwidth: i32,
    /// Measured available bandwidth; read-only.
    pub available_bandwidth: i32,
    /// Whether bandwidth is measured when a device is opened.
    pub auto_bandwidth_calculation: i32,
    /// Source of the frame trigger.
    pub trg_source: i32,
    /// Which event a trigger starts.
    pub trg_selector: i32,
    /// Whether a trigger may overlap the previous exposure.
    pub trg_overlap: i32,
    /// Frames acquired per burst trigger.
    pub acq_frame_burst_count: i32,
    /// Which general-purpose input `gpi_mode` addresses.
    pub gpi_selector: i32,
    /// Behaviour of the selected general-purpose input.
    pub gpi_mode: i32,
    /// Which general-purpose output `gpo_mode` addresses.
    pub gpo_selector: i32,
    /// Behaviour of the selected general-purpose output.
    pub gpo_mode: i32,
    /// Whether the selected general-purpose input is debounced.
    pub debounce_en: i32,
    /// Bit depth of the sensor's analog-to-digital converters.
    pub sensor_data_bit_depth: i32,
    /// Bit depth sent from the camera to the host.
    pub output_data_bit_depth: i32,
    /// Bit depth of the frames handed out to the caller.
    pub image_data_bit_depth: i32,
    /// Whether column fixed-pattern noise is corrected.
    pub column_fpn_correction: i32,
    /// Whether row fixed-pattern noise is corrected.
    pub row_fpn_correction: i32,
    /// Whether the column black offset is corrected.
    pub column_black_offset_correction: i32,
    /// Whether the row black offset is corrected.
    pub row_black_offset_correction: i32,
    /// Which sensor-specific feature `sensor_feature_value` addresses.
    pub sensor_feature_selector: i32,
    /// Value of the selected sensor-specific feature.
    pub sensor_feature_value: i32,
    /// Data move policy of the acquisition buffer.
    pub buffer_policy: i32,
    /// Automatic white balance.
    pub auto_wb: i32,
    /// Which LED `led_mode` addresses.
    pub led_selector: i32,
    /// Behaviour of the selected LED.
    pub led_mode: i32,
    /// Caller-chosen word copied into every frame header.
    pub image_user_data: i32,
    /// Size of the driver-side acquisition buffer, in bytes.
    pub acq_buffer_size: i32,
    /// The single counter-selector register shared by all counter reads.
    pub counter_selector: i32,
    /// The counters, indexed by selector value.
    pub counters: Vec<i32>,
    /// Whether the device is streaming frames.
    pub acquiring: bool,
    /// Software triggers issued and not yet consumed by a frame.
    pub trigger_pending: u32,
    /// Frame sequence number stamped into the next frame.
    pub nframe: u32,
    /// Outcome of the next begin-acquisition call; zero means success.
    pub start_error: i32,
    /// Outcome of the next end-acquisition call; zero means success.
    pub stop_error: i32,
}

impl DeviceModel {
    /// Well-formedness: the reported grids and ranges are sane, the current
    /// region of interest lies on its grids and inside the sensor, and the
    /// counter selector addresses an existing counter.
    pub open spec fn wf(self) -> bool {
        &&& 1 <= self.width_inc
        &&& 1 <= self.height_inc
        &&& 1 <= self.offset_x_inc
        &&& 1 <= self.offset_y_inc
        &&& 1 <= self.exposure_inc
        &&& 1 <= self.width_min <= self.sensor_width <= MAX_SENSOR_DIM
        &&& 1 <= self.height_min <= self.sensor_height <= MAX_SENSOR_DIM
        &&& self.width as int % self.width_inc as int == 0
        &&& self.height as int % self.height_inc as int == 0
        &&& self.offset_x as int % self.offset_x_inc as int == 0
        &&& self.offset_y as int % self.offset_y_inc as int == 0
        &&& self.width_min <= self.width
        &&& self.height_min <= self.height
        &&& self.offset_x + self.width <= self.sensor_width
        &&& self.offset_y + self.height <= self.sensor_height
        &&& self.counters.len() == COUNTER_COUNT
        &&& 0 <= self.counter_selector < COUNTER_COUNT
        &&& 0 <= self.exposure
        &&& 0 <= self.image_data_format
        &&& 0 <= self.image_user_data
        &&& self.auto_bandwidth_calculation == XI_OFF || self.auto_bandwidth_calculation
            == XI_ON
    }

    /// A freshly connected device with factory defaults: full-sensor region of
    /// interest, 8-bit monochrome frames, free-run trigger, all counters zero.
    pub fn new() -> (d: DeviceModel)
        ensures
            d.wf(),
            d.width == 1024 && d.height == 768 && d.offset_x == 0 && d.offset_y == 0,
            d.width_inc == 4 && d.height_inc == 2 && d.offset_x_inc == 2 && d.offset_y_inc == 2,
            d.width_min == 16 && d.height_min == 16,
            d.sensor_width == 1024 && d.sensor_height == 768,
            d.exposure == 10000 && d.exposure_inc == 1,
            d.exposure_burst_count == 1,
            d.gain == 0 && d.gain_selector == XI_GAIN_SELECTOR_ALL,
            d.downsampling == XI_DWN_1X1 && d.downsampling_type == XI_BINNING,
            d.image_data_format == XI_MONO8,
            d.test_pattern == XI_TESTPAT_OFF,
            d.limit_bandwidth == 2500 && d.available_bandwidth == 2500,
            d.auto_bandwidth_calculation == XI_ON,
            d.trg_source == XI_TRG_OFF,
            d.trg_selector == 0 && d.trg_overlap == 0,
            d.acq_frame_burst_count == 1,
            d.gpi_selector == 1 && d.gpi_mode == 0,
            d.gpo_selector == 1 && d.gpo_mode == 0,
            d.debounce_en == XI_OFF,
            d.sensor_data_bit_depth == 8,
            d.output_data_bit_depth == 8,
            d.image_data_bit_depth == 8,
            d.column_fpn_correction == XI_ON && d.row_fpn_correction == XI_ON,
            d.column_black_offset_correction == XI_ON && d.row_black_offset_correction == XI_ON,
            d.sensor_feature_selector == 0 && d.sensor_feature_value == 0,
            d.buffer_policy == 1,
            d.auto_wb == XI_OFF,
            d.led_selector == XI_LED_SEL1 && d.led_mode == XI_LED_HEARTBEAT,
            d.image_user_data == 0,
            d.acq_buffer_size == 52428800,
            d.counter_selector == 0,
            d.counters@ == Seq::new(COUNTER_COUNT as nat, |i: int| 0i32),
            !d.acquiring,
            d.trigger_pending == 0,
            d.nframe == 0,
            d.start_error == 0 && d.stop_error == 0,
    {
        let mut counters: Vec<i32> = Vec::new();
        let mut i: u32 = 0;
        while i < COUNTER_COUNT
            invariant
                i <= COUNTER_COUNT,
                counters@.len() == i,
                forall|j: int| 0 <= j < i ==> counters@[j] == 0i32,
            decreases COUNTER_COUNT - i,
        {
            counters.push(0);
            i = i + 1;
        }
        proof {
            assert(counters@ =~= Seq::new(COUNTER_COUNT as nat, |i: int| 0i32));
        }
        DeviceModel {
            width: 1024,
            height: 768,
            offset_x: 0,
            offset_y: 0,
            width_inc: 4,
            height_inc: 2,
            offset_x_inc: 2,
            offset_y_inc: 2,
            width_min: 16,
            height_min: 16,
            sensor_width: 1024,
            sensor_height: 768,
            exposure: 10000,
            exposure_inc: 1,
            exposure_burst_count: 1,
            gain: 0,
            gain_selector: XI_GAIN_SELECTOR_ALL,
            downsampling: XI_DWN_1X1,
            downsampling_type: XI_BINNING,
            image_data_format: XI_MONO8,
            test_pattern: XI_TESTPAT_OFF,
            limit_bandwidth: 2500,
            available_bandwidth: 2500,
            auto_bandwidth_calculation: XI_ON,
            trg_source: XI_TRG_OFF,
            trg_selector: 0,
            trg_overlap: 0,
            acq_frame_burst_count: 1,
            gpi_selector: 1,
            gpi_mode: 0,
            gpo_selector: 1,
            gpo_mode: 0,
            debounce_en: XI_OFF,
            sensor_data_bit_depth: 8,
            output_data_bit_depth: 8,
            image_data_bit_depth: 8,
            column_fpn_correction: XI_ON,
            row_fpn_correction: XI_ON,
            column_black_offset_correction: XI_ON,
            row_black_offset_correction: XI_ON,
            sensor_feature_selector: 0,
            sensor_feature_value: 0,
            buffer_policy: 1,
            auto_wb: XI_OFF,
            led_selector: XI_LED_SEL1,
            led_mode: XI_LED_HEARTBEAT,
            image_user_data: 0,
            acq_buffer_size: 52428800,
            counter_selector: 0,
            counters,
            acquiring: false,
            trigger_pending: 0,
            nframe: 0,
            start_error: 0,
            stop_error: 0,
        }
    }
}

/// `v` pushed down to the device's grid: the largest multiple of `inc` that is
/// at most `v`.
pub open spec fn spec_quantize(v: i32, inc: i32) -> i32
    recommends
        1 <= inc,
        0 <= v,
{
    (v - v as int % inc as int) as i32
}

/// Facts about quantisation: the result is on the grid, does not exceed the
/// input, and misses it by less than one increment.
pub proof fn lemma_quantize(v: i32, inc: i32)
    requires
        1 <= inc,
        0 <= v,
    ensures
        0 <= spec_quantize(v, inc) <= v,
        v - spec_quantize(v, inc) < inc,
        spec_quantize(v, inc) as int % inc as int == 0,
        0 <= v as int % inc as int <= v,
{
    vstd::arithmetic::div_mod::lemma_mod_decreases(v as nat, inc as nat);
    assert(spec_quantize(v, inc) as int % inc as int == 0) by {
        let q = v as int / inc as int;
        vstd::arithmetic::div_mod::lemma_fundamental_div_mod(v as int, inc as int);
        assert(spec_quantize(v, inc) == q * inc);
        vstd::arithmetic::div_mod::lemma_mod_multiples_basic(q, inc as int);
    }
}

/// Whether the device accepts `v` as a value for `key`, ignoring writability
/// and the streaming gate: the range and grid checks alone.
pub open spec fn spec_set_ok_value(d: DeviceModel, key: ParamKey, v: i32) -> bool {
    match key {
        ParamKey::Exposure => 1 <= v,
        ParamKey::ExposureBurstCount => 1 <= v,
        ParamKey::Gain => true,
        ParamKey::GainSelector => true,
        ParamKey::Downsampling => true,
        ParamKey::DownsamplingType => true,
        ParamKey::ImageDataFormat => 0 <= v,
        ParamKey::TestPattern => true,
        ParamKey::Width => 0 <= v && v as int % d.width_inc as int == 0 && d.width_min <= v && v
            + d.offset_x <= d.sensor_width,
        ParamKey::Height => 0 <= v && v as int % d.height_inc as int == 0 && d.height_min <= v && v
            + d.offset_y <= d.sensor_height,
        ParamKey::OffsetX => 0 <= v && v as int % d.offset_x_inc as int == 0 && v + d.width
            <= d.sensor_width,
        ParamKey::OffsetY => 0 <= v && v as int % d.offset_y_inc as int == 0 && v + d.height
            <= d.sensor_height,
        ParamKey::LimitBandwidth => 1 <= v,
        ParamKey::AvailableBandwidth => true,
        ParamKey::AutoBandwidthCalculation => v == XI_OFF || v == XI_ON,
        ParamKey::TrgSource => true,
        ParamKey::TrgSoftware => true,
        ParamKey::TrgSelector => true,
        ParamKey::TrgOverlap => true,
        ParamKey::AcqFrameBurstCount => 0 <= v,
        ParamKey::GpiSelector => true,
        ParamKey::GpiMode => true,
        ParamKey::GpoSelector => true,
        ParamKey::GpoMode => true,
        ParamKey::DebounceEn => v == XI_OFF || v == XI_ON,
        ParamKey::SensorDataBitDepth => true,
        ParamKey::OutputDataBitDepth => true,
        ParamKey::ImageDataBitDepth => true,
        ParamKey::ColumnFpnCorrection => v == XI_OFF || v == XI_ON,
        ParamKey::RowFpnCorrection => v == XI_OFF || v == XI_ON,
        ParamKey::ColumnBlackOffsetCorrection => v == XI_OFF || v == XI_ON,
        ParamKey::RowBlackOffsetCorrection => v == XI_OFF || v == XI_ON,
        ParamKey::SensorFeatureSelector => true,
        ParamKey::SensorFeatureValue => true,
        ParamKey::BufferPolicy => true,
        ParamKey::AutoWb => true,
        ParamKey::LedSelector => true,
        ParamKey::LedMode => true,
        ParamKey::CounterSelector => 0 <= v < COUNTER_COUNT,
        ParamKey::CounterValue => true,
        ParamKey::ImageUserData => 0 <= v,
        ParamKey::AcqBufferSize => 1 <= v,
    }
}

/// Whether a write of `v` to `key` succeeds: the key is writable, the
/// streaming gate admits it, and the value passes the range and grid checks.
pub open spec fn spec_set_ok(d: DeviceModel, key: ParamKey, v: i32) -> bool {
    &&& spec_settable(key)
    &&& !(d.acquiring && !spec_live_updatable(key))
    &&& spec_set_ok_value(d, key, v)
}

/// The code a failing write returns: writability and the streaming gate are
/// checked first and answer "not supported"; a bad value answers "invalid
/// argument".
pub open spec fn spec_set_err(d: DeviceModel, key: ParamKey, v: i32) -> i32 {
    if !spec_settable(key) {
        XI_NOT_SUPPORTED
    } else if d.acquiring && !spec_live_updatable(key) {
        XI_NOT_SUPPORTED
    } else {
        XI_INVALID_ARG
    }
}

/// The state after a successful write of `v` to `key`. Exposure is quantised
/// to its grid; writing the software-trigger key records a pending trigger
/// when the trigger source is the software trigger; every other key stores the
/// value as given.
pub open spec fn spec_apply_set(d: DeviceModel, key: ParamKey, v: i32) -> DeviceModel {
    match key {
        ParamKey::Exposure => DeviceModel { exposure: spec_quantize(v, d.exposure_inc), ..d },
        ParamKey::ExposureBurstCount => DeviceModel { exposure_burst_count: v, ..d },
        ParamKey::Gain => DeviceModel { gain: v, ..d },
        ParamKey::GainSelector => DeviceModel { gain_selector: v, ..d },
        ParamKey::Downsampling => DeviceModel { downsampling: v, ..d },
        ParamKey::DownsamplingType => DeviceModel { downsampling_type: v, ..d },
        ParamKey::ImageDataFormat => DeviceModel { image_data_format: v, ..d },
        ParamKey::TestPattern => DeviceModel { test_pattern: v, ..d },
        ParamKey::Width => DeviceModel { width: v as u32, ..d },
        ParamKey::Height => DeviceModel { height: v as u32, ..d },
        ParamKey::OffsetX => DeviceModel { offset_x: v as u32, ..d },
        ParamKey::OffsetY => DeviceModel { offset_y: v as u32, ..d },
        ParamKey::LimitBandwidth => DeviceModel { limit_bandwidth: v, ..d },
        ParamKey::AvailableBandwidth => d,
        ParamKey::AutoBandwidthCalculation => DeviceModel {
            auto_bandwidth_calculation: v,
            ..d
        },
        ParamKey::TrgSource => DeviceModel { trg_source: v, ..d },
        ParamKey::TrgSoftware => if d.trg_source == XI_TRG_SOFTWARE {
            DeviceModel {
                trigger_pending: if d.trigger_pending == u32::MAX {
                    u32::MAX
                } else {
                    (d.trigger_pending + 1) as u32
                },
                ..d
            }
        } else {
            d
        },
        ParamKey::TrgSelector => DeviceModel { trg_selector: v, ..d },
        ParamKey::TrgOverlap => DeviceModel { trg_overlap: v, ..d },
        ParamKey::AcqFrameBurstCount => DeviceModel { acq_frame_burst_count: v, ..d },
        ParamKey::GpiSelector => DeviceModel { gpi_selector: v, ..d },
        ParamKey::GpiMode => DeviceModel { gpi_mode: v, ..d },
        ParamKey::GpoSelector => DeviceModel { gpo_selector: v, ..d },
        ParamKey::GpoMode => DeviceModel { gpo_mode: v, ..d },
        ParamKey::DebounceEn => DeviceModel { debounce_en: v, ..d },
        ParamKey::SensorDataBitDepth => DeviceModel { sensor_data_bit_depth: v, ..d },
        ParamKey::OutputDataBitDepth => DeviceModel { output_data_bit_depth: v, ..d },
        ParamKey::ImageDataBitDepth => DeviceModel { image_data_bit_depth: v, ..d },
        ParamKey::ColumnFpnCorrection => DeviceModel { column_fpn_correction: v, ..d },
        ParamKey::RowFpnCorrection => DeviceModel { row_fpn_correction: v, ..d },
        ParamKey::ColumnBlackOffsetCorrection => DeviceModel {
            column_black_offset_correction: v,
            ..d
        },
        ParamKey::RowBlackOffsetCorrection => DeviceModel {
            row_black_offset_correction: v,
            ..d
        },
        ParamKey::SensorFeatureSelector => DeviceModel { sensor_feature_selector: v, ..d },
        ParamKey::SensorFeatureValue => DeviceModel { sensor_feature_value: v, ..d },
        ParamKey::BufferPolicy => DeviceModel { buffer_policy: v, ..d },
        ParamKey::AutoWb => DeviceModel { auto_wb: v, ..d },
        ParamKey::LedSelector => DeviceModel { led_selector: v, ..d },
        ParamKey::LedMode => DeviceModel { led_mode: v, ..d },
        ParamKey::CounterSelector => DeviceModel { counter_selector: v, ..d },
        ParamKey::CounterValue => d,
        ParamKey::ImageUserData => DeviceModel { image_user_data: v, ..d },
        ParamKey::AcqBufferSize => DeviceModel { acq_buffer_size: v, ..d },
    }
}

/// The value a read of `key` returns. Reading the software-trigger key has no
/// stored register and reads as zero; the counter value is the counter the
/// selector register currently addresses.
pub open spec fn spec_get(d: DeviceModel, key: ParamKey) -> i32 {
    match key {
        ParamKey::Exposure => d.exposure,
        ParamKey::ExposureBurstCount => d.exposure_burst_count,
        ParamKey::Gain => d.gain,
        ParamKey::GainSelector => d.gain_selector,
        ParamKey::Downsampling => d.downsampling,
        ParamKey::DownsamplingType => d.downsampling_type,
        ParamKey::ImageDataFormat => d.image_data_format,
        ParamKey::TestPattern => d.test_pattern,
        ParamKey::Width => d.width as i32,
        ParamKey::Height => d.height as i32,
        ParamKey::OffsetX => d.offset_x as i32,
        ParamKey::OffsetY => d.offset_y as i32,
        ParamKey::LimitBandwidth => d.limit_bandwidth,
        ParamKey::AvailableBandwidth => d.available_bandwidth,
        ParamKey::AutoBandwidthCalculation => d.auto_bandwidth_calculation,
        ParamKey::TrgSource => d.trg_source,
        ParamKey::TrgSoftware => 0,
        ParamKey::TrgSelector => d.trg_selector,
        ParamKey::TrgOverlap => d.trg_overlap,
        ParamKey::AcqFrameBurstCount => d.acq_frame_burst_count,
        ParamKey::GpiSelector => d.gpi_selector,
        ParamKey::GpiMode => d.gpi_mode,
        ParamKey::GpoSelector => d.gpo_selector,
        ParamKey::GpoMode => d.gpo_mode,
        ParamKey::DebounceEn => d.debounce_en,
        ParamKey::SensorDataBitDepth => d.sensor_data_bit_depth,
        ParamKey::OutputDataBitDepth => d.output_data_bit_depth,
        ParamKey::ImageDataBitDepth => d.image_data_bit_depth,
        ParamKey::ColumnFpnCorrection => d.column_fpn_correction,
        ParamKey::RowFpnCorrection => d.row_fpn_correction,
        ParamKey::ColumnBlackOffsetCorrection => d.column_black_offset_correction,
        ParamKey::RowBlackOffsetCorrection => d.row_black_offset_correction,
        ParamKey::SensorFeatureSelector => d.sensor_feature_selector,
        ParamKey::SensorFeatureValue => d.sensor_feature_value,
        ParamKey::BufferPolicy => d.buffer_policy,
        ParamKey::AutoWb => d.auto_wb,
        ParamKey::LedSelector => d.led_selector,
        ParamKey::LedMode => d.led_mode,
        ParamKey::CounterSelector => d.counter_selector,
        ParamKey::CounterValue => d.counters[d.counter_selector as int],
        ParamKey::ImageUserData => d.image_user_data,
        ParamKey::AcqBufferSize => d.acq_buffer_size,
    }
}

/// Which keys report range information (increment, minimum, maximum).
pub open spec fn spec_info_supported(key: ParamKey) -> bool {
    match key {
        ParamKey::Exposure => true,
        ParamKey::Width => true,
        ParamKey::Height => true,
        ParamKey::OffsetX => true,
        ParamKey::OffsetY => true,
        _ => false,
    }
}

/// The range information the device reports. The maxima of the offsets move
/// with the current window size: the window must stay inside the sensor.
pub open spec fn spec_info(d: DeviceModel, key: ParamKey, which: ParamInfo) -> i32 {
    match key {
        ParamKey::Exposure => match which {
            ParamInfo::Increment => d.exposure_inc,
            ParamInfo::Minimum => 1,
            ParamInfo::Maximum => i32::MAX,
        },
        ParamKey::Width => match which {
            ParamInfo::Increment => d.width_inc as i32,
            ParamInfo::Minimum => d.width_min as i32,
            ParamInfo::Maximum => d.sensor_width as i32,
        },
        ParamKey::Height => match which {
            ParamInfo::Increment => d.height_inc as i32,
            ParamInfo::Minimum => d.height_min as i32,
            ParamInfo::Maximum => d.sensor_height as i32,
        },
        ParamKey::OffsetX => match which {
            ParamInfo::Increment => d.offset_x_inc as i32,
            ParamInfo::Minimum => 0,
            ParamInfo::Maximum => (d.sensor_width - d.width) as i32,
        },
        ParamKey::OffsetY => match which {
            ParamInfo::Increment => d.offset_y_inc as i32,
            ParamInfo::Minimum => 0,
            ParamInfo::Maximum => (d.sensor_height - d.height) as i32,
        },
        _ => 0,
    }
}

impl DeviceModel {
    /// Read the register `key` addresses.
    pub fn get(&self, key: ParamKey) -> (r: i32)
        requires
            self.wf(),
        ensures
            r == spec_get(*self, key),
    {
        match key {
            ParamKey::Exposure => self.exposure,
            ParamKey::ExposureBurstCount => self.exposure_burst_count,
            ParamKey::Gain => self.gain,
            ParamKey::GainSelector => self.gain_selector,
            ParamKey::Downsampling => self.downsampling,
            ParamKey::DownsamplingType => self.downsampling_type,
            ParamKey::ImageDataFormat => self.image_data_format,
            ParamKey::TestPattern => self.test_pattern,
            ParamKey::Width => self.width as i32,
            ParamKey::Height => self.height as i32,
            ParamKey::OffsetX => self.offset_x as i32,
            ParamKey::OffsetY => self.offset_y as i32,
            ParamKey::LimitBandwidth => self.limit_bandwidth,
            ParamKey::AvailableBandwidth => self.available_bandwidth,
            ParamKey::AutoBandwidthCalculation => self.auto_bandwidth_calculation,
            ParamKey::TrgSource => self.trg_source,
            ParamKey::TrgSoftware => 0,
            ParamKey::TrgSelector => self.trg_selector,
            ParamKey::TrgOverlap => self.trg_overlap,
            ParamKey::AcqFrameBurstCount => self.acq_frame_burst_count,
            ParamKey::GpiSelector => self.gpi_selector,
            ParamKey::GpiMode => self.gpi_mode,
            ParamKey::GpoSelector => self.gpo_selector,
            ParamKey::GpoMode => self.gpo_mode,
            ParamKey::DebounceEn => self.debounce_en,
            ParamKey::SensorDataBitDepth => self.sensor_data_bit_depth,
            ParamKey::OutputDataBitDepth => self.output_data_bit_depth,
            ParamKey::ImageDataBitDepth => self.image_data_bit_depth,
            ParamKey::ColumnFpnCorrection => self.column_fpn_correction,
            ParamKey::RowFpnCorrection => self.row_fpn_correction,
            ParamKey::ColumnBlackOffsetCorrection => self.column_black_offset_correction,
            ParamKey::RowBlackOffsetCorrection => self.row_black_offset_correction,
            ParamKey::SensorFeatureSelector => self.sensor_feature_selector,
            ParamKey::SensorFeatureValue => self.sensor_feature_value,
            ParamKey::BufferPolicy => self.buffer_policy,
            ParamKey::AutoWb => self.auto_wb,
            ParamKey::LedSelector => self.led_selector,
            ParamKey::LedMode => self.led_mode,
            ParamKey::CounterSelector => self.counter_selector,
            ParamKey::CounterValue => self.counters[self.counter_selector as usize],
            ParamKey::ImageUserData => self.image_user_data,
            ParamKey::AcqBufferSize => self.acq_buffer_size,
        }
    }

    /// Write `value` to the register `key` addresses. The write is validated
    /// and either applied in full or rejected without any change: read-only
    /// keys and, while streaming, keys outside the live-update allow-list are
    /// not supported; values off the grid or out of range are invalid
    /// arguments.
    pub fn set(&mut self, key: ParamKey, value: i32) -> (r: Result<(), i32>)
        requires
            old(self).wf(),
        ensures
            final(self).wf(),
            spec_set_ok(*old(self), key, value) ==> r == Ok::<(), i32>(()) && *final(self)
                == spec_apply_set(*old(self), key, value),
            !spec_set_ok(*old(self), key, value) ==> r == Err::<(), i32>(
                spec_set_err(*old(self), key, value),
            ) && *final(self) == *old(self),
    {
        if !key.settable() {
            return Err(XI_NOT_SUPPORTED);
        }
        if self.acquiring && !key.live_updatable() {
            return Err(XI_NOT_SUPPORTED);
        }
        match key {
            ParamKey::Exposure => {
                if value < 1 {
                    return Err(XI_INVALID_ARG);
                }
                proof {
                    lemma_quantize(value, self.exposure_inc);
                }
                self.exposure = value - value % self.exposure_inc;
                Ok(())
            },
            ParamKey::ExposureBurstCount => {
                if value < 1 {
                    return Err(XI_INVALID_ARG);
                }
                self.exposure_burst_count = value;
                Ok(())
            },
            ParamKey::Gain => {
                self.gain = value;
                Ok(())
            },
            ParamKey::GainSelector => {
                self.gain_selector = value;
                Ok(())
            },
            ParamKey::Downsampling => {
                self.downsampling = value;
                Ok(())
            },
            ParamKey::DownsamplingType => {
                self.downsampling_type = value;
                Ok(())
            },
            ParamKey::ImageDataFormat => {
                if value < 0 {
                    return Err(XI_INVALID_ARG);
                }
                self.image_data_format = value;
                Ok(())
            },
            ParamKey::TestPattern => {
                self.test_pattern = value;
                Ok(())
            },
            ParamKey::Width => {
                if value < 0 {
                    return Err(XI_INVALID_ARG);
                }
                let v = value as u32;
                if v % self.width_inc != 0 || v < self.width_min || v > self.sensor_width
                    - self.offset_x {
                    return Err(XI_INVALID_ARG);
                }
                self.width = v;
                Ok(())
            },
            ParamKey::Height => {
                if value < 0 {
                    return Err(XI_INVALID_ARG);
                }
                let v = value as u32;
                if v % self.height_inc != 0 || v < self.height_min || v > self.sensor_height
                    - self.offset_y {
                    return Err(XI_INVALID_ARG);
                }
                self.height = v;
                Ok(())
            },
            ParamKey::OffsetX => {
                if value < 0 {
                    return Err(XI_INVALID_ARG);
                }
                let v = value as u32;
                if v % self.offset_x_inc != 0 || v > self.sensor_width - self.width {
                    return Err(XI_INVALID_ARG);
                }
                self.offset_x = v;
                Ok(())
            },
            ParamKey::OffsetY => {
                if value < 0 {
                    return Err(XI_INVALID_ARG);
                }
                let v = value as u32;
                if v % self.offset_y_inc != 0 || v > self.sensor_height - self.height {
                    return Err(XI_INVALID_ARG);
                }
                self.offset_y = v;
                Ok(())
            },
            ParamKey::LimitBandwidth => {
                if value < 1 {
                    return Err(XI_INVALID_ARG);
                }
                self.limit_bandwidth = value;
                Ok(())
            },
            ParamKey::AvailableBandwidth => Err(XI_NOT_SUPPORTED),
            ParamKey::AutoBandwidthCalculation => {
                if !(value == XI_OFF || value == XI_ON) {
                    return Err(XI_INVALID_ARG);
                }
                self.auto_bandwidth_calculation = value;
                Ok(())
            },
            ParamKey::TrgSource => {
                self.trg_source = value;
                Ok(())
            },
            ParamKey::TrgSoftware => {
                if self.trg_source == XI_TRG_SOFTWARE {
                    if self.trigger_pending < u32::MAX {
                        self.trigger_pending = self.trigger_pending + 1;
                    }
                }
                Ok(())
            },
            ParamKey::TrgSelector => {
                self.trg_selector = value;
                Ok(())
            },
            ParamKey::TrgOverlap => {
                self.trg_overlap = value;
                Ok(())
            },
            ParamKey::AcqFrameBurstCount => {
                if value < 0 {
                    return Err(XI_INVALID_ARG);
                }
                self.acq_frame_burst_count = value;
                Ok(())
            },
            ParamKey::GpiSelector => {
                self.gpi_selector = value;
                Ok(())
            },
            ParamKey::GpiMode => {
                self.gpi_mode = value;
                Ok(())
            },
            ParamKey::GpoSelector => {
                self.gpo_selector = value;
                Ok(())
            },
            ParamKey::GpoMode => {
                self.gpo_mode = value;
                Ok(())
            },
            ParamKey::DebounceEn => {
                if !(value == XI_OFF || value == XI_ON) {
                    return Err(XI_INVALID_ARG);
                }
                self.debounce_en = value;
                Ok(())
            },
            ParamKey::SensorDataBitDepth => {
                self.sensor_data_bit_depth = value;
                Ok(())
            },
            ParamKey::OutputDataBitDepth => {
                self.output_data_bit_depth = value;
                Ok(())
            },
            ParamKey::ImageDataBitDepth => {
                self.image_data_bit_depth = value;
                Ok(())
            },
            ParamKey::ColumnFpnCorrection => {
                if !(value == XI_OFF || value == XI_ON) {
                    return Err(XI_INVALID_ARG);
                }
                self.column_fpn_correction = value;
                Ok(())
            },
            ParamKey::RowFpnCorrection => {
                if !(value == XI_OFF || value == XI_ON) {
                    return Err(XI_INVALID_ARG);
                }
                self.row_fpn_correction = value;
                Ok(())
            },
            ParamKey::ColumnBlackOffsetCorrection => {
                if !(value == XI_OFF || value == XI_ON) {
                    return Err(XI_INVALID_ARG);
                }
                self.column_black_offset_correction = value;
                Ok(())
            },
            ParamKey::RowBlackOffsetCorrection => {
                if !(value == XI_OFF || value == XI_ON) {
                    return Err(XI_INVALID_ARG);
                }
                self.row_black_offset_correction = value;
                Ok(())
            },
            ParamKey::SensorFeatureSelector => {
                self.sensor_feature_selector = value;
                Ok(())
            },
            ParamKey::SensorFeatureValue => {
                self.sensor_feature_value = value;
                Ok(())
            },
            ParamKey::BufferPolicy => {
                self.buffer_policy = value;
                Ok(())
            },
            ParamKey::AutoWb => {
                self.auto_wb = value;
                Ok(())
            },
            ParamKey::LedSelector => {
                self.led_selector = value;
                Ok(())
            },
            ParamKey::LedMode => {
                self.led_mode = value;
                Ok(())
            },
            ParamKey::CounterSelector => {
                if value < 0 || value >= COUNTER_COUNT as i32 {
                    return Err(XI_INVALID_ARG);
                }
                self.counter_selector = value;
                Ok(())
            },
            ParamKey::CounterValue => Err(XI_NOT_SUPPORTED),
            ParamKey::ImageUserData => {
                if value < 0 {
                    return Err(XI_INVALID_ARG);
                }
                self.image_user_data = value;
                Ok(())
            },
            ParamKey::AcqBufferSize => {
                if value < 1 {
                    return Err(XI_INVALID_ARG);
                }
                self.acq_buffer_size = value;
                Ok(())
            },
        }
    }

    /// Read range information for `key`: the keys with a reported range answer
    /// it, every other key is not supported.
    pub fn get_info(&self, key: ParamKey, which: ParamInfo) -> (r: Result<i32, i32>)
        requires
            self.wf(),
        ensures
            spec_info_supported(key) ==> r == Ok::<i32, i32>(spec_info(*self, key, which)),
            !spec_info_supported(key) ==> r == Err::<i32, i32>(XI_NOT_SUPPORTED),
    {
        match key {
            ParamKey::Exposure => Ok(
                match which {
                    ParamInfo::Increment => self.exposure_inc,
                    ParamInfo::Minimum => 1,
                    ParamInfo::Maximum => i32::MAX,
                },
            ),
            ParamKey::Width => Ok(
                match which {
                    ParamInfo::Increment => self.width_inc as i32,
                    ParamInfo::Minimum => self.width_min as i32,
                    ParamInfo::Maximum => self.sensor_width as i32,
                },
            ),
            ParamKey::Height => Ok(
                match which {
                    ParamInfo::Increment => self.height_inc as i32,
                    ParamInfo::Minimum => self.height_min as i32,
                    ParamInfo::Maximum => self.sensor_height as i32,
                },
            ),
            ParamKey::OffsetX => Ok(
                match which {
                    ParamInfo::Increment => self.offset_x_inc as i32,
                    ParamInfo::Minimum => 0,
                    ParamInfo::Maximum => (self.sensor_width - self.width) as i32,
                },
            ),
            ParamKey::OffsetY => Ok(
                match which {
                    ParamInfo::Increment => self.offset_y_inc as i32,
                    ParamInfo::Minimum => 0,
                    ParamInfo::Maximum => (self.sensor_height - self.height) as i32,
                },
            ),
            _ => Err(XI_NOT_SUPPORTED),
        }
    }
}

/// While the device is streaming, a write to any key outside the live-update
/// allow-list is refused as unsupported and changes nothing.
pub proof fn lemma_streaming_rejects_restricted(d: DeviceModel, key: ParamKey, v: i32)
    requires
        d.acquiring,
        !spec_live_updatable(key),
    ensures
        !spec_set_ok(d, key, v),
        spec_set_err(d, key, v) == XI_NOT_SUPPORTED,
{
}

/// Writing an exposure and reading it back while streaming stays within one
/// increment of the requested value: the device only quantises, it never picks
/// a different exposure.
pub proof fn lemma_live_exposure_round_trip(d: DeviceModel, v: i32)
    requires
        d.wf(),
        1 <= v,
    ensures
        spec_set_ok(d, ParamKey::Exposure, v),
        spec_get(spec_apply_set(d, ParamKey::Exposure, v), ParamKey::Exposure) <= v,
        v - spec_get(spec_apply_set(d, ParamKey::Exposure, v), ParamKey::Exposure)
            < d.exposure_inc,
{
    lemma_quantize(v, d.exposure_inc);
}

} // verus!
