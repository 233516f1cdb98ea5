//! The table of device parameters.
//!
//! The driver addresses parameters by name strings through one generic get/set
//! interface. Instead of a hand-written accessor pair per parameter, the
//! library keeps a single table: each key names its wire string, says whether
//! it can be written at all, and whether it may be written live, while the
//! device is streaming. One generic get/set routine on the device state
//! consumes this table.

use vstd::prelude::*;

verus! {

/// A parameter of the device, identified by a stable key.
#[derive(Clone, Copy, Debug, PartialEq, Eq, Structural)]
pub enum ParamKey {
    /// Exposure time in microseconds.
    Exposure,
    /// Number of exposures in one frame.
    ExposureBurstCount,
    /// Gain in the unit of the selected gain stage.
    Gain,
    /// Which gain stage `Gain` addresses.
    GainSelector,
    /// Resolution reduction: binned or skipped pixels.
    Downsampling,
    /// Whether downsampling bins or skips.
    DownsamplingType,
    /// Pixel format of produced images.
    ImageDataFormat,
    /// The test pattern generated instead of sensor data.
    TestPattern,
    /// Width of the region of interest, in pixels.
    Width,
    /// Height of the region of interest, in pixels.
    Height,
    /// Horizontal offset of the region of interest, in pixels.
    OffsetX,
    /// Vertical offset of the region of interest, in pixels.
    OffsetY,
    /// Bandwidth limit on the transport layer, in megabits per second.
    LimitBandwidth,
    /// Measured available transport bandwidth; read-only.
    AvailableBandwidth,
    /// Whether the driver measures bandwidth when a device is opened.
    AutoBandwidthCalculation,
    /// Source of the frame trigger.
    TrgSource,
    /// Writing this key issues a software trigger.
    TrgSoftware,
    /// Which event a trigger starts: a frame, a burst, an exposure.
    TrgSelector,
    /// Whether a trigger may overlap the previous exposure.
    TrgOverlap,
    /// Frames acquired per burst trigger.
    AcqFrameBurstCount,
    /// Which general-purpose input `GpiMode` addresses.
    GpiSelector,
    /// Behaviour of the selected general-purpose input.
    GpiMode,
    /// Which general-purpose output `GpoMode` addresses.
    GpoSelector,
    /// Behaviour of the selected general-purpose output.
    GpoMode,
    /// Whether the selected general-purpose input is debounced.
    DebounceEn,
    /// Bit depth of the sensor's analog-to-digital converters.
    SensorDataBitDepth,
    /// Bit depth sent from the camera to the host.
    OutputDataBitDepth,
    /// Bit depth of the frames handed out to the caller.
    ImageDataBitDepth,
    /// Whether column fixed-pattern noise is corrected on the camera.
    ColumnFpnCorrection,
    /// Whether row fixed-pattern noise is corrected on the camera.
    RowFpnCorrection,
    /// Whether the column black offset is corrected.
    ColumnBlackOffsetCorrection,
    /// Whether the row black offset is corrected.
    RowBlackOffsetCorrection,
    /// Which sensor-specific feature `SensorFeatureValue` addresses.
    SensorFeatureSelector,
    /// Value of the selected sensor-specific feature.
    SensorFeatureValue,
    /// Data move policy of the acquisition buffer.
    BufferPolicy,
    /// Automatic white balance.
    AutoWb,
    /// Which LED `LedMode` addresses.
    LedSelector,
    /// Behaviour of the selected LED.
    LedMode,
    /// Which counter `CounterValue` reads.
    CounterSelector,
    /// Value of the selected counter; read-only.
    CounterValue,
    /// Caller-chosen word copied into every frame header.
    ImageUserData,
    /// Size of the driver-side acquisition buffer, in bytes.
    AcqBufferSize,
}

/// Which keys may be written at all. The two values the device computes
/// itself, the available bandwidth and the selected counter's value, are
/// read-only.
pub open spec fn spec_settable(key: ParamKey) -> bool {
    !(key == ParamKey::AvailableBandwidth || key == ParamKey::CounterValue)
}

/// Which keys may be written while the device is streaming. This is the
/// complete allow-list: every other key is rejected until acquisition stops.
pub open spec fn spec_live_updatable(key: ParamKey) -> bool {
    key == ParamKey::Exposure || key == ParamKey::Gain || key == ParamKey::TrgSoftware
}

/// The wire name under which the driver knows each parameter.
pub open spec fn spec_key_name(key: ParamKey) -> Seq<char> {
    match key {
        ParamKey::Exposure => "exposure"@,
        ParamKey::ExposureBurstCount => "exposure_burst_count"@,
        ParamKey::Gain => "gain"@,
        ParamKey::GainSelector => "gain_selector"@,
        ParamKey::Downsampling => "downsampling"@,
        ParamKey::DownsamplingType => "downsampling_type"@,
        ParamKey::ImageDataFormat => "imgdataformat"@,
        ParamKey::TestPattern => "test_pattern"@,
        ParamKey::Width => "width"@,
        ParamKey::Height => "height"@,
        ParamKey::OffsetX => "offsetX"@,
        ParamKey::OffsetY => "offsetY"@,
        ParamKey::LimitBandwidth => "limit_bandwidth"@,
        ParamKey::AvailableBandwidth => "available_bandwidth"@,
        ParamKey::AutoBandwidthCalculation => "auto_bandwidth_calculation"@,
        ParamKey::TrgSource => "trigger_source"@,
        ParamKey::TrgSoftware => "trigger_software"@,
        ParamKey::TrgSelector => "trigger_selector"@,
        ParamKey::TrgOverlap => "trigger_overlap"@,
        ParamKey::AcqFrameBurstCount => "acq_frame_burst_count"@,
        ParamKey::GpiSelector => "gpi_selector"@,
        ParamKey::GpiMode => "gpi_mode"@,
        ParamKey::GpoSelector => "gpo_selector"@,
        ParamKey::GpoMode => "gpo_mode"@,
        ParamKey::DebounceEn => "dbnc_en"@,
        ParamKey::SensorDataBitDepth => "sensor_bit_depth"@,
        ParamKey::OutputDataBitDepth => "output_bit_depth"@,
        ParamKey::ImageDataBitDepth => "image_data_bit_depth"@,
        ParamKey::ColumnFpnCorrection => "column_fpn_correction"@,
        ParamKey::RowFpnCorrection => "row_fpn_correction"@,
        ParamKey::ColumnBlackOffsetCorrection => "column_black_offset_correction"@,
        ParamKey::RowBlackOffsetCorrection => "row_black_offset_correction"@,
        ParamKey::SensorFeatureSelector => "sensor_feature_selector"@,
        ParamKey::SensorFeatureValue => "sensor_feature_value"@,
        ParamKey::BufferPolicy => "buffer_policy"@,
        ParamKey::AutoWb => "auto_wb"@,
        ParamKey::LedSelector => "led_selector"@,
        ParamKey::LedMode => "led_mode"@,
        ParamKey::CounterSelector => "counter_selector"@,
        ParamKey::CounterValue => "counter_value"@,
        ParamKey::ImageUserData => "image_user_data"@,
        ParamKey::AcqBufferSize => "acq_buffer_size"@,
    }
}

impl ParamKey {
    /// Whether this key may be written at all.
    pub fn settable(self) -> (r: bool)
        ensures
            r == spec_settable(self),
    {
        !(matches!(self, ParamKey::AvailableBandwidth) || matches!(
            self,
            ParamKey::CounterValue,
        ))
    }

    /// Whether this key may be written while the device is streaming.
    pub fn live_updatable(self) -> (r: bool)
        ensures
            r == spec_live_updatable(self),
    {
        matches!(self, ParamKey::Exposure) || matches!(self, ParamKey::Gain) || matches!(
            self,
            ParamKey::TrgSoftware,
        )
    }

    /// The name string under which the driver knows this parameter.
    pub fn name(self) -> (r: &'static str)
        ensures
            r@ == spec_key_name(self),
    {
        match self {
            ParamKey::Exposure => "exposure",
            ParamKey::ExposureBurstCount => "exposure_burst_count",
            ParamKey::Gain => "gain",
            ParamKey::GainSelector => "gain_selector",
            ParamKey::Downsampling => "downsampling",
            ParamKey::DownsamplingType => "downsampling_type",
            ParamKey::ImageDataFormat => "imgdataformat",
            ParamKey::TestPattern => "test_pattern",
            ParamKey::Width => "width",
            ParamKey::Height => "height",
            ParamKey::OffsetX => "offsetX",
            ParamKey::OffsetY => "offsetY",
            ParamKey::LimitBandwidth => "limit_bandwidth",
            ParamKey::AvailableBandwidth => "available_bandwidth",
            ParamKey::AutoBandwidthCalculation => "auto_bandwidth_calculation",
            ParamKey::TrgSource => "trigger_source",
            ParamKey::TrgSoftware => "trigger_software",
            ParamKey::TrgSelector => "trigger_selector",
            ParamKey::TrgOverlap => "trigger_overlap",
            ParamKey::AcqFrameBurstCount => "acq_frame_burst_count",
            ParamKey::GpiSelector => "gpi_selector",
            ParamKey::GpiMode => "gpi_mode",
            ParamKey::GpoSelector => "gpo_selector",
            ParamKey::GpoMode => "gpo_mode",
            ParamKey::DebounceEn => "dbnc_en",
            ParamKey::SensorDataBitDepth => "sensor_bit_depth",
            ParamKey::OutputDataBitDepth => "output_bit_depth",
            ParamKey::ImageDataBitDepth => "image_data_bit_depth",
            ParamKey::ColumnFpnCorrection => "column_fpn_correction",
            ParamKey::RowFpnCorrection => "row_fpn_correction",
            ParamKey::ColumnBlackOffsetCorrection => "column_black_offset_correction",
            ParamKey::RowBlackOffsetCorrection => "row_black_offset_correction",
            ParamKey::SensorFeatureSelector => "sensor_feature_selector",
            ParamKey::SensorFeatureValue => "sensor_feature_value",
            ParamKey::BufferPolicy => "buffer_policy",
            ParamKey::AutoWb => "auto_wb",
            ParamKey::LedSelector => "led_selector",
            ParamKey::LedMode => "led_mode",
            ParamKey::CounterSelector => "counter_selector",
            ParamKey::CounterValue => "counter_value",
            ParamKey::ImageUserData => "image_user_data",
            ParamKey::AcqBufferSize => "acq_buffer_size",
        }
    }
}

/// The three pieces of range information the device reports per parameter.
#[derive(Clone, Copy, Debug, PartialEq, Eq, Structural)]
pub enum ParamInfo {
    /// The grid on which accepted values lie.
    Increment,
    /// The smallest accepted value.
    Minimum,
    /// The largest accepted value.
    Maximum,
}

} // verus!
