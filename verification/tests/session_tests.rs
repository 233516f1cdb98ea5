//! Tests of the session state machine: transitions, the live allow-list, the
//! compound region-of-interest and counter sequences, and frame delivery.

use xiapi::names::param_suffix;
use xiapi::consts::{
    XI_CNT_SEL_API_SKIPPED_FRAMES, XI_INVALID_ARG, XI_NOT_SUPPORTED, XI_ON, XI_TIMEOUT,
    XI_TRG_SOFTWARE,
};
use xiapi::params::ParamKey;
use xiapi::{open_device, open_device_manual_bandwidth, DeviceModel, Roi};

#[test]
fn end_to_end_capture() -> Result<(), i32> {
    // Open device 0, set the exposure, stream one frame, check it against the
    // configured region of interest, stop, close (drop).
    let mut cam = open_device(DeviceModel::new())?;
    cam.set_param(ParamKey::Exposure, 10_000)?;
    let roi = cam.roi()?;
    let mut acq = cam.start_acquisition()?;
    {
        let image = acq.next_image(Some(5000))?;
        assert_eq!(image.width(), roi.width);
        assert_eq!(image.height(), roi.height);
        assert_eq!(image.exposure_time_us(), 10_000);
    }
    let cam = acq.stop_acquisition()?;
    drop(cam);
    Ok(())
}

#[test]
fn fetch_times_out_without_trigger() -> Result<(), i32> {
    // With the software trigger source armed but never fired, no frame ever
    // arrives and the wait reports a timeout.
    let mut cam = open_device(DeviceModel::new())?;
    cam.set_param(ParamKey::TrgSource, XI_TRG_SOFTWARE)?;
    let mut acq = cam.start_acquisition()?;
    let r = acq.next_image(Some(5000));
    assert_eq!(r.err(), Some(XI_TIMEOUT));
    Ok(())
}

#[test]
fn software_trigger_produces_one_frame() -> Result<(), i32> {
    let mut cam = open_device(DeviceModel::new())?;
    cam.set_param(ParamKey::TrgSource, XI_TRG_SOFTWARE)?;
    let mut acq = cam.start_acquisition()?;
    acq.software_trigger()?;
    assert!(acq.next_image(Some(1000)).is_ok());
    // The trigger is consumed: the next wait times out again.
    let r = acq.next_image(Some(1000));
    assert_eq!(r.err(), Some(XI_TIMEOUT));
    Ok(())
}

#[test]
fn frame_numbers_advance() -> Result<(), i32> {
    let cam = open_device(DeviceModel::new())?;
    let mut acq = cam.start_acquisition()?;
    let first = acq.next_image(None)?.nframe();
    let second = acq.next_image(None)?.nframe();
    assert_eq!(second, first + 1);
    Ok(())
}

#[test]
fn counter_read_preserves_selector() -> Result<(), i32> {
    // Reading one counter selects it, reads, and restores the previously
    // selected counter: the selector register is unchanged afterwards.
    let mut cam = open_device(DeviceModel::new())?;
    cam.set_param(ParamKey::CounterSelector, 2)?;
    let _ = cam.counter(XI_CNT_SEL_API_SKIPPED_FRAMES)?;
    assert_eq!(cam.param(ParamKey::CounterSelector)?, 2);
    Ok(())
}

#[test]
fn counter_rejects_unknown_selector() -> Result<(), i32> {
    let mut cam = open_device(DeviceModel::new())?;
    cam.set_param(ParamKey::CounterSelector, 1)?;
    assert_eq!(cam.counter(99).err(), Some(XI_INVALID_ARG));
    // The failed read leaves the selection alone too.
    assert_eq!(cam.param(ParamKey::CounterSelector)?, 1);
    Ok(())
}

#[test]
fn read_only_parameters_reject_writes() -> Result<(), i32> {
    let mut cam = open_device(DeviceModel::new())?;
    assert_eq!(
        cam.set_param(ParamKey::AvailableBandwidth, 1).err(),
        Some(XI_NOT_SUPPORTED)
    );
    assert_eq!(
        cam.set_param(ParamKey::CounterValue, 1).err(),
        Some(XI_NOT_SUPPORTED)
    );
    Ok(())
}

#[test]
fn range_info_unsupported_for_plain_keys() -> Result<(), i32> {
    let cam = open_device(DeviceModel::new())?;
    assert_eq!(
        cam.param_increment(ParamKey::Gain).err(),
        Some(XI_NOT_SUPPORTED)
    );
    Ok(())
}

#[test]
fn rejected_values_report_invalid_argument() -> Result<(), i32> {
    let mut cam = open_device(DeviceModel::new())?;
    assert_eq!(
        cam.set_param(ParamKey::Exposure, 0).err(),
        Some(XI_INVALID_ARG)
    );
    assert_eq!(
        cam.set_param(ParamKey::Width, 21).err(),
        Some(XI_INVALID_ARG)
    );
    assert_eq!(
        cam.set_param(ParamKey::LimitBandwidth, 0).err(),
        Some(XI_INVALID_ARG)
    );
    Ok(())
}

#[test]
fn failed_start_consumes_the_camera() -> Result<(), i32> {
    // A failing transition is a one-way commit: only the error comes back.
    let mut device = DeviceModel::new();
    device.start_error = 7;
    let cam = open_device(device)?;
    match cam.start_acquisition() {
        Ok(_) => panic!("start was injected to fail"),
        Err(e) => assert_eq!(e, 7),
    }
    Ok(())
}

#[test]
fn failed_stop_consumes_the_buffer() -> Result<(), i32> {
    let mut device = DeviceModel::new();
    device.stop_error = 9;
    let cam = open_device(device)?;
    let acq = cam.start_acquisition()?;
    match acq.stop_acquisition() {
        Ok(_) => panic!("stop was injected to fail"),
        Err(e) => assert_eq!(e, 9),
    }
    Ok(())
}

#[test]
fn manual_bandwidth_restores_the_toggle() -> Result<(), i32> {
    let cam = open_device_manual_bandwidth(DeviceModel::new(), 1000)?;
    assert_eq!(cam.param(ParamKey::AutoBandwidthCalculation)?, XI_ON);
    assert_eq!(cam.param(ParamKey::LimitBandwidth)?, 1000);
    assert_eq!(
        open_device_manual_bandwidth(DeviceModel::new(), 0).err(),
        Some(XI_INVALID_ARG)
    );
    Ok(())
}

#[test]
fn live_exposure_round_trip_within_increment() -> Result<(), i32> {
    // Setting an allow-listed parameter while streaming and reading it back
    // after the stream stops stays within the device's increment.
    let mut device = DeviceModel::new();
    device.exposure_inc = 20;
    let cam = open_device(device)?;
    let mut acq = cam.start_acquisition()?;
    acq.set_exposure(12_345)?;
    let cam = acq.stop_acquisition()?;
    let exposure = cam.param(ParamKey::Exposure)?;
    assert!(exposure <= 12_345 && 12_345 - exposure < 20);
    assert_eq!(exposure, 12_340);
    Ok(())
}

#[test]
fn live_gain_round_trip_exact() -> Result<(), i32> {
    let cam = open_device(DeviceModel::new())?;
    let mut acq = cam.start_acquisition()?;
    acq.set_gain(3)?;
    let cam = acq.stop_acquisition()?;
    assert_eq!(cam.param(ParamKey::Gain)?, 3);
    Ok(())
}

#[test]
fn set_roi_is_idempotent() -> Result<(), i32> {
    // Applying the same requested region twice yields the same actual region.
    let mut cam = open_device(DeviceModel::new())?;
    let requested = Roi {
        offset_x: 3,
        offset_y: 5,
        width: 21,
        height: 19,
    };
    let first = cam.set_roi(&requested)?;
    let second = cam.set_roi(&requested)?;
    assert_eq!(first.offset_x, second.offset_x);
    assert_eq!(first.offset_y, second.offset_y);
    assert_eq!(first.width, second.width);
    assert_eq!(first.height, second.height);
    Ok(())
}

#[test]
fn set_roi_rounds_down_to_the_grid() -> Result<(), i32> {
    let mut cam = open_device(DeviceModel::new())?;
    let requested = Roi {
        offset_x: 3,
        offset_y: 5,
        width: 21,
        height: 19,
    };
    let actual = cam.set_roi(&requested)?;
    assert_eq!(actual.offset_x, 2);
    assert_eq!(actual.offset_y, 4);
    assert_eq!(actual.width, 20);
    assert_eq!(actual.height, 18);
    let read_back = cam.roi()?;
    assert_eq!(read_back.offset_x, 2);
    assert_eq!(read_back.offset_y, 4);
    assert_eq!(read_back.width, 20);
    assert_eq!(read_back.height, 18);
    Ok(())
}

#[test]
fn set_roi_rejects_an_undersized_window() -> Result<(), i32> {
    let mut cam = open_device(DeviceModel::new())?;
    let requested = Roi {
        offset_x: 0,
        offset_y: 0,
        width: 3,
        height: 20,
    };
    assert_eq!(cam.set_roi(&requested).err(), Some(XI_INVALID_ARG));
    // The compound operation had already cleared the offsets; the window
    // size is untouched.
    let roi = cam.roi()?;
    assert_eq!(roi.offset_x, 0);
    assert_eq!(roi.width, 1024);
    Ok(())
}

#[test]
fn bit_depth_round_trip() -> Result<(), i32> {
    let mut cam = open_device(DeviceModel::new())?;
    cam.set_param(ParamKey::ImageDataFormat, xiapi::consts::XI_RAW16)?;
    cam.set_param(ParamKey::SensorDataBitDepth, 12)?;
    cam.set_param(ParamKey::OutputDataBitDepth, 12)?;
    cam.set_param(ParamKey::ImageDataBitDepth, 12)?;
    assert_eq!(cam.param(ParamKey::SensorDataBitDepth)?, 12);
    assert_eq!(cam.param(ParamKey::OutputDataBitDepth)?, 12);
    assert_eq!(cam.param(ParamKey::ImageDataBitDepth)?, 12);
    Ok(())
}

#[test]
fn switch_parameters_reject_other_values() -> Result<(), i32> {
    let mut cam = open_device(DeviceModel::new())?;
    assert_eq!(
        cam.set_param(ParamKey::DebounceEn, 2).err(),
        Some(XI_INVALID_ARG)
    );
    cam.set_param(ParamKey::ColumnFpnCorrection, 0)?;
    assert_eq!(cam.param(ParamKey::ColumnFpnCorrection)?, 0);
    Ok(())
}

#[test]
fn parameter_names_match_the_driver() {
    assert_eq!(ParamKey::Exposure.name(), "exposure");
    assert_eq!(ParamKey::ImageDataFormat.name(), "imgdataformat");
    assert_eq!(ParamKey::OffsetX.name(), "offsetX");
    assert_eq!(ParamKey::OffsetY.name(), "offsetY");
    assert_eq!(ParamKey::TrgSource.name(), "trigger_source");
    assert_eq!(ParamKey::DebounceEn.name(), "dbnc_en");
    assert_eq!(ParamKey::SensorDataBitDepth.name(), "sensor_bit_depth");
    assert_eq!(ParamKey::CounterSelector.name(), "counter_selector");
    assert_eq!(
        ParamKey::AutoBandwidthCalculation.name(),
        "auto_bandwidth_calculation"
    );
    // The modified name for a range query is the wire name plus the suffix.
    let mut name: Vec<u8> = ParamKey::Width.name().as_bytes().to_vec();
    name.push(0);
    assert_eq!(param_suffix(&name, b":inc\0").unwrap(), b"width:inc\0");
}

#[test]
fn param_suffix_trims_and_appends() {
    let modified = param_suffix(b"width\0", b":inc\0").unwrap();
    assert_eq!(modified, b"width:inc\0");
    let all_nul = param_suffix(b"\0\0", b":min\0").unwrap();
    assert_eq!(all_nul, b":min\0");
    // A multi-byte UTF-8 name is a valid name; only byte sequences that are
    // not UTF-8 at all are rejected.
    let two_byte = param_suffix("µm\0".as_bytes(), b":inc\0").unwrap();
    assert_eq!(two_byte, "µm:inc\0".as_bytes());
    assert_eq!(param_suffix(b"wid\xffth\0", b":inc\0").err(), Some(XI_INVALID_ARG));
    // A lone continuation byte and a truncated sequence are not UTF-8.
    assert_eq!(param_suffix(b"\x80\0", b":inc\0").err(), Some(XI_INVALID_ARG));
    assert_eq!(param_suffix(b"\xc2", b":inc\0").err(), Some(XI_INVALID_ARG));
}
