//! The test suite of the camera sessions, run against the device model.

use xiapi::consts::{
    XI_BINNING, XI_CNT_SEL_TRANSPORT_SKIPPED_FRAMES, XI_DWN_1X1, XI_GAIN_SELECTOR_ALL,
    XI_LED_BLINK, XI_LED_SEL1, XI_MONO8, XI_NOT_IMPLEMENTED, XI_NOT_SUPPORTED, XI_RAW16,
    XI_SKIPPING, XI_TESTPAT_OFF,
};
use xiapi::params::ParamKey;
use xiapi::{open_device, open_device_manual_bandwidth, DeviceModel, Roi};

#[test]
fn start_stop_acquisition() -> Result<(), i32> {
    let cam = open_device(DeviceModel::new())?;
    let acq = cam.start_acquisition()?;
    acq.stop_acquisition()?;
    Ok(())
}

#[test]
fn set_get_exposure() -> Result<(), i32> {
    let mut cam = open_device(DeviceModel::new())?;
    match cam.set_param(ParamKey::ExposureBurstCount, 1) {
        Err(x) => {
            // Ignore the error for cameras that do not have this feature.
            if x != XI_NOT_IMPLEMENTED && x != XI_NOT_SUPPORTED {
                return Err(x);
            }
        }
        _ => {}
    }
    cam.set_param(ParamKey::Exposure, 12_345)?;
    let exp = cam.param(ParamKey::Exposure)?;
    assert!((exp - 12_345).abs() <= 20);
    Ok(())
}

#[test]
fn default_gains() -> Result<(), i32> {
    let mut cam = open_device(DeviceModel::new())?;
    cam.set_param(ParamKey::GainSelector, XI_GAIN_SELECTOR_ALL)?;
    let gain_all = cam.param(ParamKey::Gain)?;
    assert_eq!(gain_all, 0);
    Ok(())
}

#[test]
fn downsampling_defaults() -> Result<(), i32> {
    let mut cam = open_device(DeviceModel::new())?;
    let default_type = cam.param(ParamKey::DownsamplingType)?;
    assert_eq!(default_type, XI_BINNING);
    let default_value = cam.param(ParamKey::Downsampling)?;
    assert_eq!(default_value, XI_DWN_1X1);
    match cam.set_param(ParamKey::DownsamplingType, XI_SKIPPING) {
        Err(x) => {
            // This happens when a camera does not support skipping.
            if x != xiapi::consts::XI_INVALID_ARG {
                return Err(x);
            }
        }
        Ok(()) => {
            let skipping_value = cam.param(ParamKey::Downsampling)?;
            assert_eq!(skipping_value, XI_DWN_1X1);
        }
    }
    Ok(())
}

#[test]
fn image_format_defaults() -> Result<(), i32> {
    let cam = open_device(DeviceModel::new())?;
    let default_format = cam.param(ParamKey::ImageDataFormat)?;
    assert_eq!(default_format, XI_MONO8);
    Ok(())
}

#[test]
fn get_image() -> Result<(), i32> {
    let cam = open_device(DeviceModel::new())?;
    let mut acq = cam.start_acquisition()?;
    let img = acq.next_image(None)?;
    let test_pix = img.pixel(100, 0).unwrap_or_else(|| {
        panic!("Pixel value was invalid!");
    });
    let test_data = img.data();
    let test_data_pix = test_data.get(100).unwrap_or_else(|| {
        panic!("Out of bounds error on image data!");
    });
    assert_eq!(test_pix, *test_data_pix);

    Ok(())
}

#[test]
fn test_pattern_defaults() -> Result<(), i32> {
    let cam = open_device(DeviceModel::new())?;
    let pattern = cam.param(ParamKey::TestPattern)?;
    assert_eq!(pattern, XI_TESTPAT_OFF);
    Ok(())
}

#[test]
fn get_increment() -> Result<(), i32> {
    let cam = open_device(DeviceModel::new())?;
    let increment = cam.param_increment(ParamKey::Width)?;
    println!("{}", increment);
    Ok(())
}

#[test]
fn set_get_roi() -> Result<(), i32> {
    let mut cam = open_device(DeviceModel::new())?;
    let roi = Roi {
        offset_x: (cam.param_min(ParamKey::OffsetX)? + cam.param_increment(ParamKey::OffsetX)?)
            as u32,
        offset_y: (cam.param_min(ParamKey::OffsetY)? + cam.param_increment(ParamKey::OffsetY)?)
            as u32,
        width: (cam.param_min(ParamKey::Width)? + cam.param_increment(ParamKey::Width)?) as u32,
        height: (cam.param_min(ParamKey::Height)? + cam.param_increment(ParamKey::Height)?) as u32,
    };
    let roi_actual = cam.set_roi(&roi)?;
    assert_eq!(roi.width, roi_actual.width);

    let get_roi = cam.roi()?;
    assert_eq!(roi.width, get_roi.width);

    Ok(())
}

#[test]
fn blink_leds() -> Result<(), i32> {
    let mut cam = open_device(DeviceModel::new())?;
    cam.set_param(ParamKey::LedSelector, XI_LED_SEL1)?;
    cam.set_param(ParamKey::LedMode, XI_LED_BLINK)?;
    Ok(())
}

#[test]
fn image_user_data() -> Result<(), i32> {
    let mut cam = open_device(DeviceModel::new())?;
    cam.set_param(ParamKey::ImageUserData, 42)?;
    let mut acq_buffer = cam.start_acquisition()?;
    let image = acq_buffer.next_image(None)?;
    assert_eq!(image.image_user_data(), 42u32);
    Ok(())
}

#[test]
fn iterate_over_image() -> Result<(), i32> {
    let mut cam = open_device(DeviceModel::new())?;
    cam.set_param(ParamKey::ImageDataFormat, XI_RAW16)?;
    let mut acq_buffer = cam.start_acquisition()?;
    let image = acq_buffer.next_image(None)?;
    let data = image.data();
    for pixel in data.iter() {
        let _ = pixel;
    }
    Ok(())
}

#[test]
fn available_bandwidth() -> Result<(), i32> {
    let cam = open_device(DeviceModel::new())?;
    let bandwidth = cam.param(ParamKey::AvailableBandwidth)?;
    assert!(bandwidth > 0);
    Ok(())
}

#[test]
fn read_counters() -> Result<(), i32> {
    let mut cam = open_device_manual_bandwidth(DeviceModel::new(), 1000)?;
    let skipped_frames = cam.counter(XI_CNT_SEL_TRANSPORT_SKIPPED_FRAMES)?;
    assert_eq!(skipped_frames, 0);
    Ok(())
}

#[test]
fn set_get_acq_buffer_size() -> Result<(), i32> {
    let mut cam = open_device(DeviceModel::new())?;
    // Set the buffer size to 100MB.
    cam.set_param(ParamKey::AcqBufferSize, 100 * 1024 * 1024)?;
    let buffer_size = cam.param(ParamKey::AcqBufferSize)?;
    assert_eq!(buffer_size, 100 * 1024 * 1024);
    Ok(())
}

#[test]
fn set_exposure_during_acq() -> Result<(), i32> {
    let cam = open_device(DeviceModel::new())?;
    let mut acq = cam.start_acquisition()?;
    acq.set_exposure(100)
}
