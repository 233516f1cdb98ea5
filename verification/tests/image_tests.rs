//! Tests of the frame view: pixel addressing, linear data, metadata.

use xiapi::consts::{XI_MONO16, XI_MONO8, XI_RAW16, XI_RAW8, XI_RGB24, XI_RGB32};
use xiapi::image::channel_count;
use xiapi::{FrameHeader, Image};

fn header(width: u32, height: u32, padding_x: u32, format: i32, bp_size: u32) -> FrameHeader {
    FrameHeader {
        width,
        height,
        padding_x,
        format,
        bp_size,
        nframe: 0,
        acq_nframe: 0,
        black_level: 0,
        absolute_offset_x: 0,
        absolute_offset_y: 0,
        transport_format: format,
        downsampling_x: 1,
        downsampling_y: 1,
        exposure_time_us: 0,
        image_user_data: 0,
        ts_sec: 0,
        ts_usec: 0,
    }
}

#[test]
fn pixel_out_of_bounds_is_absent() {
    // 3x2 monochrome frame, one byte per pixel, no padding.
    let buffer: Vec<u8> = (0u8..6).collect();
    let img: Image<u8> = Image::from_parts(header(3, 2, 0, XI_MONO8, 6), buffer, true, 1);
    assert_eq!(img.pixel(3, 0), None);
    assert_eq!(img.pixel(0, 2), None);
    assert_eq!(img.pixel(3, 2), None);
    assert_eq!(img.pixel(1000, 1000), None);
    assert!(img.pixel(2, 1).is_some());
}

#[test]
fn pixel_absent_without_buffer() {
    let img: Image<u8> = Image::from_parts(header(3, 2, 0, XI_MONO8, 6), Vec::new(), false, 1);
    assert_eq!(img.pixel(0, 0), None);
    assert!(img.data().is_empty());
}

#[test]
fn pixel_address_with_row_padding() {
    // 3x2 frame with 2 padding bytes per row: stride is 3*1*1 + 2 = 5 bytes.
    // Sentinel values let each position identify its own byte offset.
    let buffer: Vec<u8> = (0u8..10).collect();
    let img: Image<u8> = Image::from_parts(header(3, 2, 2, XI_MONO8, 10), buffer, true, 1);
    assert_eq!(img.pixel(0, 0), Some(0));
    assert_eq!(img.pixel(1, 0), Some(1));
    assert_eq!(img.pixel(2, 0), Some(2));
    assert_eq!(img.pixel(0, 1), Some(5));
    // The last pixel (width - 1, height - 1) sits at 1*(3+2) + 2 = 7.
    assert_eq!(img.pixel(2, 1), Some(7));
}

#[test]
fn pixel_address_multi_channel() {
    // 2x2 24-bit colour frame: three one-byte channels per pixel.
    let buffer: Vec<u8> = (0u8..12).collect();
    let img: Image<u8> = Image::from_parts(header(2, 2, 0, XI_RGB24, 12), buffer, true, 1);
    assert_eq!(img.pixel(0, 0), Some(0));
    assert_eq!(img.pixel(1, 0), Some(3));
    assert_eq!(img.pixel(0, 1), Some(6));
    assert_eq!(img.pixel(1, 1), Some(9));
}

#[test]
fn pixel_absent_when_buffer_too_short() {
    // The header promises a 4x4 frame but the driver reported only 8 bytes.
    let buffer: Vec<u8> = (0u8..8).collect();
    let img: Image<u8> = Image::from_parts(header(4, 4, 0, XI_MONO8, 8), buffer, true, 1);
    assert_eq!(img.pixel(3, 1), Some(7));
    assert_eq!(img.pixel(0, 2), None);
}

#[test]
fn data_length_from_reported_bytes() {
    // 16-bit elements: the reported byte length is halved.
    let buffer: Vec<u16> = vec![10, 20, 30, 40];
    let img: Image<u16> = Image::from_parts(header(2, 2, 0, XI_MONO16, 8), buffer, true, 2);
    assert_eq!(img.data().len(), 4);
    assert_eq!(img.pixel(1, 1), Some(40));
}

#[test]
fn data_length_fallback_when_unreported() {
    // Without a reported byte length the pixel count is computed.
    let buffer: Vec<u8> = (0u8..6).collect();
    let img: Image<u8> = Image::from_parts(header(3, 2, 0, XI_MONO8, 0), buffer, true, 1);
    assert_eq!(img.data().len(), 6);
}

#[test]
fn unknown_format_has_no_channels_and_no_data() {
    assert_eq!(channel_count(99), 0);
    let img: Image<u8> = Image::from_parts(header(3, 2, 0, 99, 0), Vec::new(), true, 1);
    assert!(img.data().is_empty());
    assert_eq!(img.pixel(0, 0), None);
}

#[test]
fn channel_count_table() {
    assert_eq!(channel_count(XI_MONO8), 1);
    assert_eq!(channel_count(XI_MONO16), 1);
    assert_eq!(channel_count(XI_RAW8), 1);
    assert_eq!(channel_count(XI_RAW16), 1);
    assert_eq!(channel_count(XI_RGB24), 3);
    assert_eq!(channel_count(XI_RGB32), 4);
}

#[test]
fn timestamp_assembles_two_fields() {
    let mut h = header(1, 1, 0, XI_MONO8, 1);
    h.ts_sec = 1;
    h.ts_usec = 2;
    let img: Image<u8> = Image::from_parts(h, vec![0], true, 1);
    assert_eq!(img.timestamp_raw(), 0x1_0000_0002u64);

    let mut h2 = header(1, 1, 0, XI_MONO8, 1);
    h2.ts_sec = 0xffff_ffff;
    h2.ts_usec = 0xffff_ffff;
    let img2: Image<u8> = Image::from_parts(h2, vec![0], true, 1);
    assert_eq!(img2.timestamp_raw(), u64::MAX);
}

#[test]
fn metadata_accessors_read_header_fields() {
    let mut h = header(5, 4, 0, XI_MONO8, 20);
    h.nframe = 7;
    h.acq_nframe = 8;
    h.black_level = 9;
    h.absolute_offset_x = 10;
    h.absolute_offset_y = 11;
    h.downsampling_x = 2;
    h.downsampling_y = 2;
    h.exposure_time_us = 500;
    h.image_user_data = 42;
    let buffer: Vec<u8> = vec![0; 20];
    let img: Image<u8> = Image::from_parts(h, buffer, true, 1);
    assert_eq!(img.width(), 5);
    assert_eq!(img.height(), 4);
    assert_eq!(img.format(), XI_MONO8);
    assert_eq!(img.nframe(), 7);
    assert_eq!(img.acq_nframe(), 8);
    assert_eq!(img.black_level(), 9);
    assert_eq!(img.padding_x(), 0);
    assert_eq!(img.absolute_offset_x(), 10);
    assert_eq!(img.absolute_offset_y(), 11);
    assert_eq!(img.transport_format(), XI_MONO8);
    assert_eq!(img.downsampling_x(), 2);
    assert_eq!(img.downsampling_y(), 2);
    assert_eq!(img.exposure_time_us(), 500);
    assert_eq!(img.image_user_data(), 42);
    assert_eq!(img.nb_channels(), 1);
}
