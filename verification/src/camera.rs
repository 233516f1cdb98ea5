//! The two session phases of a device and the transitions between them.
//!
//! A [`Camera`] is a device in its configurable phase: it is not streaming,
//! and every parameter may be written. An [`AcquisitionBuffer`] is the same
//! device while it streams: it exposes only the operations that are safe
//! live — fetching frames, the software trigger, and the allow-listed setters
//! for exposure and gain. Each transition consumes its input, so holding one
//! phase is proof the device is in it; a failing transition consumes the
//! session too and surfaces only the error code (a deliberate one-way
//! commit).

use vstd::prelude::*;

use crate::consts::{COUNTER_COUNT, XI_INVALID_ARG, XI_OFF, XI_ON, XI_TIMEOUT, XI_TRG_SOFTWARE};
use crate::device::{
    lemma_quantize, spec_apply_set, spec_get, spec_info, spec_info_supported, spec_quantize,
    spec_set_err, spec_set_ok, DeviceModel,
};
use crate::image::{channel_count, spec_channel_count, FrameHeader, Image};
use crate::params::{ParamInfo, ParamKey};
use crate::roi::{round_down, spec_round_down, Roi};

verus! {

/// Connected and initialized camera in its configurable phase.
///
/// While a value of this type exists the device is not streaming, so any
/// parameter may legally be changed. Mutation requires exclusive access;
/// read-only queries work through a shared reference.
pub struct Camera {
    device: DeviceModel,
}

impl View for Camera {
    type V = DeviceModel;

    closed spec fn view(&self) -> DeviceModel {
        self.device
    }
}

/// Buffer that is used by the camera to transfer images to the host system.
///
/// The `AcquisitionBuffer` is the primary way to communicate with the camera
/// while it is actively acquiring images. It consumes the [`Camera`] for the
/// duration of the acquisition, so a parameter that is not changeable during
/// acquisition cannot even be named on it: only the allow-listed live setters
/// exist on this type.
pub struct AcquisitionBuffer {
    camera: Camera,
}

impl View for AcquisitionBuffer {
    type V = DeviceModel;

    closed spec fn view(&self) -> DeviceModel {
        self.camera.device
    }
}

/// Initializes a camera and returns it.
///
/// The caller hands over the device being opened; the returned [`Camera`]
/// exclusively owns it from then on. Opening never changes the device state.
pub fn open_device(device: DeviceModel) -> (r: Result<Camera, i32>)
    requires
        device.wf(),
        !device.acquiring,
    ensures
        r matches Ok(cam) && cam.wf() && cam@ == device,
{
    Ok(Camera { device })
}

/// Initialize the camera with the given bandwidth and return it.
///
/// Automatic bandwidth measurement is switched off before the device is
/// opened, switched back on afterwards — on every path that returns a
/// camera — and the given transport-layer limit, in megabits per second, is
/// applied to the opened device.
pub fn open_device_manual_bandwidth(device: DeviceModel, bandwidth: i32) -> (r: Result<
    Camera,
    i32,
>)
    requires
        device.wf(),
        !device.acquiring,
    ensures
        1 <= bandwidth ==> (r matches Ok(cam) && cam.wf() && cam@ == (DeviceModel {
            auto_bandwidth_calculation: XI_ON,
            limit_bandwidth: bandwidth,
            ..device
        })),
        bandwidth < 1 ==> r == Err::<Camera, i32>(XI_INVALID_ARG),
{
    let mut device = device;
    match device.set(ParamKey::AutoBandwidthCalculation, XI_OFF) {
        Ok(()) => (),
        Err(e) => {
            return Err(e);
        },
    }
    let mut cam = match open_device(device) {
        Ok(cam) => cam,
        Err(e) => {
            return Err(e);
        },
    };
    match cam.set_param(ParamKey::AutoBandwidthCalculation, XI_ON) {
        Ok(()) => (),
        Err(e) => {
            return Err(e);
        },
    }
    match cam.set_param(ParamKey::LimitBandwidth, bandwidth) {
        Ok(()) => (),
        Err(e) => {
            return Err(e);
        },
    }
    Ok(cam)
}

/// The requested region of interest rounded down to the device's grids.
pub open spec fn spec_rounded_roi(d: DeviceModel, roi: Roi) -> Roi {
    Roi {
        offset_x: spec_round_down(roi.offset_x, d.offset_x_inc),
        offset_y: spec_round_down(roi.offset_y, d.offset_y_inc),
        width: spec_round_down(roi.width, d.width_inc),
        height: spec_round_down(roi.height, d.height_inc),
    }
}

/// Whether the device accepts the rounded region: the window respects the
/// reported minima and, together with its offsets, stays inside the sensor.
pub open spec fn spec_roi_ok(d: DeviceModel, roi: Roi) -> bool {
    let r = spec_rounded_roi(d, roi);
    &&& d.width_min <= r.width <= d.sensor_width
    &&& d.height_min <= r.height <= d.sensor_height
    &&& r.offset_x + r.width <= d.sensor_width
    &&& r.offset_y + r.height <= d.sensor_height
}

/// The device state after the rounded region has been applied in full.
pub open spec fn spec_roi_applied(d: DeviceModel, roi: Roi) -> DeviceModel {
    let r = spec_rounded_roi(d, roi);
    DeviceModel {
        width: r.width,
        height: r.height,
        offset_x: r.offset_x,
        offset_y: r.offset_y,
        ..d
    }
}

impl Camera {
    /// Well-formedness of the configurable phase: the device state is sane and
    /// the device is not streaming.
    pub open spec fn wf(self) -> bool {
        self@.wf() && !self@.acquiring
    }

    /// Read the parameter `key`.
    pub fn param(&self, key: ParamKey) -> (r: Result<i32, i32>)
        requires
            self.wf(),
        ensures
            r == Ok::<i32, i32>(spec_get(self@, key)),
    {
        Ok(self.device.get(key))
    }

    /// Write `value` to the parameter `key`. In this phase the only grounds
    /// for rejection are a read-only key or a value the device refuses.
    pub fn set_param(&mut self, key: ParamKey, value: i32) -> (r: Result<(), i32>)
        requires
            old(self).wf(),
        ensures
            final(self).wf(),
            spec_set_ok(old(self)@, key, value) ==> r == Ok::<(), i32>(()) && final(self)@
                == spec_apply_set(old(self)@, key, value),
            !spec_set_ok(old(self)@, key, value) ==> r == Err::<(), i32>(
                spec_set_err(old(self)@, key, value),
            ) && final(self)@ == old(self)@,
    {
        self.device.set(key, value)
    }

    /// Read range information (increment, minimum or maximum) for `key`.
    pub fn param_info(&self, key: ParamKey, which: ParamInfo) -> (r: Result<i32, i32>)
        requires
            self.wf(),
        ensures
            spec_info_supported(key) ==> r == Ok::<i32, i32>(spec_info(self@, key, which)),
            !spec_info_supported(key) ==> r is Err,
    {
        self.device.get_info(key, which)
    }

    /// The increment grid of `key`.
    pub fn param_increment(&self, key: ParamKey) -> (r: Result<i32, i32>)
        requires
            self.wf(),
        ensures
            spec_info_supported(key) ==> r == Ok::<i32, i32>(
                spec_info(self@, key, ParamInfo::Increment),
            ),
            !spec_info_supported(key) ==> r is Err,
    {
        self.param_info(key, ParamInfo::Increment)
    }

    /// The smallest value `key` accepts.
    pub fn param_min(&self, key: ParamKey) -> (r: Result<i32, i32>)
        requires
            self.wf(),
        ensures
            spec_info_supported(key) ==> r == Ok::<i32, i32>(
                spec_info(self@, key, ParamInfo::Minimum),
            ),
            !spec_info_supported(key) ==> r is Err,
    {
        self.param_info(key, ParamInfo::Minimum)
    }

    /// The largest value `key` accepts.
    pub fn param_max(&self, key: ParamKey) -> (r: Result<i32, i32>)
        requires
            self.wf(),
        ensures
            spec_info_supported(key) ==> r == Ok::<i32, i32>(
                spec_info(self@, key, ParamInfo::Maximum),
            ),
            !spec_info_supported(key) ==> r is Err,
    {
        self.param_info(key, ParamInfo::Maximum)
    }

    /// Write an unsigned value to `key`. A value too large for the driver's
    /// signed parameter channel is rejected as an invalid argument.
    fn set_param_u32(&mut self, key: ParamKey, value: u32) -> (r: Result<(), i32>)
        requires
            old(self).wf(),
        ensures
            final(self).wf(),
            value > i32::MAX ==> r == Err::<(), i32>(XI_INVALID_ARG) && final(self)@ == old(
                self,
            )@,
            value <= i32::MAX ==> {
                &&& spec_set_ok(old(self)@, key, value as i32) ==> r == Ok::<(), i32>(())
                    && final(self)@ == spec_apply_set(old(self)@, key, value as i32)
                &&& !spec_set_ok(old(self)@, key, value as i32) ==> r == Err::<(), i32>(
                    spec_set_err(old(self)@, key, value as i32),
                ) && final(self)@ == old(self)@
            },
    {
        if value > i32::MAX as u32 {
            return Err(XI_INVALID_ARG);
        }
        self.set_param(key, value as i32)
    }

    /// Set the region of interest on this camera and return the region that
    /// was actually applied.
    ///
    /// The operation is compound, not atomic: both offsets are first cleared
    /// to zero, so that no transient combination of an old offset and a new
    /// size can exceed the sensor; the width and height are rounded down to
    /// their grids and applied; then each offset is rounded down to its grid
    /// and applied. The returned region is the rounded one, which may differ
    /// from the request. On failure the steps already taken are not rolled
    /// back; the clauses below say exactly which prefix was applied.
    pub fn set_roi(&mut self, roi: &Roi) -> (r: Result<Roi, i32>)
        requires
            old(self).wf(),
        ensures
            final(self).wf(),
            spec_roi_ok(old(self)@, *roi) ==> r == Ok::<Roi, i32>(spec_rounded_roi(old(self)@, *roi))
                && final(self)@ == spec_roi_applied(old(self)@, *roi),
            !spec_roi_ok(old(self)@, *roi) ==> r == Err::<Roi, i32>(XI_INVALID_ARG) && ({
                let rr = spec_rounded_roi(old(self)@, *roi);
                let cleared = DeviceModel { offset_x: 0, offset_y: 0, ..old(self)@ };
                if !(old(self)@.width_min <= rr.width <= old(self)@.sensor_width) {
                    final(self)@ == cleared
                } else if !(old(self)@.height_min <= rr.height <= old(self)@.sensor_height) {
                    final(self)@ == DeviceModel { width: rr.width, ..cleared }
                } else if !(rr.offset_x + rr.width <= old(self)@.sensor_width) {
                    final(self)@ == DeviceModel { width: rr.width, height: rr.height, ..cleared }
                } else {
                    final(self)@ == DeviceModel {
                        width: rr.width,
                        height: rr.height,
                        offset_x: rr.offset_x,
                        ..cleared
                    }
                }
            }),
    {
        match self.set_param_u32(ParamKey::OffsetX, 0) {
            Ok(()) => (),
            Err(e) => {
                return Err(e);
            },
        }
        match self.set_param_u32(ParamKey::OffsetY, 0) {
            Ok(()) => (),
            Err(e) => {
                return Err(e);
            },
        }

        let width_inc = self.device.width_inc;
        let width = round_down(roi.width, width_inc);
        match self.set_param_u32(ParamKey::Width, width) {
            Ok(()) => (),
            Err(e) => {
                return Err(e);
            },
        }

        let height_inc = self.device.height_inc;
        let height = round_down(roi.height, height_inc);
        match self.set_param_u32(ParamKey::Height, height) {
            Ok(()) => (),
            Err(e) => {
                return Err(e);
            },
        }

        let offset_x_inc = self.device.offset_x_inc;
        let offset_x = round_down(roi.offset_x, offset_x_inc);
        match self.set_param_u32(ParamKey::OffsetX, offset_x) {
            Ok(()) => (),
            Err(e) => {
                return Err(e);
            },
        }

        let offset_y_inc = self.device.offset_y_inc;
        let offset_y = round_down(roi.offset_y, offset_y_inc);
        match self.set_param_u32(ParamKey::OffsetY, offset_y) {
            Ok(()) => (),
            Err(e) => {
                return Err(e);
            },
        }

        let actual_roi = Roi { offset_x, offset_y, width, height };
        Ok(actual_roi)
    }

    /// Returns the current region of interest of this camera.
    pub fn roi(&self) -> (r: Result<Roi, i32>)
        requires
            self.wf(),
        ensures
            r == Ok::<Roi, i32>(
                Roi {
                    offset_x: self@.offset_x,
                    offset_y: self@.offset_y,
                    width: self@.width,
                    height: self@.height,
                },
            ),
    {
        let width = match self.param(ParamKey::Width) {
            Ok(v) => v,
            Err(e) => {
                return Err(e);
            },
        };
        let height = match self.param(ParamKey::Height) {
            Ok(v) => v,
            Err(e) => {
                return Err(e);
            },
        };
        let offset_x = match self.param(ParamKey::OffsetX) {
            Ok(v) => v,
            Err(e) => {
                return Err(e);
            },
        };
        let offset_y = match self.param(ParamKey::OffsetY) {
            Ok(v) => v,
            Err(e) => {
                return Err(e);
            },
        };
        let result = Roi {
            offset_x: offset_x as u32,
            offset_y: offset_y as u32,
            width: width as u32,
            height: height as u32,
        };
        Ok(result)
    }

    /// Convenience method to read a counter with a single call.
    ///
    /// The device has one counter-selector register shared by all counter
    /// reads, so the sequence is: save the selected counter, select the
    /// target, read its value, restore the previous selection. The previously
    /// selected counter is selected again afterwards, whatever the outcome.
    pub fn counter(&mut self, counter_selector: u32) -> (r: Result<i32, i32>)
        requires
            old(self).wf(),
        ensures
            final(self).wf(),
            final(self)@.counter_selector == old(self)@.counter_selector,
            final(self)@ == old(self)@,
            counter_selector < COUNTER_COUNT ==> r == Ok::<i32, i32>(
                old(self)@.counters[counter_selector as int],
            ),
            counter_selector >= COUNTER_COUNT ==> r == Err::<i32, i32>(XI_INVALID_ARG),
    {
        let prev_selector = match self.param(ParamKey::CounterSelector) {
            Ok(v) => v,
            Err(e) => {
                return Err(e);
            },
        };
        match self.set_param_u32(ParamKey::CounterSelector, counter_selector) {
            Ok(()) => (),
            Err(e) => {
                return Err(e);
            },
        }
        let result = match self.param(ParamKey::CounterValue) {
            Ok(v) => v,
            Err(e) => {
                return Err(e);
            },
        };
        match self.set_param(ParamKey::CounterSelector, prev_selector) {
            Ok(()) => (),
            Err(e) => {
                return Err(e);
            },
        }
        Ok(result)
    }

    /// Starts the image acquisition on this camera.
    ///
    /// The camera is consumed: while the returned [`AcquisitionBuffer`]
    /// exists, the device streams and only its operations are available. When
    /// the driver refuses to begin acquisition, the error code is returned
    /// and the camera is consumed all the same — the transition is a one-way
    /// commit.
    pub fn start_acquisition(self) -> (r: Result<AcquisitionBuffer, i32>)
        requires
            self.wf(),
        ensures
            self@.start_error == 0 ==> (r matches Ok(buf) && buf.wf() && buf@ == (DeviceModel {
                acquiring: true,
                trigger_pending: 0,
                ..self@
            })),
            self@.start_error != 0 ==> r == Err::<AcquisitionBuffer, i32>(self@.start_error),
    {
        if self.device.start_error != 0 {
            return Err(self.device.start_error);
        }
        let mut device = self.device;
        device.acquiring = true;
        device.trigger_pending = 0;
        Ok(AcquisitionBuffer { camera: Camera { device } })
    }
}

/// Whether the streaming device has a frame to hand out: with the software
/// trigger source a frame exists only while a trigger is pending; every other
/// source produces frames continuously.
pub open spec fn spec_frame_available(d: DeviceModel) -> bool {
    d.trg_source != XI_TRG_SOFTWARE || d.trigger_pending > 0
}

/// The header of the frame the streaming device produces: the current region
/// of interest, the configured format, no row padding, and the running frame
/// number.
pub open spec fn spec_frame_header(d: DeviceModel) -> FrameHeader {
    FrameHeader {
        width: d.width,
        height: d.height,
        padding_x: 0,
        format: d.image_data_format,
        bp_size: (d.width * d.height * spec_channel_count(d.image_data_format)) as u32,
        nframe: d.nframe,
        acq_nframe: d.nframe,
        black_level: 0,
        absolute_offset_x: d.offset_x,
        absolute_offset_y: d.offset_y,
        transport_format: d.image_data_format,
        downsampling_x: 1,
        downsampling_y: 1,
        exposure_time_us: d.exposure as u32,
        image_user_data: d.image_user_data as u32,
        ts_sec: 0,
        ts_usec: 0,
    }
}

/// Byte `i` of a model frame: a deterministic ramp, `i mod 256`.
pub open spec fn spec_frame_byte(i: int) -> u8 {
    (i % 256) as u8
}

/// The full pixel data of the frame the streaming device produces.
pub open spec fn spec_frame_bytes(d: DeviceModel) -> Seq<u8> {
    Seq::new(
        (d.width * d.height * spec_channel_count(d.image_data_format)) as nat,
        |i: int| spec_frame_byte(i),
    )
}

/// The device state after a frame has been taken: the frame number advances
/// and a pending software trigger, if one was consumed, is gone.
pub open spec fn spec_after_frame(d: DeviceModel) -> DeviceModel {
    DeviceModel {
        nframe: if d.nframe == u32::MAX {
            0
        } else {
            (d.nframe + 1) as u32
        },
        trigger_pending: if d.trg_source == XI_TRG_SOFTWARE && d.trigger_pending > 0 {
            (d.trigger_pending - 1) as u32
        } else {
            d.trigger_pending
        },
        ..d
    }
}

impl AcquisitionBuffer {
    /// Well-formedness of the streaming phase: the device state is sane and
    /// the device is streaming.
    pub open spec fn wf(self) -> bool {
        self@.wf() && self@.acquiring
    }

    /// Stop the image acquisition.
    ///
    /// Consumes the acquisition buffer and returns the contained camera, now
    /// safe to reconfigure. When the driver refuses to end acquisition, the
    /// error code is returned and the buffer is consumed all the same.
    pub fn stop_acquisition(self) -> (r: Result<Camera, i32>)
        requires
            self.wf(),
        ensures
            self@.stop_error == 0 ==> (r matches Ok(cam) && cam.wf() && cam@ == (DeviceModel {
                acquiring: false,
                trigger_pending: 0,
                ..self@
            })),
            self@.stop_error != 0 ==> r == Err::<Camera, i32>(self@.stop_error),
    {
        if self.camera.device.stop_error != 0 {
            return Err(self.camera.device.stop_error);
        }
        let mut camera = self.camera;
        camera.device.acquiring = false;
        camera.device.trigger_pending = 0;
        Ok(camera)
    }

    /// Get the next image.
    ///
    /// Waits for a frame, up to `timeout` milliseconds (no bound when
    /// `None`), and returns it as a bounds-checked [`Image`]. The image
    /// borrows from this buffer: it cannot outlive the acquisition, and no
    /// further frame can be fetched while it is held. In this model the wait
    /// ends immediately: with the software trigger source and no pending
    /// trigger no frame ever arrives and the wait reports a timeout; every
    /// other source has a frame ready.
    pub fn next_image<'b>(&'b mut self, timeout: Option<u32>) -> (r: Result<Image<'b, u8>, i32>)
        requires
            old(self).wf(),
        ensures
            final(self).wf(),
            spec_frame_available(old(self)@) ==> (r matches Ok(img) && img@.header
                == spec_frame_header(old(self)@) && img@.buffer_valid && img@.elem_size == 1
                && img@.elems == spec_frame_bytes(old(self)@) && final(self)@ == spec_after_frame(
                old(self)@,
            )),
            !spec_frame_available(old(self)@) ==> r == Err::<Image<'b, u8>, i32>(XI_TIMEOUT)
                && final(self)@ == old(self)@,
    {
        let _deadline = match timeout {
            Some(t) => t,
            None => u32::MAX,
        };
        if self.camera.device.trg_source == XI_TRG_SOFTWARE && self.camera.device.trigger_pending
            == 0 {
            return Err(XI_TIMEOUT);
        }
        let d_width = self.camera.device.width;
        let d_height = self.camera.device.height;
        let channels = channel_count(self.camera.device.image_data_format);
        proof {
            assert(d_width * d_height <= 8192 * 8192 && d_width * d_height * channels <= 8192
                * 8192 * 4) by (nonlinear_arith)
                requires
                    d_width <= 8192u32,
                    d_height <= 8192u32,
                    channels <= 4u32,
            ;
        }
        let len: u32 = d_width * d_height * channels;
        let mut buffer: Vec<u8> = Vec::new();
        let mut i: u32 = 0;
        while i < len
            invariant
                i <= len,
                buffer@.len() == i,
                forall|j: int| 0 <= j < i ==> buffer@[j] == spec_frame_byte(j),
            decreases len - i,
        {
            buffer.push((i % 256) as u8);
            i = i + 1;
        }
        let header = FrameHeader {
            width: d_width,
            height: d_height,
            padding_x: 0,
            format: self.camera.device.image_data_format,
            bp_size: len,
            nframe: self.camera.device.nframe,
            acq_nframe: self.camera.device.nframe,
            black_level: 0,
            absolute_offset_x: self.camera.device.offset_x,
            absolute_offset_y: self.camera.device.offset_y,
            transport_format: self.camera.device.image_data_format,
            downsampling_x: 1,
            downsampling_y: 1,
            exposure_time_us: self.camera.device.exposure as u32,
            image_user_data: self.camera.device.image_user_data as u32,
            ts_sec: 0,
            ts_usec: 0,
        };
        if self.camera.device.nframe == u32::MAX {
            self.camera.device.nframe = 0;
        } else {
            self.camera.device.nframe = self.camera.device.nframe + 1;
        }
        if self.camera.device.trg_source == XI_TRG_SOFTWARE {
            self.camera.device.trigger_pending = self.camera.device.trigger_pending - 1;
        }
        proof {
            assert(buffer@ =~= spec_frame_bytes(old(self)@));
        }
        let image = Image::from_parts(header, buffer, true, 1);
        Ok(image)
    }

    /// Send a software trigger signal to the camera.
    ///
    /// The trigger source has to be set to the software trigger for this to
    /// take effect; with any other source the signal is accepted and ignored.
    pub fn software_trigger(&mut self) -> (r: Result<(), i32>)
        requires
            old(self).wf(),
        ensures
            final(self).wf(),
            r == Ok::<(), i32>(()),
            old(self)@.trg_source == XI_TRG_SOFTWARE ==> final(self)@ == (DeviceModel {
                trigger_pending: if old(self)@.trigger_pending == u32::MAX {
                    u32::MAX
                } else {
                    (old(self)@.trigger_pending + 1) as u32
                },
                ..old(self)@
            }),
            old(self)@.trg_source != XI_TRG_SOFTWARE ==> final(self)@ == old(self)@,
    {
        self.camera.device.set(ParamKey::TrgSoftware, XI_ON)
    }

    /// Set the exposure time of the camera while streaming, in microseconds.
    ///
    /// Exposure is on the live-update allow-list, so the write is legal in
    /// this phase. The device quantises the value down to its exposure grid;
    /// the applied value is within one increment of the request.
    pub fn set_exposure(&mut self, exposure: i32) -> (r: Result<(), i32>)
        requires
            old(self).wf(),
        ensures
            final(self).wf(),
            1 <= exposure ==> r == Ok::<(), i32>(()) && final(self)@ == (DeviceModel {
                exposure: spec_quantize(exposure, old(self)@.exposure_inc),
                ..old(self)@
            }),
            exposure < 1 ==> r == Err::<(), i32>(XI_INVALID_ARG) && final(self)@ == old(self)@,
            1 <= exposure ==> final(self)@.exposure <= exposure && exposure - final(self)@.exposure
                < old(self)@.exposure_inc,
    {
        proof {
            if 1 <= exposure {
                lemma_quantize(exposure, old(self)@.exposure_inc);
            }
        }
        self.camera.device.set(ParamKey::Exposure, exposure)
    }

    /// Set the gain of the camera while streaming.
    ///
    /// Gain is on the live-update allow-list, so the write is legal in this
    /// phase; the device stores the value as given.
    pub fn set_gain(&mut self, gain: i32) -> (r: Result<(), i32>)
        requires
            old(self).wf(),
        ensures
            final(self).wf(),
            r == Ok::<(), i32>(()),
            final(self)@ == (DeviceModel { gain, ..old(self)@ }),
    {
        self.camera.device.set(ParamKey::Gain, gain)
    }
}

/// Applying a region of interest is idempotent: after a region has been set,
/// requesting the same region again rounds to the same values, is accepted
/// again, and leaves the device state exactly as it was.
pub proof fn lemma_set_roi_idempotent(d: DeviceModel, roi: Roi)
    requires
        d.wf(),
        spec_roi_ok(d, roi),
    ensures
        spec_rounded_roi(spec_roi_applied(d, roi), roi) == spec_rounded_roi(d, roi),
        spec_roi_ok(spec_roi_applied(d, roi), roi),
        spec_roi_applied(spec_roi_applied(d, roi), roi) == spec_roi_applied(d, roi),
{
    assert(spec_roi_applied(spec_roi_applied(d, roi), roi) =~= spec_roi_applied(d, roi));
}

} // verus!
