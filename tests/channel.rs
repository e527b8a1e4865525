use magewell_capture::capture::ChannelHandle;
use magewell_capture::eco_channel::{EcoChannel, INDEFINITE_FRAME_DURATION};
use magewell_capture::error::{
    ERROR_EVENT, EVENTFD_FAILED, INIT_FAILED, LOCK_FAILED, EVENTFD_READ_FAILED, EVENT_FAILED, FRAME_ALREADY_SET,
    MW_ENODATA, MW_SUCCEEDED, NO_FRAME_SET, OPEN_FAILED, REFRESH_FAILED, SET_FRAME_FAILED,
    CAPTURE_AUDIO_FAILED, CHANNEL_INFO_FAILED, VIDEO_STATUS_FAILED,
};
use magewell_capture::fourcc::FourCC;
use magewell_capture::frames::{AudioCaptureFrame, EcoVideoCaptureFrame};
use magewell_capture::info::{ChannelInfo, RawChannelInfo};
use magewell_capture::notify::{NotifyEvents, NOTIFY_AUDIO_FRAME_BUFFERED, NOTIFY_VIDEO_FRAME_BUFFERED};
use magewell_capture::registry::{get_channel_info, is_eco_family, Channel};
use magewell_capture::signal::{AudioSignalStatus, VideoSignalStatus};
use std::time::Duration;

const MW_FAILED: u32 = 1;

fn padded(text: &str, len: usize, pad: u8) -> Vec<u8> {
    let mut v = text.as_bytes().to_vec();
    v.resize(len, pad);
    v
}

fn raw_info(board: u8, channel: u8, family: &str, serial: &str) -> RawChannelInfo {
    RawChannelInfo {
        board_index: board,
        channel_index: channel,
        board_serial_number: padded(serial, 16, 0x20),
        firmware_name: padded("Firmware", 64, 0),
        product_name: padded("Pro Capture HDMI", 64, 0),
        family_name: padded(family, 64, 0),
        firmware_version: 0x0001_0002,
        driver_version: 0x0102_0003,
        hardware_version: b'A',
    }
}

fn eco_channel() -> EcoChannel {
    let handle = ChannelHandle::from_raw(0x1000).unwrap();
    let info = ChannelInfo::from_raw(&raw_info(0, 0, "Eco Capture", "B123"));
    EcoChannel::new(handle, info, Some(7)).unwrap()
}

#[test]
fn test_channel_info() {
    let reads = vec![
        Some(raw_info(0, 0, "Eco Capture", "B123")),
        Some(raw_info(0, 1, "Eco Capture", "B123")),
    ];
    for ch in get_channel_info(true, true, MW_SUCCEEDED, &reads).unwrap() {
        println!(
            "[{}:{}] {} ({}), driver = {:?}, fw = {:?}, hw = {}",
            ch.board_index(),
            ch.channel_index(),
            std::str::from_utf8(ch.product_name()).unwrap(),
            std::str::from_utf8(ch.board_serial_number()).unwrap(),
            ch.driver_version(),
            ch.firmware_version(),
            ch.hardware_version(),
        );
    }
}

#[test]
fn test_channel() {
    let reads = vec![Some(raw_info(0, 0, "Eco Capture", "B123"))];
    let listed = get_channel_info(true, true, MW_SUCCEEDED, &reads).unwrap();
    if listed.is_empty() {
        println!("skipping test, no devices found");
        return;
    }

    let raw = raw_info(0, 0, "Eco Capture", "B123");
    let mut ch = Channel::open(true, true, MW_SUCCEEDED, 0x1000, MW_SUCCEEDED, &raw, Some(7)).unwrap();

    let start_time = ch.base().get_device_time(MW_SUCCEEDED, 1_000).unwrap();

    let audio_status = ch
        .base()
        .get_audio_signal_status(MW_SUCCEEDED, AudioSignalStatus::new(0b11, 1, 16, 48_000))
        .unwrap();
    println!(
        "audio channels = {}, bit depth = {}, sample rate = {}",
        audio_status.channel_count(),
        audio_status.bits_per_sample(),
        audio_status.sample_rate(),
    );

    let video_status = ch
        .base()
        .get_video_signal_status(MW_SUCCEEDED, VideoSignalStatus::new(3, 1920, 1080, 166_833))
        .unwrap();
    println!(
        "video state = {:?}, width = {}, height = {}, frame duration = {:?}",
        video_status.state(),
        video_status.image_width(),
        video_status.image_height(),
        video_status.frame_duration(),
    );

    // Audio: each wake-up finds queued frames until the hardware reports none.
    let mut audio_frame = AudioCaptureFrame::default();
    {
        ch.base_mut().start_audio_capture(MW_SUCCEEDED).unwrap();
        let notify_handle = ch
            .base_mut()
            .register_notify(NotifyEvents::from_bits_truncate(NOTIFY_AUDIO_FRAME_BUFFERED), 0x55)
            .unwrap();

        match &mut ch {
            Channel::Eco(ch) => {
                let mut ticks: i64 = 2_000;
                for _ in 0..5 {
                    ch.wait(Some(1)).unwrap();
                    let mut count = 0;
                    loop {
                        audio_frame.clear_sync_code();
                        ticks += 10;
                        let filled = AudioCaptureFrame::from_parts(
                            count,
                            if count < 3 { 0xfeed } else { 0 },
                            1,
                            ticks,
                            audio_frame.samples().to_vec(),
                        );
                        let code = if count < 3 { MW_SUCCEEDED } else { MW_ENODATA };
                        audio_frame = filled;
                        if !ch.base_mut().capture_audio_frame(&audio_frame, code).unwrap() {
                            break;
                        }
                        count += 1;
                        assert!(audio_frame.timestamp() > start_time);
                    }
                    assert!(count > 0);
                }
            }
            _ => {
                panic!("expected channel type");
            }
        }

        ch.base_mut().unregister_notify(notify_handle, MW_SUCCEEDED).unwrap();
        ch.base_mut().stop_audio_capture(MW_SUCCEEDED).unwrap();
    }

    // Video: submit a buffer, wait, poll until it comes back.
    match ch {
        Channel::Eco(mut ch) => {
            let format = FourCC::new('B', 'G', 'R', ' ');
            let stride = 1920 * 3;
            let image_size = stride * 1080;
            let params = ch.video_capture_params(
                video_status.image_width(),
                video_status.image_height(),
                &format,
            );
            assert_eq!(params.width, 1920);
            assert_eq!(params.frame_duration, INDEFINITE_FRAME_DURATION);
            ch.start_video_capture(MW_SUCCEEDED).unwrap();

            let mut frame = EcoVideoCaptureFrame::new(image_size, stride);

            for n in 0..5i64 {
                ch.set_video_capture_frame(frame).unwrap();
                ch.complete_video_capture_frame(MW_SUCCEEDED).unwrap();
                let mut polls = 0;
                frame = loop {
                    ch.wait(Some(1)).unwrap();
                    let pointer = if polls < 2 { 0 } else { 0xdead_0000 };
                    polls += 1;
                    if let Some(status) =
                        ch.get_video_capture_status(MW_SUCCEEDED, pointer, 5_000 + n).unwrap()
                    {
                        assert!(status.timestamp() > start_time);
                        break status.into_frame();
                    }
                };
                assert_eq!(frame.as_slice().len(), image_size);
                assert_eq!(frame.stride(), stride);
            }

            ch.stop_video_capture(MW_SUCCEEDED).unwrap();
        }
        _ => {
            panic!("expected channel type");
        }
    }
}

fn open_with(raw_handle: u64, family: &str, event: Option<u64>) -> Result<Channel, magewell_capture::error::Error> {
    let raw = raw_info(0, 0, family, "S");
    Channel::open(true, true, MW_SUCCEEDED, raw_handle, MW_SUCCEEDED, &raw, event)
}

#[test]
fn open_without_hardware_fails() {
    let err = ChannelHandle::from_raw(0).unwrap_err();
    assert_eq!(err.context(), OPEN_FAILED);
    assert_eq!(open_with(0, "Eco Capture", Some(3)).err().unwrap().context(), OPEN_FAILED);
}

#[test]
fn open_reports_the_first_failing_step() {
    let raw = raw_info(0, 0, "Eco Capture", "S");
    let open = |init: bool, locked: bool, refresh: u32, handle: u64, info: u32| {
        Channel::open(init, locked, refresh, handle, info, &raw, Some(3)).err().unwrap().context()
    };
    assert_eq!(open(false, false, MW_FAILED, 0, MW_FAILED), INIT_FAILED);
    assert_eq!(open(true, false, MW_FAILED, 0, MW_FAILED), LOCK_FAILED);
    assert_eq!(open(true, true, MW_FAILED, 0, MW_FAILED), REFRESH_FAILED);
    assert_eq!(open(true, true, MW_SUCCEEDED, 0, MW_FAILED), OPEN_FAILED);
    assert_eq!(open(true, true, MW_SUCCEEDED, 5, MW_FAILED), CHANNEL_INFO_FAILED);
}

#[test]
fn open_dispatches_on_family() {
    let eco = ChannelInfo::from_raw(&raw_info(0, 0, "Eco Capture", "S"));
    let pro = ChannelInfo::from_raw(&raw_info(1, 0, "Pro Capture", "S"));
    assert!(is_eco_family(&eco));
    assert!(!is_eco_family(&pro));
    assert!(!is_eco_family(&ChannelInfo::from_raw(&raw_info(0, 0, "Eco Capturf", "S"))));
    assert!(!is_eco_family(&ChannelInfo::from_raw(&raw_info(0, 0, "Eco Capture X", "S"))));
    assert!(matches!(open_with(1, "Eco Capture", Some(3)), Ok(Channel::Eco(_))));
    let raw = raw_info(1, 0, "Pro Capture", "S");
    let ch = Channel::open(true, true, MW_SUCCEEDED, 1, MW_SUCCEEDED, &raw, Some(9)).unwrap();
    assert!(matches!(ch, Channel::Pro(_)));
    assert_eq!(ch.base().event(), 9);
    assert_eq!(ch.base().handle().raw(), 1);
    assert_eq!(ch.base().info().board_index(), 1);
    assert!(!ch.base().wakes_on(NotifyEvents::from_bits_truncate(u32::MAX)));
}

#[test]
fn open_fails_without_completion_source() {
    assert_eq!(open_with(1, "Eco Capture", None).err().unwrap().context(), EVENTFD_FAILED);
    assert_eq!(open_with(1, "Pro Capture", Some(0)).err().unwrap().context(), EVENT_FAILED);
    assert_eq!(open_with(1, "Pro Capture", None).err().unwrap().context(), EVENT_FAILED);
}

#[test]
fn listing_has_one_trimmed_entry_per_channel() {
    let reads = vec![
        Some(raw_info(0, 0, "Eco Capture", "AB12")),
        Some(raw_info(0, 1, "Eco Capture", "CD34")),
        Some(raw_info(1, 0, "Pro Capture", "EF56")),
    ];
    let first = get_channel_info(true, true, MW_SUCCEEDED, &reads).unwrap();
    let second = get_channel_info(true, true, MW_SUCCEEDED, &reads).unwrap();
    assert_eq!(first.len(), 3);
    assert_eq!(second.len(), 3);
    for (a, b) in first.iter().zip(second.iter()) {
        assert_eq!(a.board_index(), b.board_index());
        assert_eq!(a.channel_index(), b.channel_index());
        assert_eq!(a.board_serial_number(), b.board_serial_number());
        assert_eq!(a.family_name(), b.family_name());
    }
    assert_eq!(first[0].board_serial_number(), b"AB12");
    assert_eq!(first[2].board_serial_number(), b"EF56");
    assert_eq!(first[2].family_name(), b"Pro Capture");
    assert_eq!(first[1].channel_index(), 1);
}

#[test]
fn listing_with_no_channels_is_empty() {
    assert!(get_channel_info(true, true, MW_SUCCEEDED, &vec![]).unwrap().is_empty());
}

#[test]
fn listing_failures() {
    let reads = vec![Some(raw_info(0, 0, "Eco Capture", "AB12")), None];
    assert_eq!(get_channel_info(true, true, MW_SUCCEEDED, &reads).err().unwrap().context(), CHANNEL_INFO_FAILED);
    assert_eq!(get_channel_info(true, true, MW_FAILED, &reads).err().unwrap().context(), REFRESH_FAILED);
    assert_eq!(get_channel_info(false, true, MW_SUCCEEDED, &reads).err().unwrap().context(), INIT_FAILED);
    assert_eq!(get_channel_info(true, false, MW_SUCCEEDED, &reads).err().unwrap().context(), LOCK_FAILED);
}

#[test]
fn serial_number_trimming() {
    let mut raw = raw_info(0, 0, "Eco Capture", "");
    raw.board_serial_number = b"XY 9  \0 \0\0".to_vec();
    assert_eq!(ChannelInfo::from_raw(&raw).board_serial_number(), b"XY 9");
    raw.board_serial_number = b"AB \0CD  ".to_vec();
    assert_eq!(ChannelInfo::from_raw(&raw).board_serial_number(), b"AB");
    raw.board_serial_number = b"    ".to_vec();
    assert_eq!(ChannelInfo::from_raw(&raw).board_serial_number(), b"");
    raw.board_serial_number = b"NOPAD".to_vec();
    assert_eq!(ChannelInfo::from_raw(&raw).board_serial_number(), b"NOPAD");
}

#[test]
fn second_submission_is_refused() {
    let mut ch = eco_channel();
    ch.set_video_capture_frame(EcoVideoCaptureFrame::new(16, 4)).unwrap();
    ch.complete_video_capture_frame(MW_SUCCEEDED).unwrap();
    let e1 = ch.set_video_capture_frame(EcoVideoCaptureFrame::new(8, 2)).unwrap_err();
    let e2 = ch.set_video_capture_frame(EcoVideoCaptureFrame::new(8, 2)).unwrap_err();
    assert_eq!(e1.context(), FRAME_ALREADY_SET);
    assert_eq!(e2.context(), FRAME_ALREADY_SET);
    let status = ch.get_video_capture_status(MW_SUCCEEDED, 0x10, 1).unwrap().unwrap();
    assert_eq!(status.frame().as_slice().len(), 16);
    assert_eq!(status.frame().stride(), 4);
}

#[test]
fn refused_submission_releases_the_slot() {
    let mut ch = eco_channel();
    ch.set_video_capture_frame(EcoVideoCaptureFrame::new(16, 4)).unwrap();
    let err = ch.complete_video_capture_frame(MW_FAILED).unwrap_err();
    assert_eq!(err.context(), SET_FRAME_FAILED);
    ch.set_video_capture_frame(EcoVideoCaptureFrame::new(16, 4)).unwrap();
}

#[test]
fn poll_before_submission_fails() {
    let mut ch = eco_channel();
    let err = ch.get_video_capture_status(MW_SUCCEEDED, 0x10, 1).err().unwrap();
    assert_eq!(err.context(), NO_FRAME_SET);
    let err = ch.get_video_capture_status(MW_SUCCEEDED, 0, 1).err().unwrap();
    assert_eq!(err.context(), NO_FRAME_SET);
    let err = ch.get_video_capture_status(MW_FAILED, 0x10, 1).err().unwrap();
    assert_eq!(err.context(), VIDEO_STATUS_FAILED);
}

#[test]
fn poll_reclaims_the_submitted_frame() {
    let mut ch = eco_channel();
    ch.start_video_capture(MW_SUCCEEDED).unwrap();
    ch.set_video_capture_frame(EcoVideoCaptureFrame::new(24, 6)).unwrap();
    ch.complete_video_capture_frame(MW_SUCCEEDED).unwrap();
    assert!(ch.get_video_capture_status(MW_SUCCEEDED, 0, 0).unwrap().is_none());
    assert!(ch.get_video_capture_status(MW_SUCCEEDED, 0, 0).unwrap().is_none());
    ch.wait(Some(1)).unwrap();
    let status = ch.get_video_capture_status(MW_SUCCEEDED, 0x42, 12_345_678).unwrap().unwrap();
    assert_eq!(status.timestamp(), Duration::new(1, 234_567_800));
    let frame = status.into_frame();
    assert_eq!(frame.as_slice(), &[0u8; 24][..]);
    assert_eq!(frame.stride(), 6);
    assert_eq!(
        ch.get_video_capture_status(MW_SUCCEEDED, 0x42, 1).err().unwrap().context(),
        NO_FRAME_SET
    );
}

#[test]
fn wait_outcomes() {
    let ch = eco_channel();
    assert!(ch.wait(Some(2)).is_ok());
    assert_eq!(ch.wait(Some(0)).unwrap_err().context(), ERROR_EVENT);
    assert_eq!(ch.wait(None).unwrap_err().context(), EVENTFD_READ_FAILED);
}

#[test]
fn capture_audio_frame_outcomes() {
    let mut ch = eco_channel();
    let mut frame = AudioCaptureFrame::from_parts(1, 0xabcd, 1, 100, vec![7; 192 * 8]);
    assert!(ch.base_mut().capture_audio_frame(&frame, MW_SUCCEEDED).unwrap());
    assert!(!ch.base_mut().capture_audio_frame(&frame, MW_ENODATA).unwrap());
    frame.clear_sync_code();
    assert_eq!(frame.sync_code(), 0);
    assert_eq!(frame.samples().len(), 192 * 8);
    assert_eq!(frame.samples()[5], 7);
    assert_eq!(frame.frame_index(), 1);
    assert!(!ch.base_mut().capture_audio_frame(&frame, MW_SUCCEEDED).unwrap());
    assert_eq!(
        ch.base_mut().capture_audio_frame(&frame, MW_FAILED).unwrap_err().context(),
        CAPTURE_AUDIO_FAILED
    );
}

#[test]
fn register_then_unregister_does_not_wake() {
    let mut ch = eco_channel();
    let all = NotifyEvents::from_bits_truncate(u32::MAX);
    assert!(!ch.base().wakes_on(all));
    let handle = ch
        .base_mut()
        .register_notify(NotifyEvents::from_bits_truncate(NOTIFY_VIDEO_FRAME_BUFFERED), 77)
        .unwrap();
    assert_eq!(handle.token(), 77);
    assert!(ch.base().wakes_on(NotifyEvents::from_bits_truncate(NOTIFY_VIDEO_FRAME_BUFFERED)));
    assert!(!ch.base().wakes_on(NotifyEvents::from_bits_truncate(NOTIFY_AUDIO_FRAME_BUFFERED)));
    ch.base_mut().unregister_notify(handle, MW_SUCCEEDED).unwrap();
    assert!(!ch.base().wakes_on(all));
}

#[test]
fn notify_registration_failures() {
    let mut ch = eco_channel();
    assert!(ch.base_mut().register_notify(NotifyEvents::empty(), 0).is_err());
    let h = ch
        .base_mut()
        .register_notify(NotifyEvents::from_bits_truncate(NOTIFY_AUDIO_FRAME_BUFFERED), 5)
        .unwrap();
    assert!(ch.base_mut().unregister_notify(h, MW_FAILED).is_err());
    assert!(ch.base().wakes_on(NotifyEvents::from_bits_truncate(NOTIFY_AUDIO_FRAME_BUFFERED)));
}

#[test]
fn device_time_is_scaled_from_ticks() {
    let ch = eco_channel();
    assert_eq!(ch.base().get_device_time(MW_SUCCEEDED, 25).unwrap(), Duration::from_nanos(2_500));
    assert_eq!(
        ch.base().get_device_time(MW_SUCCEEDED, 30_000_000).unwrap(),
        Duration::from_secs(3)
    );
    assert!(ch.base().get_device_time(MW_FAILED, 25).is_err());
}
