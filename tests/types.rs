use magewell_capture::error::{MW_SUCCEEDED, AUDIO_STATUS_FAILED};
use magewell_capture::fourcc::FourCC;
use magewell_capture::frames::{AudioCaptureFrame, EcoVideoCaptureFrame, EcoVideoCaptureStatus};
use magewell_capture::info::{ChannelInfo, RawChannelInfo};
use magewell_capture::notify::{NotifyEvents, NOTIFY_AUDIO_FRAME_BUFFERED, NOTIFY_INPUT_SORUCE_SCAN_CHANGE, NOTIFY_INPUT_SORUCE_START_SCAN};
use magewell_capture::signal::{AudioSignalStatus, VideoSignalState, VideoSignalStatus};
use magewell_capture::time::duration_from_ticks;
use magewell_capture::capture::{ChannelBase, ChannelHandle};
use std::time::Duration;

fn info_with_versions(firmware: u32, driver: u32) -> ChannelInfo {
    ChannelInfo::from_raw(&RawChannelInfo {
        board_index: 2,
        channel_index: 3,
        board_serial_number: b"SN\0".to_vec(),
        firmware_name: b"fw\0junk".to_vec(),
        product_name: b"Product".to_vec(),
        family_name: b"Pro Capture\0\0".to_vec(),
        firmware_version: firmware,
        driver_version: driver,
        hardware_version: b'B',
    })
}

#[test]
fn version_words_are_split() {
    let info = info_with_versions(0x0003_0010, 0x0102_0304);
    assert_eq!(info.firmware_version(), (3, 16));
    assert_eq!(info.driver_version(), (1, 2, 0x0304));
    assert_eq!(info.hardware_version(), 'B');
    assert_eq!(info.board_index(), 2);
    assert_eq!(info.channel_index(), 3);
}

#[test]
fn names_stop_at_the_first_nul() {
    let info = info_with_versions(0, 0);
    assert_eq!(info.firmware_name(), b"fw");
    assert_eq!(info.product_name(), b"Product");
    assert_eq!(info.family_name(), b"Pro Capture");
    assert_eq!(info.board_serial_number(), b"SN");
}

#[test]
fn audio_channel_count_counts_pairs() {
    assert_eq!(AudioSignalStatus::new(0, 0, 16, 48_000).channel_count(), 0);
    assert_eq!(AudioSignalStatus::new(0b101, 1, 24, 44_100).channel_count(), 4);
    assert_eq!(AudioSignalStatus::new(0xffff, 1, 24, 44_100).channel_count(), 32);
    let s = AudioSignalStatus::new(0b1, 2, 24, 96_000);
    assert!(s.is_lpcm());
    assert!(!AudioSignalStatus::new(0b1, 0, 24, 96_000).is_lpcm());
    assert_eq!(s.bits_per_sample(), 24);
    assert_eq!(s.sample_rate(), 96_000);
}

#[test]
fn video_signal_fields() {
    let s = VideoSignalStatus::new(3, 1280, 720, 333_667);
    assert_eq!(s.state(), VideoSignalState::Locked);
    assert_eq!(s.image_width(), 1280);
    assert_eq!(s.image_height(), 720);
    assert_eq!(s.frame_duration(), Duration::from_nanos(33_366_700));
    assert_eq!(VideoSignalStatus::new(0, 0, 0, 0).state(), VideoSignalState::NoSignal);
    assert_eq!(VideoSignalStatus::new(1, 0, 0, 0).state(), VideoSignalState::Unsupported);
    assert_eq!(VideoSignalStatus::new(2, 0, 0, 0).state(), VideoSignalState::Locking);
    assert_eq!(VideoSignalStatus::new(9, 0, 0, 0).state(), VideoSignalState::Other);
    assert_eq!(VideoSignalStatus::new(0, 70_000, 0, 0).image_width(), 4_464);
}

#[test]
fn signal_reads_fail_on_native_error() {
    let handle = ChannelHandle::from_raw(4).unwrap();
    let base = ChannelBase::new(handle, info_with_versions(0, 0), 8);
    let status = AudioSignalStatus::new(1, 1, 16, 48_000);
    assert_eq!(
        base.get_audio_signal_status(1, status).err().unwrap().context(),
        AUDIO_STATUS_FAILED
    );
    let status = VideoSignalStatus::new(3, 640, 480, 0);
    assert_eq!(
        base.get_video_signal_status(MW_SUCCEEDED, status).unwrap().image_width(),
        640
    );
}

#[test]
fn fourcc_packs_little_endian() {
    let f = FourCC::new('B', 'G', 'R', ' ');
    assert_eq!(f.as_u32(), 0x2052_4742);
    assert_eq!(FourCC::new('Y', 'U', 'Y', '2').as_u32(), u32::from_le_bytes(*b"YUY2"));
}

#[test]
fn ticks_convert_exactly() {
    assert_eq!(duration_from_ticks(0), Duration::ZERO);
    assert_eq!(duration_from_ticks(1), Duration::from_nanos(100));
    assert_eq!(duration_from_ticks(12_345_678), Duration::new(1, 234_567_800));
    assert_eq!(
        duration_from_ticks(u64::MAX),
        Duration::new(u64::MAX / 10_000_000, ((u64::MAX % 10_000_000) * 100) as u32)
    );
}

#[test]
fn frames_start_zeroed() {
    let f = EcoVideoCaptureFrame::new(10, 5);
    assert_eq!(f.as_slice(), &[0u8; 10][..]);
    assert_eq!(f.stride(), 5);
    let a = AudioCaptureFrame::default();
    assert_eq!(a.samples().len(), 192 * 8);
    assert!(a.samples().iter().all(|s| *s == 0));
    assert_eq!(a.timestamp(), Duration::ZERO);
    assert_eq!(a.sync_code(), 0);
    assert_eq!(a.frame_count(), 0);
}

#[test]
fn frame_bytes_are_writable() {
    let mut f = EcoVideoCaptureFrame::new(4, 4);
    f.as_mut_slice()[2] = 9;
    assert_eq!(f.as_slice(), &[0, 0, 9, 0]);
    let st = EcoVideoCaptureStatus::new(f, 20);
    assert_eq!(st.frame().as_slice()[2], 9);
    assert_eq!(st.timestamp(), Duration::from_nanos(2_000));
}

#[test]
fn notify_event_sets() {
    let a = NotifyEvents::from_bits_truncate(NOTIFY_AUDIO_FRAME_BUFFERED);
    let s = NotifyEvents::from_bits_truncate(NOTIFY_INPUT_SORUCE_START_SCAN);
    let both = a.union(s);
    assert_eq!(both.bits(), 4096 | 1);
    assert!(both.contains(a));
    assert!(!a.contains(both));
    assert!(both.intersects(s));
    assert!(!a.intersects(s));
    assert_eq!(NotifyEvents::from_bits_truncate(u32::MAX).bits(), 0x3_ffff);
    assert!(NotifyEvents::from_bits_truncate(NOTIFY_INPUT_SORUCE_SCAN_CHANGE).contains(s));
    assert_eq!(NotifyEvents::empty().bits(), 0);
}
