use sdmmc::block::DataBlock;
use sdmmc::bus::{
    reply_fits, Action, Buffer, BusWidth, ControllerVersion, Error, Operation, Progress, Reply,
};
use sdmmc::card::{CardCapacity, Emmc};
use sdmmc::command::Command;
use sdmmc::device::StorageDevice;
use sdmmc::emmc::{bus_width_code, read_ext_csd, write_ext_csd_byte};
use sdmmc::power::{power_off_millis, PowerOffMode};
use sdmmc::time::mhz;

const READY: u32 = 0x900;
const BUSY: u32 = 0xE00;
const CID: u128 = 0x1501_0038_4747_4638_5200_0000_1234_5678;
const CSD: u128 = 0xD027_0132_0F59_03FF_F6DB_FFEF_8E40_400D;

fn run<O: Operation>(mut op: O, replies: Vec<Reply>) -> (Vec<Action>, Progress<O, O::Output>) {
    let mut actions = Vec::new();
    for reply in replies {
        let action = op.action();
        assert!(reply_fits(&action, &reply), "{:?} does not answer {:?}", reply, action);
        actions.push(action);
        match op.advance(reply) {
            Progress::Pending(next) => op = next,
            Progress::Finished(result) => return (actions, Progress::Finished(result)),
        }
    }
    (actions, Progress::Pending(op))
}

fn result<O: Operation>(progress: Progress<O, O::Output>) -> Result<O::Output, Error> {
    match progress {
        Progress::Finished(result) => result,
        Progress::Pending(_) => panic!("the operation has not ended"),
    }
}

fn send(index: u8, arg: u32, data: bool) -> Action {
    Action::Command { command: Command { index, arg }, check_crc: true, data }
}

fn ext_csd() -> DataBlock {
    let mut block = DataBlock::new();
    block.0[53] = 7_733_248;
    block.0[48] = 0x0000_0500;
    block
}

fn answers(ocr: u32) -> Vec<Reply> {
    vec![
        Reply::Done,
        Reply::Word(0),
        Reply::Word(ocr),
        Reply::Register(CID),
        Reply::Word(READY),
        Reply::Register(CSD),
        Reply::Done,
        Reply::Word(READY),
        Reply::Word(READY),
        Reply::Word(READY),
        Reply::Word(READY),
        Reply::Done,
        Reply::Word(READY),
        Reply::Done,
        Reply::Word(READY),
        Reply::BlockData(ext_csd()),
    ]
}

fn described(capacity: CardCapacity, ocr: u32) -> Emmc {
    let mut info = Emmc::default();
    info.capacity = capacity;
    info.ocr = ocr;
    info.rca = 1;
    info.cid = CID;
    info.csd = CSD;
    info.ext_csd = ext_csd().0;
    info
}

fn device(ext_csd: [u32; 128]) -> StorageDevice<Emmc> {
    let mut info = Emmc::default();
    info.rca = 1;
    info.ext_csd = ext_csd;
    StorageDevice { info, version: ControllerVersion::V2 }
}

fn read_replies(power_off_status: u8) -> Vec<Reply> {
    let mut block = DataBlock::new();
    block.set_byte(34, power_off_status);
    block.set_byte(247, 50);
    vec![Reply::Word(READY), Reply::Done, Reply::Word(READY), Reply::BlockData(block)]
}

fn read_actions() -> Vec<Action> {
    vec![
        send(16, 512, false),
        Action::PrepareRead { buffer: Buffer::Block, block_size: 512 },
        send(8, 0, true),
        Action::CompleteRead { buffer: Buffer::Block, single: true },
    ]
}

#[test]
fn bus_width_codes() {
    assert_eq!(bus_width_code(BusWidth::One), 0);
    assert_eq!(bus_width_code(BusWidth::Four), 1);
    assert_eq!(bus_width_code(BusWidth::Eight), 2);
}

#[test]
fn bytes_are_written_to_the_extended_data() {
    assert_eq!(write_ext_csd_byte(183, 2), send(6, 0x03B7_0200, false));
    assert_eq!(write_ext_csd_byte(34, 1), send(6, 0x0322_0100, false));
}

#[test]
fn extended_data_are_read() {
    let op = read_ext_csd();
    assert!(op.needs_success());
    let (actions, progress) = run(op, read_replies(7));
    assert_eq!(actions, read_actions());
    let mut block = DataBlock::new();
    block.0[8] = 0x0007_0000;
    block.0[61] = 0x3200_0000;
    assert_eq!(result(progress), Ok(Reply::BlockData(block)));
}

#[test]
fn device_comes_up() {
    let op = StorageDevice::new_emmc(ControllerVersion::V1, BusWidth::Eight, mhz(50));
    let (actions, progress) = run(op, answers(0x8000_0002));
    let mut expected = vec![
        Action::InitIdle,
        send(1, 0x40FF_8000, false),
        Action::ReadResponse,
        Action::GetCid,
        send(3, 0x1_0000, false),
        Action::GetCsd { address: 1 },
        Action::SelectCard { address: 1 },
        send(6, 0x03B7_0200, false),
        Action::ReadStatus { address: 1 },
        send(6, 0x0322_0100, false),
        Action::ReadStatus { address: 1 },
        Action::SetClock { freq: mhz(25), width: BusWidth::Eight },
    ];
    expected.extend(read_actions());
    assert_eq!(actions, expected);
    let found = result(progress).unwrap();
    assert_eq!(
        found,
        StorageDevice {
            info: described(CardCapacity::HighCapacity, 0x8000_0002),
            version: ControllerVersion::V1,
        }
    );
    assert_eq!(found.size(), 7_733_248 * 512);
}

#[test]
fn access_mode_decides_the_capacity() {
    for ocr in [0x8000_0000u32, 0x8000_0001, 0x8000_0003, 0xC0FF_8080] {
        let op = StorageDevice::new_emmc(ControllerVersion::V2, BusWidth::One, mhz(10));
        let found = result(run(op, answers(ocr)).1).unwrap();
        assert_eq!(found.info, described(CardCapacity::StandardCapacity, ocr));
    }
}

#[test]
fn busy_device_is_waited_for() {
    let mut replies = vec![Reply::Done];
    for _ in 0..3 {
        replies.push(Reply::Word(0));
        replies.push(Reply::Word(0x40FF_8000));
    }
    let mut rest = answers(0x8000_0002);
    rest.remove(0);
    rest.insert(7, Reply::Word(BUSY));
    rest.insert(7, Reply::Word(BUSY));
    rest.insert(11, Reply::Word(BUSY));
    replies.extend(rest);
    let op = StorageDevice::new_emmc(ControllerVersion::V2, BusWidth::Four, mhz(10));
    let (actions, progress) = run(op, replies);
    assert_eq!(actions.len(), 16 + 6 + 3);
    assert_eq!(actions[13], send(6, 0x03B7_0100, false));
    for i in 14..17 {
        assert_eq!(actions[i], Action::ReadStatus { address: 1 });
    }
    assert_eq!(actions[17], send(6, 0x0322_0100, false));
    assert_eq!(actions[20], Action::SetClock { freq: mhz(10), width: BusWidth::Four });
    assert_eq!(
        result(progress).unwrap().info,
        described(CardCapacity::HighCapacity, 0x8000_0002)
    );
}

#[test]
fn missing_checksum_is_passed_over() {
    let mut replies = answers(0x8000_0002);
    replies[1] = Reply::Failed(Error::Crc);
    let op = StorageDevice::new_emmc(ControllerVersion::V2, BusWidth::Four, mhz(10));
    let (actions, progress) = run(op, replies);
    assert_eq!(actions.len(), 16);
    assert!(result(progress).is_ok());
}

#[test]
fn other_failures_end_the_bring_up() {
    for (i, error) in [
        (0, Error::NoCard),
        (1, Error::Timeout),
        (3, Error::Crc),
        (4, Error::Crc),
        (7, Error::Crc),
        (8, Error::Timeout),
        (9, Error::StBitErr),
        (10, Error::Timeout),
        (11, Error::BadClock),
        (14, Error::Crc),
        (15, Error::Timeout),
    ] {
        let mut replies = answers(0x8000_0002);
        replies[i] = Reply::Failed(error);
        let op = StorageDevice::new_emmc(ControllerVersion::V2, BusWidth::Four, mhz(10));
        let (actions, progress) = run(op, replies);
        assert_eq!(actions.len(), i + 1);
        assert_eq!(result(progress), Err(error));
    }
}

#[test]
fn block_length_must_not_be_refused() {
    for i in 0..16 {
        let mut replies = answers(0x8000_0002);
        replies.truncate(i);
        let op = StorageDevice::new_emmc(ControllerVersion::V2, BusWidth::Four, mhz(10));
        match run(op, replies).1 {
            Progress::Pending(op) => assert_eq!(op.needs_success(), i == 12),
            Progress::Finished(_) => panic!("the bring-up has ended"),
        }
    }
}

#[test]
fn time_limits() {
    let mut words = [0u32; 128];
    words[61] = 0x0712_3456;
    words[62] = 0x0102_03FF;
    words[48] = 0xFFFF_05FF;
    assert_eq!(power_off_millis(&words, PowerOffMode::Short), 500);
    assert_eq!(power_off_millis(&words, PowerOffMode::Long), 500);
    words[48] = 0x0000_0600;
    assert_eq!(power_off_millis(&words, PowerOffMode::Short), 2550);
    assert_eq!(power_off_millis(&words, PowerOffMode::Long), 70);
    words[62] = 10;
    assert_eq!(power_off_millis(&words, PowerOffMode::Short), 100);
}

#[test]
fn limits_are_bytes() {
    let mut block = DataBlock::new();
    block.0[48] = 0x0000_0600;
    for i in 244..252 {
        block.set_byte(i, i as u8);
    }
    assert_eq!(power_off_millis(&block.0, PowerOffMode::Short), 2480);
    assert_eq!(power_off_millis(&block.0, PowerOffMode::Long), 2470);
}

#[test]
fn limits_are_in_ticks() {
    let half = embassy_time::Duration::from_millis(500).as_ticks();
    assert_eq!(half, embassy_time::TICK_HZ / 2);
    assert_ne!(half, 500);
    assert_eq!(device([0; 128]).short_power_off_notify().timeout, half);
    assert_eq!(device([0; 128]).long_power_off_notify().timeout, half);
    let mut words = [0u32; 128];
    words[48] = 0x0000_0700;
    words[61] = 0x0200_0000;
    words[62] = 0xFFFF_FF04;
    let found = device(words);
    assert_eq!(
        found.short_power_off_notify().timeout,
        embassy_time::Duration::from_millis(40).as_ticks()
    );
    assert_eq!(
        found.long_power_off_notify().timeout,
        embassy_time::Duration::from_millis(20).as_ticks()
    );
}

#[test]
fn short_notification() {
    let replies = vec![
        Reply::Word(READY),
        Reply::Done,
        Reply::Elapsed(0),
        Reply::Word(BUSY),
        Reply::Elapsed(1),
        Reply::Word(READY),
    ];
    let (actions, progress) = run(device([0; 128]).short_power_off_notify(), replies);
    assert_eq!(
        actions,
        vec![
            send(6, 0x0322_0200, false),
            Action::StartTimer,
            Action::ReadTimer,
            Action::ReadStatus { address: 1 },
            Action::ReadTimer,
            Action::ReadStatus { address: 1 },
        ]
    );
    assert_eq!(result(progress), Ok(()));
}

#[test]
fn long_notification() {
    let mut replies = vec![Reply::Word(READY), Reply::Done];
    // ready, but not yet done; done, but not yet ready; both
    for (ready, power_off_status) in [(READY, 2), (BUSY, 3), (READY, 3)] {
        replies.push(Reply::Elapsed(5));
        replies.push(Reply::Word(ready));
        replies.extend(read_replies(power_off_status));
    }
    let (actions, progress) = run(device([0; 128]).long_power_off_notify(), replies);
    let mut expected = vec![send(6, 0x0322_0300, false), Action::StartTimer];
    for _ in 0..3 {
        expected.push(Action::ReadTimer);
        expected.push(Action::ReadStatus { address: 1 });
        expected.extend(read_actions());
    }
    assert_eq!(actions, expected);
    assert_eq!(result(progress), Ok(()));
}

#[test]
fn long_notification_looks_at_the_notification_byte() {
    let mut replies = vec![Reply::Word(READY), Reply::Done, Reply::Elapsed(0), Reply::Word(READY)];
    replies.extend(read_replies(3));
    let (_, progress) = run(device([0; 128]).long_power_off_notify(), replies);
    assert_eq!(result(progress), Ok(()));
    let mut block = DataBlock::new();
    block.set_byte(247, 3);
    let replies = vec![
        Reply::Word(READY),
        Reply::Done,
        Reply::Elapsed(0),
        Reply::Word(READY),
        Reply::Word(READY),
        Reply::Done,
        Reply::Word(READY),
        Reply::BlockData(block),
    ];
    let (_, progress) = run(device([0; 128]).long_power_off_notify(), replies);
    assert!(matches!(progress, Progress::Pending(_)));
}

#[test]
fn short_notification_waits_as_long_as_the_device_says() {
    let mut words = [0u32; 128];
    words[48] = 0x0000_0600;
    words[62] = 10;
    let limit = embassy_time::Duration::from_millis(100).as_ticks();
    let replies = vec![
        Reply::Word(READY),
        Reply::Done,
        Reply::Elapsed(limit - 1),
        Reply::Word(BUSY),
        Reply::Elapsed(limit),
    ];
    let (actions, progress) = run(device(words).short_power_off_notify(), replies);
    assert_eq!(actions.len(), 5);
    assert_eq!(result(progress), Err(Error::SoftwareTimeout));
}

#[test]
fn device_is_given_up_at_the_limit() {
    let limit = device([0; 128]).short_power_off_notify().timeout;
    let start = || vec![Reply::Word(READY), Reply::Done, Reply::Elapsed(limit)];
    let (_, progress) = run(device([0; 128]).short_power_off_notify(), start());
    assert_eq!(result(progress), Err(Error::SoftwareTimeout));
    let (_, progress) = run(device([0; 128]).long_power_off_notify(), start());
    assert_eq!(result(progress), Err(Error::SoftwareTimeout));
    let replies = vec![Reply::Word(READY), Reply::Done, Reply::Elapsed(limit - 1)];
    let (_, progress) = run(device([0; 128]).long_power_off_notify(), replies);
    assert!(matches!(progress, Progress::Pending(_)));
}

#[test]
fn failed_notification() {
    let replies = vec![Reply::Failed(Error::Timeout)];
    let (_, progress) = run(device([0; 128]).short_power_off_notify(), replies);
    assert_eq!(result(progress), Err(Error::Timeout));
    let replies = vec![
        Reply::Word(READY),
        Reply::Done,
        Reply::Elapsed(0),
        Reply::Failed(Error::Crc),
    ];
    let (_, progress) = run(device([0; 128]).long_power_off_notify(), replies);
    assert_eq!(result(progress), Err(Error::Crc));
}
