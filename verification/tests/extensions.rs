use sdmmc::block::{CmdBlock, DataBlock};
use sdmmc::bus::{
    reply_fits, Action, Buffer, BusWidth, ControllerVersion, Error, Operation, Progress, Reply,
};
use sdmmc::card::{Card, ExtensionRegister, PowerExtensionRegister, RegisterAddress};
use sdmmc::command::Command;
use sdmmc::device::StorageDevice;
use sdmmc::ext_register::{
    make_ext_reg_argument, parse_ext_reg, read_ext_reg, read_ext_registers, write_ext_reg,
};
use sdmmc::power::PowerOffNotify;
use sdmmc::time::mhz;

const OK: u32 = 0x900;

fn run<O: Operation>(mut op: O, replies: Vec<Reply>) -> (Vec<Action>, Progress<O, O::Output>) {
    let mut actions = Vec::new();
    for reply in replies {
        let action = op.action();
        assert!(reply_fits(&action, &reply), "{:?} does not answer {:?}", reply, action);
        assert!(!op.needs_success());
        actions.push(action);
        match op.advance(reply) {
            Progress::Pending(next) => op = next,
            Progress::Finished(result) => return (actions, Progress::Finished(result)),
        }
    }
    (actions, Progress::Pending(op))
}

fn result<O: Operation>(progress: Progress<O, O::Output>) -> Result<O::Output, Error> {
    match progress {
        Progress::Finished(result) => result,
        Progress::Pending(_) => panic!("the operation has not ended"),
    }
}

fn send(index: u8, arg: u32, data: bool) -> Action {
    Action::Command { command: Command { index, arg }, check_crc: true, data }
}

fn put_entry(section: &mut DataBlock, at: usize, sfc: u8, next: u16, sets: u8, address: u32) {
    section.set_byte(at + 1, sfc);
    section.set_byte(at + 40, (next >> 8) as u8);
    section.set_byte(at + 41, next as u8);
    section.set_byte(at + 42, sets);
    for (i, byte) in address.to_be_bytes().iter().enumerate() {
        section.set_byte(at + 44 + i, *byte);
    }
}

fn read(data: DataBlock) -> Vec<Reply> {
    vec![Reply::Done, Reply::Word(OK), Reply::BlockData(data)]
}

fn read_actions(argument: u32) -> Vec<Action> {
    vec![
        Action::PrepareRead { buffer: Buffer::Block, block_size: 512 },
        send(48, argument, true),
        Action::CompleteRead { buffer: Buffer::Block, single: true },
    ]
}

fn power_register(supports: bool) -> DataBlock {
    let mut data = DataBlock([0xFFFF_FFFF; 128]);
    data.set_byte(1, if supports { 0x10 } else { 0xEF });
    data
}

fn search(section: DataBlock, registers: Vec<DataBlock>) -> Option<PowerExtensionRegister> {
    let mut replies = read(section);
    for register in registers {
        replies.push(Reply::Done);
        replies.extend(read(register));
    }
    replies.push(Reply::Done);
    match run(read_ext_registers(None), replies).1 {
        Progress::Finished(found) => found.unwrap(),
        Progress::Pending(_) => panic!("the search has not ended"),
    }
}

/// A section with one power management entry: function 2, page 3, offset 0x10.
fn power_section() -> DataBlock {
    let mut section = DataBlock::new();
    put_entry(&mut section, 16, 1, 512, 1, 0x8_0610);
    section
}

fn device(supports: bool, version: ControllerVersion) -> StorageDevice<Card> {
    let mut replies = read(power_section());
    replies.push(Reply::Done);
    replies.extend(read(power_register(supports)));
    let power_ext = result(run(read_ext_registers(None), replies).1).unwrap();
    let mut info = Card::default();
    info.rca = 0x1234;
    info.power_ext = power_ext;
    StorageDevice { info, version }
}

fn notify(version: ControllerVersion) -> PowerOffNotify {
    match device(true, version).power_off_notify() {
        Progress::Pending(op) => op,
        Progress::Finished(_) => panic!("the notification is over before it began"),
    }
}

fn status(byte: u8) -> DataBlock {
    let mut data = DataBlock::new();
    data.set_byte(0, byte);
    data
}

fn written() -> Vec<Reply> {
    vec![
        Reply::Word(OK),
        Reply::Done,
        Reply::Word(OK),
        Reply::Done,
        Reply::Word(0xE00),
        Reply::Word(OK),
        Reply::Done,
    ]
}

#[test]
fn arguments() {
    assert_eq!(make_ext_reg_argument(0, 0, 0), 511);
    assert_eq!(make_ext_reg_argument(2, 3, 0x10), 0x100C_21FF);
    assert_eq!(make_ext_reg_argument(0xF, 0xFF, 0x1FF), 0x7BFF_FFFF);
}

#[test]
fn argument_is_the_sum_of_its_parts() {
    for (fno, page, offset) in [(1u8, 2u8, 3u16), (15, 0, 511), (0, 255, 1)] {
        assert_eq!(
            make_ext_reg_argument(fno, page, offset),
            fno as u32 * 0x800_0000 + page as u32 * 0x4_0000 + offset as u32 * 0x200 + 511
        );
    }
}

#[test]
fn register_is_read() {
    let (actions, progress) = run(read_ext_reg(2, 3, 0x10), read(status(7)));
    assert_eq!(actions, read_actions(0x100C_21FF));
    assert_eq!(result(progress), Ok(Reply::BlockData(status(7))));
}

#[test]
fn register_is_written() {
    let replies = vec![
        Reply::Word(OK),
        Reply::Word(OK),
        Reply::Done,
        Reply::Done,
        Reply::Word(0xE00),
        Reply::Word(OK),
    ];
    let op = write_ext_reg(2, 3, 0x10, status(9), 0x1234, ControllerVersion::V1);
    let (actions, progress) = run(op, replies);
    assert_eq!(
        actions,
        vec![
            send(16, 512, false),
            send(49, 0x100C_21FF, false),
            Action::PrepareWriteBlock(status(9)),
            Action::CompleteWrite { single: true },
            Action::ReadStatus { address: 0x1234 },
            Action::ReadStatus { address: 0x1234 },
        ]
    );
    assert_eq!(result(progress), Ok(()));
}

#[test]
fn entries_are_parsed() {
    let bytes = power_section().to_bytes();
    let (next, function) = parse_ext_reg(&bytes[16..64]);
    assert_eq!(next, 512);
    assert_eq!(function, Some(RegisterAddress { fno: 2, page: 3, offset: 0x10 }));
}

#[test]
fn address_keeps_to_its_fields() {
    let mut section = DataBlock::new();
    put_entry(&mut section, 16, 1, 0x1234, 1, 0xFFFF_FFFF);
    let bytes = section.to_bytes();
    let (next, function) = parse_ext_reg(&bytes[16..64]);
    assert_eq!(next, 0x1234);
    assert_eq!(function, Some(RegisterAddress { fno: 0xF, page: 0xFF, offset: 0x1FF }));
}

#[test]
fn other_entries_have_no_register() {
    let mut section = DataBlock::new();
    put_entry(&mut section, 16, 1, 99, 2, 0x8_0610);
    assert_eq!(parse_ext_reg(&section.to_bytes()[16..64]), (99, None));
    assert_eq!(parse_ext_reg(&section.to_bytes()[16..100]), (99, None));
    put_entry(&mut section, 16, 2, 98, 1, 0x8_0610);
    assert_eq!(parse_ext_reg(&section.to_bytes()[16..64]), (98, None));
    put_entry(&mut section, 16, 3, 97, 1, 0x8_0610);
    assert!(parse_ext_reg(&section.to_bytes()[16..64]).1.is_some());
}

#[test]
fn power_entry_is_recorded() {
    let mut replies = read(power_section());
    replies.push(Reply::Done);
    replies.extend(read(power_register(true)));
    let (actions, progress) = run(read_ext_registers(None), replies);
    let mut expected = read_actions(511);
    expected.push(Action::Proceed);
    expected.extend(read_actions(0x100C_21FF));
    assert_eq!(actions, expected);
    assert!(result(progress).unwrap().is_some());
}

#[test]
fn chain_of_other_entries_ends() {
    let mut section = DataBlock::new();
    put_entry(&mut section, 16, 0, 100, 1, 0);
    put_entry(&mut section, 100, 1, 463, 2, 0);
    put_entry(&mut section, 463, 0, 465, 1, 0);
    let mut replies = read(section);
    for _ in 0..3 {
        replies.push(Reply::Done);
    }
    let (actions, progress) = run(read_ext_registers(None), replies);
    assert_eq!(actions.len(), 6);
    assert_eq!(actions[5], Action::Proceed);
    assert_eq!(result(progress), Ok(None));
}

#[test]
fn entry_at_the_end_of_the_section_is_found() {
    let mut section = DataBlock::new();
    put_entry(&mut section, 16, 0, 464, 0, 0);
    put_entry(&mut section, 464, 1, 0xFFFF, 1, 0);
    assert_eq!(section.byte(56), 0x01);
    assert_eq!(section.byte(57), 0xD0);
    let mut replies = read(section);
    replies.push(Reply::Done);
    replies.push(Reply::Done);
    replies.extend(read(power_register(true)));
    let (actions, progress) = run(read_ext_registers(None), replies);
    let mut expected = read_actions(511);
    expected.push(Action::Proceed);
    expected.push(Action::Proceed);
    expected.extend(read_actions(511));
    assert_eq!(actions, expected);
    assert!(result(progress).unwrap().is_some());
}

#[test]
fn power_entry_among_others_is_kept() {
    let mut section = DataBlock::new();
    put_entry(&mut section, 16, 0, 64, 1, 0);
    put_entry(&mut section, 64, 1, 200, 1, 0x8_0610);
    put_entry(&mut section, 200, 0, 300, 1, 0);
    put_entry(&mut section, 300, 1, 512, 2, 0);
    let mut replies = read(section);
    replies.push(Reply::Done);
    replies.push(Reply::Done);
    replies.extend(read(power_register(true)));
    replies.push(Reply::Done);
    replies.push(Reply::Done);
    let (actions, progress) = run(read_ext_registers(None), replies);
    assert_eq!(actions.len(), 3 + 1 + 4 + 1 + 1);
    assert_eq!(result(progress), Ok(device(true, ControllerVersion::V2).info.power_ext));
}

#[test]
fn chain_that_points_forward_ends() {
    let mut section = DataBlock::new();
    let mut offset = 16;
    let mut entries = 0;
    while offset <= 464 {
        put_entry(&mut section, offset, 0, offset as u16 + 48, 1, 0);
        offset += 48;
        entries += 1;
    }
    assert_eq!(entries, 10);
    let mut replies = read(section);
    for _ in 0..449 {
        replies.push(Reply::Done);
    }
    let (actions, progress) = run(read_ext_registers(None), replies);
    assert_eq!(actions.len(), 3 + entries);
    assert_eq!(result(progress), Ok(None));
}

#[test]
fn entry_that_points_to_itself_is_visited_again() {
    let mut section = DataBlock::new();
    put_entry(&mut section, 16, 0, 16, 1, 0);
    let mut replies = read(section);
    for _ in 0..100 {
        replies.push(Reply::Done);
    }
    let (actions, progress) = run(read_ext_registers(None), replies);
    assert_eq!(actions.len(), 103);
    assert!(matches!(progress, Progress::Pending(_)));
}

#[test]
fn last_power_entry_counts() {
    let mut section = DataBlock::new();
    put_entry(&mut section, 16, 1, 64, 1, 0x8_0610);
    put_entry(&mut section, 64, 1, 0xFFFF, 1, 0x4_0000);
    let mut replies = read(section);
    replies.push(Reply::Done);
    replies.extend(read(power_register(true)));
    replies.push(Reply::Done);
    replies.extend(read(power_register(false)));
    let (actions, progress) = run(read_ext_registers(None), replies);
    assert_eq!(actions[9], send(48, 0x0800_01FF, true));
    let last = result(progress).unwrap();
    let mut only = DataBlock::new();
    put_entry(&mut only, 16, 1, 512, 1, 0x4_0000);
    let mut replies = read(only);
    replies.push(Reply::Done);
    replies.extend(read(power_register(false)));
    assert_eq!(result(run(read_ext_registers(None), replies).1), Ok(last));
}

#[test]
fn what_is_known_stays() {
    let known = device(true, ControllerVersion::V2).info.power_ext;
    assert!(known.is_some());
    let mut section = DataBlock::new();
    put_entry(&mut section, 16, 0, 512, 1, 0);
    let mut replies = read(section);
    replies.push(Reply::Done);
    assert_eq!(result(run(read_ext_registers(known), replies).1), Ok(known));
    assert_eq!(search(DataBlock([0xFFFF_FFFF; 128]), vec![]), None);
}

#[test]
fn failed_read_ends_the_search() {
    let mut replies = read(power_section());
    replies.push(Reply::Done);
    replies.push(Reply::Done);
    replies.push(Reply::Failed(Error::Timeout));
    assert_eq!(result(run(read_ext_registers(None), replies).1), Err(Error::Timeout));
}

#[test]
fn notification_needs_support() {
    let mut plain = device(true, ControllerVersion::V2);
    plain.info.power_ext = None;
    let refused = Progress::Finished(Err(Error::UnsupportedOperation));
    assert_eq!(plain.power_off_notify(), refused);
    assert_eq!(device(false, ControllerVersion::V2).power_off_notify(), refused);
}

#[test]
fn card_is_notified() {
    let mut replies = written();
    replies.push(Reply::Elapsed(0));
    replies.extend(read(status(2)));
    replies.push(Reply::Elapsed(10));
    replies.extend(read(status(3)));
    let (actions, progress) = run(notify(ControllerVersion::V2), replies);
    let mut expected = vec![
        send(16, 512, false),
        Action::PrepareWriteBlock(status(1)),
        send(49, 0x100C_25FF, false),
        Action::CompleteWrite { single: true },
        Action::ReadStatus { address: 0x1234 },
        Action::ReadStatus { address: 0x1234 },
        Action::StartTimer,
        Action::ReadTimer,
    ];
    expected.extend(read_actions(0x100C_23FF));
    expected.push(Action::ReadTimer);
    expected.extend(read_actions(0x100C_23FF));
    assert_eq!(actions, expected);
    assert_eq!(result(progress), Ok(()));
}

#[test]
fn old_controller_sends_the_notification_first() {
    let replies = vec![Reply::Word(OK), Reply::Word(OK), Reply::Done];
    let (actions, _) = run(notify(ControllerVersion::V1), replies);
    assert_eq!(actions[1], send(49, 0x100C_25FF, false));
    assert_eq!(actions[2], Action::PrepareWriteBlock(status(1)));
}

#[test]
fn card_has_a_second() {
    let second = embassy_time::Duration::from_secs(1).as_ticks();
    assert_eq!(second, embassy_time::TICK_HZ);
    assert_ne!(second, 1);
    assert_eq!(notify(ControllerVersion::V2).timeout, second);
    let mut replies = written();
    replies.push(Reply::Elapsed(second - 1));
    replies.extend(read(status(0)));
    replies.push(Reply::Elapsed(second));
    let (_, progress) = run(notify(ControllerVersion::V2), replies);
    assert_eq!(result(progress), Err(Error::SoftwareTimeout));
}

#[test]
fn kinds_of_extension_registers() {
    let power = device(true, ControllerVersion::V2).info.power_ext.unwrap();
    assert_ne!(ExtensionRegister::PowerManagement(power), ExtensionRegister::Unsupported);
}

#[test]
fn bring_up_finds_the_power_register() {
    let op = match StorageDevice::new_sd_card(ControllerVersion::V2, BusWidth::One, mhz(1)) {
        Progress::Pending(op) => op,
        Progress::Finished(_) => panic!("the bring-up is over before it began"),
    };
    let mut scr = CmdBlock::new();
    scr.0[0] = 0x0400_0000;
    let mut replies = vec![
        Reply::Done,
        Reply::Word(OK),
        Reply::Word(0x1AA),
        Reply::Word(OK),
        Reply::Word(0x8000_0000),
        Reply::Register(0),
        Reply::Word(0x1234_0000),
        Reply::Register(0),
        Reply::Done,
        Reply::Word(OK),
        Reply::Word(OK),
        Reply::Done,
        Reply::Word(OK),
        Reply::CmdData(scr),
        Reply::Word(OK),
        Reply::Word(OK),
        Reply::Done,
        Reply::Word(OK),
        Reply::Word(OK),
        Reply::Done,
        Reply::Word(OK),
        Reply::CmdData(CmdBlock::new()),
        Reply::Done,
    ];
    replies.extend(read(power_section()));
    replies.push(Reply::Done);
    replies.extend(read(power_register(true)));
    let found = result(run(op, replies).1).unwrap();
    assert_eq!(found.info.power_ext, device(true, ControllerVersion::V2).info.power_ext);
    assert!(matches!(found.power_off_notify(), Progress::Pending(_)));
}
