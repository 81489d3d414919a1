use sdmmc::block::{CmdBlock, DataBlock};
use sdmmc::bus::{
    reply_fits, Action, Buffer, BusWidth, ControllerVersion, Error, Operation, Progress, Reply,
};
use sdmmc::card::{Card, CardCapacity};
use sdmmc::command::Command;
use sdmmc::device::StorageDevice;
use sdmmc::sd::{choose_width, clamp_clock, SdAcquire};
use sdmmc::signalling::{
    decode_scr, decode_selection, get_scr, read_sd_status, switch_signalling_mode, Signalling,
};
use sdmmc::time::{mhz, Hertz};

const OK: u32 = 0x900;
const OCR_BUSY: u32 = 0x40FF_8000;
const OCR_HIGH: u32 = 0xC0FF_8000;
const OCR_STANDARD: u32 = 0x80FF_8000;
const CID: u128 = 0x0353_4453_4331_3647_8000_0000_1234_5678;
const CSD: u128 = (1u128 << 126) | (15159u128 << 48);
const SCR: u64 = 0x0235_8003_0000_0000;
const SCR_ONE_LINE: u64 = 0x0231_8003_0000_0000;
const SCR_EXTENSIONS: u64 = 0x0235_8007_0000_0000;

fn run<O: Operation>(mut op: O, replies: Vec<Reply>) -> (Vec<Action>, Progress<O, O::Output>) {
    let mut actions = Vec::new();
    for reply in replies {
        let action = op.action();
        assert!(reply_fits(&action, &reply), "{:?} does not answer {:?}", reply, action);
        assert!(!op.needs_success());
        actions.push(action);
        match op.advance(reply) {
            Progress::Pending(next) => op = next,
            Progress::Finished(result) => return (actions, Progress::Finished(result)),
        }
    }
    (actions, Progress::Pending(op))
}

fn result<O: Operation>(progress: Progress<O, O::Output>) -> Result<O::Output, Error> {
    match progress {
        Progress::Finished(result) => result,
        Progress::Pending(_) => panic!("the operation has not ended"),
    }
}

fn send(index: u8, arg: u32, data: bool) -> Action {
    Action::Command { command: Command { index, arg }, check_crc: true, data }
}

fn app(rca: u32) -> Action {
    send(55, rca << 16, false)
}

fn op_cond() -> Action {
    Action::Command {
        command: Command { index: 41, arg: 0x4110_0000 },
        check_crc: false,
        data: false,
    }
}

fn acquire(width: BusWidth, freq: Hertz) -> SdAcquire {
    match StorageDevice::new_sd_card(ControllerVersion::V2, width, freq) {
        Progress::Pending(op) => op,
        Progress::Finished(_) => panic!("the bring-up is over before it began"),
    }
}

fn scr_block(scr: u64) -> CmdBlock {
    let mut block = CmdBlock::new();
    block.0[0] = ((scr >> 32) as u32).swap_bytes();
    block.0[1] = (scr as u32).swap_bytes();
    block
}

fn status_block() -> CmdBlock {
    let mut block = CmdBlock::new();
    block.0[0] = 0x0000_0080;
    block.0[15] = 0x0403_0201;
    block
}

fn status_words() -> [u32; 16] {
    let mut words = [0u32; 16];
    words[0] = 0x8000_0000;
    words[15] = 0x0102_0304;
    words
}

fn voltage() -> Vec<Reply> {
    vec![Reply::Done, Reply::Word(0x1AA), Reply::Word(0x1AA)]
}

fn answers_status() -> Vec<Reply> {
    vec![
        Reply::Word(OK),
        Reply::Word(OK),
        Reply::Done,
        Reply::Word(OK),
        Reply::CmdData(status_block()),
        Reply::Done,
    ]
}

fn answers(ocr: u32, scr: u64) -> Vec<Reply> {
    let mut replies = vec![
        Reply::Word(OK),
        Reply::Word(ocr),
        Reply::Register(CID),
        Reply::Word(0x1234_0500),
        Reply::Register(CSD),
        Reply::Done,
        Reply::Word(OK),
        Reply::Word(OK),
        Reply::Done,
        Reply::Word(OK),
        Reply::CmdData(scr_block(scr)),
        Reply::Word(OK),
        Reply::Word(OK),
        Reply::Done,
    ];
    replies.extend(answers_status());
    replies
}

fn slow(ocr: u32, scr: u64) -> Vec<Reply> {
    let mut replies = voltage();
    replies.extend(answers(ocr, scr));
    replies
}

fn switch(selection: u32) -> Vec<Reply> {
    let mut block = CmdBlock::new();
    block.0[4] = 0xAAAA_AA30 | selection;
    vec![Reply::Done, Reply::Word(OK), Reply::CmdData(block), Reply::Done]
}

fn described(ocr: u32, scr: u64) -> Card {
    let mut info = Card::default();
    info.card_type = if ocr == OCR_HIGH {
        CardCapacity::HighCapacity
    } else {
        CardCapacity::StandardCapacity
    };
    info.ocr = ocr;
    info.rca = 0x1234;
    info.cid = CID;
    info.csd = CSD;
    info.scr = scr;
    info.status = status_words();
    info
}

fn status_actions() -> Vec<Action> {
    vec![
        send(16, 64, false),
        app(0x1234),
        Action::PrepareRead { buffer: Buffer::Command, block_size: 64 },
        send(13, 0, true),
        Action::CompleteRead { buffer: Buffer::Command, single: true },
        Action::StoreCmdBlock(CmdBlock(status_words())),
    ]
}

fn slow_actions(acmd_arg: u32, freq: Hertz, width: BusWidth) -> Vec<Action> {
    let mut actions = vec![
        Action::InitIdle,
        send(8, 0x1AA, false),
        Action::ReadResponse,
        app(0),
        op_cond(),
        Action::GetCid,
        send(3, 0, false),
        Action::GetCsd { address: 0x1234 },
        Action::SelectCard { address: 0x1234 },
        send(16, 8, false),
        app(0x1234),
        Action::PrepareRead { buffer: Buffer::Command, block_size: 8 },
        send(51, 0, true),
        Action::CompleteRead { buffer: Buffer::Command, single: true },
        app(0x1234),
        send(6, acmd_arg, false),
        Action::SetClock { freq, width },
    ];
    actions.extend(status_actions());
    actions
}

#[test]
fn megahertz() {
    assert_eq!(mhz(0), Hertz(0));
    assert_eq!(mhz(25), Hertz(25_000_000));
    assert_eq!(mhz(4294), Hertz(4_294_000_000));
}

#[test]
fn clock_is_limited() {
    assert_eq!(clamp_clock(Hertz(0)), Hertz(0));
    assert_eq!(clamp_clock(Hertz(25_000_000)), Hertz(25_000_000));
    assert_eq!(clamp_clock(Hertz(25_000_001)), Hertz(25_000_000));
    assert_eq!(clamp_clock(mhz(50)), mhz(25));
}

#[test]
fn four_lines_only_if_both_sides_have_them() {
    assert_eq!(choose_width(BusWidth::Four, SCR), BusWidth::Four);
    assert_eq!(choose_width(BusWidth::Four, SCR_ONE_LINE), BusWidth::One);
    assert_eq!(choose_width(BusWidth::One, SCR), BusWidth::One);
    assert_eq!(choose_width(BusWidth::Unknown, SCR), BusWidth::One);
}

#[test]
fn eight_lines_are_refused() {
    assert_eq!(
        StorageDevice::new_sd_card(ControllerVersion::V2, BusWidth::Eight, mhz(25)),
        Progress::Finished(Err(Error::BusWidth))
    );
}

#[test]
fn card_comes_up() {
    let (actions, progress) = run(acquire(BusWidth::Four, mhz(24)), slow(OCR_HIGH, SCR));
    assert_eq!(actions, slow_actions(2, mhz(24), BusWidth::Four));
    assert_eq!(
        result(progress),
        Ok(StorageDevice { info: described(OCR_HIGH, SCR), version: ControllerVersion::V2 })
    );
}

#[test]
fn standard_card_on_one_line_comes_up() {
    let (actions, progress) = run(acquire(BusWidth::One, mhz(25)), slow(OCR_STANDARD, SCR));
    assert_eq!(actions, slow_actions(0, mhz(25), BusWidth::One));
    let device = result(progress).unwrap();
    assert_eq!(device.info, described(OCR_STANDARD, SCR));
    assert_eq!(device.info.card_type, CardCapacity::StandardCapacity);
    assert_eq!(device.size(), 7_948_206_080);
}

#[test]
fn card_with_one_line_is_driven_with_one() {
    let (actions, progress) = run(acquire(BusWidth::Four, mhz(10)), slow(OCR_HIGH, SCR_ONE_LINE));
    assert_eq!(actions, slow_actions(0, mhz(10), BusWidth::One));
    assert!(result(progress).is_ok());
}

#[test]
fn busy_card_is_asked_again() {
    let mut replies = voltage();
    for _ in 0..5 {
        replies.push(Reply::Word(OK));
        replies.push(Reply::Word(OCR_BUSY));
    }
    replies.extend(answers(OCR_HIGH, SCR));
    let (actions, progress) = run(acquire(BusWidth::Four, mhz(24)), replies);
    assert_eq!(actions.len(), 10 + 23);
    for i in 0..6 {
        assert_eq!(actions[3 + 2 * i], app(0));
        assert_eq!(actions[4 + 2 * i], op_cond());
    }
    assert_eq!(actions[15], Action::GetCid);
    assert_eq!(result(progress).unwrap().info, described(OCR_HIGH, SCR));
}

#[test]
fn card_without_the_pattern_is_refused() {
    let replies = vec![Reply::Done, Reply::Word(OK), Reply::Word(0x155)];
    let (_, progress) = run(acquire(BusWidth::Four, mhz(25)), replies);
    assert_eq!(result(progress), Err(Error::UnsupportedCardVersion));
    let replies = vec![Reply::Done, Reply::Word(OK), Reply::Word(0x1_00AB)];
    let (_, progress) = run(acquire(BusWidth::Four, mhz(25)), replies);
    assert_eq!(result(progress), Err(Error::UnsupportedCardVersion));
}

#[test]
fn card_for_another_voltage_is_refused() {
    let replies = vec![Reply::Done, Reply::Word(OK), Reply::Word(0x1_02AA)];
    let (_, progress) = run(acquire(BusWidth::Four, mhz(25)), replies);
    assert_eq!(result(progress), Err(Error::UnsupportedVoltage));
}

#[test]
fn voltage_is_one_bit() {
    let replies = vec![Reply::Done, Reply::Word(OK), Reply::Word(0x3AA)];
    let (_, progress) = run(acquire(BusWidth::Four, mhz(25)), replies);
    assert!(matches!(progress, Progress::Pending(_)));
}

#[test]
fn fast_card_comes_up() {
    let mut replies = slow(OCR_HIGH, SCR);
    replies.extend(switch(1));
    replies.push(Reply::Done);
    replies.push(Reply::Word(0x900));
    let mut second = answers_status();
    second[4] = Reply::CmdData(CmdBlock([0x55; 16]));
    replies.extend(second);
    let (actions, progress) = run(acquire(BusWidth::Four, mhz(48)), replies);
    let mut expected = slow_actions(2, mhz(25), BusWidth::Four);
    expected.push(Action::PrepareRead { buffer: Buffer::Command, block_size: 64 });
    expected.push(send(6, 0x80FF_FF01, true));
    expected.push(Action::CompleteRead { buffer: Buffer::Command, single: true });
    expected.push(Action::Delay { nops: 300 });
    expected.push(Action::SetClock { freq: mhz(48), width: BusWidth::Four });
    expected.push(Action::ReadStatus { address: 0x1234 });
    expected.extend(status_actions());
    let last = expected.len() - 1;
    expected[last] = Action::StoreCmdBlock(CmdBlock([0x5500_0000; 16]));
    assert_eq!(actions, expected);
    assert_eq!(result(progress).unwrap().info, described(OCR_HIGH, SCR));
}

#[test]
fn card_that_does_not_switch_keeps_its_clock() {
    let mut replies = slow(OCR_HIGH, SCR);
    replies.extend(switch(0));
    replies.extend(answers_status());
    let (actions, progress) = run(acquire(BusWidth::Four, mhz(48)), replies);
    let mut clocks = Vec::new();
    for action in &actions {
        if let Action::SetClock { freq, width: _ } = action {
            clocks.push(*freq);
        }
    }
    assert_eq!(clocks, vec![mhz(25)]);
    assert_eq!(result(progress).unwrap().info, described(OCR_HIGH, SCR));
}

#[test]
fn unknown_mode_is_refused() {
    let mut replies = slow(OCR_HIGH, SCR);
    replies.extend(switch(0xF));
    let (_, progress) = run(acquire(BusWidth::Four, mhz(48)), replies);
    assert_eq!(result(progress), Err(Error::UnsupportedCardType));
}

#[test]
fn card_that_leaves_the_transfer_state_is_refused() {
    for state in [0u32, 1, 2, 3, 5, 6, 7, 8, 9, 10, 11, 15] {
        let mut replies = slow(OCR_HIGH, SCR);
        replies.extend(switch(1));
        replies.push(Reply::Done);
        replies.push(Reply::Word(state << 9));
        let (_, progress) = run(acquire(BusWidth::Four, mhz(48)), replies);
        assert_eq!(result(progress), Err(Error::SignalingSwitchFailed));
    }
}

#[test]
fn every_failed_action_ends_the_bring_up() {
    let total = {
        let mut replies = slow(OCR_HIGH, SCR);
        replies.extend(switch(1));
        replies.push(Reply::Done);
        replies.push(Reply::Word(0x800));
        replies.len()
    };
    let mut failures = 0;
    for i in 0..total {
        let mut replies = slow(OCR_HIGH, SCR);
        replies.extend(switch(1));
        replies.push(Reply::Done);
        replies.push(Reply::Word(0x800));
        replies.truncate(i);
        let (mut actions, progress) = run(acquire(BusWidth::Four, mhz(48)), replies);
        let op = match progress {
            Progress::Pending(op) => op,
            Progress::Finished(_) => panic!("the bring-up has ended"),
        };
        actions.push(op.action());
        if reply_fits(&op.action(), &Reply::Failed(Error::StBitErr)) {
            failures += 1;
            let last = op.advance(Reply::Failed(Error::StBitErr));
            assert_eq!(last, Progress::Finished(Err(Error::StBitErr)));
            assert_eq!(actions.len(), i + 1);
        }
    }
    assert_eq!(failures, total - 6);
}

#[test]
fn parameters_are_kept() {
    let (_, progress) = run(acquire(BusWidth::Four, mhz(48)), slow(OCR_HIGH, SCR));
    match progress {
        Progress::Pending(op) => {
            assert_eq!(op.version, ControllerVersion::V2);
            assert_eq!(op.width, BusWidth::Four);
            assert_eq!(op.freq, mhz(48));
        }
        Progress::Finished(_) => panic!("the bring-up has ended"),
    }
}

#[test]
fn extension_registers_are_read_if_there_are_any() {
    let mut replies = slow(OCR_HIGH, SCR_EXTENSIONS);
    replies.push(Reply::Done);
    replies.push(Reply::Word(OK));
    let mut section = DataBlock::new();
    section.set_byte(16 + 40, 0x02);
    replies.push(Reply::BlockData(section));
    replies.push(Reply::Done);
    let (actions, progress) = run(acquire(BusWidth::Four, mhz(24)), replies);
    let mut expected = slow_actions(2, mhz(24), BusWidth::Four);
    expected.push(Action::PrepareRead { buffer: Buffer::Block, block_size: 512 });
    expected.push(send(48, 511, true));
    expected.push(Action::CompleteRead { buffer: Buffer::Block, single: true });
    expected.push(Action::Proceed);
    assert_eq!(actions, expected);
    assert_eq!(result(progress).unwrap().info, described(OCR_HIGH, SCR_EXTENSIONS));
}

#[test]
fn configuration_register() {
    assert_eq!(decode_scr(&scr_block(0x0123_4567_89AB_CDEF)), 0x0123_4567_89AB_CDEF);
    let replies = vec![
        Reply::Word(OK),
        Reply::Word(OK),
        Reply::Done,
        Reply::Word(OK),
        Reply::CmdData(scr_block(SCR)),
    ];
    let (actions, progress) = run(get_scr(0xABCD), replies);
    assert_eq!(actions[0], send(16, 8, false));
    assert_eq!(actions[1], send(55, 0xABCD_0000, false));
    assert_eq!(result(progress), Ok(SCR));
}

#[test]
fn sd_status_is_turned() {
    let (actions, progress) = run(read_sd_status(0x1234), answers_status());
    assert_eq!(actions, status_actions());
    assert_eq!(result(progress), Ok(status_words()));
}

#[test]
fn signalling_modes() {
    let modes = [
        (Signalling::SDR12, 0x80FF_FF00u32, 0u32),
        (Signalling::SDR25, 0x80FF_FF01, 1),
        (Signalling::SDR50, 0x80FF_1F02, 2),
        (Signalling::SDR104, 0x80FF_1F03, 3),
        (Signalling::DDR50, 0x80FF_FF04, 4),
    ];
    for (mode, argument, selection) in modes {
        let (actions, progress) = run(switch_signalling_mode(mode), switch(selection));
        assert_eq!(actions[1], send(6, argument, true));
        assert_eq!(result(progress), Ok(mode));
    }
    let mut status = CmdBlock::new();
    status.0[4] = 5;
    assert_eq!(decode_selection(&status), Err(Error::UnsupportedCardType));
}
