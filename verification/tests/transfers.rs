use sdmmc::bus::{
    reply_fits, Action, Buffer, BusWidth, ControllerVersion, Error, Operation, Progress, Reply,
};
use sdmmc::card::{Addressable, Card, CardCapacity, Emmc};
use sdmmc::command::Command;
use sdmmc::device::StorageDevice;
use sdmmc::poll::{poll_ready_for_data, PollReady};
use sdmmc::time::Hertz;
use sdmmc::transfer::{block_address, WRITE_TIMEOUT};

const READY: u32 = 0x900;
const BUSY: u32 = 0xE00;

fn run<O: Operation>(mut op: O, replies: Vec<Reply>) -> (Vec<Action>, Progress<O, O::Output>) {
    let mut actions = Vec::new();
    for reply in replies {
        let action = op.action();
        assert!(reply_fits(&action, &reply), "{:?} does not answer {:?}", reply, action);
        assert!(!op.needs_success());
        actions.push(action);
        match op.advance(reply) {
            Progress::Pending(next) => op = next,
            Progress::Finished(result) => return (actions, Progress::Finished(result)),
        }
    }
    (actions, Progress::Pending(op))
}

fn result<O: Operation>(progress: Progress<O, O::Output>) -> Result<O::Output, Error> {
    match progress {
        Progress::Finished(result) => result,
        Progress::Pending(_) => panic!("the operation has not ended"),
    }
}

fn send(index: u8, arg: u32, data: bool) -> Action {
    Action::Command { command: Command { index, arg }, check_crc: true, data }
}

fn card(card_type: CardCapacity, version: ControllerVersion) -> StorageDevice<Card> {
    let mut info = Card::default();
    info.card_type = card_type;
    info.rca = 0x1234;
    StorageDevice { info, version }
}

fn emmc() -> StorageDevice<Emmc> {
    let mut info = Emmc::default();
    info.capacity = CardCapacity::HighCapacity;
    info.rca = 1;
    StorageDevice { info, version: ControllerVersion::V2 }
}

fn read_one() -> Vec<Reply> {
    vec![Reply::Word(READY), Reply::Done, Reply::Word(READY), Reply::Done]
}

fn read_many() -> Vec<Reply> {
    let mut replies = read_one();
    replies.push(Reply::Word(READY));
    replies.push(Reply::Done);
    replies
}

#[test]
fn block_addresses() {
    assert_eq!(block_address(CardCapacity::HighCapacity, 7), 7);
    assert_eq!(block_address(CardCapacity::HighCapacity, u32::MAX), u32::MAX);
    assert_eq!(block_address(CardCapacity::StandardCapacity, 7), 3584);
    assert_eq!(block_address(CardCapacity::StandardCapacity, 0x7F_FFFF), 0xFFFF_FE00);
}

#[test]
fn addresses_follow_each_other() {
    for k in 0..5 {
        assert_eq!(block_address(CardCapacity::HighCapacity, 100 + k), 100 + k);
        assert_eq!(block_address(CardCapacity::StandardCapacity, 100 + k), 51200 + 512 * k);
    }
}

#[test]
fn blocks_of_a_transfer_are_those_of_single_reads() {
    let device = card(CardCapacity::StandardCapacity, ControllerVersion::V2);
    let (several, _) = run(device.read_blocks(40), read_many());
    assert_eq!(several[2], send(18, 20480, true));
    for k in 0..3 {
        let (single, _) = run(device.read_block(40 + k), read_one());
        assert_eq!(single[2], send(17, 20480 + 512 * k, true));
        let (single, _) = run(device.write_block(40 + k), read_one());
        assert_eq!(single[2], send(24, 20480 + 512 * k, true));
    }
}

#[test]
fn byte_addressed_cards_end_at_four_gigabytes() {
    let small = card(CardCapacity::StandardCapacity, ControllerVersion::V2);
    assert!(small.has_address(0x7F_FFFF));
    assert!(!small.has_address(0x80_0000));
    assert!(card(CardCapacity::HighCapacity, ControllerVersion::V2).has_address(u32::MAX));
}

#[test]
fn one_block_is_read() {
    let device = card(CardCapacity::StandardCapacity, ControllerVersion::V2);
    let (actions, progress) = run(device.read_block(3), read_one());
    assert_eq!(
        actions,
        vec![
            send(16, 512, false),
            Action::PrepareRead { buffer: Buffer::Caller, block_size: 512 },
            send(17, 1536, true),
            Action::CompleteRead { buffer: Buffer::Caller, single: true },
        ]
    );
    assert_eq!(result(progress), Ok(Reply::Done));
}

#[test]
fn several_blocks_are_read() {
    let device = card(CardCapacity::HighCapacity, ControllerVersion::V1);
    let (actions, progress) = run(device.read_blocks(3), read_many());
    assert_eq!(
        actions,
        vec![
            send(16, 512, false),
            Action::PrepareRead { buffer: Buffer::Caller, block_size: 512 },
            send(18, 3, true),
            Action::CompleteRead { buffer: Buffer::Caller, single: false },
            send(12, 0, false),
            Action::ClearInterruptFlags,
        ]
    );
    assert_eq!(result(progress), Ok(Reply::Done));
}

#[test]
fn one_block_is_written() {
    let device = card(CardCapacity::HighCapacity, ControllerVersion::V2);
    let mut replies = vec![Reply::Word(READY), Reply::Done, Reply::Word(READY), Reply::Done];
    replies.push(Reply::Word(BUSY));
    replies.push(Reply::Word(BUSY));
    replies.push(Reply::Word(READY));
    let (actions, progress) = run(device.write_block(9), replies);
    assert_eq!(
        actions,
        vec![
            send(16, 512, false),
            Action::PrepareWrite { block_size: 512 },
            send(24, 9, true),
            Action::CompleteWrite { single: true },
            Action::ReadStatus { address: 0x1234 },
            Action::ReadStatus { address: 0x1234 },
            Action::ReadStatus { address: 0x1234 },
        ]
    );
    assert_eq!(result(progress), Ok(()));
}

#[test]
fn several_blocks_are_written() {
    let device = card(CardCapacity::StandardCapacity, ControllerVersion::V2);
    let mut replies = read_many();
    replies.push(Reply::Word(READY));
    let (actions, progress) = run(device.write_blocks(2), replies);
    assert_eq!(
        actions,
        vec![
            send(16, 512, false),
            Action::PrepareWrite { block_size: 512 },
            send(25, 1024, true),
            Action::CompleteWrite { single: false },
            send(12, 0, false),
            Action::ClearInterruptFlags,
            Action::ReadStatus { address: 0x1234 },
        ]
    );
    assert_eq!(result(progress), Ok(()));
}

#[test]
fn old_controller_sends_the_write_command_first() {
    let old = card(CardCapacity::HighCapacity, ControllerVersion::V1);
    let new = card(CardCapacity::HighCapacity, ControllerVersion::V2);
    let old_replies = vec![Reply::Word(READY), Reply::Word(READY), Reply::Done, Reply::Done];
    let (mut old_actions, _) = run(old.write_block(9), old_replies);
    let (new_actions, _) = run(new.write_block(9), read_one());
    assert_eq!(old_actions[1], send(24, 9, true));
    assert_eq!(old_actions[2], Action::PrepareWrite { block_size: 512 });
    old_actions.swap(1, 2);
    assert_eq!(old_actions, new_actions);
    let old_replies = vec![Reply::Word(READY), Reply::Word(READY), Reply::Done, Reply::Done];
    let (old_actions, _) = run(old.write_blocks(9), old_replies);
    assert_eq!(old_actions[1], send(25, 9, true));
}

#[test]
fn number_of_blocks_decides_the_transfer() {
    let device = emmc();
    assert_eq!(device.read(4, 1), device.read_block(4));
    assert_eq!(device.read(4, 0), device.read_blocks(4));
    assert_eq!(device.read(4, 2), device.read_blocks(4));
    assert_eq!(device.write(4, 1), device.write_block(4));
    assert_eq!(device.write(4, 0), device.write_blocks(4));
    assert_eq!(device.write(4, 2), device.write_blocks(4));
    assert_ne!(device.read_block(4), device.read_blocks(4));
}

#[test]
fn reads_and_writes_go_to_one_address() {
    let device = card(CardCapacity::StandardCapacity, ControllerVersion::V2);
    let (read, _) = run(device.read_block(5), read_one());
    let (write, _) = run(device.write_block(5), read_one());
    assert_eq!(read[2], send(17, 2560, true));
    assert_eq!(write[2], send(24, 2560, true));
}

#[test]
fn failed_action_ends_a_transfer() {
    let device = emmc();
    let (actions, progress) = run(device.read_block(0), vec![Reply::Failed(Error::Timeout)]);
    assert_eq!(actions, vec![send(16, 512, false)]);
    assert_eq!(result(progress), Err(Error::Timeout));
    let mut replies = read_one();
    replies.pop();
    replies.push(Reply::Failed(Error::Crc));
    let (actions, progress) = run(device.write_block(0), replies);
    assert_eq!(actions.len(), 4);
    assert_eq!(result(progress), Err(Error::Crc));
    let mut replies = read_one();
    replies.push(Reply::Failed(Error::NoCard));
    assert_eq!(result(run(device.write_block(0), replies).1), Err(Error::NoCard));
}

#[test]
fn blocks_are_erased() {
    let device = card(CardCapacity::HighCapacity, ControllerVersion::V2);
    let replies = vec![
        Reply::Word(READY),
        Reply::Word(READY),
        Reply::Word(READY),
        Reply::Word(BUSY),
        Reply::Word(READY),
    ];
    let (actions, progress) = run(device.erase_blocks(10..=20), replies);
    assert_eq!(
        actions,
        vec![
            send(32, 10, false),
            send(33, 20, false),
            send(38, 0, false),
            Action::ReadStatus { address: 0x1234 },
            Action::ReadStatus { address: 0x1234 },
        ]
    );
    assert_eq!(result(progress), Ok(()));
}

#[test]
fn groups_are_erased() {
    let replies = vec![
        Reply::Word(READY),
        Reply::Word(READY),
        Reply::Word(READY),
        Reply::Word(READY),
    ];
    let (actions, progress) = run(emmc().erase_groups(3..=3), replies);
    assert_eq!(
        actions,
        vec![
            send(35, 3, false),
            send(36, 3, false),
            send(38, 0, false),
            Action::ReadStatus { address: 1 },
        ]
    );
    assert_eq!(result(progress), Ok(()));
}

fn polling(address: u16, timeout: Option<u32>) -> PollReady {
    match poll_ready_for_data(address, timeout) {
        Progress::Pending(op) => op,
        Progress::Finished(_) => panic!("the wait is over before it began"),
    }
}

#[test]
fn wait_of_no_time_is_over_at_once() {
    assert_eq!(
        poll_ready_for_data(5, Some(0)),
        Progress::Finished(Err(Error::SoftwareTimeout))
    );
}

#[test]
fn wait_ends_when_the_card_is_ready() {
    let (actions, progress) =
        run(polling(5, Some(2)), vec![Reply::Word(BUSY), Reply::Word(READY), Reply::Word(READY)]);
    assert_eq!(actions.len(), 2);
    assert_eq!(actions[1], Action::ReadStatus { address: 5 });
    assert_eq!(result(progress), Ok(()));
}

#[test]
fn wait_gives_up_after_the_last_time() {
    let (actions, progress) =
        run(polling(5, Some(2)), vec![Reply::Word(BUSY), Reply::Word(BUSY), Reply::Word(READY)]);
    assert_eq!(actions.len(), 2);
    assert_eq!(result(progress), Err(Error::SoftwareTimeout));
}

#[test]
fn unlimited_wait_does_not_give_up() {
    let mut busy = Vec::new();
    for _ in 0..1000 {
        busy.push(Reply::Word(BUSY));
    }
    let (actions, progress) = run(polling(5, None), busy);
    assert_eq!(actions.len(), 1000);
    assert_eq!(progress, Progress::Pending(polling(5, None)));
}

#[test]
fn write_is_given_up_in_the_end() {
    let device = emmc();
    let mut op = device.write_block(0);
    let mut asked = 0u32;
    let mut replies = read_one();
    replies.reverse();
    loop {
        let reply = match replies.pop() {
            Some(reply) => reply,
            None => {
                asked += 1;
                Reply::Word(BUSY)
            }
        };
        match op.advance(reply) {
            Progress::Pending(next) => op = next,
            Progress::Finished(result) => {
                assert_eq!(result, Err(Error::SoftwareTimeout));
                break;
            }
        }
    }
    assert_eq!(asked, WRITE_TIMEOUT);
    assert_eq!(asked, 0x00FF_FFFF);
}

#[test]
fn sizes_of_sd_cards() {
    let mut device = card(CardCapacity::StandardCapacity, ControllerVersion::V2);
    device.info.csd = (3751u128 << 62) | (7u128 << 47);
    assert_eq!(device.size(), 3752 * 512 * 512);
    device.info.csd = (1u128 << 126) | (15159u128 << 48);
    assert_eq!(device.size(), 7_948_206_080);
    device.info.csd = (2u128 << 126) | (0xFFF_FFFFu128 << 48);
    assert_eq!(device.size(), 1 << 47);
    device.info.csd = (3u128 << 126) | (15159u128 << 48);
    assert_eq!(device.size(), 0);
}

#[test]
fn sizes_of_emmc_devices() {
    let mut device = emmc();
    assert_eq!(device.size(), 0);
    device.info.ext_csd[53] = 7_733_248;
    device.info.ext_csd[52] = 1;
    assert_eq!(device.size(), 7_733_248 * 512);
    device.info.ext_csd[53] = u32::MAX;
    assert_eq!(device.size(), u32::MAX as u64 * 512);
}

#[test]
fn what_is_known_of_a_card() {
    let device = card(CardCapacity::HighCapacity, ControllerVersion::V2);
    assert_eq!(device.card(), device.info);
    assert_eq!(device.info.get_address(), 0x1234);
    assert_eq!(device.info.get_capacity(), CardCapacity::HighCapacity);
    assert_eq!(Card::default().get_capacity(), CardCapacity::StandardCapacity);
    assert_eq!(emmc().card().get_address(), 1);
    assert_eq!(emmc().info.get_capacity(), CardCapacity::HighCapacity);
    assert_eq!(Emmc::default().size(), 0);
    assert_eq!(Card::default().size(), 4 * 512);
}

#[test]
fn replies_that_fit() {
    let clock = Action::SetClock { freq: Hertz(1), width: BusWidth::One };
    assert!(reply_fits(&clock, &Reply::Done));
    assert!(reply_fits(&clock, &Reply::Failed(Error::BadClock)));
    assert!(!reply_fits(&clock, &Reply::Word(0)));
    assert!(!reply_fits(&Action::ReadResponse, &Reply::Failed(Error::Crc)));
    assert!(!reply_fits(&Action::ReadTimer, &Reply::Done));
    assert!(reply_fits(&Action::ReadTimer, &Reply::Elapsed(3)));
    let complete = Action::CompleteRead { buffer: Buffer::Command, single: true };
    assert!(!reply_fits(&complete, &Reply::Done));
}
