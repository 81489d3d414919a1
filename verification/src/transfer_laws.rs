//! What reads, writes and erasures put on the wire, and what that does to a card.
use crate::block::DataBlock;
use crate::bus::{
    run, trace, Action, Buffer, ControllerVersion, Error, Operation, Progress, Reply,
};
use crate::card::{Addressable, Card, CardCapacity, Emmc};
use crate::command::Command;
use crate::confirmed::{
    law_confirmed_gives_up, law_confirmed_script_is_performed, law_confirmed_succeeds, Confirmed,
    Stage,
};
use crate::device::StorageDevice;
use crate::poll::not_ready;
use crate::register_laws::{law_card_fields, law_card_status, law_emmc_fields};
use crate::sequence::{law_script_is_performed, Script, Sequence};
use crate::transfer::{EraseScript, EraseUnit, ReadScript, WriteScript};
use vstd::prelude::*;

verus! {

/// Replies of which none is a failure.
pub open spec fn all_succeed(replies: Seq<Reply>) -> bool {
    forall|i: int| 0 <= i < replies.len() ==> !(#[trigger] replies[i] is Failed)
}

/// Card statuses with bit 8 clear: the card cannot take data.
pub open spec fn all_busy(replies: Seq<Reply>) -> bool {
    forall|i: int|
        0 <= i < replies.len() ==> (#[trigger] replies[i] matches Reply::Word(status) && (status
            / 0x100) % 2 == 0)
}

proof fn lemma_all_busy(replies: Seq<Reply>)
    requires
        all_busy(replies),
    ensures
        forall|i: int| 0 <= i < replies.len() ==> not_ready(#[trigger] replies[i]),
{
    assert forall|i: int| 0 <= i < replies.len() implies not_ready(#[trigger] replies[i]) by {
        law_card_status(replies[i]->Word_0);
    }
}

/// The command with the given number, argument and data flag. Its checksum is checked.
pub open spec fn checked(index: u8, arg: int, data: bool) -> Action {
    Action::Command { command: Command { index, arg: arg as u32 }, check_crc: true, data }
}

/// A read that puts `argument` in its command.
pub open spec fn read_on_the_wire(argument: int, multiple: bool) -> Seq<Action> {
    if multiple {
        seq![
            checked(16, 512, false),
            Action::PrepareRead { buffer: Buffer::Caller, block_size: 512 },
            checked(18, argument, true),
            Action::CompleteRead { buffer: Buffer::Caller, single: false },
            checked(12, 0, false),
            Action::ClearInterruptFlags,
        ]
    } else {
        seq![
            checked(16, 512, false),
            Action::PrepareRead { buffer: Buffer::Caller, block_size: 512 },
            checked(17, argument, true),
            Action::CompleteRead { buffer: Buffer::Caller, single: true },
        ]
    }
}

/// A write that puts `argument` in its command, up to the wait for the card. Only an old
/// controller sends the command before the data path is armed.
pub open spec fn write_on_the_wire(argument: int, multiple: bool, version: ControllerVersion) -> Seq<
    Action,
> {
    let arm = Action::PrepareWrite { block_size: 512 };
    let one = checked(24, argument, true);
    let many = checked(25, argument, true);
    let length = checked(16, 512, false);
    let stop = checked(12, 0, false);
    let last = Action::ClearInterruptFlags;
    match (multiple, version) {
        (false, ControllerVersion::V1) => seq![
            length,
            one,
            arm,
            Action::CompleteWrite { single: true },
        ],
        (false, ControllerVersion::V2) => seq![
            length,
            arm,
            one,
            Action::CompleteWrite { single: true },
        ],
        (true, ControllerVersion::V1) => seq![
            length,
            many,
            arm,
            Action::CompleteWrite { single: false },
            stop,
            last,
        ],
        (true, ControllerVersion::V2) => seq![
            length,
            arm,
            many,
            Action::CompleteWrite { single: false },
            stop,
            last,
        ],
    }
}

/// As many questions for the status of the card at `address`.
pub open spec fn asks(address: u16, count: nat) -> Seq<Action> {
    Seq::new(count, |i: int| Action::ReadStatus { address })
}

proof fn lemma_read<A: Addressable>(
    device: StorageDevice<A>,
    block_idx: u32,
    multiple: bool,
    replies: Seq<Reply>,
    argument: int,
)
    requires
        argument == if device.info.capacity_class() == CardCapacity::StandardCapacity {
            block_idx * 512
        } else {
            block_idx as int
        },
        argument <= u32::MAX,
        replies.len() == if multiple {
            6nat
        } else {
            4
        },
        all_succeed(replies),
    ensures
        trace(device.read_from(block_idx, multiple), replies) == read_on_the_wire(
            argument,
            multiple,
        ),
        run(device.read_from(block_idx, multiple), replies) == Progress::<
            Sequence<ReadScript>,
            Reply,
        >::Finished(Ok(replies.last())),
{
    let op = device.read_from(block_idx, multiple);
    law_script_is_performed(op, replies);
    assert(op.script.actions().skip(0) =~= read_on_the_wire(argument, multiple));
}

proof fn lemma_write_script<A: Addressable>(
    device: StorageDevice<A>,
    block_idx: u32,
    multiple: bool,
    argument: int,
)
    requires
        argument == if device.info.capacity_class() == CardCapacity::StandardCapacity {
            block_idx * 512
        } else {
            block_idx as int
        },
        argument <= u32::MAX,
    ensures
        (device.write_from(block_idx, multiple).stage->Script_0).script.actions().skip(0)
            == write_on_the_wire(argument, multiple, device.version),
        (device.write_from(block_idx, multiple).stage->Script_0).script.actions().len()
            == if multiple {
            6nat
        } else {
            4
        },
        device.write_from(block_idx, multiple).wf(),
{
    let op = device.write_from(block_idx, multiple);
    assert((op.stage->Script_0).script.actions().skip(0) =~= write_on_the_wire(
        argument,
        multiple,
        device.version,
    ));
}

proof fn lemma_write<A: Addressable>(
    device: StorageDevice<A>,
    block_idx: u32,
    multiple: bool,
    replies: Seq<Reply>,
    busy: Seq<Reply>,
    status: u32,
    argument: int,
)
    requires
        argument == if device.info.capacity_class() == CardCapacity::StandardCapacity {
            block_idx * 512
        } else {
            block_idx as int
        },
        argument <= u32::MAX,
        replies.len() == if multiple {
            6nat
        } else {
            4
        },
        all_succeed(replies),
        all_busy(busy),
        (status / 0x100) % 2 == 1,
    ensures
        busy.len() < 16_777_215 ==> {
            &&& run(
                device.write_from(block_idx, multiple),
                replies + busy.push(Reply::Word(status)),
            ) == Progress::<Confirmed<WriteScript>, ()>::Finished(Ok(()))
            &&& trace(
                device.write_from(block_idx, multiple),
                replies + busy.push(Reply::Word(status)),
            ) == write_on_the_wire(argument, multiple, device.version) + asks(
                device.info.address(),
                busy.len() + 1,
            )
        },
        busy.len() == 16_777_215 ==> {
            &&& run(device.write_from(block_idx, multiple), replies + busy) == Progress::<
                Confirmed<WriteScript>,
                (),
            >::Finished(Err(Error::SoftwareTimeout))
            &&& trace(device.write_from(block_idx, multiple), replies + busy) == write_on_the_wire(
                argument,
                multiple,
                device.version,
            ) + asks(device.info.address(), busy.len())
        },
{
    let op = device.write_from(block_idx, multiple);
    lemma_write_script(device, block_idx, multiple, argument);
    lemma_all_busy(busy);
    law_card_status(status);
    if busy.len() < 16_777_215 {
        law_confirmed_succeeds(op, replies, busy, status);
    }
    if busy.len() == 16_777_215 {
        law_confirmed_gives_up(op, replies, busy);
    }
}

/// A read from an SD card puts the number of the block in its command, or on a card whose
/// type is standard capacity the number of its first byte, and otherwise always does the same.
pub proof fn law_sd_read_on_the_wire(
    device: StorageDevice<Card>,
    block_idx: u32,
    multiple: bool,
    replies: Seq<Reply>,
)
    requires
        device.info.card_type == CardCapacity::StandardCapacity ==> block_idx < 0x80_0000,
        replies.len() == if multiple {
            6nat
        } else {
            4
        },
        all_succeed(replies),
    ensures
        trace(device.read_from(block_idx, multiple), replies) == read_on_the_wire(
            if device.info.card_type == CardCapacity::StandardCapacity {
                block_idx * 512
            } else {
                block_idx as int
            },
            multiple,
        ),
        run(device.read_from(block_idx, multiple), replies) == Progress::<
            Sequence<ReadScript>,
            Reply,
        >::Finished(Ok(replies.last())),
{
    law_card_fields(device.info);
    let argument = if device.info.card_type == CardCapacity::StandardCapacity {
        block_idx * 512
    } else {
        block_idx as int
    };
    lemma_read(device, block_idx, multiple, replies, argument);
}

/// A read from an eMMC device puts the number of the block in its command, or on a device whose
/// capacity is standard the number of its first byte, and otherwise always does the same.
pub proof fn law_emmc_read_on_the_wire(
    device: StorageDevice<Emmc>,
    block_idx: u32,
    multiple: bool,
    replies: Seq<Reply>,
)
    requires
        device.info.capacity == CardCapacity::StandardCapacity ==> block_idx < 0x80_0000,
        replies.len() == if multiple {
            6nat
        } else {
            4
        },
        all_succeed(replies),
    ensures
        trace(device.read_from(block_idx, multiple), replies) == read_on_the_wire(
            if device.info.capacity == CardCapacity::StandardCapacity {
                block_idx * 512
            } else {
                block_idx as int
            },
            multiple,
        ),
        run(device.read_from(block_idx, multiple), replies) == Progress::<
            Sequence<ReadScript>,
            Reply,
        >::Finished(Ok(replies.last())),
{
    law_emmc_fields(device.info);
    let argument = if device.info.capacity == CardCapacity::StandardCapacity {
        block_idx * 512
    } else {
        block_idx as int
    };
    lemma_read(device, block_idx, multiple, replies, argument);
}

/// A write to an SD card puts the number of the block in its command, or on a card whose type is
/// standard capacity the number of its first byte. Then the card is asked for its status at
/// its own address until bit 8 is set, but no more than 16777215 times.
pub proof fn law_sd_write_on_the_wire(
    device: StorageDevice<Card>,
    block_idx: u32,
    multiple: bool,
    replies: Seq<Reply>,
    busy: Seq<Reply>,
    status: u32,
)
    requires
        device.info.card_type == CardCapacity::StandardCapacity ==> block_idx < 0x80_0000,
        replies.len() == if multiple {
            6nat
        } else {
            4
        },
        all_succeed(replies),
        all_busy(busy),
        (status / 0x100) % 2 == 1,
    ensures
        ({
            let op = device.write_from(block_idx, multiple);
            let wire = write_on_the_wire(
                if device.info.card_type == CardCapacity::StandardCapacity {
                    block_idx * 512
                } else {
                    block_idx as int
                },
                multiple,
                device.version,
            );
            let answered = replies + busy.push(Reply::Word(status));
            &&& busy.len() < 16_777_215 ==> run(op, answered) == Progress::<
                Confirmed<WriteScript>,
                (),
            >::Finished(Ok(()))
            &&& busy.len() < 16_777_215 ==> trace(op, answered) == wire + asks(
                device.info.rca,
                busy.len() + 1,
            )
            &&& busy.len() == 16_777_215 ==> run(op, replies + busy) == Progress::<
                Confirmed<WriteScript>,
                (),
            >::Finished(Err(Error::SoftwareTimeout))
            &&& busy.len() == 16_777_215 ==> trace(op, replies + busy) == wire + asks(
                device.info.rca,
                busy.len(),
            )
        }),
{
    law_card_fields(device.info);
    let argument = if device.info.card_type == CardCapacity::StandardCapacity {
        block_idx * 512
    } else {
        block_idx as int
    };
    lemma_write(device, block_idx, multiple, replies, busy, status, argument);
}

/// A write to an eMMC device puts the number of the block in its command, or on a device whose
/// capacity is standard the number of its first byte. Then the device is asked for its status
/// at its own address until bit 8 is set, but no more than 16777215 times.
pub proof fn law_emmc_write_on_the_wire(
    device: StorageDevice<Emmc>,
    block_idx: u32,
    multiple: bool,
    replies: Seq<Reply>,
    busy: Seq<Reply>,
    status: u32,
)
    requires
        device.info.capacity == CardCapacity::StandardCapacity ==> block_idx < 0x80_0000,
        replies.len() == if multiple {
            6nat
        } else {
            4
        },
        all_succeed(replies),
        all_busy(busy),
        (status / 0x100) % 2 == 1,
    ensures
        ({
            let op = device.write_from(block_idx, multiple);
            let wire = write_on_the_wire(
                if device.info.capacity == CardCapacity::StandardCapacity {
                    block_idx * 512
                } else {
                    block_idx as int
                },
                multiple,
                device.version,
            );
            let answered = replies + busy.push(Reply::Word(status));
            &&& busy.len() < 16_777_215 ==> run(op, answered) == Progress::<
                Confirmed<WriteScript>,
                (),
            >::Finished(Ok(()))
            &&& busy.len() < 16_777_215 ==> trace(op, answered) == wire + asks(
                device.info.rca,
                busy.len() + 1,
            )
            &&& busy.len() == 16_777_215 ==> run(op, replies + busy) == Progress::<
                Confirmed<WriteScript>,
                (),
            >::Finished(Err(Error::SoftwareTimeout))
            &&& busy.len() == 16_777_215 ==> trace(op, replies + busy) == wire + asks(
                device.info.rca,
                busy.len(),
            )
        }),
{
    law_emmc_fields(device.info);
    let argument = if device.info.capacity == CardCapacity::StandardCapacity {
        block_idx * 512
    } else {
        block_idx as int
    };
    lemma_write(device, block_idx, multiple, replies, busy, status, argument);
}

/// The first block of a card is block 0, and a block can be addressed exactly if its address is
/// no more than the argument of a command can hold: every block of a high capacity card, and
/// the first 8388608 blocks of another one.
pub proof fn law_addressable_blocks(
    card: StorageDevice<Card>,
    emmc: StorageDevice<Emmc>,
    block_idx: u32,
)
    ensures
        card.addressable(block_idx) <==> card.info.card_type == CardCapacity::HighCapacity
            || block_idx < 8_388_608,
        emmc.addressable(block_idx) <==> emmc.info.capacity == CardCapacity::HighCapacity
            || block_idx < 8_388_608,
{
}

/// The start of an erasure from `start` to `end` on the card at `address`.
pub open spec fn erasure(unit: EraseUnit, start: u32, end: u32, address: u16) -> Confirmed<
    EraseScript,
> {
    Confirmed {
        address,
        timeout: None,
        stage: Stage::Script(Sequence { script: EraseScript { unit, start, end }, next: 0 }),
    }
}

/// An erasure whose actions succeed tells the card the first and the last block (or group),
/// starts it, and asks for the status until bit 8 is set, however often that takes.
pub proof fn law_erasure_on_the_wire(
    unit: EraseUnit,
    start: u32,
    end: u32,
    address: u16,
    replies: Seq<Reply>,
    busy: Seq<Reply>,
    status: u32,
)
    requires
        replies.len() == 3,
        all_succeed(replies),
        all_busy(busy),
        (status / 0x100) % 2 == 1,
    ensures
        run(
            erasure(unit, start, end, address),
            replies + busy.push(Reply::Word(status)),
        ) == Progress::<Confirmed<EraseScript>, ()>::Finished(Ok(())),
        unit is Blocks ==> trace(
            erasure(unit, start, end, address),
            replies + busy.push(Reply::Word(status)),
        ) == seq![
            checked(32, start as int, false),
            checked(33, end as int, false),
            checked(38, 0, false),
        ] + asks(address, busy.len() + 1),
        unit is Groups ==> trace(
            erasure(unit, start, end, address),
            replies + busy.push(Reply::Word(status)),
        ) == seq![
            checked(35, start as int, false),
            checked(36, end as int, false),
            checked(38, 0, false),
        ] + asks(address, busy.len() + 1),
{
    let op = erasure(unit, start, end, address);
    let actions = (op.stage->Script_0).script.actions();
    lemma_all_busy(busy);
    law_card_status(status);
    law_confirmed_succeeds(op, replies, busy, status);
    assert(actions.skip(0) =~= actions);
    if unit is Blocks {
        assert(actions =~= seq![
            checked(32, start as int, false),
            checked(33, end as int, false),
            checked(38, 0, false),
        ]);
    } else {
        assert(actions =~= seq![
            checked(35, start as int, false),
            checked(36, end as int, false),
            checked(38, 0, false),
        ]);
    }
}

/// The command among `actions` that starts a transfer of blocks: CMD17, CMD18, CMD24 or CMD25.
pub open spec fn transfer_command(actions: Seq<Action>) -> Option<Command>
    decreases actions.len(),
{
    if actions.len() == 0 {
        None
    } else {
        match actions[0] {
            Action::Command { command, check_crc, data } => if command.index == 17 || command.index
                == 18 || command.index == 24 || command.index == 25 {
                Some(command)
            } else {
                transfer_command(actions.drop_first())
            },
            _ => transfer_command(actions.drop_first()),
        }
    }
}

/// The blocks that a card sends when these actions are performed, given the block that it holds
/// at each address, and with blocks that follow each other `step` apart: the one that the
/// command asks for, and the ones behind it for CMD18, which is stopped after `count` blocks.
pub open spec fn sent_by_card(
    contents: spec_fn(int) -> DataBlock,
    step: int,
    actions: Seq<Action>,
    count: nat,
) -> Seq<DataBlock> {
    let command = transfer_command(actions)->Some_0;
    Seq::new(
        if command.index == 18 {
            count
        } else {
            1
        },
        |k: int| contents(command.arg + k * step),
    )
}

/// What a card holds at each address after these actions have sent it `blocks`: the first one is
/// where the command says, the others behind it.
pub open spec fn kept_by_card(
    contents: spec_fn(int) -> DataBlock,
    step: int,
    actions: Seq<Action>,
    blocks: Seq<DataBlock>,
) -> spec_fn(int) -> DataBlock {
    let command = transfer_command(actions)->Some_0;
    |address: int|
        {
            let k = (address - command.arg) / step;
            if (address - command.arg) % step == 0 && 0 <= k < blocks.len() {
                blocks[k]
            } else {
                contents(address)
            }
        }
}

proof fn lemma_read_command(argument: int, multiple: bool)
    requires
        0 <= argument <= u32::MAX,
    ensures
        transfer_command(read_on_the_wire(argument, multiple)) == Some(
            Command {
                index: if multiple {
                    18
                } else {
                    17
                },
                arg: argument as u32,
            },
        ),
{
    let wire = read_on_the_wire(argument, multiple);
    reveal_with_fuel(transfer_command, 4);
    assert(wire.drop_first()[0] == wire[1]);
    assert(wire.drop_first().drop_first()[0] == wire[2]);
}

proof fn lemma_write_command(argument: int, multiple: bool, version: ControllerVersion)
    requires
        0 <= argument <= u32::MAX,
    ensures
        transfer_command(write_on_the_wire(argument, multiple, version)) == Some(
            Command {
                index: if multiple {
                    25
                } else {
                    24
                },
                arg: argument as u32,
            },
        ),
{
    let wire = write_on_the_wire(argument, multiple, version);
    reveal_with_fuel(transfer_command, 4);
    assert(wire.drop_first()[0] == wire[1]);
    assert(wire.drop_first().drop_first()[0] == wire[2]);
}

/// What a read and a write of the same block tell the card, and what that brings, stated for the
/// step that a capacity makes.
proof fn lemma_round_trip<A: Addressable>(
    device: StorageDevice<A>,
    contents: spec_fn(int) -> DataBlock,
    block_idx: u32,
    blocks: Seq<DataBlock>,
    multiple: bool,
    written: Seq<Reply>,
    read: Seq<Reply>,
    single: Seq<Reply>,
    step: int,
)
    requires
        step == if device.info.capacity_class() == CardCapacity::StandardCapacity {
            512int
        } else {
            1
        },
        blocks.len() >= 1,
        multiple || blocks.len() == 1,
        (block_idx + blocks.len() - 1) * step <= u32::MAX,
        written.len() == if multiple {
            6nat
        } else {
            4
        },
        read.len() == written.len(),
        single.len() == 4,
        all_succeed(written),
        all_succeed(read),
        all_succeed(single),
    ensures
        ({
            let write = trace(device.write_from(block_idx, multiple), written);
            let back = trace(device.read_from(block_idx, multiple), read);
            let after = kept_by_card(contents, step, write, blocks);
            &&& transfer_command(write)->Some_0.arg == transfer_command(back)->Some_0.arg
            &&& sent_by_card(after, step, back, blocks.len()) == blocks
            &&& forall|k: int|
                0 <= k < blocks.len() ==> sent_by_card(
                    after,
                    step,
                    trace(#[trigger] device.read_from((block_idx + k) as u32, false), single),
                    1,
                ) == seq![blocks[k]]
            &&& forall|other: u32|
                other * step <= u32::MAX && !(block_idx <= other < block_idx + blocks.len())
                    ==> sent_by_card(
                    after,
                    step,
                    trace(#[trigger] device.read_from(other, false), single),
                    1,
                ) == seq![contents(other * step)]
        }),
{
    let write = trace(device.write_from(block_idx, multiple), written);
    let back = trace(device.read_from(block_idx, multiple), read);
    let after = kept_by_card(contents, step, write, blocks);
    let argument = block_idx * step;
    lemma_steps(step, block_idx as int, blocks.len() - 1);
    assert(0 <= argument <= u32::MAX);
    lemma_write_script(device, block_idx, multiple, argument);
    law_confirmed_script_is_performed(device.write_from(block_idx, multiple), written);
    lemma_write_command(argument, multiple, device.version);
    lemma_read(device, block_idx, multiple, read, argument);
    lemma_read_command(argument, multiple);
    lemma_kept(contents, step, write, blocks, block_idx as int);
    assert forall|k: int| 0 <= k < blocks.len() implies sent_by_card(
        after,
        step,
        back,
        blocks.len(),
    )[k] == #[trigger] blocks[k] by {
        lemma_steps(step, block_idx as int, k);
        assert(after((block_idx + k) * step) == blocks[k]);
    }
    assert(sent_by_card(after, step, back, blocks.len()) =~= blocks);
    assert forall|k: int| 0 <= k < blocks.len() implies sent_by_card(
        after,
        step,
        trace(#[trigger] device.read_from((block_idx + k) as u32, false), single),
        1,
    ) == seq![blocks[k]] by {
        lemma_steps(step, block_idx as int, k);
        lemma_steps(step, block_idx + k, blocks.len() - 1 - k);
        assert(block_idx + k + (blocks.len() - 1 - k) == block_idx + blocks.len() - 1);
        lemma_single(device, after, (block_idx + k) as u32, single, step);
        assert(after((block_idx + k) * step) == blocks[k]);
    }
    assert forall|other: u32|
        other * step <= u32::MAX && !(block_idx <= other < block_idx
            + blocks.len()) implies sent_by_card(
        after,
        step,
        trace(#[trigger] device.read_from(other, false), single),
        1,
    ) == seq![contents(other * step)] by {
        lemma_single(device, after, other, single, step);
        let o = other as int;
        assert(after(o * step) == contents(o * step));
    }
}

/// A block `k` places behind another one is `k` steps behind it.
proof fn lemma_steps(step: int, first: int, k: int)
    requires
        step == 1 || step == 512,
        first >= 0,
        k >= 0,
    ensures
        (first + k) * step == first * step + k * step,
        0 <= first * step <= (first + k) * step,
        first + k <= (first + k) * step,
{
    if step == 512 {
        assert((first + k) * 512 == first * 512 + k * 512);
    }
}

/// What a card holds after a write, by the number of the block.
proof fn lemma_kept(
    contents: spec_fn(int) -> DataBlock,
    step: int,
    actions: Seq<Action>,
    blocks: Seq<DataBlock>,
    first: int,
)
    requires
        step == 1 || step == 512,
        transfer_command(actions) matches Some(command) && command.arg == first * step,
    ensures
        forall|k: int|
            0 <= k < blocks.len() ==> kept_by_card(contents, step, actions, blocks)((first + k)
                * step) == #[trigger] blocks[k],
        forall|o: int|
            !(first <= o < first + blocks.len()) ==> kept_by_card(contents, step, actions, blocks)(
                #[trigger] (o * step),
            ) == contents(o * step),
{
    let kept = kept_by_card(contents, step, actions, blocks);
    let arg = first * step;
    assert forall|k: int| 0 <= k < blocks.len() implies kept((first + k) * step)
        == #[trigger] blocks[k] by {
        if step == 512 {
            assert((first + k) * 512 - first * 512 == k * 512);
            assert((k * 512) % 512 == 0 && (k * 512) / 512 == k);
        } else {
            assert((first + k) * 1 - first * 1 == k);
        }
    }
    assert forall|o: int| !(first <= o < first + blocks.len()) implies kept(
        #[trigger] (o * step),
    ) == contents(o * step) by {
        let d = o - first;
        if step == 512 {
            assert(o * 512 - first * 512 == d * 512);
            assert((d * 512) / 512 == d);
        } else {
            assert(o * 1 - first * 1 == d);
        }
    }
}

/// A read of one block brings what the card holds at its address.
proof fn lemma_single<A: Addressable>(
    device: StorageDevice<A>,
    contents: spec_fn(int) -> DataBlock,
    block_idx: u32,
    replies: Seq<Reply>,
    step: int,
)
    requires
        step == if device.info.capacity_class() == CardCapacity::StandardCapacity {
            512int
        } else {
            1
        },
        block_idx * step <= u32::MAX,
        replies.len() == 4,
        all_succeed(replies),
    ensures
        sent_by_card(
            contents,
            step,
            trace(device.read_from(block_idx, false), replies),
            1,
        ) == seq![contents(block_idx * step)],
{
    let argument = block_idx * step;
    lemma_steps(step, block_idx as int, 0);
    lemma_read(device, block_idx, false, replies, argument);
    lemma_read_command(argument, false);
    assert(0 * step == 0);
    assert(sent_by_card(
        contents,
        step,
        trace(device.read_from(block_idx, false), replies),
        1,
    ) =~= seq![contents(argument)]);
}

/// Blocks that were written to an SD card come back in order, in one transfer or one by one,
/// and every other block is as before. Where blocks are written and read is taken from the
/// commands that go out; a card whose type is standard capacity counts bytes, another one
/// blocks.
pub proof fn law_sd_round_trip(
    device: StorageDevice<Card>,
    contents: spec_fn(int) -> DataBlock,
    block_idx: u32,
    blocks: Seq<DataBlock>,
    multiple: bool,
    written: Seq<Reply>,
    read: Seq<Reply>,
    single: Seq<Reply>,
)
    requires
        blocks.len() >= 1,
        multiple || blocks.len() == 1,
        block_idx + blocks.len() - 1 <= u32::MAX,
        device.info.card_type == CardCapacity::StandardCapacity ==> block_idx + blocks.len()
            <= 0x80_0000,
        written.len() == if multiple {
            6nat
        } else {
            4
        },
        read.len() == written.len(),
        single.len() == 4,
        all_succeed(written),
        all_succeed(read),
        all_succeed(single),
    ensures
        ({
            let step: int = if device.info.card_type == CardCapacity::StandardCapacity {
                512
            } else {
                1
            };
            let write = trace(device.write_from(block_idx, multiple), written);
            let back = trace(device.read_from(block_idx, multiple), read);
            let after = kept_by_card(contents, step, write, blocks);
            &&& transfer_command(write)->Some_0.arg == transfer_command(back)->Some_0.arg
            &&& sent_by_card(after, step, back, blocks.len()) == blocks
            &&& forall|k: int|
                0 <= k < blocks.len() ==> sent_by_card(
                    after,
                    step,
                    trace(#[trigger] device.read_from((block_idx + k) as u32, false), single),
                    1,
                ) == seq![blocks[k]]
            &&& forall|other: u32|
                other * step <= u32::MAX && !(block_idx <= other < block_idx + blocks.len())
                    ==> sent_by_card(
                    after,
                    step,
                    trace(#[trigger] device.read_from(other, false), single),
                    1,
                ) == seq![contents(other * step)]
        }),
{
    law_card_fields(device.info);
    let step: int = if device.info.card_type == CardCapacity::StandardCapacity {
        512
    } else {
        1
    };
    lemma_round_trip(
        device,
        contents,
        block_idx,
        blocks,
        multiple,
        written,
        read,
        single,
        step,
    );
}

/// Blocks that were written to an eMMC device come back in order, in one transfer or one by
/// one, and every other block is as before. Where blocks are written and read is taken from
/// the commands that go out; a device whose capacity is standard counts bytes, another one
/// blocks.
pub proof fn law_emmc_round_trip(
    device: StorageDevice<Emmc>,
    contents: spec_fn(int) -> DataBlock,
    block_idx: u32,
    blocks: Seq<DataBlock>,
    multiple: bool,
    written: Seq<Reply>,
    read: Seq<Reply>,
    single: Seq<Reply>,
)
    requires
        blocks.len() >= 1,
        multiple || blocks.len() == 1,
        block_idx + blocks.len() - 1 <= u32::MAX,
        device.info.capacity == CardCapacity::StandardCapacity ==> block_idx + blocks.len()
            <= 0x80_0000,
        written.len() == if multiple {
            6nat
        } else {
            4
        },
        read.len() == written.len(),
        single.len() == 4,
        all_succeed(written),
        all_succeed(read),
        all_succeed(single),
    ensures
        ({
            let step: int = if device.info.capacity == CardCapacity::StandardCapacity {
                512
            } else {
                1
            };
            let write = trace(device.write_from(block_idx, multiple), written);
            let back = trace(device.read_from(block_idx, multiple), read);
            let after = kept_by_card(contents, step, write, blocks);
            &&& transfer_command(write)->Some_0.arg == transfer_command(back)->Some_0.arg
            &&& sent_by_card(after, step, back, blocks.len()) == blocks
            &&& forall|k: int|
                0 <= k < blocks.len() ==> sent_by_card(
                    after,
                    step,
                    trace(#[trigger] device.read_from((block_idx + k) as u32, false), single),
                    1,
                ) == seq![blocks[k]]
            &&& forall|other: u32|
                other * step <= u32::MAX && !(block_idx <= other < block_idx + blocks.len())
                    ==> sent_by_card(
                    after,
                    step,
                    trace(#[trigger] device.read_from(other, false), single),
                    1,
                ) == seq![contents(other * step)]
        }),
{
    law_emmc_fields(device.info);
    let step: int = if device.info.capacity == CardCapacity::StandardCapacity {
        512
    } else {
        1
    };
    lemma_round_trip(
        device,
        contents,
        block_idx,
        blocks,
        multiple,
        written,
        read,
        single,
        step,
    );
}

} // verus!
