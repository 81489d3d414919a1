//! Storage devices.
use crate::block::DataBlock;
use crate::bus::{
    run, trace, Action, BusWidth, ControllerVersion, Error, Operation, Progress, Reply,
};
use crate::card::{Addressable, Card, CardCapacity, Emmc};
use crate::confirmed::{law_confirmed_succeeds, Confirmed, Stage};
use crate::emmc::{EmmcAcquire, EmmcStage};
use crate::ext_register::{ext_reg_argument, write_at};
use crate::poll::not_ready;
use crate::power::{
    notification_bytes, power_off_limit, power_off_millis, EmmcPowerOff, EmmcPowerOffStage,
    NotifyStage, PowerOffMode, PowerOffNotify,
};
use crate::register::status_ready;
use crate::sd::{SdAcquire, SdStage};
use crate::sequence::{law_script_is_performed, Script, Sequence};
use crate::time::{millis_in_ticks, secs_in_ticks, ticks_from_millis, ticks_from_secs, Hertz};
use crate::transfer::{
    address_of, address_step, block_address, law_addresses_follow, send, EraseScript, EraseUnit,
    ReadScript, WriteScript, WRITE_TIMEOUT,
};
use crate::transfer_laws::erasure;
use core::ops::RangeInclusive;
use vstd::prelude::*;

verus! {

/// `core::ops::RangeInclusive::start`: the lower bound of a range that was not used up by
/// iteration.
pub assume_specification<Idx>[ RangeInclusive::<Idx>::start ](range: &RangeInclusive<Idx>) -> (r:
    &Idx)
    ensures
        !range@.exhausted ==> *r == range@.start,
;

/// `core::ops::RangeInclusive::end`: the upper bound of a range that was not used up by
/// iteration.
pub assume_specification<Idx>[ RangeInclusive::<Idx>::end ](range: &RangeInclusive<Idx>) -> (r:
    &Idx)
    ensures
        !range@.exhausted ==> *r == range@.end,
;

/// Storage Device
#[derive(Debug, PartialEq, Eq)]
pub struct StorageDevice<A: Addressable> {
    /// What is known of the card
    pub info: A,
    /// The generation of the controller that the card is attached to
    pub version: ControllerVersion,
}

/// Card Storage Device
impl StorageDevice<Card> {
    /// Create a new SD card
    ///
    /// `width` is the bus width that the controller is configured for. SD cards have no
    /// more than four data lines.
    pub fn new_sd_card(version: ControllerVersion, width: BusWidth, freq: Hertz) -> (r: Progress<
        SdAcquire,
        StorageDevice<Card>,
    >)
        ensures
            width is Eight ==> r == Progress::<SdAcquire, StorageDevice<Card>>::Finished(
                Err(Error::BusWidth),
            ),
            !(width is Eight) ==> (r matches Progress::Pending(op) && op.wf() && op.version
                == version && op.width == width && op.freq == freq && op.stage is InitIdle
                && op.info.is_blank()),
    {
        match width {
            BusWidth::Eight => Progress::Finished(Err(Error::BusWidth)),
            _ => Progress::Pending(
                SdAcquire { version, width, freq, info: Card::default(), stage: SdStage::InitIdle },
            ),
        }
    }

    /// Erase one (or more) SDMMC blocks
    pub fn erase_blocks(&self, groups: RangeInclusive<u32>) -> (r: Confirmed<EraseScript>)
        ensures
            r.wf(),
            !groups@.exhausted ==> r == (Confirmed {
                address: self.info.rca,
                timeout: None,
                stage: Stage::Script(
                    Sequence {
                        script: EraseScript {
                            unit: EraseUnit::Blocks,
                            start: groups@.start,
                            end: groups@.end,
                        },
                        next: 0,
                    },
                ),
            }),
            !groups@.exhausted ==> (r.stage matches Stage::Script(sequence)
                && sequence.script.actions() == seq![
                send(32, groups@.start, true, false),
                send(33, groups@.end, true, false),
                send(38, 0, true, false),
            ]),
            !groups@.exhausted ==> r == erasure(
                EraseUnit::Blocks,
                groups@.start,
                groups@.end,
                self.info.rca,
            ),
    {
        let script = EraseScript {
            unit: EraseUnit::Blocks,
            start: *groups.start(),
            end: *groups.end(),
        };
        Confirmed::new(script, self.info.get_address(), None)
    }

    /// Send a power-off notification to the card. On SD cards supporting v4.00+, send this
    /// notification to the card to indicate that shutdown of card power is imminent. Does
    /// not end until the card indicates it is safe to remove power, or a second has passed.
    pub fn power_off_notify(&self) -> (r: Progress<PowerOffNotify, ()>)
        ensures
            match self.info.power_ext {
                Some(power_ext) if power_ext.supports() => {
                    &&& r matches Progress::Pending(op)
                    &&& op.wf()
                    &&& op.at == power_ext.place()
                    &&& op.timeout == secs_in_ticks(1)
                    &&& exists|buffer: DataBlock|
                        buffer.bytes() == notification_bytes() && op.stage == NotifyStage::Write(
                            #[trigger] write_at(
                                op.at.fno,
                                op.at.page,
                                (op.at.offset + 2) as u16,
                                buffer,
                                self.info.rca,
                                self.version,
                            ),
                        )
                    &&& op.stage matches NotifyStage::Write(write)
                    &&& write.address == self.info.rca
                    &&& write.stage matches Stage::Script(sequence)
                    &&& sequence.script.version == self.version
                    &&& sequence.script.argument == ext_reg_argument(
                        power_ext.place().fno,
                        power_ext.place().page,
                        (power_ext.place().offset + 2) as u16,
                    )
                    &&& sequence.script.buffer.bytes()[0] == 1
                    &&& forall|i: int|
                        1 <= i < 512 ==> #[trigger] sequence.script.buffer.bytes()[i] == 0
                },
                _ => r == Progress::<PowerOffNotify, ()>::Finished(
                    Err(Error::UnsupportedOperation),
                ),
            },
            r is Pending <==> self.info.power_ext is Some && self.info.power_ext->Some_0.supports(),
    {
        match self.info.power_ext {
            Some(power_ext) => {
                if !power_ext.supports_notification() {
                    return Progress::Finished(Err(Error::UnsupportedOperation));
                }
                let timeout: u64 = ticks_from_secs(1);
                Progress::Pending(
                    PowerOffNotify::with_timeout(
                        power_ext.address(),
                        self.info.get_address(),
                        self.version,
                        timeout,
                    ),
                )
            },
            None => Progress::Finished(Err(Error::UnsupportedOperation)),
        }
    }
}

/// Emmc storage device
impl StorageDevice<Emmc> {
    /// Create a new EMMC card
    ///
    /// `width` is the bus width that the controller is configured for.
    pub fn new_emmc(version: ControllerVersion, width: BusWidth, freq: Hertz) -> (r: EmmcAcquire)
        requires
            !(width is Unknown),
        ensures
            r.wf(),
            r.version == version,
            r.width == width,
            r.freq == freq,
            r.stage is InitIdle,
            r.info.is_blank(),
    {
        EmmcAcquire { version, width, freq, info: Emmc::default(), stage: EmmcStage::InitIdle }
    }

    /// Erase one (or more) eMMC groups
    pub fn erase_groups(&self, groups: RangeInclusive<u32>) -> (r: Confirmed<EraseScript>)
        ensures
            r.wf(),
            !groups@.exhausted ==> r == (Confirmed {
                address: self.info.rca,
                timeout: None,
                stage: Stage::Script(
                    Sequence {
                        script: EraseScript {
                            unit: EraseUnit::Groups,
                            start: groups@.start,
                            end: groups@.end,
                        },
                        next: 0,
                    },
                ),
            }),
            !groups@.exhausted ==> (r.stage matches Stage::Script(sequence)
                && sequence.script.actions() == seq![
                send(35, groups@.start, true, false),
                send(36, groups@.end, true, false),
                send(38, 0, true, false),
            ]),
            !groups@.exhausted ==> r == erasure(
                EraseUnit::Groups,
                groups@.start,
                groups@.end,
                self.info.rca,
            ),
    {
        let script = EraseScript {
            unit: EraseUnit::Groups,
            start: *groups.start(),
            end: *groups.end(),
        };
        Confirmed::new(script, self.info.get_address(), None)
    }

    /// Send a short power off notification to the card and wait until the card indicates it
    /// is ready for shutdown.
    pub fn short_power_off_notify(&self) -> (r: EmmcPowerOff)
        ensures
            r.wf(),
            r == (EmmcPowerOff {
                address: self.info.rca,
                mode: PowerOffMode::Short,
                timeout: millis_in_ticks(
                    power_off_limit(self.info.ext_csd, PowerOffMode::Short) as u64,
                ) as u64,
                stage: EmmcPowerOffStage::Notify,
            }),
            r.timeout == millis_in_ticks(
                power_off_limit(self.info.ext_csd, PowerOffMode::Short) as u64,
            ),
            r.mode is Short,
    {
        let millis: u64 = power_off_millis(&self.info.ext_csd, PowerOffMode::Short);
        EmmcPowerOff::with_timeout(
            self.info.get_address(),
            PowerOffMode::Short,
            ticks_from_millis(millis),
        )
    }

    /// Send a long power off notification to the card and wait until the card indicates it
    /// is ready for shutdown.
    pub fn long_power_off_notify(&self) -> (r: EmmcPowerOff)
        ensures
            r.wf(),
            r == (EmmcPowerOff {
                address: self.info.rca,
                mode: PowerOffMode::Long,
                timeout: millis_in_ticks(
                    power_off_limit(self.info.ext_csd, PowerOffMode::Long) as u64,
                ) as u64,
                stage: EmmcPowerOffStage::Notify,
            }),
            r.timeout == millis_in_ticks(
                power_off_limit(self.info.ext_csd, PowerOffMode::Long) as u64,
            ),
            r.mode is Long,
    {
        let millis: u64 = power_off_millis(&self.info.ext_csd, PowerOffMode::Long);
        EmmcPowerOff::with_timeout(
            self.info.get_address(),
            PowerOffMode::Long,
            ticks_from_millis(millis),
        )
    }
}

/// Card or Emmc storage device
impl<A: Addressable> StorageDevice<A> {
    /// Whether the card can be told the address of a block: a byte addressed card has none
    /// for blocks past 4 GB.
    pub open spec fn addressable(self, block_idx: u32) -> bool {
        address_of(self.info.capacity_class(), block_idx) <= u32::MAX
    }

    /// A read from a block on.
    pub open spec fn read_from(self, block_idx: u32, multiple: bool) -> Sequence<ReadScript> {
        Sequence {
            script: ReadScript {
                address: address_of(self.info.capacity_class(), block_idx) as u32,
                multiple,
            },
            next: 0,
        }
    }

    /// A write from a block on.
    pub open spec fn write_from(self, block_idx: u32, multiple: bool) -> Confirmed<WriteScript> {
        Confirmed {
            address: self.info.address(),
            timeout: Some(WRITE_TIMEOUT),
            stage: Stage::Script(
                Sequence {
                    script: WriteScript {
                        address: address_of(self.info.capacity_class(), block_idx) as u32,
                        multiple,
                        version: self.version,
                    },
                    next: 0,
                },
            ),
        }
    }

    /// What is known of the card
    pub fn card(&self) -> (r: A)
        ensures
            cloned(self.info, r),
    {
        self.info.clone()
    }

    /// Tests whether the card can be told the address of a block.
    pub fn has_address(&self, block_idx: u32) -> (r: bool)
        ensures
            r == self.addressable(block_idx),
    {
        match self.info.get_capacity() {
            CardCapacity::StandardCapacity => block_idx <= 0x7F_FFFF,
            CardCapacity::HighCapacity => true,
        }
    }

    /// Read a data block.
    pub fn read_block(&self, block_idx: u32) -> (r: Sequence<ReadScript>)
        requires
            self.addressable(block_idx),
        ensures
            r.wf(),
            r == self.read_from(block_idx, false),
            !r.script.multiple,
            r.script.address == address_of(self.info.capacity_class(), block_idx),
    {
        let address: u32 = block_address(self.info.get_capacity(), block_idx);
        Sequence::new(ReadScript { address, multiple: false })
    }

    /// Read multiple data blocks.
    pub fn read_blocks(&self, block_idx: u32) -> (r: Sequence<ReadScript>)
        requires
            self.addressable(block_idx),
        ensures
            r.wf(),
            r == self.read_from(block_idx, true),
            r.script.multiple,
            r.script.address == address_of(self.info.capacity_class(), block_idx),
    {
        let address: u32 = block_address(self.info.get_capacity(), block_idx);
        Sequence::new(ReadScript { address, multiple: true })
    }

    /// Write a data block.
    pub fn write_block(&self, block_idx: u32) -> (r: Confirmed<WriteScript>)
        requires
            self.addressable(block_idx),
        ensures
            r.wf(),
            r == self.write_from(block_idx, false),
            r.stage matches Stage::Script(sequence) && !sequence.script.multiple && sequence.script.address
                == address_of(self.info.capacity_class(), block_idx),
    {
        let address: u32 = block_address(self.info.get_capacity(), block_idx);
        Confirmed::new(
            WriteScript { address, multiple: false, version: self.version },
            self.info.get_address(),
            Some(WRITE_TIMEOUT),
        )
    }

    /// Write multiple data blocks.
    pub fn write_blocks(&self, block_idx: u32) -> (r: Confirmed<WriteScript>)
        requires
            self.addressable(block_idx),
        ensures
            r.wf(),
            r == self.write_from(block_idx, true),
            r.stage matches Stage::Script(sequence) && sequence.script.multiple && sequence.script.address
                == address_of(self.info.capacity_class(), block_idx),
    {
        let address: u32 = block_address(self.info.get_capacity(), block_idx);
        Confirmed::new(
            WriteScript { address, multiple: true, version: self.version },
            self.info.get_address(),
            Some(WRITE_TIMEOUT),
        )
    }

    /// Read `count` blocks at the given block address.
    pub fn read(&self, block_address: u32, count: usize) -> (r: Sequence<ReadScript>)
        requires
            self.addressable(block_address),
        ensures
            r.wf(),
            r == self.read_from(block_address, count != 1),
            r.script.multiple <==> count < 1 || count > 1,
    {
        if count == 1 {
            self.read_block(block_address)
        } else {
            self.read_blocks(block_address)
        }
    }

    /// Write `count` blocks at the given block address.
    pub fn write(&self, block_address: u32, count: usize) -> (r: Confirmed<WriteScript>)
        requires
            self.addressable(block_address),
        ensures
            r.wf(),
            r == self.write_from(block_address, count != 1),
            r.stage matches Stage::Script(sequence) && (sequence.script.multiple <==> count < 1
                || count > 1),
    {
        if count == 1 {
            self.write_block(block_address)
        } else {
            self.write_blocks(block_address)
        }
    }

    /// Report the size of the device in bytes.
    pub fn size(&self) -> (r: u64)
        ensures
            r == self.info.bytes(),
    {
        self.info.size()
    }
}

/// A read whose actions all succeed performs exactly its script, and succeeds: the block
/// length is set, the data path is armed before the read command goes out, and an
/// open-ended transfer is stopped.
pub proof fn law_blocks_are_read<A: Addressable>(
    device: StorageDevice<A>,
    block_idx: u32,
    multiple: bool,
    replies: Seq<Reply>,
)
    requires
        device.addressable(block_idx),
        replies.len() == if multiple {
            6nat
        } else {
            4
        },
        forall|i: int| 0 <= i < replies.len() ==> !(#[trigger] replies[i] is Failed),
    ensures
        run(device.read_from(block_idx, multiple), replies) == Progress::<
            Sequence<ReadScript>,
            Reply,
        >::Finished(Ok(replies.last())),
        trace(device.read_from(block_idx, multiple), replies) == device.read_from(
            block_idx,
            multiple,
        ).script.actions(),
{
    let op = device.read_from(block_idx, multiple);
    law_script_is_performed(op, replies);
    assert(op.script.actions().skip(0) =~= op.script.actions());
}

/// A write whose actions all succeed performs exactly its script, waits until the card is
/// ready, and succeeds.
pub proof fn law_blocks_are_written<A: Addressable>(
    device: StorageDevice<A>,
    block_idx: u32,
    multiple: bool,
    replies: Seq<Reply>,
    busy: Seq<Reply>,
    status: u32,
)
    requires
        device.addressable(block_idx),
        replies.len() == if multiple {
            6nat
        } else {
            4
        },
        forall|i: int| 0 <= i < replies.len() ==> !(#[trigger] replies[i] is Failed),
        forall|i: int| 0 <= i < busy.len() ==> not_ready(#[trigger] busy[i]),
        busy.len() < WRITE_TIMEOUT,
        status_ready(status),
    ensures
        run(
            device.write_from(block_idx, multiple),
            replies + busy.push(Reply::Word(status)),
        ) == Progress::<Confirmed<WriteScript>, ()>::Finished(Ok(())),
        trace(
            device.write_from(block_idx, multiple),
            replies + busy.push(Reply::Word(status)),
        ) == (WriteScript {
            address: address_of(device.info.capacity_class(), block_idx) as u32,
            multiple,
            version: device.version,
        }).actions() + Seq::new(
            busy.len() + 1,
            |i: int| Action::ReadStatus { address: device.info.address() },
        ),
{
    let op = device.write_from(block_idx, multiple);
    let script = op.stage->Script_0.script;
    law_confirmed_succeeds(op, replies, busy, status);
    assert(script.actions().skip(0) =~= script.actions());
}

/// A block is read from the address that it is written to.
pub proof fn law_reads_and_writes_agree<A: Addressable>(
    device: StorageDevice<A>,
    block_idx: u32,
    multiple: bool,
)
    ensures
        device.read_from(block_idx, multiple).script.address == (device.write_from(
            block_idx,
            multiple,
        ).stage->Script_0).script.address,
{
}

/// The blocks that a card sends for a read, given the block that it holds at each address:
/// the one at the address of the read, and those behind it for an open-ended transfer, which
/// is stopped after `count` blocks.
pub open spec fn sent_blocks(
    contents: spec_fn(int) -> DataBlock,
    capacity: CardCapacity,
    script: ReadScript,
    count: nat,
) -> Seq<DataBlock> {
    Seq::new(
        if script.multiple {
            count
        } else {
            1
        },
        |k: int| contents(script.address + k * address_step(capacity)),
    )
}

/// What a card holds at each address once it has taken `blocks` for a write, given what it
/// held before: the first block is at the address of the write, the others behind it.
pub open spec fn kept_blocks(
    contents: spec_fn(int) -> DataBlock,
    capacity: CardCapacity,
    script: WriteScript,
    blocks: Seq<DataBlock>,
) -> spec_fn(int) -> DataBlock {
    |address: int|
        {
            let distance = address - script.address;
            let k = distance / address_step(capacity);
            if distance % address_step(capacity) == 0 && 0 <= k < blocks.len() {
                blocks[k]
            } else {
                contents(address)
            }
        }
}

/// One transfer of several blocks brings, in order, the blocks that as many transfers of one
/// block bring.
pub proof fn law_blocks_come_in_order<A: Addressable>(
    device: StorageDevice<A>,
    contents: spec_fn(int) -> DataBlock,
    block_idx: u32,
    count: nat,
)
    requires
        count >= 1,
        block_idx + count - 1 <= u32::MAX,
        device.addressable((block_idx + count - 1) as u32),
    ensures
        sent_blocks(
            contents,
            device.info.capacity_class(),
            device.read_from(block_idx, true).script,
            count,
        ) == Seq::new(
            count,
            |k: int|
                sent_blocks(
                    contents,
                    device.info.capacity_class(),
                    device.read_from((block_idx + k) as u32, false).script,
                    1,
                )[0],
        ),
{
    let capacity = device.info.capacity_class();
    let all = sent_blocks(contents, capacity, device.read_from(block_idx, true).script, count);
    assert forall|k: int| 0 <= k < count implies all[k] == #[trigger] sent_blocks(
        contents,
        capacity,
        device.read_from((block_idx + k) as u32, false).script,
        1,
    )[0] by {
        law_addresses_follow(capacity, block_idx, k as u32);
    }
    assert(all =~= Seq::new(
        count,
        |k: int|
            sent_blocks(
                contents,
                capacity,
                device.read_from((block_idx + k) as u32, false).script,
                1,
            )[0],
    ));
}

/// Blocks that were written are read back in order, and every other block of the card is as
/// before.
pub proof fn law_written_blocks_are_read<A: Addressable>(
    device: StorageDevice<A>,
    contents: spec_fn(int) -> DataBlock,
    block_idx: u32,
    blocks: Seq<DataBlock>,
    multiple: bool,
)
    requires
        blocks.len() >= 1,
        multiple || blocks.len() == 1,
        block_idx + blocks.len() - 1 <= u32::MAX,
        device.addressable((block_idx + blocks.len() - 1) as u32),
    ensures
        ({
            let capacity = device.info.capacity_class();
            let write = (device.write_from(block_idx, multiple).stage->Script_0).script;
            let read = device.read_from(block_idx, multiple).script;
            let after = kept_blocks(contents, capacity, write, blocks);
            &&& sent_blocks(after, capacity, read, blocks.len()) == blocks
            &&& forall|other: u32|
                device.addressable(other) && (other < block_idx || other >= block_idx
                    + blocks.len()) ==> #[trigger] sent_blocks(
                    after,
                    capacity,
                    device.read_from(other, false).script,
                    1,
                ) == sent_blocks(contents, capacity, device.read_from(other, false).script, 1)
        }),
{
    let capacity = device.info.capacity_class();
    let write = (device.write_from(block_idx, multiple).stage->Script_0).script;
    let read = device.read_from(block_idx, multiple).script;
    let after = kept_blocks(contents, capacity, write, blocks);
    let step = address_step(capacity);
    assert forall|k: int| 0 <= k < blocks.len() implies after(write.address + k * step)
        == #[trigger] blocks[k] by {
        if capacity is StandardCapacity {
            assert((k * 512) % 512 == 0 && (k * 512) / 512 == k);
        }
    }
    assert(sent_blocks(after, capacity, read, blocks.len()) =~= blocks);
    assert forall|other: u32|
        device.addressable(other) && (other < block_idx || other >= block_idx
            + blocks.len()) implies #[trigger] sent_blocks(
        after,
        capacity,
        device.read_from(other, false).script,
        1,
    ) == sent_blocks(contents, capacity, device.read_from(other, false).script, 1) by {
        let single = device.read_from(other, false).script;
        assert(sent_blocks(after, capacity, single, 1) =~= sent_blocks(
            contents,
            capacity,
            single,
            1,
        ));
    }
}

} // verus!
