//! Reading, writing and erasing blocks.
use crate::bus::{Action, Buffer, ControllerVersion};
use crate::card::CardCapacity;
use crate::command::{
    cmd, erase, erase_group_end, erase_group_start, read_multiple_blocks, read_single_block,
    set_block_length, stop_transmission, write_multiple_blocks, write_single_block, Command,
};
use crate::sequence::Script;
use vstd::prelude::*;

verus! {

/// The size of a data block in bytes.
pub const BLOCK_SIZE: u32 = 512;

/// How often a card that was written to is asked whether it is ready.
pub const WRITE_TIMEOUT: u32 = 0x00FF_FFFF;

/// The action that sends a command.
pub open spec fn send(index: u8, arg: u32, check_crc: bool, data: bool) -> Action {
    Action::Command { command: Command { index, arg }, check_crc, data }
}

/// What a card of the given capacity takes as the address of a block: the number of
/// its first byte, or its own number.
pub open spec fn address_of(capacity: CardCapacity, block_idx: u32) -> int {
    match capacity {
        CardCapacity::StandardCapacity => block_idx * 512,
        CardCapacity::HighCapacity => block_idx as int,
    }
}

/// The address of a block. SDSC cards are byte addressed, hence the address is in
/// multiples of 512 bytes.
pub fn block_address(capacity: CardCapacity, block_idx: u32) -> (r: u32)
    requires
        address_of(capacity, block_idx) <= u32::MAX,
    ensures
        r == address_of(capacity, block_idx),
{
    match capacity {
        CardCapacity::StandardCapacity => block_idx * BLOCK_SIZE,
        CardCapacity::HighCapacity => block_idx,
    }
}

/// Two blocks of a card never have the same address, and on a byte addressed card
/// they are at least a block apart.
pub proof fn law_addresses_are_distinct(capacity: CardCapacity, first: u32, second: u32)
    requires
        first < second,
    ensures
        address_of(capacity, first) < address_of(capacity, second),
        capacity is StandardCapacity ==> address_of(capacity, first) + 512 <= address_of(
            capacity,
            second,
        ),
{
}

/// How far apart two blocks that follow each other are addressed.
pub open spec fn address_step(capacity: CardCapacity) -> int {
    match capacity {
        CardCapacity::StandardCapacity => 512,
        CardCapacity::HighCapacity => 1,
    }
}

/// The block `k` places behind another one is addressed `k` steps behind it: `k` on a card
/// that is addressed by blocks, `512 * k` on one that is addressed by bytes.
pub proof fn law_addresses_follow(capacity: CardCapacity, block_idx: u32, k: u32)
    requires
        block_idx + k <= u32::MAX,
    ensures
        address_of(capacity, (block_idx + k) as u32) == address_of(capacity, block_idx) + k
            * address_step(capacity),
{
}

/// Reads one block, or several from one address on, into the caller's blocks.
#[derive(Debug, PartialEq, Eq)]
pub struct ReadScript {
    /// Where to read
    pub address: u32,
    /// Whether the transfer is open-ended
    pub multiple: bool,
}

impl Script for ReadScript {
    open spec fn actions(self) -> Seq<Action> {
        if self.multiple {
            seq![
                send(16, 512, true, false),
                Action::PrepareRead { buffer: Buffer::Caller, block_size: 512 },
                send(18, self.address, true, true),
                Action::CompleteRead { buffer: Buffer::Caller, single: false },
                send(12, 0, true, false),
                Action::ClearInterruptFlags,
            ]
        } else {
            seq![
                send(16, 512, true, false),
                Action::PrepareRead { buffer: Buffer::Caller, block_size: 512 },
                send(17, self.address, true, true),
                Action::CompleteRead { buffer: Buffer::Caller, single: true },
            ]
        }
    }

    open spec fn unwraps(self, i: int) -> bool {
        false
    }

    proof fn lemma_not_empty(self) {
    }

    fn count(&self) -> usize {
        if self.multiple {
            6
        } else {
            4
        }
    }

    fn nth(&self, i: usize) -> Action {
        match i {
            0 => Action::Command {
                command: set_block_length(BLOCK_SIZE),
                check_crc: true,
                data: false,
            },
            1 => Action::PrepareRead { buffer: Buffer::Caller, block_size: BLOCK_SIZE },
            2 => {
                let command = if self.multiple {
                    read_multiple_blocks(self.address)
                } else {
                    read_single_block(self.address)
                };
                Action::Command { command, check_crc: true, data: true }
            },
            3 => Action::CompleteRead { buffer: Buffer::Caller, single: !self.multiple },
            4 => Action::Command { command: stop_transmission(), check_crc: true, data: false },
            _ => Action::ClearInterruptFlags,
        }
    }

    fn nth_unwraps(&self, i: usize) -> bool {
        false
    }
}

/// Writes one of the caller's blocks, or several from one address on.
#[derive(Debug, PartialEq, Eq)]
pub struct WriteScript {
    /// Where to write
    pub address: u32,
    /// Whether the transfer is open-ended
    pub multiple: bool,
    /// The controller's generation
    pub version: ControllerVersion,
}

impl WriteScript {
    /// The write command.
    pub open spec fn command(self) -> Action {
        send(
            if self.multiple {
                25
            } else {
                24
            },
            self.address,
            true,
            true,
        )
    }

    fn write_command(&self) -> (r: Action)
        ensures
            r == self.command(),
    {
        let command = if self.multiple {
            write_multiple_blocks(self.address)
        } else {
            write_single_block(self.address)
        };
        Action::Command { command, check_crc: true, data: true }
    }
}

impl Script for WriteScript {
    open spec fn actions(self) -> Seq<Action> {
        let arm = Action::PrepareWrite { block_size: 512 };
        let start = match self.version {
            ControllerVersion::V1 => seq![send(16, 512, true, false), self.command(), arm],
            ControllerVersion::V2 => seq![send(16, 512, true, false), arm, self.command()],
        };
        let end = if self.multiple {
            seq![
                Action::CompleteWrite { single: false },
                send(12, 0, true, false),
                Action::ClearInterruptFlags,
            ]
        } else {
            seq![Action::CompleteWrite { single: true }]
        };
        start + end
    }

    open spec fn unwraps(self, i: int) -> bool {
        false
    }

    proof fn lemma_not_empty(self) {
    }

    fn count(&self) -> usize {
        if self.multiple {
            6
        } else {
            4
        }
    }

    fn nth(&self, i: usize) -> Action {
        match i {
            0 => Action::Command {
                command: set_block_length(BLOCK_SIZE),
                check_crc: true,
                data: false,
            },
            1 => match self.version {
                ControllerVersion::V1 => self.write_command(),
                ControllerVersion::V2 => Action::PrepareWrite { block_size: BLOCK_SIZE },
            },
            2 => match self.version {
                ControllerVersion::V1 => Action::PrepareWrite { block_size: BLOCK_SIZE },
                ControllerVersion::V2 => self.write_command(),
            },
            3 => Action::CompleteWrite { single: !self.multiple },
            4 => Action::Command { command: stop_transmission(), check_crc: true, data: false },
            _ => Action::ClearInterruptFlags,
        }
    }

    fn nth_unwraps(&self, i: usize) -> bool {
        false
    }
}

/// The generations of the controller perform the same actions for a write; only the
/// write command and the arming of the data path change places.
pub proof fn law_versions_differ_in_order(address: u32, multiple: bool)
    ensures
        ({
            let v1 = (WriteScript { address, multiple, version: ControllerVersion::V1 }).actions();
            let v2 = (WriteScript { address, multiple, version: ControllerVersion::V2 }).actions();
            v2 == v1.update(1, v1[2]).update(2, v1[1])
        }),
{
    let v1 = (WriteScript { address, multiple, version: ControllerVersion::V1 }).actions();
    let v2 = (WriteScript { address, multiple, version: ControllerVersion::V2 }).actions();
    assert(v2 =~= v1.update(1, v1[2]).update(2, v1[1]));
}

/// What is erased.
#[derive(Debug, Clone, Copy, PartialEq, Eq)]
pub enum EraseUnit {
    /// The write blocks of an SD card
    Blocks,
    /// The erase groups of an eMMC device
    Groups,
}

/// Erases everything from `start` to `end`.
#[derive(Debug, PartialEq, Eq)]
pub struct EraseScript {
    /// What is erased
    pub unit: EraseUnit,
    /// The first block or group
    pub start: u32,
    /// The last block or group
    pub end: u32,
}

impl Script for EraseScript {
    open spec fn actions(self) -> Seq<Action> {
        match self.unit {
            EraseUnit::Blocks => seq![
                send(32, self.start, true, false),
                send(33, self.end, true, false),
                send(38, 0, true, false),
            ],
            EraseUnit::Groups => seq![
                send(35, self.start, true, false),
                send(36, self.end, true, false),
                send(38, 0, true, false),
            ],
        }
    }

    open spec fn unwraps(self, i: int) -> bool {
        false
    }

    proof fn lemma_not_empty(self) {
    }

    fn count(&self) -> usize {
        3
    }

    fn nth(&self, i: usize) -> Action {
        let command = match i {
            0 => match self.unit {
                EraseUnit::Blocks => cmd(32, self.start),
                EraseUnit::Groups => erase_group_start(self.start),
            },
            1 => match self.unit {
                EraseUnit::Blocks => cmd(33, self.end),
                EraseUnit::Groups => erase_group_end(self.end),
            },
            _ => erase(),
        };
        Action::Command { command, check_crc: true, data: false }
    }

    fn nth_unwraps(&self, i: usize) -> bool {
        false
    }
}

} // verus!
