//! The extension registers of an SD card.
//!
//! The General Information section (page 0 of function 0) starts with a header of 16
//! bytes. Behind it stands a chain of entries, each of which points to the next one
//! and to the register of one function.
use crate::block::{be_u16, be_u32, be_value, lemma_be_value_2, lemma_be_value_4, DataBlock};
use crate::bus::{
    fits, law_run_goes_on, law_run_in_parts, law_run_starts, run, take_block, trace, Action, Buffer,
    ControllerVersion, Error, Operation, Progress, Reply,
};
use crate::card::{ExtensionRegister, PowerExtensionRegister, RegisterAddress};
use crate::command::{cmd, set_block_length};
use crate::confirmed::{Confirmed, Stage};
use crate::sequence::{Script, Sequence};
use crate::transfer::{send, BLOCK_SIZE, WRITE_TIMEOUT};
use vstd::prelude::*;
use vstd::slice::slice_subrange;

verus! {

/// Used as the length of an Ext section in the General Information Memory Section.
/// While the length is variable, this is long enough to hold Register Set Address 1.
/// Only extension registers with one register set are supported, so it is long
/// enough for all needs.
pub const EXT_REGISTER_LENGTH: usize = 48;

/// The argument of CMD48 and CMD49: function number from bit 27 up, page from bit 18
/// up, offset from bit 9 up, and the length of a block less one.
pub open spec fn ext_reg_argument(fno: u8, page: u8, offset: u16) -> u32 {
    (fno as u32) << 27u32 | (page as u32) << 18u32 | (offset as u32) << 9u32 | 511
}

/// Build the argument for CMD48/49 (Read/Write Ext Register)
pub fn make_ext_reg_argument(fno: u8, page: u8, offset: u16) -> (r: u32)
    ensures
        r == ext_reg_argument(fno, page, offset),
{
    // Argument Structure:
    // [31] = 0 (MIO Memory)
    // [30:27] = FNO (Function Number)
    // [26] = MW - mask write mode
    // [25:18] = page
    // [17:9] = offset address
    // [8:0] = length - 1 (0 is 1 byte)
    let length: u32 = BLOCK_SIZE - 1;
    (fno as u32) << 27u32 | (page as u32) << 18u32 | (offset as u32) << 9u32 | length
}

/// A function number of four bits and an offset of nine bits keep to their fields: the
/// argument is the sum of its parts, with the memory and mask bits clear.
pub proof fn law_argument_fields(fno: u8, page: u8, offset: u16)
    requires
        fno < 0x10,
        offset < 0x200,
    ensures
        ext_reg_argument(fno, page, offset) == fno * 0x800_0000 + page * 0x4_0000 + offset * 0x200
            + 511,
{
    assert((fno as u32) << 27u32 | (page as u32) << 18u32 | (offset as u32) << 9u32 | 511 == fno
        * 0x800_0000 + page * 0x4_0000 + offset * 0x200 + 511) by (bit_vector)
        requires
            fno < 0x10,
            offset < 0x200,
    ;
}

/// The register that an entry names is asked for by bits 21 to 18 and 16 to 0 of its
/// address, as they stand in the entry.
pub proof fn law_address_goes_into_argument(address: nat)
    requires
        address <= u32::MAX,
    ensures
        ({
            let at = register_address(address);
            &&& at.fno < 0x10
            &&& at.offset < 0x200
            &&& ext_reg_argument(at.fno, at.page, at.offset) == (((address / 0x4_0000) % 0x10)
                * 0x4_0000 + address % 0x2_0000) * 0x200 + 511
        }),
{
    let at = register_address(address);
    let word = address as u32;
    assert(word % 0x2_0000 == ((word / 0x200) % 0x100) * 0x200 + word % 0x200) by (bit_vector);
    law_argument_fields(at.fno, at.page, at.offset);
}

/// Reads a block from an extension register.
#[derive(Debug, PartialEq, Eq)]
pub struct ReadExtReg {
    /// The argument of the command
    pub argument: u32,
}

impl Script for ReadExtReg {
    open spec fn actions(self) -> Seq<Action> {
        seq![
            Action::PrepareRead { buffer: Buffer::Block, block_size: 512 },
            send(48, self.argument, true, true),
            Action::CompleteRead { buffer: Buffer::Block, single: true },
        ]
    }

    open spec fn unwraps(self, i: int) -> bool {
        false
    }

    proof fn lemma_not_empty(self) {
    }

    fn count(&self) -> usize {
        3
    }

    fn nth(&self, i: usize) -> Action {
        match i {
            0 => Action::PrepareRead { buffer: Buffer::Block, block_size: BLOCK_SIZE },
            1 => Action::Command { command: cmd(48, self.argument), check_crc: true, data: true },
            _ => Action::CompleteRead { buffer: Buffer::Block, single: true },
        }
    }

    fn nth_unwraps(&self, i: usize) -> bool {
        false
    }
}

/// Starts to read the block at `offset` of a page of a function.
pub fn read_ext_reg(fno: u8, page: u8, offset: u16) -> (r: Sequence<ReadExtReg>)
    ensures
        r.wf(),
        r == read_at(fno, page, offset),
{
    Sequence::new(ReadExtReg { argument: make_ext_reg_argument(fno, page, offset) })
}

/// The start of a read of the block at `offset` of a page of a function.
pub open spec fn read_at(fno: u8, page: u8, offset: u16) -> Sequence<ReadExtReg> {
    Sequence { script: ReadExtReg { argument: ext_reg_argument(fno, page, offset) }, next: 0 }
}

/// Writes a block to an extension register.
#[derive(Debug, PartialEq, Eq)]
pub struct WriteExtReg {
    /// The argument of the command
    pub argument: u32,
    /// What is written
    pub buffer: DataBlock,
    /// The controller's generation
    pub version: ControllerVersion,
}

impl Script for WriteExtReg {
    open spec fn actions(self) -> Seq<Action> {
        let arm = Action::PrepareWriteBlock(self.buffer);
        let command = send(49, self.argument, true, false);
        match self.version {
            ControllerVersion::V1 => seq![
                send(16, 512, true, false),
                command,
                arm,
                Action::CompleteWrite { single: true },
            ],
            ControllerVersion::V2 => seq![
                send(16, 512, true, false),
                arm,
                command,
                Action::CompleteWrite { single: true },
            ],
        }
    }

    open spec fn unwraps(self, i: int) -> bool {
        false
    }

    proof fn lemma_not_empty(self) {
    }

    fn count(&self) -> usize {
        4
    }

    fn nth(&self, i: usize) -> Action {
        let armed_first: bool = matches!(self.version, ControllerVersion::V2);
        if i == 0 {
            Action::Command {
                command: set_block_length(BLOCK_SIZE),
                check_crc: true,
                data: false,
            }
        } else if i == 3 {
            Action::CompleteWrite { single: true }
        } else if (i == 1) == armed_first {
            Action::PrepareWriteBlock(self.buffer.clone())
        } else {
            Action::Command { command: cmd(49, self.argument), check_crc: true, data: false }
        }
    }

    fn nth_unwraps(&self, i: usize) -> bool {
        false
    }
}

/// Starts to write `buffer` to an extension register of the card at `address`.
pub fn write_ext_reg(
    fno: u8,
    page: u8,
    offset: u16,
    buffer: DataBlock,
    address: u16,
    version: ControllerVersion,
) -> (r: Confirmed<WriteExtReg>)
    ensures
        r.wf(),
        r == write_at(fno, page, offset, buffer, address, version),
{
    let argument: u32 = make_ext_reg_argument(fno, page, offset);
    Confirmed::new(WriteExtReg { argument, buffer, version }, address, Some(WRITE_TIMEOUT))
}

/// The start of a write to an extension register.
pub open spec fn write_at(
    fno: u8,
    page: u8,
    offset: u16,
    buffer: DataBlock,
    address: u16,
    version: ControllerVersion,
) -> Confirmed<WriteExtReg> {
    Confirmed {
        address,
        timeout: Some(WRITE_TIMEOUT),
        stage: Stage::Script(
            Sequence {
                script: WriteExtReg {
                    argument: ext_reg_argument(fno, page, offset),
                    buffer,
                    version,
                },
                next: 0,
            },
        ),
    }
}

/// The place that a register set address names: an offset of nine bits, a page of eight
/// and a function number of four.
pub open spec fn register_address(address: nat) -> RegisterAddress {
    RegisterAddress {
        fno: ((address / 0x4_0000) % 0x10) as u8,
        page: ((address / 0x200) % 0x100) as u8,
        offset: (address % 0x200) as u16,
    }
}

/// Where the entry after `entry` starts.
pub open spec fn next_entry(entry: Seq<u8>) -> nat {
    be_value(entry.subrange(40, 42))
}

/// The register that has to be read to know the function of `entry`, if that is power
/// management with one register set.
pub open spec fn power_register(entry: Seq<u8>) -> Option<RegisterAddress> {
    if entry[42] == 1 && be_value(entry.subrange(0, 2)) % 2 == 1 {
        Some(register_address(be_value(entry.subrange(44, 48))))
    } else {
        None
    }
}

/// Reads an entry of the General Information section: where the next one starts, and
/// the register of a function that is supported.
pub fn parse_ext_reg(register_set: &[u8]) -> (r: (usize, Option<RegisterAddress>))
    requires
        register_set@.len() >= EXT_REGISTER_LENGTH,
        register_set@[42] == 1 ==> register_set@.len() == EXT_REGISTER_LENGTH,
    ensures
        r.0 == next_entry(register_set@),
        r.1 == power_register(register_set@),
{
    let sfc: u16 = be_u16(register_set[0], register_set[1]);
    let next_extension_address: u16 = be_u16(register_set[40], register_set[41]);
    let number_of_registers: u8 = register_set[42];
    assert(register_set@.subrange(0, 2) =~= seq![register_set@[0], register_set@[1]]);
    assert(register_set@.subrange(40, 42) =~= seq![register_set@[40], register_set@[41]]);
    assert(register_set@.subrange(44, 48) =~= seq![
        register_set@[44],
        register_set@[45],
        register_set@[46],
        register_set@[47],
    ]);
    if number_of_registers != 1 {
        return (next_extension_address as usize, None);
    }
    let address: u32 = be_u32(
        register_set[44],
        register_set[45],
        register_set[46],
        register_set[47],
    );
    let offset: u16 = (address & 0x1FF) as u16;
    let page: u8 = ((address >> 9u32) & 0xFF) as u8;
    let fno: u8 = ((address >> 18u32) & 0xF) as u8;
    assert((address & 0x1FF) as u16 == address % 0x200 && ((address >> 9u32) & 0xFF) as u8 == (
    address / 0x200) % 0x100 && ((address >> 18u32) & 0xF) as u8 == (address / 0x4_0000) % 0x10)
        by (bit_vector);
    assert((sfc & 1 != 0) == (sfc % 2 == 1)) by (bit_vector);
    if sfc & 0x1 != 0 {
        (next_extension_address as usize, Some(RegisterAddress { fno, page, offset }))
    } else {
        (next_extension_address as usize, None)
    }
}

/// What the power management register at `at` says, given its first bytes.
pub open spec fn power_management(at: RegisterAddress, data: DataBlock) -> ExtensionRegister {
    ExtensionRegister::PowerManagement(
        PowerExtensionRegister::of(data.bytes()[1] & 0x10 != 0, at),
    )
}

/// What is known of power management once `register` has been seen.
pub open spec fn record(
    known: Option<PowerExtensionRegister>,
    register: ExtensionRegister,
) -> Option<PowerExtensionRegister> {
    match register {
        ExtensionRegister::PowerManagement(power_ext) => Some(power_ext),
        ExtensionRegister::Unsupported => known,
    }
}

/// How far the search for extension registers has come.
#[derive(Debug, PartialEq, Eq)]
pub enum ExtStage {
    /// The General Information section is being read
    Information(Sequence<ReadExtReg>),
    /// The entry at `offset` of the section comes next
    Entry { section: DataBlock, offset: usize },
    /// The register of a function is being read; the next entry is at `next`
    Function {
        section: DataBlock,
        next: usize,
        at: RegisterAddress,
        read: Sequence<ReadExtReg>,
    },
}

/// Read the General Information for Memory section. This section contains pointers to
/// additional extension registers with function-specific information.
#[derive(Debug, PartialEq, Eq)]
pub struct ReadExtRegisters {
    /// What is known of power management
    pub power_ext: Option<PowerExtensionRegister>,
    /// How far the search has come
    pub stage: ExtStage,
}

/// Goes on with the entry at `offset`, if a whole entry fits in there.
pub open spec fn visit(
    section: DataBlock,
    offset: int,
    power_ext: Option<PowerExtensionRegister>,
) -> Progress<ReadExtRegisters, Option<PowerExtensionRegister>> {
    if offset <= 464 {
        Progress::Pending(
            ReadExtRegisters {
                power_ext,
                stage: ExtStage::Entry { section, offset: offset as usize },
            },
        )
    } else {
        Progress::Finished(Ok(power_ext))
    }
}

impl ReadExtRegisters {
    fn go_on(section: DataBlock, offset: usize, power_ext: Option<PowerExtensionRegister>) -> (r:
        Progress<Self, Option<PowerExtensionRegister>>)
        ensures
            r == visit(section, offset as int, power_ext),
    {
        if offset <= 512 - EXT_REGISTER_LENGTH {
            Progress::Pending(
                ReadExtRegisters { power_ext, stage: ExtStage::Entry { section, offset } },
            )
        } else {
            Progress::Finished(Ok(power_ext))
        }
    }
}

/// Starts to look for extension registers; `power_ext` is what is known already.
pub fn read_ext_registers(power_ext: Option<PowerExtensionRegister>) -> (r: ReadExtRegisters)
    ensures
        r.wf(),
        r == (ReadExtRegisters { power_ext, stage: ExtStage::Information(read_at(0, 0, 0)) }),
{
    ReadExtRegisters { power_ext, stage: ExtStage::Information(read_ext_reg(0, 0, 0)) }
}

impl Operation for ReadExtRegisters {
    type Output = Option<PowerExtensionRegister>;

    open spec fn wf(self) -> bool {
        match self.stage {
            ExtStage::Information(read) => read.wf(),
            ExtStage::Entry { section, offset } => offset <= 464,
            ExtStage::Function { section, next, at, read } => read.wf() && at.fno < 0x10
                && at.offset < 0x200,
        }
    }

    open spec fn pending(self) -> Action {
        match self.stage {
            ExtStage::Information(read) => read.pending(),
            ExtStage::Entry { .. } => Action::Proceed,
            ExtStage::Function { section, next, at, read } => read.pending(),
        }
    }

    open spec fn tolerates(self, error: Error) -> bool {
        false
    }

    open spec fn demands_success(self) -> bool {
        false
    }

    open spec fn after(self, reply: Reply) -> Progress<Self, Option<PowerExtensionRegister>> {
        match self.stage {
            ExtStage::Information(read) => match read.after(reply) {
                Progress::Pending(next) => Progress::Pending(
                    ReadExtRegisters {
                        power_ext: self.power_ext,
                        stage: ExtStage::Information(next),
                    },
                ),
                Progress::Finished(Err(e)) => Progress::Finished(Err(e)),
                // The first 16 bytes of the General Information is header.
                Progress::Finished(Ok(data)) => visit(data->BlockData_0, 16, self.power_ext),
            },
            ExtStage::Entry { section, offset } => {
                let entry = section.bytes().subrange(offset as int, offset + 48);
                match power_register(entry) {
                    Some(at) => Progress::Pending(
                        ReadExtRegisters {
                            power_ext: self.power_ext,
                            stage: ExtStage::Function {
                                section,
                                next: next_entry(entry) as usize,
                                at,
                                read: read_at(at.fno, at.page, at.offset),
                            },
                        },
                    ),
                    None => visit(
                        section,
                        next_entry(entry) as int,
                        record(self.power_ext, ExtensionRegister::Unsupported),
                    ),
                }
            },
            ExtStage::Function { section, next, at, read } => match read.after(reply) {
                Progress::Pending(read) => Progress::Pending(
                    ReadExtRegisters {
                        power_ext: self.power_ext,
                        stage: ExtStage::Function { section, next, at, read },
                    },
                ),
                Progress::Finished(Err(e)) => Progress::Finished(Err(e)),
                Progress::Finished(Ok(data)) => visit(
                    section,
                    next as int,
                    record(self.power_ext, power_management(at, data->BlockData_0)),
                ),
            },
        }
    }

    proof fn lemma_after(self, reply: Reply) {
        match self.stage {
            ExtStage::Information(read) => read.lemma_after(reply),
            ExtStage::Entry { .. } => {},
            ExtStage::Function { section, next, at, read } => read.lemma_after(reply),
        }
    }

    fn action(&self) -> Action {
        match &self.stage {
            ExtStage::Information(read) => read.action(),
            ExtStage::Entry { .. } => Action::Proceed,
            ExtStage::Function { read, .. } => read.action(),
        }
    }

    fn needs_success(&self) -> bool {
        false
    }

    fn advance(self, reply: Reply) -> Progress<Self, Option<PowerExtensionRegister>> {
        let power_ext: Option<PowerExtensionRegister> = self.power_ext;
        match self.stage {
            ExtStage::Information(read) => match read.advance(reply) {
                Progress::Pending(next) => Progress::Pending(
                    ReadExtRegisters { power_ext, stage: ExtStage::Information(next) },
                ),
                Progress::Finished(Err(e)) => Progress::Finished(Err(e)),
                Progress::Finished(Ok(data)) => Self::go_on(take_block(data), 16, power_ext),
            },
            ExtStage::Entry { section, offset } => {
                let bytes = section.to_bytes();
                let register = slice_subrange(
                    bytes.as_slice(),
                    offset,
                    offset + EXT_REGISTER_LENGTH,
                );
                let (next, function) = parse_ext_reg(register);
                match function {
                    Some(at) => {
                        let read = read_ext_reg(at.fno, at.page, at.offset);
                        Progress::Pending(
                            ReadExtRegisters {
                                power_ext,
                                stage: ExtStage::Function { section, next, at, read },
                            },
                        )
                    },
                    None => Self::go_on(section, next, power_ext),
                }
            },
            ExtStage::Function { section, next, at, read } => match read.advance(reply) {
                Progress::Pending(read) => Progress::Pending(
                    ReadExtRegisters {
                        power_ext,
                        stage: ExtStage::Function { section, next, at, read },
                    },
                ),
                Progress::Finished(Err(e)) => Progress::Finished(Err(e)),
                Progress::Finished(Ok(data)) => {
                    let supports: bool = take_block(data).byte(1) & 0x10 != 0;
                    let register = ExtensionRegister::PowerManagement(
                        PowerExtensionRegister::new(supports, at),
                    );
                    let found: Option<PowerExtensionRegister> = match register {
                        ExtensionRegister::PowerManagement(power_ext) => Some(power_ext),
                        ExtensionRegister::Unsupported => power_ext,
                    };
                    Self::go_on(section, next, found)
                },
            },
        }
    }
}

/// An entry that is not power management with one register set is passed over in one
/// step, without anything being asked of the card; what is known stays.
pub proof fn law_other_entries_are_skipped(op: ReadExtRegisters, reply: Reply)
    requires
        op.wf(),
        op.stage matches ExtStage::Entry { section, offset } && power_register(
            section.bytes().subrange(offset as int, offset + 48),
        ) is None,
        fits(op.pending(), reply),
    ensures
        op.pending() == Action::Proceed,
        op.stage matches ExtStage::Entry { section, offset } && op.after(reply) == visit(
            section,
            next_entry(section.bytes().subrange(offset as int, offset + 48)) as int,
            op.power_ext,
        ),
{
}

/// A chain of entries that are all passed over ends the search as soon as an entry
/// points past the section, with what was known before.
///
/// `path` holds where the entries start; its last place is past the section.
pub proof fn law_chain_ends(op: ReadExtRegisters, section: DataBlock, path: Seq<int>)
    requires
        path.len() > 1,
        op.stage == (ExtStage::Entry { section, offset: path[0] as usize }),
        forall|i: int| 0 <= i < path.len() - 1 ==> 0 <= #[trigger] path[i] <= 464,
        path.last() > 464,
        forall|i: int|
            0 <= i < path.len() - 1 ==> power_register(
                section.bytes().subrange(#[trigger] path[i], path[i] + 48),
            ) is None,
        forall|i: int, j: int|
            0 <= i < path.len() - 1 && j == i + 1 ==> #[trigger] path[j] == next_entry(
                section.bytes().subrange(#[trigger] path[i], path[i] + 48),
            ),
    ensures
        run(op, Seq::new((path.len() - 1) as nat, |i: int| Reply::Done)) == Progress::<
            ReadExtRegisters,
            Option<PowerExtensionRegister>,
        >::Finished(Ok(op.power_ext)),
    decreases path.len(),
{
    reveal(run);
    let replies = Seq::new((path.len() - 1) as nat, |i: int| Reply::Done);
    let rest = path.drop_first();
    assert(0 <= path[0] <= 464);
    assert(path[1] == next_entry(section.bytes().subrange(path[0], path[0] + 48)));
    if path.len() == 2 {
        assert(path[1] == path.last());
    } else {
        assert(0 <= path[1] <= 464);
        let next = op.after(Reply::Done)->Pending_0;
        assert forall|i: int| 0 <= i < rest.len() - 1 implies 0 <= #[trigger] rest[i] <= 464 by {
            assert(rest[i] == path[i + 1]);
        }
        assert forall|i: int| 0 <= i < rest.len() - 1 implies power_register(
            section.bytes().subrange(#[trigger] rest[i], rest[i] + 48),
        ) is None by {
            assert(rest[i] == path[i + 1]);
        }
        assert forall|i: int, j: int| 0 <= i < rest.len() - 1 && j == i + 1 implies #[trigger] rest[j]
            == next_entry(section.bytes().subrange(#[trigger] rest[i], rest[i] + 48)) by {
            assert(rest[i] == path[i + 1]);
            assert(rest[j] == path[i + 2]);
        }
        law_chain_ends(next, section, rest);
        assert(replies.drop_first() =~= Seq::new((rest.len() - 1) as nat, |i: int| Reply::Done));
    }
    assert(replies[0] == Reply::Done);
}

/// A power management entry is followed to its register, which is read with CMD48; what
/// that says replaces what was known, and the search goes on with the next entry.
pub proof fn law_power_entry_is_recorded(
    op: ReadExtRegisters,
    section: DataBlock,
    offset: usize,
    replies: Seq<Reply>,
)
    requires
        op.wf(),
        op.stage == (ExtStage::Entry { section, offset }),
        power_register(section.bytes().subrange(offset as int, offset + 48)) is Some,
        replies.len() == 4,
        replies[0] is Done,
        replies[1] is Done,
        replies[2] is Word,
        replies[3] is BlockData,
    ensures
        ({
            let entry = section.bytes().subrange(offset as int, offset + 48);
            let at = power_register(entry)->Some_0;
            let supports = (replies[3]->BlockData_0).bytes()[1] & 0x10 != 0;
            &&& run(op, replies) == visit(
                section,
                next_entry(entry) as int,
                Some(PowerExtensionRegister::of(supports, at)),
            )
            &&& trace(op, replies) == seq![
                Action::Proceed,
                Action::PrepareRead { buffer: Buffer::Block, block_size: 512 },
                send(48, ext_reg_argument(at.fno, at.page, at.offset), true, true),
                Action::CompleteRead { buffer: Buffer::Block, single: true },
            ]
        }),
{
    let entry = section.bytes().subrange(offset as int, offset + 48);
    let at = power_register(entry)->Some_0;
    lemma_be_value_2(entry.subrange(40, 42));
    law_run_starts(op, replies);
    law_run_goes_on(op, replies, 0, op);
    law_run_goes_on(op, replies, 1, op.after(replies[0])->Pending_0);
    law_run_goes_on(op, replies, 2, run(op, replies.take(2))->Pending_0);
    law_run_goes_on(op, replies, 3, run(op, replies.take(3))->Pending_0);
    assert(replies.take(4) =~= replies);
    assert(trace(op, replies) =~= seq![
        Action::Proceed,
        Action::PrepareRead { buffer: Buffer::Block, block_size: 512 },
        send(48, ext_reg_argument(at.fno, at.page, at.offset), true, true),
        Action::CompleteRead { buffer: Buffer::Block, single: true },
    ]);
}

/// The entry at `offset` of the General Information section.
pub open spec fn entry_at(section: DataBlock, offset: int) -> Seq<u8> {
    section.bytes().subrange(offset, offset + 48)
}

/// The replies that take the search over an entry: one for an entry that is passed over, and
/// three more for the register of a power management entry.
pub open spec fn answers_entry(entry: Seq<u8>, replies: Seq<Reply>) -> bool {
    match power_register(entry) {
        Some(_) => {
            &&& replies.len() == 4
            &&& replies[0] is Done
            &&& replies[1] is Done
            &&& replies[2] is Word
            &&& replies[3] is BlockData
        },
        None => replies.len() == 1 && replies[0] is Done,
    }
}

/// What is asked for an entry.
pub open spec fn entry_actions(entry: Seq<u8>) -> Seq<Action> {
    match power_register(entry) {
        Some(at) => seq![
            Action::Proceed,
            Action::PrepareRead { buffer: Buffer::Block, block_size: 512 },
            send(48, ext_reg_argument(at.fno, at.page, at.offset), true, true),
            Action::CompleteRead { buffer: Buffer::Block, single: true },
        ],
        None => seq![Action::Proceed],
    }
}

/// A chain of whole entries in a section: `path` holds where they start, each where the one
/// before it points to, and then the place past the section that the last one points to.
/// `answers` holds the replies for each entry.
pub open spec fn is_chain(
    section: DataBlock,
    path: Seq<int>,
    answers: Seq<Seq<Reply>>,
) -> bool {
    &&& path.len() == answers.len() + 1
    &&& path.last() > 464
    &&& forall|i: int|
        0 <= i < answers.len() ==> {
            &&& 0 <= #[trigger] path[i] <= 464
            &&& path[i + 1] == next_entry(entry_at(section, path[i]))
            &&& answers_entry(entry_at(section, path[i]), answers[i])
        }
}

/// What the first `n` entries of a chain leave known: what the last power management entry
/// among them says, or if there is none, what was known before.
pub open spec fn found_in_chain(
    section: DataBlock,
    path: Seq<int>,
    answers: Seq<Seq<Reply>>,
    known: Option<PowerExtensionRegister>,
    n: nat,
) -> Option<PowerExtensionRegister>
    decreases n,
{
    if n == 0 {
        known
    } else {
        match power_register(entry_at(section, path[n - 1])) {
            Some(at) => Some(
                PowerExtensionRegister::of(
                    (answers[n - 1][3]->BlockData_0).bytes()[1] & 0x10 != 0,
                    at,
                ),
            ),
            None => found_in_chain(section, path, answers, known, (n - 1) as nat),
        }
    }
}

/// What a chain leaves known is what its rest leaves known after its first entry.
proof fn lemma_found_in_rest(
    section: DataBlock,
    path: Seq<int>,
    answers: Seq<Seq<Reply>>,
    known: Option<PowerExtensionRegister>,
    n: nat,
)
    requires
        path.len() == answers.len() + 1,
        1 <= n <= answers.len(),
    ensures
        found_in_chain(section, path, answers, known, n) == found_in_chain(
            section,
            path.drop_first(),
            answers.drop_first(),
            found_in_chain(section, path, answers, known, 1),
            (n - 1) as nat,
        ),
    decreases n,
{
    if n > 1 {
        lemma_found_in_rest(section, path, answers, known, (n - 1) as nat);
        assert(path.drop_first()[n - 2] == path[n - 1]);
        assert(answers.drop_first()[n - 2] == answers[n - 1]);
    }
}

/// One entry of a chain takes the search to the next one.
proof fn lemma_entry_is_visited(
    op: ReadExtRegisters,
    section: DataBlock,
    offset: int,
    replies: Seq<Reply>,
)
    requires
        op.stage == (ExtStage::Entry { section, offset: offset as usize }),
        0 <= offset <= 464,
        answers_entry(entry_at(section, offset), replies),
    ensures
        run(op, replies) == visit(
            section,
            next_entry(entry_at(section, offset)) as int,
            found_in_chain(section, seq![offset], seq![replies], op.power_ext, 1),
        ),
        trace(op, replies) == entry_actions(entry_at(section, offset)),
{
    reveal_with_fuel(found_in_chain, 2);
    match power_register(entry_at(section, offset)) {
        Some(_) => law_power_entry_is_recorded(op, section, offset as usize, replies),
        None => {
            law_run_starts(op, replies);
            law_run_goes_on(op, replies, 0, op);
            assert(replies.take(1) =~= replies);
            assert(trace(op, replies) =~= seq![Action::Proceed]);
        },
    }
}

/// The walk over a whole chain: every entry is visited in turn, the register of each power
/// management entry is read, and the search ends with what the last of these says, or with
/// what was known before if there is none.
pub proof fn law_whole_chain_is_walked(
    op: ReadExtRegisters,
    section: DataBlock,
    path: Seq<int>,
    answers: Seq<Seq<Reply>>,
)
    requires
        is_chain(section, path, answers),
        answers.len() > 0,
        op.stage == (ExtStage::Entry { section, offset: path[0] as usize }),
    ensures
        run(op, answers.flatten()) == Progress::<
            ReadExtRegisters,
            Option<PowerExtensionRegister>,
        >::Finished(Ok(found_in_chain(section, path, answers, op.power_ext, answers.len()))),
        trace(op, answers.flatten()) == Seq::new(
            answers.len(),
            |i: int| entry_actions(entry_at(section, path[i])),
        ).flatten(),
    decreases answers.len(),
{
    let entries = Seq::new(
        answers.len(),
        |i: int| entry_actions(entry_at(section, path[i])),
    );
    let rest_path = path.drop_first();
    let rest = answers.drop_first();
    let known = found_in_chain(section, path, answers, op.power_ext, 1);
    assert(0 <= path[0] <= 464);
    assert(path[1] == next_entry(entry_at(section, path[0])));
    lemma_entry_is_visited(op, section, path[0], answers[0]);
    reveal_with_fuel(found_in_chain, 2);
    assert(known == found_in_chain(section, seq![path[0]], seq![answers[0]], op.power_ext, 1));
    lemma_found_in_rest(section, path, answers, op.power_ext, answers.len());
    law_run_in_parts(op, answers[0], rest.flatten());
    if answers.len() == 1 {
        assert(path.last() == path[1]);
        entries.lemma_flatten_one_element();
    } else {
        assert(rest_path[0] == path[1]);
        assert(0 <= path[1] <= 464);
        assert(is_chain(section, rest_path, rest)) by {
            assert forall|i: int| 0 <= i < rest.len() implies {
                &&& 0 <= #[trigger] rest_path[i] <= 464
                &&& rest_path[i + 1] == next_entry(entry_at(section, rest_path[i]))
                &&& answers_entry(entry_at(section, rest_path[i]), rest[i])
            } by {
                assert(rest_path[i] == path[i + 1]);
                assert(rest_path[i + 1] == path[i + 2]);
            }
        }
        let next = run(op, answers[0])->Pending_0;
        law_whole_chain_is_walked(next, section, rest_path, rest);
        assert(entries.drop_first() =~= Seq::new(
            rest.len(),
            |i: int| entry_actions(entry_at(section, rest_path[i])),
        ));
    }
}

/// The whole search: the General Information section is read from page 0 of function 0, its
/// chain is walked from behind the header, and the power management function is known
/// afterwards if the chain has an entry for it.
pub proof fn law_extensions_are_found(
    op: ReadExtRegisters,
    section: DataBlock,
    status: u32,
    path: Seq<int>,
    answers: Seq<Seq<Reply>>,
)
    requires
        op.stage == ExtStage::Information(read_at(0, 0, 0)),
        is_chain(section, path, answers),
        path[0] == 16,
    ensures
        run(
            op,
            seq![Reply::Done, Reply::Word(status), Reply::BlockData(section)] + answers.flatten(),
        ) == Progress::<ReadExtRegisters, Option<PowerExtensionRegister>>::Finished(
            Ok(found_in_chain(section, path, answers, op.power_ext, answers.len())),
        ),
        trace(
            op,
            seq![Reply::Done, Reply::Word(status), Reply::BlockData(section)] + answers.flatten(),
        ) == seq![
            Action::PrepareRead { buffer: Buffer::Block, block_size: 512 },
            send(48, ext_reg_argument(0, 0, 0), true, true),
            Action::CompleteRead { buffer: Buffer::Block, single: true },
        ] + Seq::new(
            answers.len(),
            |i: int| entry_actions(entry_at(section, path[i])),
        ).flatten(),
{
    let first = seq![Reply::Done, Reply::Word(status), Reply::BlockData(section)];
    let read = read_at(0, 0, 0);
    let s1 = ReadExtRegisters {
        stage: ExtStage::Information(Sequence { next: 1, ..read }),
        ..op
    };
    let s2 = ReadExtRegisters {
        stage: ExtStage::Information(Sequence { next: 2, ..read }),
        ..op
    };
    let s3 = ReadExtRegisters { stage: ExtStage::Entry { section, offset: 16 }, ..op };
    law_run_starts(op, first);
    law_run_goes_on(op, first, 0, op);
    law_run_goes_on(op, first, 1, s1);
    law_run_goes_on(op, first, 2, s2);
    assert(first.take(3) =~= first);
    assert(trace(op, first) =~= seq![
        Action::PrepareRead { buffer: Buffer::Block, block_size: 512 },
        send(48, ext_reg_argument(0, 0, 0), true, true),
        Action::CompleteRead { buffer: Buffer::Block, single: true },
    ]);
    assert(answers.len() > 0);
    law_whole_chain_is_walked(s3, section, path, answers);
    law_run_in_parts(op, first, answers.flatten());
}

/// Whether the entry at `offset`, and every entry that it leads to, points to a place behind
/// itself.
pub open spec fn points_forward(section: DataBlock, offset: int) -> bool
    decreases
        (if offset > 464 {
            0
        } else {
            465 - offset
        }),
{
    let next = next_entry(entry_at(section, offset)) as int;
    if offset > 464 {
        true
    } else if next > offset {
        points_forward(section, next)
    } else {
        false
    }
}

/// Where the entries start that the one at `offset` leads to, as far as they point forward.
/// The last place is past the section if all of them do.
pub open spec fn path_from(section: DataBlock, offset: int) -> Seq<int>
    decreases
        (if offset > 464 {
            0
        } else {
            465 - offset
        }),
{
    let next = next_entry(entry_at(section, offset)) as int;
    if offset <= 464 && next > offset {
        seq![offset] + path_from(section, next)
    } else {
        seq![offset]
    }
}

/// Entries that point forward make up a chain of no more entries than there are places for
/// one.
proof fn lemma_forward_path(section: DataBlock, offset: int)
    requires
        0 <= offset,
        points_forward(section, offset),
    ensures
        ({
            let path = path_from(section, offset);
            &&& path.len() >= 1
            &&& path[0] == offset
            &&& path.last() > 464
            &&& forall|i: int|
                0 <= i < path.len() - 1 ==> 0 <= #[trigger] path[i] <= 464 && path[i + 1]
                    == next_entry(entry_at(section, path[i]))
            &&& offset <= 464 ==> path.len() - 1 <= 465 - offset
            &&& offset <= 464 && !path.contains(464) ==> path.len() - 1 <= 464 - offset
            &&& offset > 464 ==> path.len() == 1
        }),
    decreases
        (if offset > 464 {
            0
        } else {
            465 - offset
        }),
{
    let path = path_from(section, offset);
    if offset <= 464 {
        let next = next_entry(entry_at(section, offset)) as int;
        let rest = path_from(section, next);
        lemma_forward_path(section, next);
        assert(path =~= seq![offset] + rest);
        assert forall|i: int| 0 <= i < path.len() - 1 implies 0 <= #[trigger] path[i] <= 464
            && path[i + 1] == next_entry(entry_at(section, path[i])) by {
            if i > 0 {
                assert(path[i] == rest[i - 1]);
                assert(path[i + 1] == rest[i]);
            }
        }
        assert(path.last() == rest.last());
        if !path.contains(464) {
            assert(path[0] != 464);
            assert forall|i: int| 0 <= i < rest.len() implies rest[i] != 464 by {
                assert(path[i + 1] == rest[i]);
            }
        }
    }
}

/// The search ends for every chain that points forward: from the header on it visits at most
/// 449 entries, and at most 448 if none of them is at the very end of the section, and then
/// it succeeds.
pub proof fn law_forward_search_ends(
    op: ReadExtRegisters,
    section: DataBlock,
    status: u32,
    answers: Seq<Seq<Reply>>,
)
    requires
        op.stage == ExtStage::Information(read_at(0, 0, 0)),
        points_forward(section, 16),
        answers.len() == path_from(section, 16).len() - 1,
        forall|i: int|
            0 <= i < answers.len() ==> answers_entry(
                entry_at(section, path_from(section, 16)[i]),
                #[trigger] answers[i],
            ),
    ensures
        answers.len() <= 449,
        !path_from(section, 16).contains(464) ==> answers.len() <= 448,
        run(
            op,
            seq![Reply::Done, Reply::Word(status), Reply::BlockData(section)] + answers.flatten(),
        ) == Progress::<ReadExtRegisters, Option<PowerExtensionRegister>>::Finished(
            Ok(
                found_in_chain(
                    section,
                    path_from(section, 16),
                    answers,
                    op.power_ext,
                    answers.len(),
                ),
            ),
        ),
{
    let path = path_from(section, 16);
    lemma_forward_path(section, 16);
    assert forall|i: int| 0 <= i < answers.len() implies {
        &&& 0 <= #[trigger] path[i] <= 464
        &&& path[i + 1] == next_entry(entry_at(section, path[i]))
        &&& answers_entry(entry_at(section, path[i]), answers[i])
    } by {
        assert(answers_entry(entry_at(section, path[i]), answers[i]));
    }
    law_extensions_are_found(op, section, status, path, answers);
}

/// The argument of CMD48 and CMD49 for every function, page and offset: five bits of the
/// function number on top, a clear bit, page and offset in the 17 bits below, and 511.
pub proof fn law_argument_bits(fno: u8, page: u8, offset: u16)
    ensures
        ext_reg_argument(fno, page, offset) / 0x800_0000 == fno % 0x20,
        (ext_reg_argument(fno, page, offset) / 0x400_0000) % 2 == 0,
        (ext_reg_argument(fno, page, offset) / 0x200) % 0x2_0000 == ((page as u32) * 0x200) as u32
            | offset as u32,
        ext_reg_argument(fno, page, offset) % 0x200 == 511,
{
    let argument = ext_reg_argument(fno, page, offset);
    let high: u32 = ((page as u32) * 0x200) as u32;
    assert(argument / 0x800_0000 == fno % 0x20 && (argument / 0x400_0000) % 2 == 0 && (argument
        / 0x200) % 0x2_0000 == high | offset as u32 && argument % 0x200 == 511) by (bit_vector)
        requires
            argument == (fno as u32) << 27u32 | (page as u32) << 18u32 | (offset as u32) << 9u32
                | 511,
            high == (page as u32) * 0x200,
    ;
}

/// The fields of an entry, byte by byte: bytes 40 and 41 say where the next one starts. An entry
/// with one register set in byte 42 and the lowest bit of byte 1 set is power management, with
/// its function number, page and offset in bytes 45 to 47.
pub proof fn law_entry_fields(entry: Seq<u8>)
    requires
        entry.len() >= 48,
    ensures
        next_entry(entry) == entry[40] * 0x100 + entry[41],
        power_register(entry) is Some <==> entry[42] == 1 && entry[1] % 2 == 1,
        power_register(entry) matches Some(at) ==> {
            &&& at.offset == (entry[46] % 2) * 0x100 + entry[47]
            &&& at.page == (entry[45] % 2) * 0x80 + entry[46] / 2
            &&& at.fno == (entry[45] / 4) % 0x10
        },
{
    lemma_be_value_2(entry.subrange(40, 42));
    lemma_be_value_2(entry.subrange(0, 2));
    lemma_be_value_4(entry.subrange(44, 48));
    lemma_address_bytes(
        entry[44] as u32,
        entry[45] as u32,
        entry[46] as u32,
        entry[47] as u32,
        be_value(entry.subrange(44, 48)) as u32,
    );
}

proof fn lemma_address_bytes(b0: u32, b1: u32, b2: u32, b3: u32, address: u32)
    requires
        b0 < 0x100,
        b1 < 0x100,
        b2 < 0x100,
        b3 < 0x100,
        address == b0 * 0x100_0000 + b1 * 0x1_0000 + b2 * 0x100 + b3,
    ensures
        address % 0x200 == (b2 % 2) * 0x100 + b3,
        (address / 0x200) % 0x100 == (b1 % 2) * 0x80 + b2 / 2,
        (address / 0x4_0000) % 0x10 == (b1 / 4) % 0x10,
{
    assert(address % 0x200 == (b2 % 2) * 0x100 + b3 && (address / 0x200) % 0x100 == (b1 % 2) * 0x80
        + b2 / 2 && (address / 0x4_0000) % 0x10 == (b1 / 4) % 0x10) by (bit_vector)
        requires
            b0 < 0x100,
            b1 < 0x100,
            b2 < 0x100,
            b3 < 0x100,
            address == b0 * 0x100_0000 + b1 * 0x1_0000 + b2 * 0x100 + b3,
    ;
}

} // verus!
