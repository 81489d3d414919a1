//! The registers of an SD card that are read through the command block, and its
//! signalling modes.
use crate::block::{
    be_value, from_be, law_command_words_are_spelled_by_bytes, lemma_be_value_4, lemma_be_value_8,
    words_bytes, CmdBlock,
};
use crate::bus::{
    law_run_follows, law_run_goes_on, law_run_starts, run, take_cmd_block, trace, Action, Buffer,
    Error, Operation, Progress, Reply,
};
use crate::command::{app_cmd, cmd6, sd_status, send_scr, set_block_length};
use crate::sequence::{Script, Sequence};
use crate::transfer::send;
use vstd::prelude::*;

verus! {

/// The action that announces an application command.
pub open spec fn send_app(rca: u16) -> Action {
    send(55, (rca as u32) << 16u32, true, false)
}

/// Asks an SD card for its configuration register.
#[derive(Debug, PartialEq, Eq)]
pub struct ScrScript {
    /// The address of the card
    pub rca: u16,
}

impl Script for ScrScript {
    open spec fn actions(self) -> Seq<Action> {
        seq![
            send(16, 8, true, false),
            send_app(self.rca),
            Action::PrepareRead { buffer: Buffer::Command, block_size: 8 },
            send(51, 0, true, true),
            Action::CompleteRead { buffer: Buffer::Command, single: true },
        ]
    }

    open spec fn unwraps(self, i: int) -> bool {
        false
    }

    proof fn lemma_not_empty(self) {
    }

    fn count(&self) -> usize {
        5
    }

    fn nth(&self, i: usize) -> Action {
        match i {
            0 => Action::Command { command: set_block_length(8), check_crc: true, data: false },
            1 => Action::Command { command: app_cmd(self.rca), check_crc: true, data: false },
            2 => Action::PrepareRead { buffer: Buffer::Command, block_size: 8 },
            3 => Action::Command { command: send_scr(), check_crc: true, data: true },
            _ => Action::CompleteRead { buffer: Buffer::Command, single: true },
        }
    }

    fn nth_unwraps(&self, i: usize) -> bool {
        false
    }
}

/// Reads the SCR register.
///
/// SD only.
#[derive(Debug, PartialEq, Eq)]
pub struct GetScr {
    /// The transfer
    pub read: Sequence<ScrScript>,
}

/// Starts to read the configuration register of the card at `rca`.
pub fn get_scr(rca: u16) -> (r: GetScr)
    ensures
        r.wf(),
        r == scr_at(rca),
{
    GetScr { read: Sequence::new(ScrScript { rca }) }
}

/// The start of a read of the configuration register.
pub open spec fn scr_at(rca: u16) -> GetScr {
    GetScr { read: Sequence { script: ScrScript { rca }, next: 0 } }
}

/// The configuration register in the first eight bytes of a command block.
pub open spec fn scr_value(block: CmdBlock) -> u64 {
    be_value(block.bytes().subrange(0, 8)) as u64
}

/// Decodes the configuration register from the first eight bytes of a command block.
pub fn decode_scr(block: &CmdBlock) -> (r: u64)
    ensures
        r == scr_value(*block),
        r == be_value(block.bytes().subrange(0, 8)),
{
    let high: u32 = from_be(block.0[0]);
    let low: u32 = from_be(block.0[1]);
    proof {
        let bytes = block.bytes().subrange(0, 8);
        lemma_be_value_8(bytes);
        assert(bytes.subrange(0, 4) =~= words_bytes(seq![block.0@[0]]));
        assert(bytes.subrange(4, 8) =~= words_bytes(seq![block.0@[1]]));
    }
    high as u64 * 0x1_0000_0000 + low as u64
}

impl Operation for GetScr {
    type Output = u64;

    open spec fn wf(self) -> bool {
        self.read.wf()
    }

    open spec fn pending(self) -> Action {
        self.read.pending()
    }

    open spec fn tolerates(self, error: Error) -> bool {
        false
    }

    open spec fn demands_success(self) -> bool {
        false
    }

    open spec fn after(self, reply: Reply) -> Progress<Self, u64> {
        match self.read.after(reply) {
            Progress::Pending(read) => Progress::Pending(GetScr { read }),
            Progress::Finished(Err(e)) => Progress::Finished(Err(e)),
            Progress::Finished(Ok(data)) => Progress::Finished(Ok(scr_value(data->CmdData_0))),
        }
    }

    proof fn lemma_after(self, reply: Reply) {
        self.read.lemma_after(reply);
    }

    fn action(&self) -> Action {
        self.read.action()
    }

    fn needs_success(&self) -> bool {
        false
    }

    fn advance(self, reply: Reply) -> Progress<Self, u64> {
        match self.read.advance(reply) {
            Progress::Pending(read) => Progress::Pending(GetScr { read }),
            Progress::Finished(Err(e)) => Progress::Finished(Err(e)),
            Progress::Finished(Ok(data)) => Progress::Finished(
                Ok(decode_scr(&take_cmd_block(data))),
            ),
        }
    }
}

/// Asks an SD card for its SD status.
#[derive(Debug, PartialEq, Eq)]
pub struct StatusScript {
    /// The address of the card
    pub rca: u16,
}

impl Script for StatusScript {
    open spec fn actions(self) -> Seq<Action> {
        seq![
            send(16, 64, true, false),
            send_app(self.rca),
            Action::PrepareRead { buffer: Buffer::Command, block_size: 64 },
            send(13, 0, true, true),
            Action::CompleteRead { buffer: Buffer::Command, single: true },
        ]
    }

    open spec fn unwraps(self, i: int) -> bool {
        false
    }

    proof fn lemma_not_empty(self) {
    }

    fn count(&self) -> usize {
        5
    }

    fn nth(&self, i: usize) -> Action {
        match i {
            0 => Action::Command { command: set_block_length(64), check_crc: true, data: false },
            1 => Action::Command { command: app_cmd(self.rca), check_crc: true, data: false },
            2 => Action::PrepareRead { buffer: Buffer::Command, block_size: 64 },
            3 => Action::Command { command: sd_status(), check_crc: true, data: true },
            _ => Action::CompleteRead { buffer: Buffer::Command, single: true },
        }
    }

    fn nth_unwraps(&self, i: usize) -> bool {
        false
    }
}

/// Reads the SD Status (ACMD13)
///
/// SD only.
#[derive(Debug, PartialEq, Eq)]
pub enum ReadSdStatus {
    /// The status is being read
    Read(Sequence<StatusScript>),
    /// The status goes back to the command block, in the order of the processor
    Store(CmdBlock),
}

/// Starts to read the SD status of the card at `rca`.
pub fn read_sd_status(rca: u16) -> (r: ReadSdStatus)
    ensures
        r.wf(),
        r == sd_status_at(rca),
{
    ReadSdStatus::Read(Sequence::new(StatusScript { rca }))
}

/// The start of a read of the SD status.
pub open spec fn sd_status_at(rca: u16) -> ReadSdStatus {
    ReadSdStatus::Read(Sequence { script: StatusScript { rca }, next: 0 })
}

impl Operation for ReadSdStatus {
    type Output = [u32; 16];

    open spec fn wf(self) -> bool {
        match self {
            ReadSdStatus::Read(read) => read.wf(),
            ReadSdStatus::Store(_) => true,
        }
    }

    open spec fn pending(self) -> Action {
        match self {
            ReadSdStatus::Read(read) => read.pending(),
            ReadSdStatus::Store(words) => Action::StoreCmdBlock(words),
        }
    }

    open spec fn tolerates(self, error: Error) -> bool {
        false
    }

    open spec fn demands_success(self) -> bool {
        false
    }

    open spec fn after(self, reply: Reply) -> Progress<Self, [u32; 16]> {
        match self {
            ReadSdStatus::Read(read) => match read.after(reply) {
                Progress::Pending(read) => Progress::Pending(ReadSdStatus::Read(read)),
                Progress::Finished(Err(e)) => Progress::Finished(Err(e)),
                Progress::Finished(Ok(data)) => Progress::Pending(
                    ReadSdStatus::Store((data->CmdData_0).be_words()),
                ),
            },
            ReadSdStatus::Store(words) => Progress::Finished(Ok(words.0)),
        }
    }

    proof fn lemma_after(self, reply: Reply) {
        match self {
            ReadSdStatus::Read(read) => read.lemma_after(reply),
            ReadSdStatus::Store(_) => {},
        }
    }

    fn action(&self) -> Action {
        match self {
            ReadSdStatus::Read(read) => read.action(),
            ReadSdStatus::Store(words) => Action::StoreCmdBlock(words.clone()),
        }
    }

    fn needs_success(&self) -> bool {
        false
    }

    fn advance(self, reply: Reply) -> Progress<Self, [u32; 16]> {
        match self {
            ReadSdStatus::Read(read) => match read.advance(reply) {
                Progress::Pending(read) => Progress::Pending(ReadSdStatus::Read(read)),
                Progress::Finished(Err(e)) => Progress::Finished(Err(e)),
                Progress::Finished(Ok(data)) => {
                    let mut words = take_cmd_block(data);
                    words.swap_words();
                    Progress::Pending(ReadSdStatus::Store(words))
                },
            },
            ReadSdStatus::Store(words) => Progress::Finished(Ok(words.0)),
        }
    }
}

/// The signalling modes of the UHS-I bus.
#[derive(Debug, Clone, Copy, PartialEq, Eq, Structural)]
pub enum Signalling {
    /// Up to 25 MHz
    SDR12,
    /// Up to 50 MHz
    SDR25,
    /// Up to 100 MHz
    SDR50,
    /// Up to 208 MHz
    SDR104,
    /// Up to 50 MHz, on both edges
    DDR50,
}

/// The argument of CMD6 that switches to a signalling mode: the function of each group, with
/// all ones for a group that stays as it is.
pub open spec fn switch_argument(signalling: Signalling) -> u32 {
    match signalling {
        Signalling::DDR50 => 0x80FF_FF04,
        Signalling::SDR104 => 0x80FF_1F03,
        Signalling::SDR50 => 0x80FF_1F02,
        Signalling::SDR25 => 0x80FF_FF01,
        Signalling::SDR12 => 0x80FF_FF00,
    }
}

/// The signalling mode that a card reports as its choice. The selected function of
/// group 1 stands in the low half of byte 16 of the switch status.
pub open spec fn selected_mode(status: CmdBlock) -> Result<Signalling, Error> {
    match status.bytes()[16] % 16 {
        0 => Ok(Signalling::SDR12),
        1 => Ok(Signalling::SDR25),
        2 => Ok(Signalling::SDR50),
        3 => Ok(Signalling::SDR104),
        4 => Ok(Signalling::DDR50),
        _ => Err(Error::UnsupportedCardType),
    }
}

/// Reads the chosen signalling mode from a switch status.
pub fn decode_selection(status: &CmdBlock) -> (r: Result<Signalling, Error>)
    ensures
        r == selected_mode(*status),
{
    let byte: u8 = status.byte(16);
    assert(byte & 0xF == byte % 16) by (bit_vector);
    match byte & 0xF {
        0 => Ok(Signalling::SDR12),
        1 => Ok(Signalling::SDR25),
        2 => Ok(Signalling::SDR50),
        3 => Ok(Signalling::SDR104),
        4 => Ok(Signalling::DDR50),
        _ => Err(Error::UnsupportedCardType),
    }
}

/// Asks an SD card to switch to a signalling mode.
#[derive(Debug, PartialEq, Eq)]
pub struct SwitchScript {
    /// The mode
    pub signalling: Signalling,
}

impl Script for SwitchScript {
    open spec fn actions(self) -> Seq<Action> {
        seq![
            Action::PrepareRead { buffer: Buffer::Command, block_size: 64 },
            send(6, switch_argument(self.signalling), true, true),
            Action::CompleteRead { buffer: Buffer::Command, single: true },
        ]
    }

    open spec fn unwraps(self, i: int) -> bool {
        false
    }

    proof fn lemma_not_empty(self) {
    }

    fn count(&self) -> usize {
        3
    }

    fn nth(&self, i: usize) -> Action {
        match i {
            0 => Action::PrepareRead { buffer: Buffer::Command, block_size: 64 },
            1 => {
                let set_function: u32 = match self.signalling {
                    Signalling::DDR50 => 0x80FF_FF04,
                    Signalling::SDR104 => 0x80FF_1F03,
                    Signalling::SDR50 => 0x80FF_1F02,
                    Signalling::SDR25 => 0x80FF_FF01,
                    Signalling::SDR12 => 0x80FF_FF00,
                };
                Action::Command { command: cmd6(set_function), check_crc: true, data: true }
            },
            _ => Action::CompleteRead { buffer: Buffer::Command, single: true },
        }
    }

    fn nth_unwraps(&self, i: usize) -> bool {
        false
    }
}

/// Switch mode using CMD6.
///
/// Attempt to set a new signalling mode. The selected signalling mode is returned.
/// Expects the current clock frequency to be > 12.5MHz.
///
/// SD only.
#[derive(Debug, PartialEq, Eq)]
pub enum SwitchSignalling {
    /// The switch is being requested
    Request(Sequence<SwitchScript>),
    /// The card gets time to change over; this is the switch status
    Settle(CmdBlock),
}

/// Starts to switch to a signalling mode.
pub fn switch_signalling_mode(signalling: Signalling) -> (r: SwitchSignalling)
    ensures
        r.wf(),
        r == switch_to(signalling),
{
    // The block length of a switch status is fixed, so it need not be set.
    SwitchSignalling::Request(Sequence::new(SwitchScript { signalling }))
}

/// The start of a switch to a signalling mode.
pub open spec fn switch_to(signalling: Signalling) -> SwitchSignalling {
    SwitchSignalling::Request(Sequence { script: SwitchScript { signalling }, next: 0 })
}

impl Operation for SwitchSignalling {
    type Output = Signalling;

    open spec fn wf(self) -> bool {
        match self {
            SwitchSignalling::Request(request) => request.wf(),
            SwitchSignalling::Settle(_) => true,
        }
    }

    open spec fn pending(self) -> Action {
        match self {
            SwitchSignalling::Request(request) => request.pending(),
            SwitchSignalling::Settle(_) => Action::Delay { nops: 300 },
        }
    }

    open spec fn tolerates(self, error: Error) -> bool {
        false
    }

    open spec fn demands_success(self) -> bool {
        false
    }

    open spec fn after(self, reply: Reply) -> Progress<Self, Signalling> {
        match self {
            SwitchSignalling::Request(request) => match request.after(reply) {
                Progress::Pending(request) => Progress::Pending(SwitchSignalling::Request(request)),
                Progress::Finished(Err(e)) => Progress::Finished(Err(e)),
                Progress::Finished(Ok(data)) => Progress::Pending(
                    SwitchSignalling::Settle(data->CmdData_0),
                ),
            },
            SwitchSignalling::Settle(status) => Progress::Finished(selected_mode(status)),
        }
    }

    proof fn lemma_after(self, reply: Reply) {
        match self {
            SwitchSignalling::Request(request) => request.lemma_after(reply),
            SwitchSignalling::Settle(_) => {},
        }
    }

    fn action(&self) -> Action {
        match self {
            SwitchSignalling::Request(request) => request.action(),
            // Host is allowed to use the new functions at least 8
            // clocks after the end of the switch command
            // transaction. We know the current clock period is < 80ns,
            // so a total delay of 640ns is required here
            SwitchSignalling::Settle(_) => Action::Delay { nops: 300 },
        }
    }

    fn needs_success(&self) -> bool {
        false
    }

    fn advance(self, reply: Reply) -> Progress<Self, Signalling> {
        match self {
            SwitchSignalling::Request(request) => match request.advance(reply) {
                Progress::Pending(request) => Progress::Pending(SwitchSignalling::Request(request)),
                Progress::Finished(Err(e)) => Progress::Finished(Err(e)),
                Progress::Finished(Ok(data)) => Progress::Pending(
                    SwitchSignalling::Settle(take_cmd_block(data)),
                ),
            },
            SwitchSignalling::Settle(status) => Progress::Finished(decode_selection(&status)),
        }
    }
}

/// The mode that a card reports depends on the four low bits of byte 16 of its switch status,
/// which are the four low bits of word 4, and on nothing else. The codes 0 to 4 name the
/// modes, and every other code is refused.
pub proof fn law_selected_mode(status: CmdBlock)
    ensures
        status.bytes()[16] & 0x0F == 0 <==> selected_mode(status) == Ok::<Signalling, Error>(
            Signalling::SDR12,
        ),
        status.bytes()[16] & 0x0F == 1 <==> selected_mode(status) == Ok::<Signalling, Error>(
            Signalling::SDR25,
        ),
        status.bytes()[16] & 0x0F == 2 <==> selected_mode(status) == Ok::<Signalling, Error>(
            Signalling::SDR50,
        ),
        status.bytes()[16] & 0x0F == 3 <==> selected_mode(status) == Ok::<Signalling, Error>(
            Signalling::SDR104,
        ),
        status.bytes()[16] & 0x0F == 4 <==> selected_mode(status) == Ok::<Signalling, Error>(
            Signalling::DDR50,
        ),
        status.bytes()[16] & 0x0F > 4 <==> selected_mode(status) == Err::<Signalling, Error>(
            Error::UnsupportedCardType,
        ),
        status.bytes()[16] & 0x0F == status.0@[4] % 0x10,
{
    let byte: u8 = status.bytes()[16];
    assert(byte & 0x0F == byte % 16) by (bit_vector);
    law_command_words_are_spelled_by_bytes(status);
    assert(status.0@[4] == status.bytes()[16] + 0x100 * status.bytes()[17] + 0x1_0000
        * status.bytes()[18] + 0x100_0000 * status.bytes()[19]);
}

/// Two switch statuses that agree in the four low bits of byte 16 report the same mode.
pub proof fn law_other_bits_do_not_matter(first: CmdBlock, second: CmdBlock)
    requires
        first.bytes()[16] & 0x0F == second.bytes()[16] & 0x0F,
    ensures
        selected_mode(first) == selected_mode(second),
{
    law_selected_mode(first);
    law_selected_mode(second);
}

/// The configuration register is spelled by the first eight bytes that cross the bus, the most
/// significant one first.
pub proof fn law_configuration_is_spelled(block: CmdBlock)
    ensures
        ({
            let b = block.bytes();
            scr_value(block) == b[0] * 0x100_0000_0000_0000 + b[1] * 0x1_0000_0000_0000 + b[2]
                * 0x100_0000_0000 + b[3] * 0x1_0000_0000 + b[4] * 0x100_0000 + b[5] * 0x1_0000 + b[6]
                * 0x100 + b[7]
        }),
{
    let bytes = block.bytes().subrange(0, 8);
    lemma_be_value_8(bytes);
    lemma_be_value_4(bytes.subrange(0, 4));
    lemma_be_value_4(bytes.subrange(4, 8));
}

/// A read of the configuration register whose actions succeed asks for exactly this, and gives
/// the eight bytes that came.
pub proof fn law_configuration_is_read(rca: u16, replies: Seq<Reply>)
    requires
        replies.len() == 5,
        replies[0] is Word,
        replies[1] is Word,
        replies[2] is Done,
        replies[3] is Word,
        replies[4] is CmdData,
    ensures
        trace(scr_at(rca), replies) == seq![
            send(16, 8, true, false),
            send(55, (rca * 0x1_0000) as u32, true, false),
            Action::PrepareRead { buffer: Buffer::Command, block_size: 8 },
            send(51, 0, true, true),
            Action::CompleteRead { buffer: Buffer::Command, single: true },
        ],
        run(scr_at(rca), replies) matches Progress::Finished(Ok(scr)) && ({
            let b = (replies[4]->CmdData_0).bytes();
            scr == b[0] * 0x100_0000_0000_0000 + b[1] * 0x1_0000_0000_0000 + b[2] * 0x100_0000_0000
                + b[3] * 0x1_0000_0000 + b[4] * 0x100_0000 + b[5] * 0x1_0000 + b[6] * 0x100 + b[7]
        }),
{
    let s0 = scr_at(rca);
    let s1 = GetScr { read: Sequence { next: 1, ..s0.read } };
    let s2 = GetScr { read: Sequence { next: 2, ..s0.read } };
    let s3 = GetScr { read: Sequence { next: 3, ..s0.read } };
    let s4 = GetScr { read: Sequence { next: 4, ..s0.read } };
    assert((rca as u32) << 16u32 == rca * 0x1_0000) by (bit_vector);
    assert(s0.after(replies[0]) == Progress::<GetScr, u64>::Pending(s1));
    assert(s1.after(replies[1]) == Progress::<GetScr, u64>::Pending(s2));
    assert(s2.after(replies[2]) == Progress::<GetScr, u64>::Pending(s3));
    assert(s3.after(replies[3]) == Progress::<GetScr, u64>::Pending(s4));
    law_run_follows(seq![s0, s1, s2, s3, s4], replies.take(4));
    law_run_goes_on(s0, replies, 4, s4);
    assert(replies.take(5) =~= replies);
    law_configuration_is_spelled(replies[4]->CmdData_0);
    assert(trace(s0, replies) =~= seq![
        send(16, 8, true, false),
        send(55, (rca * 0x1_0000) as u32, true, false),
        Action::PrepareRead { buffer: Buffer::Command, block_size: 8 },
        send(51, 0, true, true),
        Action::CompleteRead { buffer: Buffer::Command, single: true },
    ]);
}

/// A read of the SD status whose actions succeed asks for exactly this, puts the words back in
/// the order of the processor, and gives them.
#[verifier::rlimit(40)]
#[verifier::spinoff_prover]
pub proof fn law_sd_status_is_read(rca: u16, replies: Seq<Reply>)
    requires
        replies.len() == 6,
        replies[0] is Word,
        replies[1] is Word,
        replies[2] is Done,
        replies[3] is Word,
        replies[4] is CmdData,
        replies[5] is Done,
    ensures
        trace(sd_status_at(rca), replies) == seq![
            send(16, 64, true, false),
            send(55, (rca * 0x1_0000) as u32, true, false),
            Action::PrepareRead { buffer: Buffer::Command, block_size: 64 },
            send(13, 0, true, true),
            Action::CompleteRead { buffer: Buffer::Command, single: true },
            Action::StoreCmdBlock((replies[4]->CmdData_0).be_words()),
        ],
        run(sd_status_at(rca), replies) == Progress::<ReadSdStatus, [u32; 16]>::Finished(
            Ok((replies[4]->CmdData_0).be_words().0),
        ),
{
    let script = StatusScript { rca };
    let s0 = sd_status_at(rca);
    let s1 = ReadSdStatus::Read(Sequence { script, next: 1 });
    let s2 = ReadSdStatus::Read(Sequence { script, next: 2 });
    let s3 = ReadSdStatus::Read(Sequence { script, next: 3 });
    let s4 = ReadSdStatus::Read(Sequence { script, next: 4 });
    let words = (replies[4]->CmdData_0).be_words();
    let s5 = ReadSdStatus::Store(words);
    assert((rca as u32) << 16u32 == rca * 0x1_0000) by (bit_vector);
    assert(s0.after(replies[0]) == Progress::<ReadSdStatus, [u32; 16]>::Pending(s1));
    assert(s1.after(replies[1]) == Progress::<ReadSdStatus, [u32; 16]>::Pending(s2));
    assert(s2.after(replies[2]) == Progress::<ReadSdStatus, [u32; 16]>::Pending(s3));
    assert(s3.after(replies[3]) == Progress::<ReadSdStatus, [u32; 16]>::Pending(s4));
    assert(s4.after(replies[4]) == Progress::<ReadSdStatus, [u32; 16]>::Pending(s5));
    law_run_follows(seq![s0, s1, s2, s3, s4, s5], replies.take(5));
    law_run_goes_on(s0, replies, 5, s5);
    assert(replies.take(6) =~= replies);
    assert(trace(s0, replies) =~= seq![
        send(16, 64, true, false),
        send(55, (rca * 0x1_0000) as u32, true, false),
        Action::PrepareRead { buffer: Buffer::Command, block_size: 64 },
        send(13, 0, true, true),
        Action::CompleteRead { buffer: Buffer::Command, single: true },
        Action::StoreCmdBlock(words),
    ]);
}

/// A switch whose actions succeed asks for exactly this, whatever the mode, and gives what the
/// four low bits of byte 16 of the switch status name.
pub proof fn law_mode_is_switched(signalling: Signalling, replies: Seq<Reply>)
    requires
        replies.len() == 4,
        replies[0] is Done,
        replies[1] is Word,
        replies[2] is CmdData,
        replies[3] is Done,
    ensures
        trace(switch_to(signalling), replies) == seq![
            Action::PrepareRead { buffer: Buffer::Command, block_size: 64 },
            send(
                6,
                (match signalling {
                    Signalling::SDR12 => 0x80FF_FF00u32,
                    Signalling::SDR25 => 0x80FF_FF01,
                    Signalling::SDR50 => 0x80FF_1F02,
                    Signalling::SDR104 => 0x80FF_1F03,
                    Signalling::DDR50 => 0x80FF_FF04,
                }),
                true,
                true,
            ),
            Action::CompleteRead { buffer: Buffer::Command, single: true },
            Action::Delay { nops: 300 },
        ],
        run(switch_to(signalling), replies) == Progress::<SwitchSignalling, Signalling>::Finished(
            {
                let code = (replies[2]->CmdData_0).bytes()[16] & 0x0F;
                if code == 0 {
                    Ok(Signalling::SDR12)
                } else if code == 1 {
                    Ok(Signalling::SDR25)
                } else if code == 2 {
                    Ok(Signalling::SDR50)
                } else if code == 3 {
                    Ok(Signalling::SDR104)
                } else if code == 4 {
                    Ok(Signalling::DDR50)
                } else {
                    Err(Error::UnsupportedCardType)
                }
            },
        ),
{
    let script = SwitchScript { signalling };
    let s0 = switch_to(signalling);
    let s1 = SwitchSignalling::Request(Sequence { script, next: 1 });
    let s2 = SwitchSignalling::Request(Sequence { script, next: 2 });
    let s3 = SwitchSignalling::Settle(replies[2]->CmdData_0);
    law_selected_mode(replies[2]->CmdData_0);
    law_run_starts(s0, replies);
    law_run_goes_on(s0, replies, 0, s0);
    law_run_goes_on(s0, replies, 1, s1);
    law_run_goes_on(s0, replies, 2, s2);
    law_run_goes_on(s0, replies, 3, s3);
    assert(replies.take(4) =~= replies);
    assert(trace(s0, replies)[1] == s1.pending());
    assert(trace(s0, replies) =~= seq![s0.pending(), s1.pending(), s2.pending(), s3.pending()]);
}

} // verus!
