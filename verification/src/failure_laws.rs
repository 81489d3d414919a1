//! What becomes of an operation when an action fails.
use crate::bus::{Error, Operation, Progress, Reply};
use crate::card::{Card, Emmc, PowerExtensionRegister};
use crate::confirmed::{Confirmed, Stage};
use crate::device::StorageDevice;
use crate::emmc::{EmmcAcquire, EmmcStage, ExtCsdScript};
use crate::ext_register::{ReadExtReg, ReadExtRegisters, WriteExtReg};
use crate::poll::PollReady;
use crate::power::{EmmcPowerOff, EmmcPowerOffStage, PowerOffNotify};
use crate::sd::SdAcquire;
use crate::sequence::{Script, Sequence};
use crate::signalling::{
    GetScr, ReadSdStatus, ScrScript, Signalling, StatusScript, SwitchScript, SwitchSignalling,
};
use crate::transfer::{EraseScript, ReadScript, WriteScript};
use vstd::prelude::*;

verus! {

/// A script ends with the error of the action that failed, and so does the wait behind it.
pub proof fn law_script_fails<S: Script>(
    script: Sequence<S>,
    confirmed: Confirmed<S>,
    poll: PollReady,
    error: Error,
)
    ensures
        script.after(Reply::Failed(error)) == Progress::<Sequence<S>, Reply>::Finished(Err(error)),
        confirmed.after(Reply::Failed(error)) == Progress::<Confirmed<S>, ()>::Finished(Err(error)),
        poll.after(Reply::Failed(error)) == Progress::<PollReady, ()>::Finished(Err(error)),
        !poll.demands_success(),
        script.demands_success() <==> script.script.unwraps(script.next as int),
        confirmed.demands_success() <==> (confirmed.stage matches Stage::Script(inner)
            && inner.script.unwraps(inner.next as int)),
        !script.tolerates(error) && !confirmed.tolerates(error) && !poll.tolerates(error),
{
}

/// Every action of every script may fail, but for one: a device that is brought up takes the
/// block length for a read of its extended card specific data.
pub proof fn law_scripts_may_fail(
    read: ReadScript,
    write: WriteScript,
    erase: EraseScript,
    scr: ScrScript,
    status: StatusScript,
    switch: SwitchScript,
    read_register: ReadExtReg,
    write_register: WriteExtReg,
    ext_csd: ExtCsdScript,
    i: int,
)
    ensures
        !read.unwraps(i) && !write.unwraps(i) && !erase.unwraps(i),
        !scr.unwraps(i) && !status.unwraps(i) && !switch.unwraps(i),
        !read_register.unwraps(i) && !write_register.unwraps(i),
        ext_csd.unwraps(i) <==> i == 0,
{
}

/// Reads through the command block end with the error of the action that failed.
pub proof fn law_register_read_fails(
    scr: GetScr,
    status: ReadSdStatus,
    switch: SwitchSignalling,
    error: Error,
)
    requires
        status is Read,
        switch is Request,
    ensures
        scr.after(Reply::Failed(error)) == Progress::<GetScr, u64>::Finished(Err(error)),
        status.after(Reply::Failed(error)) == Progress::<ReadSdStatus, [u32; 16]>::Finished(
            Err(error),
        ),
        switch.after(Reply::Failed(error)) == Progress::<SwitchSignalling, Signalling>::Finished(
            Err(error),
        ),
        !scr.demands_success() && !status.demands_success() && !switch.demands_success(),
{
}

/// The bring-up of an SD card ends with the error of the action that failed, whichever it is.
pub proof fn law_sd_bring_up_fails(op: SdAcquire, error: Error)
    ensures
        op.after(Reply::Failed(error)) == Progress::<SdAcquire, StorageDevice<Card>>::Finished(
            Err(error),
        ),
        !op.demands_success(),
        !op.tolerates(error),
{
}

/// The bring-up of an eMMC device ends with the error of the action that failed, but for a
/// missing checksum in the answer to its operating condition. Only the block length for its
/// extended card specific data must not be refused.
pub proof fn law_emmc_bring_up_fails(op: EmmcAcquire, error: Error)
    requires
        op.wf(),
    ensures
        op.stage != EmmcStage::OpCond || error != Error::Crc ==> op.after(Reply::Failed(error))
            == Progress::<EmmcAcquire, StorageDevice<Emmc>>::Finished(Err(error)),
        op.demands_success() <==> (op.stage matches EmmcStage::ExtCsd(read) && read.next == 0),
{
}

/// The search for extension registers ends with the error of the action that failed.
pub proof fn law_search_fails(op: ReadExtRegisters, error: Error)
    requires
        !(op.stage is Entry),
    ensures
        op.after(Reply::Failed(error)) == Progress::<
            ReadExtRegisters,
            Option<PowerExtensionRegister>,
        >::Finished(Err(error)),
        !op.demands_success(),
{
}

/// A power off notification ends with the error of the action that failed.
pub proof fn law_notification_fails(op: PowerOffNotify, error: Error)
    requires
        op.stage is Write || op.stage is Read,
    ensures
        op.after(Reply::Failed(error)) == Progress::<PowerOffNotify, ()>::Finished(Err(error)),
        !op.demands_success(),
{
}

/// A power off notification of an eMMC device ends with the error of the action that failed.
pub proof fn law_emmc_notification_fails(op: EmmcPowerOff, error: Error)
    requires
        op.wf(),
    ensures
        op.after(Reply::Failed(error)) == Progress::<EmmcPowerOff, ()>::Finished(Err(error)),
        op.demands_success() <==> (op.stage matches EmmcPowerOffStage::ExtCsd { ready, read }
            && read.next == 0),
{
}

} // verus!
