//! Host-side logic for SD cards and eMMC devices on an SDMMC bus.

pub mod block;
pub mod bus;
pub mod card;
pub mod command;
pub mod confirmed;
pub mod device;
pub mod emmc;
pub mod emmc_laws;
pub mod ext_register;
pub mod failure_laws;
pub mod notification_laws;
pub mod poll;
pub mod power;
pub mod register;
pub mod register_laws;
pub mod sd;
pub mod sd_laws;
pub mod sequence;
pub mod signalling;
pub mod time;
pub mod transfer;
pub mod transfer_laws;
