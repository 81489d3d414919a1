# sdmmc

Host-side logic for SD cards and eMMC devices on an SDMMC bus, written in Rust and verified
with Verus.

Every card operation is a value that names the action it waits for (`bus::Action`: send a
command, arm the data path, read a timer, ...). The reply to that action (`bus::Reply`) turns
it into its next value or into a result. The verified library therefore holds no I/O at all;
a driver performs the actions and hands the replies back.

## Layout

- `src/bus.rs`: actions, replies, the `Operation` trait, and what a run of replies does
- `src/command.rs`, `src/register.rs`, `src/time.rs`: the calls into `sdio-host` and
  `embassy-time`, each behind a small function whose contract is trusted
- `src/block.rs`, `src/card.rs`: memory blocks, and what is known of a card
- `src/sequence.rs`, `src/poll.rs`, `src/confirmed.rs`: fixed lists of actions, waiting for
  a card, and both together
- `src/transfer.rs`: reading, writing and erasing
- `src/signalling.rs`, `src/ext_register.rs`, `src/sd.rs`: bringing up an SD card
- `src/emmc.rs`: bringing up an eMMC device
- `src/power.rs`: power off notifications
- `src/device.rs`: storage devices, the entry points of the library
- `src/sd_laws.rs`, `src/emmc_laws.rs`: what holds of a bring-up as a whole
- `app/`: an asynchronous driver for a controller
- `tests/`: runs of the operations on given replies

Functions named `law_...` are theorems about the library. They are checked by Verus and
vanish when the library is compiled.
