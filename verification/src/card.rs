//! What is known of a card.
use crate::register::{csd_block_count, ext_csd_sector_count, sd_block_count};
use vstd::prelude::*;

verus! {

/// Types of SD Card
#[derive(Debug, Clone, Copy, PartialEq, Eq)]
pub enum CardCapacity {
    /// SDSC / Standard Capacity (<= 2GB), addressed by bytes
    StandardCapacity,
    /// SDHC / High capacity (<= 32GB for SD cards, <= 256GB for eMMC), addressed by blocks
    HighCapacity,
}

/// The dialect of SD cards.
#[derive(Debug, Clone, Copy, PartialEq, Eq)]
pub struct SD;

/// The dialect of eMMC devices.
#[derive(Debug, Clone, Copy, PartialEq, Eq)]
pub struct EMMC;

/// Represents either an SD or EMMC card
pub trait Addressable: Sized + Clone {
    /// The dialect that the card speaks
    type Ext;

    /// The card's address on the bus.
    spec fn address(&self) -> u16;

    /// The card's capacity class.
    spec fn capacity_class(&self) -> CardCapacity;

    /// The card's size in bytes.
    spec fn bytes(&self) -> int;

    /// Get this peripheral's address on the SDMMC bus
    fn get_address(&self) -> (r: u16)
        ensures
            r == self.address(),
    ;

    /// Is this a standard or high capacity peripheral?
    fn get_capacity(&self) -> (r: CardCapacity)
        ensures
            r == self.capacity_class(),
    ;

    /// Size in bytes
    fn size(&self) -> (r: u64)
        ensures
            r == self.bytes(),
    ;
}

/// Where the register of a function stands.
#[derive(Debug, Clone, Copy, PartialEq, Eq)]
pub struct RegisterAddress {
    /// Function number
    pub fno: u8,
    /// Page
    pub page: u8,
    /// Offset in the page
    pub offset: u16,
}

/// Data provided by the power management function extension register.
#[derive(Clone, Copy, Debug, PartialEq, Eq)]
pub struct PowerExtensionRegister {
    // This card supports Power Off Notification
    pub(crate) supports_power_off_notification: bool,
    // Function Number
    pub(crate) fno: u8,
    // Page
    pub(crate) page: u8,
    // Offset
    pub(crate) offset: u16,
}

impl PowerExtensionRegister {
    /// Function number and offset are as wide as their fields in a register address.
    #[verifier::type_invariant]
    pub(crate) closed spec fn in_range(self) -> bool {
        self.fno < 0x10 && self.offset < 0x200
    }

    /// The data of a card whose power management register is at the given place.
    pub closed spec fn of(supports: bool, at: RegisterAddress) -> Self {
        PowerExtensionRegister {
            supports_power_off_notification: supports,
            fno: at.fno,
            page: at.page,
            offset: at.offset,
        }
    }

    /// Whether the card supports power off notification.
    pub closed spec fn supports(self) -> bool {
        self.supports_power_off_notification
    }

    /// Where the power management register is.
    pub closed spec fn place(self) -> RegisterAddress {
        RegisterAddress { fno: self.fno, page: self.page, offset: self.offset }
    }

    /// The data say what they were made from.
    pub proof fn law_data_are_kept(supports: bool, at: RegisterAddress)
        ensures
            Self::of(supports, at).supports() == supports,
            Self::of(supports, at).place() == at,
    {
    }

    pub(crate) fn new(supports: bool, at: RegisterAddress) -> (r: Self)
        requires
            at.fno < 0x10,
            at.offset < 0x200,
        ensures
            r == Self::of(supports, at),
    {
        PowerExtensionRegister {
            supports_power_off_notification: supports,
            fno: at.fno,
            page: at.page,
            offset: at.offset,
        }
    }

    pub(crate) fn supports_notification(&self) -> (r: bool)
        ensures
            r == self.supports(),
    {
        self.supports_power_off_notification
    }

    pub(crate) fn address(&self) -> (r: RegisterAddress)
        ensures
            r == self.place(),
            r.fno < 0x10,
            r.offset < 0x200,
    {
        proof {
            use_type_invariant(self);
        }
        RegisterAddress { fno: self.fno, page: self.page, offset: self.offset }
    }
}

/// Extension Registers
#[derive(Debug, PartialEq, Eq)]
pub enum ExtensionRegister {
    /// The Power Management Function Extension Register.
    PowerManagement(PowerExtensionRegister),
    /// All other Extension Registers are unsupported at this time.
    Unsupported,
}

/// SD Card
#[derive(Clone, Copy, Debug, PartialEq, Eq)]
pub struct Card {
    /// The type of this card
    pub card_type: CardCapacity,
    /// Operation Conditions Register
    pub ocr: u32,
    /// Relative Card Address
    pub rca: u16,
    /// Card ID
    pub cid: u128,
    /// Card Specific Data
    pub csd: u128,
    /// SD CARD Configuration Register
    pub scr: u64,
    /// SD Status
    pub status: [u32; 16],
    /// Power Management Function data, if available.
    pub power_ext: Option<PowerExtensionRegister>,
}

impl Card {
    /// A card of which nothing is known.
    pub open spec fn is_blank(self) -> bool {
        &&& self.card_type == CardCapacity::StandardCapacity
        &&& self.ocr == 0
        &&& self.rca == 0
        &&& self.cid == 0
        &&& self.csd == 0
        &&& self.scr == 0
        &&& self.status@ == Seq::new(16, |i: int| 0u32)
        &&& self.power_ext is None
    }
}

impl Default for Card {
    fn default() -> (r: Self)
        ensures
            r.is_blank(),
    {
        let status = [0u32; 16];
        assert(status@ =~= Seq::new(16, |i: int| 0u32));
        Card {
            card_type: CardCapacity::StandardCapacity,
            ocr: 0,
            rca: 0,
            cid: 0,
            csd: 0,
            scr: 0,
            status,
            power_ext: None,
        }
    }
}

/// No SD card has more than 2^38 blocks.
proof fn lemma_block_count_bound(csd: u128)
    ensures
        0 <= sd_block_count(csd) <= 0x40_0000_0000,
{
    let size = (csd / 0x4000_0000_0000_0000) % 0x1000;
    let multiplier = (csd / 0x8000_0000_0000) % 8;
    vstd::arithmetic::power2::lemma_pow2_adds((multiplier + 2) as nat, (7 - multiplier) as nat);
    vstd::arithmetic::power2::lemma_pow2_pos((7 - multiplier) as nat);
    vstd::arithmetic::power2::lemma2_to64();
    let p = vstd::arithmetic::power2::pow2((multiplier + 2) as nat);
    let q = vstd::arithmetic::power2::pow2((7 - multiplier) as nat);
    assert(p <= 512) by (nonlinear_arith)
        requires
            p * q == 512,
            q >= 1,
    ;
    assert(0 <= (size + 1) * p <= 0x1000 * 512) by (nonlinear_arith)
        requires
            0 <= size < 0x1000,
            0 <= p <= 512,
    ;
}

impl Addressable for Card {
    type Ext = SD;

    open spec fn address(&self) -> u16 {
        self.rca
    }

    open spec fn capacity_class(&self) -> CardCapacity {
        self.card_type
    }

    open spec fn bytes(&self) -> int {
        sd_block_count(self.csd) * 512
    }

    fn get_address(&self) -> u16 {
        self.rca
    }

    fn get_capacity(&self) -> CardCapacity {
        self.card_type
    }

    fn size(&self) -> (r: u64)
        ensures
            r == sd_block_count(self.csd) * 512,
    {
        proof {
            lemma_block_count_bound(self.csd);
        }
        csd_block_count(self.csd) * 512
    }
}

/// eMMC storage
#[derive(Clone, Copy, Debug, PartialEq, Eq)]
pub struct Emmc {
    /// The capacity of this card
    pub capacity: CardCapacity,
    /// Operation Conditions Register
    pub ocr: u32,
    /// Relative Card Address
    pub rca: u16,
    /// Card ID
    pub cid: u128,
    /// Card Specific Data
    pub csd: u128,
    /// Extended Card Specific Data
    pub ext_csd: [u32; 128],
}

impl Emmc {
    /// A device of which nothing is known.
    pub open spec fn is_blank(self) -> bool {
        &&& self.capacity == CardCapacity::StandardCapacity
        &&& self.ocr == 0
        &&& self.rca == 0
        &&& self.cid == 0
        &&& self.csd == 0
        &&& self.ext_csd@ == Seq::new(128, |i: int| 0u32)
    }
}

impl Default for Emmc {
    fn default() -> (r: Self)
        ensures
            r.is_blank(),
    {
        let ext_csd = [0u32; 128];
        assert(ext_csd@ =~= Seq::new(128, |i: int| 0u32));
        Emmc {
            capacity: CardCapacity::StandardCapacity,
            ocr: 0,
            rca: 0,
            cid: 0,
            csd: 0,
            ext_csd,
        }
    }
}

impl Addressable for Emmc {
    type Ext = EMMC;

    open spec fn address(&self) -> u16 {
        self.rca
    }

    open spec fn capacity_class(&self) -> CardCapacity {
        self.capacity
    }

    open spec fn bytes(&self) -> int {
        self.ext_csd@[53] * 512
    }

    fn get_address(&self) -> u16 {
        self.rca
    }

    fn get_capacity(&self) -> CardCapacity {
        self.capacity
    }

    fn size(&self) -> (r: u64)
        ensures
            r == self.ext_csd@[53] * 512,
    {
        ext_csd_sector_count(&self.ext_csd) as u64 * 512
    }
}

} // verus!
