//! The partition of flash into bootloader, application and configuration, and
//! the checks that every erase, write and read goes through.

use crate::hal::{
    address_space, behaves_alike, erased, programmed, same_outside, HalError, S32KHal,
    FLASH_PAGE_SIZE, FLASH_WORD_SIZE,
};
use vstd::prelude::*;
use vstd::string::StringExecFns;

verus! {

/// Address of the first byte of the bootloader region.
pub const BOOTLOADER_START: u32 = 0x0000_0000;

/// Size of the bootloader region: 64 KiB.
pub const BOOTLOADER_SIZE: u32 = 0x0001_0000;

/// Address of the first byte of the application region.
pub const APPLICATION_START: u32 = 0x0001_0000;

/// Size of the application region: 960 KiB.
pub const APPLICATION_SIZE: u32 = 0x000F_0000;

/// Address of the first byte of the configuration region.
pub const CONFIG_START: u32 = 0x0100_0000;

/// Size of the configuration region: 4 KiB.
pub const CONFIG_SIZE: u32 = 0x0000_1000;

/// Why a memory operation was not carried out.
#[derive(Debug, Clone, PartialEq, Eq)]
pub enum MemoryManagementError {
    InvalidRegion,
    RegionOverlap,
    RegionNotAligned,
    Hardware(String),
    ProtectedRegionAccess,
}

impl MemoryManagementError {
    /// The text of the message that describes this error.
    pub open spec fn message_text(self) -> Seq<char> {
        match self {
            MemoryManagementError::InvalidRegion => "Invalid memory region"@,
            MemoryManagementError::RegionOverlap => "Region overlap"@,
            MemoryManagementError::RegionNotAligned => "Region not aligned"@,
            MemoryManagementError::Hardware(reason) => "Hardware error: "@ + reason@,
            MemoryManagementError::ProtectedRegionAccess => "Protected region access"@,
        }
    }

    /// Describes this error in words.
    pub fn message(&self) -> (text: String)
        ensures
            text@ == self.message_text(),
    {
        match self {
            MemoryManagementError::InvalidRegion => "Invalid memory region".to_owned(),
            MemoryManagementError::RegionOverlap => "Region overlap".to_owned(),
            MemoryManagementError::RegionNotAligned => "Region not aligned".to_owned(),
            MemoryManagementError::Hardware(reason) => {
                "Hardware error: ".to_owned().concat(reason.as_str())
            },
            MemoryManagementError::ProtectedRegionAccess => "Protected region access".to_owned(),
        }
    }

    /// Whether this error passes on a failure that the hardware reported.
    pub open spec fn reports_hardware(self) -> bool {
        exists|e: HalError| self.reports(e)
    }

    /// Whether this error passes on the failure `e` of the hardware: it is
    /// `Hardware` with the message of `e` as its reason.
    pub open spec fn reports(self, e: HalError) -> bool {
        self matches MemoryManagementError::Hardware(reason) && reason@ == e.message_text()
    }

    /// The error that passes on the failure `e` of the hardware.
    pub fn hardware(e: HalError) -> (error: Self)
        ensures
            error.reports(e),
    {
        MemoryManagementError::Hardware(e.message())
    }
}

/// Whether `r` hands on what the device reported: `Ok` where `failure` names
/// no failure, and otherwise the error that passes that failure on.
pub open spec fn hands_on<T>(
    failure: Option<HalError>,
    r: Result<T, MemoryManagementError>,
) -> bool {
    match failure {
        None => r is Ok,
        Some(e) => r is Err && r->Err_0.reports(e),
    }
}

/// A run of flash pages with one protection setting.
#[derive(Debug, Clone, Copy)]
pub struct MemoryRegion {
    start: u32,
    size: u32,
    is_protected: bool,
}

impl MemoryRegion {
    #[verifier::type_invariant]
    spec fn well_formed(self) -> bool {
        &&& self.start % FLASH_PAGE_SIZE == 0
        &&& self.size % FLASH_PAGE_SIZE == 0
        &&& self.start + self.size <= address_space()
    }

    /// Address of the first byte of the region.
    pub closed spec fn start(&self) -> int {
        self.start as int
    }

    /// Number of bytes in the region. A region ends within the address space;
    /// of a value that is no region, the bytes that do are counted.
    pub closed spec fn size(&self) -> int {
        if self.start + self.size <= address_space() {
            self.size as int
        } else {
            address_space() - self.start
        }
    }

    /// A region starts and ends within the address space.
    pub proof fn lemma_region_is_bounded(&self)
        ensures
            0 <= self.start() <= self.end() <= address_space(),
            0 <= self.size(),
    {
    }

    /// Whether the region is closed to erasing and programming.
    pub closed spec fn protection(&self) -> bool {
        self.is_protected
    }

    /// Address just past the last byte of the region.
    pub open spec fn end(&self) -> int {
        self.start() + self.size()
    }

    /// Whether `address` lies in the region.
    pub open spec fn covers(&self, address: int) -> bool {
        self.start() <= address < self.end()
    }

    /// Whether the `length` bytes from `address` all lie in the region.
    pub open spec fn holds(&self, address: int, length: int) -> bool {
        self.start() <= address && address + length <= self.end()
    }

    /// Whether any of the `length` bytes from `address` lies in the region.
    pub open spec fn meets(&self, address: int, length: int) -> bool {
        address < self.end() && self.start() < address + length
    }

    /// Whether the two regions share an address, by the rule
    /// `start_a < start_b + size_b && start_b < start_a + size_a`.
    pub open spec fn shares_with(&self, other: &MemoryRegion) -> bool {
        self.start() < other.end() && other.start() < self.end()
    }

    /// A region of `size` bytes from `start`. Both must be whole pages, and the
    /// region must end within the address space.
    pub fn new(start: u32, size: u32, is_protected: bool) -> (r: Result<
        Self,
        MemoryManagementError,
    >)
        ensures
            start % FLASH_PAGE_SIZE != 0 || size % FLASH_PAGE_SIZE != 0 ==> r == Err::<
                Self,
                MemoryManagementError,
            >(MemoryManagementError::RegionNotAligned),
            start % FLASH_PAGE_SIZE == 0 && size % FLASH_PAGE_SIZE == 0 && start + size
                > address_space() ==> r == Err::<Self, MemoryManagementError>(
                MemoryManagementError::InvalidRegion,
            ),
            start % FLASH_PAGE_SIZE == 0 && size % FLASH_PAGE_SIZE == 0 && start + size
                <= address_space() ==> r is Ok,
            r matches Ok(region) ==> region.start() == start && region.size() == size
                && region.protection() == is_protected,
    {
        if start % FLASH_PAGE_SIZE != 0 || size % FLASH_PAGE_SIZE != 0 {
            return Err(MemoryManagementError::RegionNotAligned);
        }
        if start as u64 + size as u64 > 0x1_0000_0000 {
            return Err(MemoryManagementError::InvalidRegion);
        }
        Ok(Self { start, size, is_protected })
    }

    /// Tells whether `address` lies in the region.
    pub fn contains(&self, address: u32) -> (inside: bool)
        ensures
            inside == self.covers(address as int),
    {
        address >= self.start && address - self.start < self.size
    }

    /// Tells whether the two regions share an address.
    pub fn overlaps(&self, other: &MemoryRegion) -> (shared: bool)
        ensures
            shared == self.shares_with(other),
    {
        (self.start as u64) < other.start as u64 + other.size as u64 && (other.start as u64)
            < self.start as u64 + self.size as u64
    }

    /// Tells whether the region is closed to erasing and programming.
    pub fn is_protected(&self) -> (protected: bool)
        ensures
            protected == self.protection(),
    {
        self.is_protected
    }

    /// Tells whether the `length` bytes from `address` all lie in the region.
    fn contains_range(&self, address: u32, length: usize) -> (inside: bool)
        ensures
            inside == self.holds(address as int, length as int),
    {
        proof {
            use_type_invariant(self);
        }
        address >= self.start && length <= self.size as usize && address - self.start
            <= self.size - length as u32
    }

    /// Tells whether any of the `length` bytes from `address` lies in the region.
    fn touches_range(&self, address: u32, length: usize) -> (touched: bool)
        ensures
            touched == self.meets(address as int, length as int),
    {
        (address as u64) < self.start as u64 + self.size as u64 && (self.start < address || ((
        self.start - address) as usize) < length)
    }
}

/// The three regions of a memory manager. No two of them share an address.
struct Layout {
    bootloader: MemoryRegion,
    application: MemoryRegion,
    config: MemoryRegion,
}

impl Layout {
    #[verifier::type_invariant]
    spec fn apart(self) -> bool {
        &&& !self.bootloader.shares_with(&self.application)
        &&& !self.bootloader.shares_with(&self.config)
        &&& !self.application.shares_with(&self.config)
    }
}

/// Guards a device's flash: every erase, write and read is checked against the
/// three regions before the hardware sees it.
pub struct MemoryManager<H: S32KHal> {
    hal: H,
    layout: Layout,
}

impl<H: S32KHal> MemoryManager<H> {
    /// The device behind the manager.
    pub closed spec fn device(&self) -> H {
        self.hal
    }

    /// What the flash of the device behind the manager holds, by address.
    pub open spec fn flash(&self) -> Seq<u8> {
        self.device().flash()
    }

    /// The region that holds the bootloader itself.
    pub closed spec fn bootloader_region(&self) -> MemoryRegion {
        self.layout.bootloader
    }

    /// The region that holds the application.
    pub closed spec fn application_region(&self) -> MemoryRegion {
        self.layout.application
    }

    /// The region that holds the configuration.
    pub closed spec fn config_region(&self) -> MemoryRegion {
        self.layout.config
    }

    /// Whether the three regions are the ones that the layout constants name.
    pub open spec fn has_fixed_layout(&self) -> bool {
        &&& self.bootloader_region().start() == BOOTLOADER_START
        &&& self.bootloader_region().size() == BOOTLOADER_SIZE
        &&& self.bootloader_region().protection()
        &&& self.application_region().start() == APPLICATION_START
        &&& self.application_region().size() == APPLICATION_SIZE
        &&& !self.application_region().protection()
        &&& self.config_region().start() == CONFIG_START
        &&& self.config_region().size() == CONFIG_SIZE
        &&& self.config_region().protection()
    }

    /// Whether `other` has the same three regions.
    pub open spec fn same_layout(&self, other: &Self) -> bool {
        &&& self.bootloader_region() == other.bootloader_region()
        &&& self.application_region() == other.application_region()
        &&& self.config_region() == other.config_region()
    }

    /// Whether `address` lies in the bootloader or the configuration region.
    pub open spec fn protects(&self, address: int) -> bool {
        self.bootloader_region().covers(address) || self.config_region().covers(address)
    }

    /// Whether any of the `length` bytes from `address` lies in the bootloader or
    /// the configuration region.
    pub open spec fn touches_protected(&self, address: int, length: int) -> bool {
        self.bootloader_region().meets(address, length) || self.config_region().meets(
            address,
            length,
        )
    }

    /// Whether `after` holds what `before` held at every protected address.
    pub open spec fn keeps_protected(&self, before: Seq<u8>, after: Seq<u8>) -> bool {
        forall|a: int|
            0 <= a < before.len() && self.protects(a) ==> #[trigger] after[a] == before[a]
    }

    /// Why a change to the `length` bytes from `address` is refused, if it is:
    /// the range may touch no protected region and must lie in the application.
    pub open spec fn change_refusal(&self, address: int, length: int) -> Option<
        MemoryManagementError,
    > {
        if self.touches_protected(address, length) {
            Some(MemoryManagementError::ProtectedRegionAccess)
        } else if !self.application_region().holds(address, length) {
            Some(MemoryManagementError::InvalidRegion)
        } else {
            None
        }
    }

    /// Why `erase` refuses a range, if it does.
    pub open spec fn erase_refusal(&self, address: u32, length: u32) -> Option<
        MemoryManagementError,
    > {
        if address % FLASH_PAGE_SIZE != 0 || length % FLASH_PAGE_SIZE != 0 {
            Some(MemoryManagementError::RegionNotAligned)
        } else {
            self.change_refusal(address as int, length as int)
        }
    }

    /// Why `write` refuses a range, if it does.
    pub open spec fn write_refusal(&self, address: u32, length: nat) -> Option<
        MemoryManagementError,
    > {
        if address % FLASH_WORD_SIZE != 0 || length % (FLASH_WORD_SIZE as nat) != 0 {
            Some(MemoryManagementError::RegionNotAligned)
        } else {
            self.change_refusal(address as int, length as int)
        }
    }

    /// Why `read` refuses a range, if it does: the range must lie in one of the
    /// three regions.
    pub open spec fn read_refusal(&self, address: u32, length: nat) -> Option<
        MemoryManagementError,
    > {
        if self.bootloader_region().holds(address as int, length as int)
            || self.application_region().holds(address as int, length as int)
            || self.config_region().holds(address as int, length as int) {
            None
        } else {
            Some(MemoryManagementError::InvalidRegion)
        }
    }

    /// Whether any two of the three regions share an address.
    pub open spec fn regions_overlap(
        bootloader_region: MemoryRegion,
        application_region: MemoryRegion,
        config_region: MemoryRegion,
    ) -> bool {
        ||| bootloader_region.shares_with(&application_region)
        ||| bootloader_region.shares_with(&config_region)
        ||| application_region.shares_with(&config_region)
    }

    /// Whether no two of the three regions of this manager share an address.
    /// Every manager that exists keeps its regions apart.
    pub open spec fn regions_apart(&self) -> bool {
        !Self::regions_overlap(
            self.bootloader_region(),
            self.application_region(),
            self.config_region(),
        )
    }

    /// A manager of `hal`'s flash with the fixed layout.
    pub fn new(hal: H) -> (r: Result<Self, MemoryManagementError>)
        ensures
            r matches Ok(manager) && manager.device() == hal && manager.has_fixed_layout()
                && manager.regions_apart(),
    {
        let bootloader_region = match MemoryRegion::new(BOOTLOADER_START, BOOTLOADER_SIZE, true) {
            Ok(region) => region,
            Err(e) => {
                return Err(e);
            },
        };
        let application_region = match MemoryRegion::new(
            APPLICATION_START,
            APPLICATION_SIZE,
            false,
        ) {
            Ok(region) => region,
            Err(e) => {
                return Err(e);
            },
        };
        let config_region = match MemoryRegion::new(CONFIG_START, CONFIG_SIZE, true) {
            Ok(region) => region,
            Err(e) => {
                return Err(e);
            },
        };
        Self::with_regions(hal, bootloader_region, application_region, config_region)
    }

    /// A manager of `hal`'s flash with the three regions given. No two of them
    /// may share an address: `RegionOverlap` where two do.
    pub fn with_regions(
        hal: H,
        bootloader_region: MemoryRegion,
        application_region: MemoryRegion,
        config_region: MemoryRegion,
    ) -> (r: Result<Self, MemoryManagementError>)
        ensures
            Self::regions_overlap(bootloader_region, application_region, config_region) ==> (r
                matches Err(e) && e == MemoryManagementError::RegionOverlap),
            !Self::regions_overlap(bootloader_region, application_region, config_region) ==> (r
                matches Ok(manager) && manager.device() == hal && manager.bootloader_region()
                == bootloader_region && manager.application_region() == application_region
                && manager.config_region() == config_region && manager.regions_apart()),
    {
        if bootloader_region.overlaps(&application_region) || bootloader_region.overlaps(
            &config_region,
        ) || application_region.overlaps(&config_region) {
            return Err(MemoryManagementError::RegionOverlap);
        }
        Ok(
            Self {
                hal,
                layout: Layout {
                    bootloader: bootloader_region,
                    application: application_region,
                    config: config_region,
                },
            },
        )
    }

    /// Erases the `length` bytes from `address`, which must be whole pages of the
    /// application region.
    pub fn erase(&mut self, address: u32, length: u32) -> (r: Result<(), MemoryManagementError>)
        ensures
            final(self).same_layout(old(self)),
            final(self).regions_apart(),
            match old(self).erase_refusal(address, length) {
                Some(e) => r == Err::<(), MemoryManagementError>(e) && *final(self) == *old(self),
                None => {
                    &&& behaves_alike(&old(self).device(), &final(self).device())
                    &&& hands_on(old(self).device().erase_failure(address, length), r)
                    &&& r is Ok ==> final(self).flash() == erased(
                        old(self).flash(),
                        address as int,
                        length as int,
                    )
                    &&& r matches Err(e) ==> e.reports_hardware()
                    &&& same_outside(
                        old(self).flash(),
                        final(self).flash(),
                        address as int,
                        length as int,
                    )
                },
            },
            address % FLASH_PAGE_SIZE != 0 || length % FLASH_PAGE_SIZE != 0 ==> r == Err::<
                (),
                MemoryManagementError,
            >(MemoryManagementError::RegionNotAligned),
            r is Ok ==> old(self).application_region().holds(address as int, length as int)
                && !old(self).touches_protected(address as int, length as int),
            old(self).keeps_protected(old(self).flash(), final(self).flash()),
    {
        proof {
            use_type_invariant(&self.layout);
        }
        if address % FLASH_PAGE_SIZE != 0 || length % FLASH_PAGE_SIZE != 0 {
            return Err(MemoryManagementError::RegionNotAligned);
        }
        if let Some(e) = self.check_change(address, length as usize) {
            return Err(e);
        }
        proof {
            self.lemma_change_keeps_protected(address as int, length as int);
        }
        match self.hal.erase_flash(address, length) {
            Ok(()) => Ok(()),
            Err(e) => Err(MemoryManagementError::hardware(e)),
        }
    }

    /// Programs `data` at `address`. The range must be whole words of the
    /// application region. The caller reads back what it wrote.
    pub fn write(&mut self, address: u32, data: &[u8]) -> (r: Result<(), MemoryManagementError>)
        ensures
            final(self).same_layout(old(self)),
            final(self).regions_apart(),
            match old(self).write_refusal(address, data@.len()) {
                Some(e) => r == Err::<(), MemoryManagementError>(e) && *final(self) == *old(self),
                None => {
                    &&& behaves_alike(&old(self).device(), &final(self).device())
                    &&& hands_on(old(self).device().program_failure(address, data@), r)
                    &&& r is Ok ==> final(self).flash() == programmed(
                        old(self).flash(),
                        address as int,
                        data@,
                    )
                    &&& r matches Err(e) ==> e.reports_hardware()
                    &&& same_outside(
                        old(self).flash(),
                        final(self).flash(),
                        address as int,
                        data@.len() as int,
                    )
                },
            },
            address % FLASH_WORD_SIZE != 0 || data@.len() % (FLASH_WORD_SIZE as nat) != 0 ==> r
                == Err::<(), MemoryManagementError>(MemoryManagementError::RegionNotAligned),
            r is Ok ==> old(self).application_region().holds(address as int, data@.len() as int)
                && !old(self).touches_protected(address as int, data@.len() as int),
            old(self).keeps_protected(old(self).flash(), final(self).flash()),
    {
        proof {
            use_type_invariant(&self.layout);
        }
        if address % FLASH_WORD_SIZE != 0 || data.len() % (FLASH_WORD_SIZE as usize) != 0 {
            return Err(MemoryManagementError::RegionNotAligned);
        }
        if let Some(e) = self.check_change(address, data.len()) {
            return Err(e);
        }
        proof {
            self.lemma_change_keeps_protected(address as int, data@.len() as int);
        }
        match self.hal.write_flash(address, data) {
            Ok(()) => Ok(()),
            Err(e) => Err(MemoryManagementError::hardware(e)),
        }
    }

    /// Fills `data` with the bytes stored from `address`. The range may lie in
    /// any one of the three regions.
    pub fn read(&self, address: u32, data: &mut [u8]) -> (r: Result<(), MemoryManagementError>)
        ensures
            final(data)@.len() == old(data)@.len(),
            self.regions_apart(),
            match self.read_refusal(address, old(data)@.len()) {
                Some(e) => r == Err::<(), MemoryManagementError>(e) && final(data)@ == old(data)@,
                None => {
                    &&& hands_on(
                        self.device().read_failure(address, old(data)@.len() as usize),
                        r,
                    )
                    &&& r is Ok ==> address + old(data)@.len() <= self.flash().len()
                        && final(data)@ == self.flash().subrange(
                        address as int,
                        address + old(data)@.len(),
                    )
                    &&& r matches Err(e) ==> e.reports_hardware()
                },
            },
    {
        proof {
            use_type_invariant(&self.layout);
        }
        if let Some(e) = self.check_read(address, data.len()) {
            return Err(e);
        }
        match self.hal.read_flash(address, data) {
            Ok(()) => Ok(()),
            Err(e) => Err(MemoryManagementError::hardware(e)),
        }
    }

    /// Prepares the device for erasing and programming. Where the device
    /// reports a failure, the failure is passed on.
    pub fn enter_programming_mode(&mut self) -> (r: Result<(), MemoryManagementError>)
        ensures
            final(self).same_layout(old(self)),
            final(self).flash() == old(self).flash(),
            r is Ok ==> final(self).device().programming_mode(),
            r matches Err(e) ==> e.reports_hardware(),
    {
        match self.hal.enter_programming_mode() {
            Ok(()) => Ok(()),
            Err(e) => Err(MemoryManagementError::hardware(e)),
        }
    }

    /// Leaves the state that `enter_programming_mode` set up. Where the device
    /// reports a failure, the failure is passed on.
    pub fn exit_programming_mode(&mut self) -> (r: Result<(), MemoryManagementError>)
        ensures
            final(self).same_layout(old(self)),
            final(self).flash() == old(self).flash(),
            r is Ok ==> !final(self).device().programming_mode(),
            r matches Err(e) ==> e.reports_hardware(),
    {
        match self.hal.exit_programming_mode() {
            Ok(()) => Ok(()),
            Err(e) => Err(MemoryManagementError::hardware(e)),
        }
    }

    /// Tells whether `address` lies in the bootloader or the configuration
    /// region.
    pub fn is_protected_region(&self, address: u32) -> (protected: bool)
        ensures
            protected == self.protects(address as int),
    {
        self.layout.bootloader.contains(address) || self.layout.config.contains(address)
    }

    /// Address of the first byte of the application region.
    pub fn get_application_start(&self) -> (start: u32)
        ensures
            start == self.application_region().start(),
    {
        self.layout.application.start
    }

    /// Number of bytes in the application region.
    pub fn get_application_size(&self) -> (size: u32)
        ensures
            size == self.application_region().size(),
    {
        proof {
            use_type_invariant(&self.layout.application);
        }
        self.layout.application.size
    }

    /// Address of the first byte of the bootloader region.
    pub fn get_bootloader_start(&self) -> (start: u32)
        ensures
            start == self.bootloader_region().start(),
    {
        self.layout.bootloader.start
    }

    /// Number of bytes in the bootloader region.
    pub fn get_bootloader_size(&self) -> (size: u32)
        ensures
            size == self.bootloader_region().size(),
    {
        proof {
            use_type_invariant(&self.layout.bootloader);
        }
        self.layout.bootloader.size
    }

    /// Address of the first byte of the configuration region.
    pub fn get_config_start(&self) -> (start: u32)
        ensures
            start == self.config_region().start(),
    {
        self.layout.config.start
    }

    /// Number of bytes in the configuration region.
    pub fn get_config_size(&self) -> (size: u32)
        ensures
            size == self.config_region().size(),
    {
        proof {
            use_type_invariant(&self.layout.config);
        }
        self.layout.config.size
    }

    /// The application region.
    pub fn get_application_region(&self) -> (region: MemoryRegion)
        ensures
            region == self.application_region(),
    {
        self.layout.application
    }

    /// Decides whether `read` would refuse the `length` bytes from `address`.
    pub fn check_read(&self, address: u32, length: usize) -> (refusal: Option<
        MemoryManagementError,
    >)
        ensures
            refusal == self.read_refusal(address, length as nat),
    {
        if self.layout.bootloader.contains_range(address, length)
            || self.layout.application.contains_range(address, length)
            || self.layout.config.contains_range(address, length) {
            None
        } else {
            Some(MemoryManagementError::InvalidRegion)
        }
    }

    /// The device behind the manager.
    pub fn get_hal(&self) -> (hal: &H)
        ensures
            *hal == self.device(),
    {
        &self.hal
    }

    /// Decides whether a change to the `length` bytes from `address` would be
    /// refused.
    pub fn check_change(&self, address: u32, length: usize) -> (refusal: Option<
        MemoryManagementError,
    >)
        ensures
            refusal == self.change_refusal(address as int, length as int),
    {
        if self.layout.bootloader.touches_range(address, length)
            || self.layout.config.touches_range(address, length) {
            Some(MemoryManagementError::ProtectedRegionAccess)
        } else if !self.layout.application.contains_range(address, length) {
            Some(MemoryManagementError::InvalidRegion)
        } else {
            None
        }
    }

    /// A change that leaves every byte outside a range alone leaves the protected
    /// regions alone, where the range touches none of them.
    proof fn lemma_change_keeps_protected(&self, address: int, length: int)
        requires
            !self.touches_protected(address, length),
        ensures
            forall|before: Seq<u8>, after: Seq<u8>| #[trigger]
                same_outside(before, after, address, length) ==> self.keeps_protected(
                    before,
                    after,
                ),
    {
    }
}

} // verus!
