//! FAT filesystems: the formatting configuration and the parameters it
//! hands to the native `f_mkfs`, drive paths, and the VFS mount
//! configuration.

use vstd::prelude::*;

verus! {

/// A 16-bit number that is never zero.
#[derive(Debug, Clone, Copy)]
pub struct NonZero16 {
    value: u16,
}

impl NonZero16 {
    #[verifier::type_invariant]
    spec fn inv(self) -> bool {
        self.value != 0
    }

    /// The number held.
    pub closed spec fn spec_get(self) -> u16 {
        self.value
    }

    /// `value`, or `None` when it is zero.
    pub fn new(value: u16) -> (r: Option<NonZero16>)
        ensures
            r is Some <==> value != 0,
            r matches Some(n) ==> n.spec_get() == value,
    {
        if value == 0 {
            None
        } else {
            Some(NonZero16 { value })
        }
    }

    /// The number held; never zero.
    pub fn get(&self) -> (v: u16)
        ensures
            v == self.spec_get(),
            v != 0,
    {
        proof {
            use_type_invariant(self);
        }
        self.value
    }
}

/// Number of copies of the File Allocation Table to create when formatting.
#[derive(Debug, Clone, Copy, PartialEq, Eq, Structural)]
pub enum FatCopies {
    /// A single copy of the table.
    Single,
    /// Two copies of the table.
    Two,
}

impl FatCopies {
    /// The number of copies.
    pub open spec fn spec_copies(self) -> u8 {
        match self {
            FatCopies::Single => 1,
            FatCopies::Two => 2,
        }
    }

    /// The number of copies.
    pub fn copies(&self) -> (n: u8)
        ensures
            n == self.spec_copies(),
    {
        match self {
            FatCopies::Single => 1,
            FatCopies::Two => 2,
        }
    }
}

impl Default for FatCopies {
    fn default() -> (c: Self)
        ensures
            c == FatCopies::Single,
    {
        FatCopies::Single
    }
}

/// Type of FAT filesystem to create when formatting.
#[derive(Debug, Clone, Copy, PartialEq, Eq, Structural)]
pub enum FatFsType {
    /// Chosen from the volume and cluster size.
    Auto(FatCopies),
    /// FAT12/16.
    Fat(FatCopies),
    /// FAT32.
    Fat32(FatCopies),
    /// exFAT, which keeps a single table.
    ExFat,
}

impl FatFsType {
    /// The number of table copies.
    pub open spec fn spec_copies(self) -> u8 {
        match self {
            FatFsType::Auto(c) => c.spec_copies(),
            FatFsType::Fat(c) => c.spec_copies(),
            FatFsType::Fat32(c) => c.spec_copies(),
            FatFsType::ExFat => 1,
        }
    }

    /// The number of table copies.
    pub fn copies(&self) -> (n: u8)
        ensures
            n == self.spec_copies(),
    {
        match self {
            FatFsType::Auto(c) => c.copies(),
            FatFsType::Fat(c) => c.copies(),
            FatFsType::Fat32(c) => c.copies(),
            FatFsType::ExFat => 1,
        }
    }
}

/// `f_mkfs` format option: FAT12/16.
pub const FM_FAT: u8 = 0x01;

/// `f_mkfs` format option: FAT32.
pub const FM_FAT32: u8 = 0x02;

/// `f_mkfs` format option: exFAT.
pub const FM_EXFAT: u8 = 0x04;

/// `f_mkfs` format option: any type, chosen by the volume size.
pub const FM_ANY: u8 = 0x07;

/// Configuration for formatting a FAT partition.
#[derive(Debug, Clone, Copy)]
pub struct FormatConfiguration {
    /// Type of filesystem to create.
    pub fs_type: FatFsType,
    /// Volume data alignment, in sectors.
    pub volume_data_alignment: NonZero16,
    /// Number of root directory entries.
    pub root_dir_entries: NonZero16,
    /// Cluster size, in bytes.
    pub cluster_size: u32,
}

impl FormatConfiguration {
    /// The default configuration: automatic type with one table, alignment
    /// of one sector, 512 root entries and 4096-byte clusters.
    pub fn new() -> (c: Self)
        ensures
            c.fs_type == FatFsType::Auto(FatCopies::Single),
            c.volume_data_alignment.spec_get() == 1,
            c.root_dir_entries.spec_get() == 512,
            c.cluster_size == 4096,
    {
        let one = NonZero16 { value: 1 };
        let entries = NonZero16 { value: 512 };
        FormatConfiguration { fs_type: FatFsType::Auto(FatCopies::Single), volume_data_alignment: one, root_dir_entries: entries, cluster_size: 4096 }
    }
}

impl Default for FormatConfiguration {
    fn default() -> (c: Self)
        ensures
            c.fs_type == FatFsType::Auto(FatCopies::Single),
            c.volume_data_alignment.spec_get() == 1,
            c.root_dir_entries.spec_get() == 512,
            c.cluster_size == 4096,
    {
        Self::new()
    }
}

/// The parameters handed to the native `f_mkfs` (`MKFS_PARM`).
#[derive(Debug, Clone, Copy, PartialEq, Eq, Structural)]
pub struct MkfsParams {
    /// Format option (`FM_*`).
    pub fmt: u8,
    /// Number of table copies.
    pub n_fat: u8,
    /// Data area alignment, in sectors.
    pub align: u32,
    /// Number of root directory entries.
    pub n_root: u32,
    /// Cluster size, in bytes.
    pub au_size: u32,
}

/// The format option of a filesystem type.
pub open spec fn format_option(t: FatFsType) -> u8 {
    match t {
        FatFsType::Auto(_) => FM_ANY,
        FatFsType::Fat(_) => FM_FAT,
        FatFsType::Fat32(_) => FM_FAT32,
        FatFsType::ExFat => FM_EXFAT,
    }
}

/// The `f_mkfs` parameters for a configuration.
pub fn mkfs_params(configuration: &FormatConfiguration) -> (p: MkfsParams)
    ensures
        p.fmt == format_option(configuration.fs_type),
        p.n_fat == configuration.fs_type.spec_copies(),
        p.align == configuration.volume_data_alignment.spec_get(),
        p.n_root == configuration.root_dir_entries.spec_get(),
        p.au_size == configuration.cluster_size,
{
    let fmt = match configuration.fs_type {
        FatFsType::Auto(_) => FM_ANY,
        FatFsType::Fat(_) => FM_FAT,
        FatFsType::Fat32(_) => FM_FAT32,
        FatFsType::ExFat => FM_EXFAT,
    };
    MkfsParams {
        fmt,
        n_fat: configuration.fs_type.copies(),
        align: configuration.volume_data_alignment.get() as u32,
        n_root: configuration.root_dir_entries.get() as u32,
        au_size: configuration.cluster_size,
    }
}

/// The path FatFs gives drive number `drive`: the drive's number as a byte,
/// then a terminating zero.
pub fn drive_path_from(drive: u8) -> (p: [u8; 2])
    ensures
        p@ == seq![drive, 0u8],
{
    let p = [drive, 0u8];
    assert(p@ =~= seq![drive, 0u8]);
    p
}

/// A FAT filesystem on a numbered drive.
pub struct FatFs {
    drive: u8,
}

impl FatFs {
    /// A filesystem on drive `drive`, whose disk I/O has been registered.
    pub fn new(drive: u8) -> (f: Self)
        ensures
            f.spec_drive() == drive,
    {
        FatFs { drive }
    }

    /// The drive number.
    pub closed spec fn spec_drive(self) -> u8 {
        self.drive
    }

    /// The drive number.
    pub fn drive(&self) -> (d: u8)
        ensures
            d == self.spec_drive(),
    {
        self.drive
    }

    /// The drive's path.
    pub fn drive_path(&self) -> (p: [u8; 2])
        ensures
            p@ == seq![self.spec_drive(), 0u8],
    {
        drive_path_from(self.drive)
    }
}

/// Configuration for mounting a FAT filesystem through the VFS.
#[derive(Debug, Clone, Copy)]
pub struct Configuration {
    /// Most files open at once.
    pub max_files: u32,
    /// Whether to format the partition when mounting it fails.
    pub format_if_mount_failed: bool,
    /// Allocation unit used when formatting, in bytes.
    pub allocation_unit_size: usize,
    /// Whether the disk status is checked on each access.
    pub disk_status_check_enable: bool,
}

impl Configuration {
    /// The default configuration: four open files, no formatting on a failed
    /// mount, 16 KiB allocation units and no status check.
    pub fn new() -> (c: Self)
        ensures
            c.max_files == 4,
            !c.format_if_mount_failed,
            c.allocation_unit_size == 16384,
            !c.disk_status_check_enable,
    {
        Configuration { max_files: 4, format_if_mount_failed: false, allocation_unit_size: 16 * 1024, disk_status_check_enable: false }
    }
}

impl Default for Configuration {
    fn default() -> (c: Self)
        ensures
            c.max_files == 4,
            !c.format_if_mount_failed,
            c.allocation_unit_size == 16384,
            !c.disk_status_check_enable,
    {
        Self::new()
    }
}

} // verus!
