use crate::style::Color;
use crate::style::Style;
use vstd::prelude::*;

verus! {

// ---------------------------------------------------------------------------
// The style table: one named slot per UI element
// ---------------------------------------------------------------------------

#[derive(Clone, Copy, Debug, PartialEq, Eq)]
pub struct FileKinds {
    pub normal: Style,
    pub directory: Style,
    pub symlink: Style,
    pub pipe: Style,
    pub block_device: Style,
    pub char_device: Style,
    pub socket: Style,
    pub special: Style,
    pub executable: Style,
    pub mount_point: Style,
}

#[derive(Clone, Copy, Debug, PartialEq, Eq)]
pub struct Permissions {
    pub user_read: Style,
    pub user_write: Style,
    pub user_execute_file: Style,
    pub user_execute_other: Style,
    pub group_read: Style,
    pub group_write: Style,
    pub group_execute: Style,
    pub other_read: Style,
    pub other_write: Style,
    pub other_execute: Style,
    pub special_user_file: Style,
    pub special_other: Style,
    pub attribute: Style,
}

#[derive(Clone, Copy, Debug, PartialEq, Eq)]
pub struct Size {
    pub major: Style,
    pub minor: Style,
    pub number_byte: Style,
    pub number_kilo: Style,
    pub number_mega: Style,
    pub number_giga: Style,
    pub number_huge: Style,
    pub unit_byte: Style,
    pub unit_kilo: Style,
    pub unit_mega: Style,
    pub unit_giga: Style,
    pub unit_huge: Style,
}

#[derive(Clone, Copy, Debug, PartialEq, Eq)]
pub struct Users {
    pub user_you: Style,
    pub user_root: Style,
    pub user_other: Style,
    pub group_yours: Style,
    pub group_root: Style,
    pub group_other: Style,
}

#[derive(Clone, Copy, Debug, PartialEq, Eq)]
pub struct Links {
    pub normal: Style,
    pub multi_link_file: Style,
}

#[derive(Clone, Copy, Debug, PartialEq, Eq)]
pub struct Git {
    pub new: Style,
    pub modified: Style,
    pub deleted: Style,
    pub renamed: Style,
    pub typechange: Style,
    pub ignored: Style,
    pub conflicted: Style,
}

#[derive(Clone, Copy, Debug, PartialEq, Eq)]
pub struct GitRepo {
    pub branch_main: Style,
    pub branch_other: Style,
    pub git_clean: Style,
    pub git_dirty: Style,
}

#[derive(Clone, Copy, Debug, PartialEq, Eq)]
pub struct FileType {
    pub image: Style,
    pub video: Style,
    pub music: Style,
    pub lossless: Style,
    pub crypto: Style,
    pub document: Style,
    pub compressed: Style,
    pub temp: Style,
    pub compiled: Style,
    pub build: Style,
    pub source: Style,
}

#[derive(Clone, Copy, Debug, PartialEq, Eq)]
pub struct SELinuxColours {
    pub colon: Style,
    pub user: Style,
    pub role: Style,
    pub typ: Style,
    pub range: Style,
}

#[derive(Clone, Copy, Debug, PartialEq, Eq)]
pub struct SecurityContext {
    pub none: Style,
    pub selinux: SELinuxColours,
}

/// The fixed catalog of named style slots. Exactly one style sits in each
/// slot at any time; the spec parser overwrites slots in place.
#[derive(Clone, Copy, Debug, PartialEq, Eq)]
pub struct UiStyles {
    pub filekinds: FileKinds,
    pub perms: Permissions,
    pub size: Size,
    pub users: Users,
    pub links: Links,
    pub git: Git,
    pub git_repo: GitRepo,
    pub file_type: FileType,
    pub security_context: SecurityContext,
    pub punctuation: Style,
    pub date: Style,
    pub inode: Style,
    pub blocks: Style,
    pub header: Style,
    pub octal: Style,
    pub flags: Style,
    pub symlink_path: Style,
    pub control_char: Style,
    pub broken_symlink: Style,
    pub broken_path_overlay: Style,
}

/// A name for each slot of the table, so that laws can speak of one slot
/// and quantify over all the others.
#[derive(Clone, Copy, Debug, PartialEq, Eq)]
pub enum SlotId {
    KindNormal,
    KindDirectory,
    KindSymlink,
    KindPipe,
    KindBlockDevice,
    KindCharDevice,
    KindSocket,
    KindSpecial,
    KindExecutable,
    KindMountPoint,
    PermUserRead,
    PermUserWrite,
    PermUserExecuteFile,
    PermUserExecuteOther,
    PermGroupRead,
    PermGroupWrite,
    PermGroupExecute,
    PermOtherRead,
    PermOtherWrite,
    PermOtherExecute,
    PermSpecialUserFile,
    PermSpecialOther,
    PermAttribute,
    SizeMajor,
    SizeMinor,
    SizeNumberByte,
    SizeNumberKilo,
    SizeNumberMega,
    SizeNumberGiga,
    SizeNumberHuge,
    SizeUnitByte,
    SizeUnitKilo,
    SizeUnitMega,
    SizeUnitGiga,
    SizeUnitHuge,
    UserYou,
    UserRoot,
    UserOther,
    GroupYours,
    GroupRoot,
    GroupOther,
    LinkNormal,
    LinkMultiLinkFile,
    GitNew,
    GitModified,
    GitDeleted,
    GitRenamed,
    GitTypechange,
    GitIgnored,
    GitConflicted,
    RepoBranchMain,
    RepoBranchOther,
    RepoGitClean,
    RepoGitDirty,
    TypeImage,
    TypeVideo,
    TypeMusic,
    TypeLossless,
    TypeCrypto,
    TypeDocument,
    TypeCompressed,
    TypeTemp,
    TypeCompiled,
    TypeBuild,
    TypeSource,
    SecurityNone,
    SelinuxColon,
    SelinuxUser,
    SelinuxRole,
    SelinuxType,
    SelinuxRange,
    Punctuation,
    Date,
    Inode,
    Blocks,
    Header,
    Octal,
    Flags,
    SymlinkPath,
    ControlChar,
    BrokenSymlink,
    BrokenPathOverlay,
}

impl UiStyles {
    /// The style held by a slot.
    pub open spec fn slot(self, id: SlotId) -> Style {
        match id {
            SlotId::KindNormal => self.filekinds.normal,
            SlotId::KindDirectory => self.filekinds.directory,
            SlotId::KindSymlink => self.filekinds.symlink,
            SlotId::KindPipe => self.filekinds.pipe,
            SlotId::KindBlockDevice => self.filekinds.block_device,
            SlotId::KindCharDevice => self.filekinds.char_device,
            SlotId::KindSocket => self.filekinds.socket,
            SlotId::KindSpecial => self.filekinds.special,
            SlotId::KindExecutable => self.filekinds.executable,
            SlotId::KindMountPoint => self.filekinds.mount_point,
            SlotId::PermUserRead => self.perms.user_read,
            SlotId::PermUserWrite => self.perms.user_write,
            SlotId::PermUserExecuteFile => self.perms.user_execute_file,
            SlotId::PermUserExecuteOther => self.perms.user_execute_other,
            SlotId::PermGroupRead => self.perms.group_read,
            SlotId::PermGroupWrite => self.perms.group_write,
            SlotId::PermGroupExecute => self.perms.group_execute,
            SlotId::PermOtherRead => self.perms.other_read,
            SlotId::PermOtherWrite => self.perms.other_write,
            SlotId::PermOtherExecute => self.perms.other_execute,
            SlotId::PermSpecialUserFile => self.perms.special_user_file,
            SlotId::PermSpecialOther => self.perms.special_other,
            SlotId::PermAttribute => self.perms.attribute,
            SlotId::SizeMajor => self.size.major,
            SlotId::SizeMinor => self.size.minor,
            SlotId::SizeNumberByte => self.size.number_byte,
            SlotId::SizeNumberKilo => self.size.number_kilo,
            SlotId::SizeNumberMega => self.size.number_mega,
            SlotId::SizeNumberGiga => self.size.number_giga,
            SlotId::SizeNumberHuge => self.size.number_huge,
            SlotId::SizeUnitByte => self.size.unit_byte,
            SlotId::SizeUnitKilo => self.size.unit_kilo,
            SlotId::SizeUnitMega => self.size.unit_mega,
            SlotId::SizeUnitGiga => self.size.unit_giga,
            SlotId::SizeUnitHuge => self.size.unit_huge,
            SlotId::UserYou => self.users.user_you,
            SlotId::UserRoot => self.users.user_root,
            SlotId::UserOther => self.users.user_other,
            SlotId::GroupYours => self.users.group_yours,
            SlotId::GroupRoot => self.users.group_root,
            SlotId::GroupOther => self.users.group_other,
            SlotId::LinkNormal => self.links.normal,
            SlotId::LinkMultiLinkFile => self.links.multi_link_file,
            SlotId::GitNew => self.git.new,
            SlotId::GitModified => self.git.modified,
            SlotId::GitDeleted => self.git.deleted,
            SlotId::GitRenamed => self.git.renamed,
            SlotId::GitTypechange => self.git.typechange,
            SlotId::GitIgnored => self.git.ignored,
            SlotId::GitConflicted => self.git.conflicted,
            SlotId::RepoBranchMain => self.git_repo.branch_main,
            SlotId::RepoBranchOther => self.git_repo.branch_other,
            SlotId::RepoGitClean => self.git_repo.git_clean,
            SlotId::RepoGitDirty => self.git_repo.git_dirty,
            SlotId::TypeImage => self.file_type.image,
            SlotId::TypeVideo => self.file_type.video,
            SlotId::TypeMusic => self.file_type.music,
            SlotId::TypeLossless => self.file_type.lossless,
            SlotId::TypeCrypto => self.file_type.crypto,
            SlotId::TypeDocument => self.file_type.document,
            SlotId::TypeCompressed => self.file_type.compressed,
            SlotId::TypeTemp => self.file_type.temp,
            SlotId::TypeCompiled => self.file_type.compiled,
            SlotId::TypeBuild => self.file_type.build,
            SlotId::TypeSource => self.file_type.source,
            SlotId::SecurityNone => self.security_context.none,
            SlotId::SelinuxColon => self.security_context.selinux.colon,
            SlotId::SelinuxUser => self.security_context.selinux.user,
            SlotId::SelinuxRole => self.security_context.selinux.role,
            SlotId::SelinuxType => self.security_context.selinux.typ,
            SlotId::SelinuxRange => self.security_context.selinux.range,
            SlotId::Punctuation => self.punctuation,
            SlotId::Date => self.date,
            SlotId::Inode => self.inode,
            SlotId::Blocks => self.blocks,
            SlotId::Header => self.header,
            SlotId::Octal => self.octal,
            SlotId::Flags => self.flags,
            SlotId::SymlinkPath => self.symlink_path,
            SlotId::ControlChar => self.control_char,
            SlotId::BrokenSymlink => self.broken_symlink,
            SlotId::BrokenPathOverlay => self.broken_path_overlay,
        }
    }
}

/// The slot a legacy two-letter code names, when the key is one.
pub open spec fn ls_slot(key: Seq<char>) -> Option<SlotId> {
    if key == seq!['f', 'i'] {
        Some(SlotId::KindNormal)
    } else if key == seq!['d', 'i'] {
        Some(SlotId::KindDirectory)
    } else if key == seq!['l', 'n'] {
        Some(SlotId::KindSymlink)
    } else if key == seq!['p', 'i'] {
        Some(SlotId::KindPipe)
    } else if key == seq!['s', 'o'] {
        Some(SlotId::KindSocket)
    } else if key == seq!['b', 'd'] {
        Some(SlotId::KindBlockDevice)
    } else if key == seq!['c', 'd'] {
        Some(SlotId::KindCharDevice)
    } else if key == seq!['e', 'x'] {
        Some(SlotId::KindExecutable)
    } else if key == seq!['o', 'r'] {
        Some(SlotId::BrokenSymlink)
    } else {
        None
    }
}

/// Effect of a legacy-code assignment on the table, when the key is such a
/// code: that one slot overwritten, every other slot kept.
pub open spec fn apply_ls_key(ui: UiStyles, key: Seq<char>, st: Style) -> Option<UiStyles> {
    if key == seq!['f', 'i'] {
        Some(UiStyles { filekinds: FileKinds { normal: st, ..ui.filekinds }, ..ui })
    } else if key == seq!['d', 'i'] {
        Some(UiStyles { filekinds: FileKinds { directory: st, ..ui.filekinds }, ..ui })
    } else if key == seq!['l', 'n'] {
        Some(UiStyles { filekinds: FileKinds { symlink: st, ..ui.filekinds }, ..ui })
    } else if key == seq!['p', 'i'] {
        Some(UiStyles { filekinds: FileKinds { pipe: st, ..ui.filekinds }, ..ui })
    } else if key == seq!['s', 'o'] {
        Some(UiStyles { filekinds: FileKinds { socket: st, ..ui.filekinds }, ..ui })
    } else if key == seq!['b', 'd'] {
        Some(UiStyles { filekinds: FileKinds { block_device: st, ..ui.filekinds }, ..ui })
    } else if key == seq!['c', 'd'] {
        Some(UiStyles { filekinds: FileKinds { char_device: st, ..ui.filekinds }, ..ui })
    } else if key == seq!['e', 'x'] {
        Some(UiStyles { filekinds: FileKinds { executable: st, ..ui.filekinds }, ..ui })
    } else if key == seq!['o', 'r'] {
        Some(UiStyles { broken_symlink: st, ..ui })
    } else {
        None
    }
}

pub open spec fn exa_slots_perms(key: Seq<char>) -> Option<Seq<SlotId>> {
    if key == seq!['u', 'r'] {
        Some(seq![SlotId::PermUserRead])
    } else if key == seq!['u', 'w'] {
        Some(seq![SlotId::PermUserWrite])
    } else if key == seq!['u', 'x'] {
        Some(seq![SlotId::PermUserExecuteFile])
    } else if key == seq!['u', 'e'] {
        Some(seq![SlotId::PermUserExecuteOther])
    } else if key == seq!['g', 'r'] {
        Some(seq![SlotId::PermGroupRead])
    } else if key == seq!['g', 'w'] {
        Some(seq![SlotId::PermGroupWrite])
    } else if key == seq!['g', 'x'] {
        Some(seq![SlotId::PermGroupExecute])
    } else if key == seq!['t', 'r'] {
        Some(seq![SlotId::PermOtherRead])
    } else if key == seq!['t', 'w'] {
        Some(seq![SlotId::PermOtherWrite])
    } else if key == seq!['t', 'x'] {
        Some(seq![SlotId::PermOtherExecute])
    } else if key == seq!['s', 'u'] {
        Some(seq![SlotId::PermSpecialUserFile])
    } else if key == seq!['s', 'f'] {
        Some(seq![SlotId::PermSpecialOther])
    } else if key == seq!['x', 'a'] {
        Some(seq![SlotId::PermAttribute])
    } else {
        None
    }
}

pub open spec fn apply_exa_perms(ui: UiStyles, key: Seq<char>, st: Style) -> Option<UiStyles> {
    if key == seq!['u', 'r'] {
        Some(UiStyles { perms: Permissions { user_read: st, ..ui.perms }, ..ui })
    } else if key == seq!['u', 'w'] {
        Some(UiStyles { perms: Permissions { user_write: st, ..ui.perms }, ..ui })
    } else if key == seq!['u', 'x'] {
        Some(UiStyles { perms: Permissions { user_execute_file: st, ..ui.perms }, ..ui })
    } else if key == seq!['u', 'e'] {
        Some(UiStyles { perms: Permissions { user_execute_other: st, ..ui.perms }, ..ui })
    } else if key == seq!['g', 'r'] {
        Some(UiStyles { perms: Permissions { group_read: st, ..ui.perms }, ..ui })
    } else if key == seq!['g', 'w'] {
        Some(UiStyles { perms: Permissions { group_write: st, ..ui.perms }, ..ui })
    } else if key == seq!['g', 'x'] {
        Some(UiStyles { perms: Permissions { group_execute: st, ..ui.perms }, ..ui })
    } else if key == seq!['t', 'r'] {
        Some(UiStyles { perms: Permissions { other_read: st, ..ui.perms }, ..ui })
    } else if key == seq!['t', 'w'] {
        Some(UiStyles { perms: Permissions { other_write: st, ..ui.perms }, ..ui })
    } else if key == seq!['t', 'x'] {
        Some(UiStyles { perms: Permissions { other_execute: st, ..ui.perms }, ..ui })
    } else if key == seq!['s', 'u'] {
        Some(UiStyles { perms: Permissions { special_user_file: st, ..ui.perms }, ..ui })
    } else if key == seq!['s', 'f'] {
        Some(UiStyles { perms: Permissions { special_other: st, ..ui.perms }, ..ui })
    } else if key == seq!['x', 'a'] {
        Some(UiStyles { perms: Permissions { attribute: st, ..ui.perms }, ..ui })
    } else {
        None
    }
}

pub open spec fn exa_slots_size(key: Seq<char>) -> Option<Seq<SlotId>> {
    if key == seq!['s', 'n'] {
        Some(seq![SlotId::SizeNumberByte, SlotId::SizeNumberKilo, SlotId::SizeNumberMega, SlotId::SizeNumberGiga, SlotId::SizeNumberHuge])
    } else if key == seq!['s', 'b'] {
        Some(seq![SlotId::SizeUnitByte, SlotId::SizeUnitKilo, SlotId::SizeUnitMega, SlotId::SizeUnitGiga, SlotId::SizeUnitHuge])
    } else if key == seq!['n', 'b'] {
        Some(seq![SlotId::SizeNumberByte])
    } else if key == seq!['n', 'k'] {
        Some(seq![SlotId::SizeNumberKilo])
    } else if key == seq!['n', 'm'] {
        Some(seq![SlotId::SizeNumberMega])
    } else if key == seq!['n', 'g'] {
        Some(seq![SlotId::SizeNumberGiga])
    } else if key == seq!['n', 't'] {
        Some(seq![SlotId::SizeNumberHuge])
    } else if key == seq!['u', 'b'] {
        Some(seq![SlotId::SizeUnitByte])
    } else if key == seq!['u', 'k'] {
        Some(seq![SlotId::SizeUnitKilo])
    } else if key == seq!['u', 'm'] {
        Some(seq![SlotId::SizeUnitMega])
    } else if key == seq!['u', 'g'] {
        Some(seq![SlotId::SizeUnitGiga])
    } else if key == seq!['u', 't'] {
        Some(seq![SlotId::SizeUnitHuge])
    } else if key == seq!['d', 'f'] {
        Some(seq![SlotId::SizeMajor])
    } else if key == seq!['d', 's'] {
        Some(seq![SlotId::SizeMinor])
    } else {
        None
    }
}

pub open spec fn apply_exa_size(ui: UiStyles, key: Seq<char>, st: Style) -> Option<UiStyles> {
    if key == seq!['s', 'n'] {
        Some(UiStyles { size: Size { number_byte: st, number_kilo: st, number_mega: st, number_giga: st, number_huge: st, ..ui.size }, ..ui })
    } else if key == seq!['s', 'b'] {
        Some(UiStyles { size: Size { unit_byte: st, unit_kilo: st, unit_mega: st, unit_giga: st, unit_huge: st, ..ui.size }, ..ui })
    } else if key == seq!['n', 'b'] {
        Some(UiStyles { size: Size { number_byte: st, ..ui.size }, ..ui })
    } else if key == seq!['n', 'k'] {
        Some(UiStyles { size: Size { number_kilo: st, ..ui.size }, ..ui })
    } else if key == seq!['n', 'm'] {
        Some(UiStyles { size: Size { number_mega: st, ..ui.size }, ..ui })
    } else if key == seq!['n', 'g'] {
        Some(UiStyles { size: Size { number_giga: st, ..ui.size }, ..ui })
    } else if key == seq!['n', 't'] {
        Some(UiStyles { size: Size { number_huge: st, ..ui.size }, ..ui })
    } else if key == seq!['u', 'b'] {
        Some(UiStyles { size: Size { unit_byte: st, ..ui.size }, ..ui })
    } else if key == seq!['u', 'k'] {
        Some(UiStyles { size: Size { unit_kilo: st, ..ui.size }, ..ui })
    } else if key == seq!['u', 'm'] {
        Some(UiStyles { size: Size { unit_mega: st, ..ui.size }, ..ui })
    } else if key == seq!['u', 'g'] {
        Some(UiStyles { size: Size { unit_giga: st, ..ui.size }, ..ui })
    } else if key == seq!['u', 't'] {
        Some(UiStyles { size: Size { unit_huge: st, ..ui.size }, ..ui })
    } else if key == seq!['d', 'f'] {
        Some(UiStyles { size: Size { major: st, ..ui.size }, ..ui })
    } else if key == seq!['d', 's'] {
        Some(UiStyles { size: Size { minor: st, ..ui.size }, ..ui })
    } else {
        None
    }
}

pub open spec fn exa_slots_owners(key: Seq<char>) -> Option<Seq<SlotId>> {
    if key == seq!['u', 'u'] {
        Some(seq![SlotId::UserYou])
    } else if key == seq!['u', 'R'] {
        Some(seq![SlotId::UserRoot])
    } else if key == seq!['u', 'n'] {
        Some(seq![SlotId::UserOther])
    } else if key == seq!['g', 'u'] {
        Some(seq![SlotId::GroupYours])
    } else if key == seq!['g', 'R'] {
        Some(seq![SlotId::GroupRoot])
    } else if key == seq!['g', 'n'] {
        Some(seq![SlotId::GroupOther])
    } else if key == seq!['l', 'c'] {
        Some(seq![SlotId::LinkNormal])
    } else if key == seq!['l', 'm'] {
        Some(seq![SlotId::LinkMultiLinkFile])
    } else {
        None
    }
}

pub open spec fn apply_exa_owners(ui: UiStyles, key: Seq<char>, st: Style) -> Option<UiStyles> {
    if key == seq!['u', 'u'] {
        Some(UiStyles { users: Users { user_you: st, ..ui.users }, ..ui })
    } else if key == seq!['u', 'R'] {
        Some(UiStyles { users: Users { user_root: st, ..ui.users }, ..ui })
    } else if key == seq!['u', 'n'] {
        Some(UiStyles { users: Users { user_other: st, ..ui.users }, ..ui })
    } else if key == seq!['g', 'u'] {
        Some(UiStyles { users: Users { group_yours: st, ..ui.users }, ..ui })
    } else if key == seq!['g', 'R'] {
        Some(UiStyles { users: Users { group_root: st, ..ui.users }, ..ui })
    } else if key == seq!['g', 'n'] {
        Some(UiStyles { users: Users { group_other: st, ..ui.users }, ..ui })
    } else if key == seq!['l', 'c'] {
        Some(UiStyles { links: Links { normal: st, ..ui.links }, ..ui })
    } else if key == seq!['l', 'm'] {
        Some(UiStyles { links: Links { multi_link_file: st, ..ui.links }, ..ui })
    } else {
        None
    }
}

pub open spec fn exa_slots_vcs(key: Seq<char>) -> Option<Seq<SlotId>> {
    if key == seq!['g', 'a'] {
        Some(seq![SlotId::GitNew])
    } else if key == seq!['g', 'm'] {
        Some(seq![SlotId::GitModified])
    } else if key == seq!['g', 'd'] {
        Some(seq![SlotId::GitDeleted])
    } else if key == seq!['g', 'v'] {
        Some(seq![SlotId::GitRenamed])
    } else if key == seq!['g', 't'] {
        Some(seq![SlotId::GitTypechange])
    } else if key == seq!['g', 'i'] {
        Some(seq![SlotId::GitIgnored])
    } else if key == seq!['g', 'c'] {
        Some(seq![SlotId::GitConflicted])
    } else if key == seq!['G', 'm'] {
        Some(seq![SlotId::RepoBranchMain])
    } else if key == seq!['G', 'o'] {
        Some(seq![SlotId::RepoBranchOther])
    } else if key == seq!['G', 'c'] {
        Some(seq![SlotId::RepoGitClean])
    } else if key == seq!['G', 'd'] {
        Some(seq![SlotId::RepoGitDirty])
    } else {
        None
    }
}

pub open spec fn apply_exa_vcs(ui: UiStyles, key: Seq<char>, st: Style) -> Option<UiStyles> {
    if key == seq!['g', 'a'] {
        Some(UiStyles { git: Git { new: st, ..ui.git }, ..ui })
    } else if key == seq!['g', 'm'] {
        Some(UiStyles { git: Git { modified: st, ..ui.git }, ..ui })
    } else if key == seq!['g', 'd'] {
        Some(UiStyles { git: Git { deleted: st, ..ui.git }, ..ui })
    } else if key == seq!['g', 'v'] {
        Some(UiStyles { git: Git { renamed: st, ..ui.git }, ..ui })
    } else if key == seq!['g', 't'] {
        Some(UiStyles { git: Git { typechange: st, ..ui.git }, ..ui })
    } else if key == seq!['g', 'i'] {
        Some(UiStyles { git: Git { ignored: st, ..ui.git }, ..ui })
    } else if key == seq!['g', 'c'] {
        Some(UiStyles { git: Git { conflicted: st, ..ui.git }, ..ui })
    } else if key == seq!['G', 'm'] {
        Some(UiStyles { git_repo: GitRepo { branch_main: st, ..ui.git_repo }, ..ui })
    } else if key == seq!['G', 'o'] {
        Some(UiStyles { git_repo: GitRepo { branch_other: st, ..ui.git_repo }, ..ui })
    } else if key == seq!['G', 'c'] {
        Some(UiStyles { git_repo: GitRepo { git_clean: st, ..ui.git_repo }, ..ui })
    } else if key == seq!['G', 'd'] {
        Some(UiStyles { git_repo: GitRepo { git_dirty: st, ..ui.git_repo }, ..ui })
    } else {
        None
    }
}

pub open spec fn exa_slots_details(key: Seq<char>) -> Option<Seq<SlotId>> {
    if key == seq!['x', 'x'] {
        Some(seq![SlotId::Punctuation])
    } else if key == seq!['d', 'a'] {
        Some(seq![SlotId::Date])
    } else if key == seq!['i', 'n'] {
        Some(seq![SlotId::Inode])
    } else if key == seq!['b', 'l'] {
        Some(seq![SlotId::Blocks])
    } else if key == seq!['h', 'd'] {
        Some(seq![SlotId::Header])
    } else if key == seq!['l', 'p'] {
        Some(seq![SlotId::SymlinkPath])
    } else if key == seq!['c', 'c'] {
        Some(seq![SlotId::ControlChar])
    } else if key == seq!['b', 'O'] {
        Some(seq![SlotId::BrokenPathOverlay])
    } else if key == seq!['o', 'c'] {
        Some(seq![SlotId::Octal])
    } else if key == seq!['f', 'f'] {
        Some(seq![SlotId::Flags])
    } else {
        None
    }
}

pub open spec fn apply_exa_details(ui: UiStyles, key: Seq<char>, st: Style) -> Option<UiStyles> {
    if key == seq!['x', 'x'] {
        Some(UiStyles { punctuation: st, ..ui })
    } else if key == seq!['d', 'a'] {
        Some(UiStyles { date: st, ..ui })
    } else if key == seq!['i', 'n'] {
        Some(UiStyles { inode: st, ..ui })
    } else if key == seq!['b', 'l'] {
        Some(UiStyles { blocks: st, ..ui })
    } else if key == seq!['h', 'd'] {
        Some(UiStyles { header: st, ..ui })
    } else if key == seq!['l', 'p'] {
        Some(UiStyles { symlink_path: st, ..ui })
    } else if key == seq!['c', 'c'] {
        Some(UiStyles { control_char: st, ..ui })
    } else if key == seq!['b', 'O'] {
        Some(UiStyles { broken_path_overlay: st, ..ui })
    } else if key == seq!['o', 'c'] {
        Some(UiStyles { octal: st, ..ui })
    } else if key == seq!['f', 'f'] {
        Some(UiStyles { flags: st, ..ui })
    } else {
        None
    }
}

pub open spec fn exa_slots_kinds(key: Seq<char>) -> Option<Seq<SlotId>> {
    if key == seq!['m', 'p'] {
        Some(seq![SlotId::KindMountPoint])
    } else if key == seq!['s', 'p'] {
        Some(seq![SlotId::KindSpecial])
    } else if key == seq!['i', 'm'] {
        Some(seq![SlotId::TypeImage])
    } else if key == seq!['v', 'i'] {
        Some(seq![SlotId::TypeVideo])
    } else if key == seq!['m', 'u'] {
        Some(seq![SlotId::TypeMusic])
    } else if key == seq!['l', 'o'] {
        Some(seq![SlotId::TypeLossless])
    } else if key == seq!['c', 'r'] {
        Some(seq![SlotId::TypeCrypto])
    } else if key == seq!['d', 'o'] {
        Some(seq![SlotId::TypeDocument])
    } else if key == seq!['c', 'o'] {
        Some(seq![SlotId::TypeCompressed])
    } else if key == seq!['t', 'm'] {
        Some(seq![SlotId::TypeTemp])
    } else if key == seq!['c', 'm'] {
        Some(seq![SlotId::TypeCompiled])
    } else if key == seq!['b', 'u'] {
        Some(seq![SlotId::TypeBuild])
    } else if key == seq!['s', 'c'] {
        Some(seq![SlotId::TypeSource])
    } else {
        None
    }
}

pub open spec fn apply_exa_kinds(ui: UiStyles, key: Seq<char>, st: Style) -> Option<UiStyles> {
    if key == seq!['m', 'p'] {
        Some(UiStyles { filekinds: FileKinds { mount_point: st, ..ui.filekinds }, ..ui })
    } else if key == seq!['s', 'p'] {
        Some(UiStyles { filekinds: FileKinds { special: st, ..ui.filekinds }, ..ui })
    } else if key == seq!['i', 'm'] {
        Some(UiStyles { file_type: FileType { image: st, ..ui.file_type }, ..ui })
    } else if key == seq!['v', 'i'] {
        Some(UiStyles { file_type: FileType { video: st, ..ui.file_type }, ..ui })
    } else if key == seq!['m', 'u'] {
        Some(UiStyles { file_type: FileType { music: st, ..ui.file_type }, ..ui })
    } else if key == seq!['l', 'o'] {
        Some(UiStyles { file_type: FileType { lossless: st, ..ui.file_type }, ..ui })
    } else if key == seq!['c', 'r'] {
        Some(UiStyles { file_type: FileType { crypto: st, ..ui.file_type }, ..ui })
    } else if key == seq!['d', 'o'] {
        Some(UiStyles { file_type: FileType { document: st, ..ui.file_type }, ..ui })
    } else if key == seq!['c', 'o'] {
        Some(UiStyles { file_type: FileType { compressed: st, ..ui.file_type }, ..ui })
    } else if key == seq!['t', 'm'] {
        Some(UiStyles { file_type: FileType { temp: st, ..ui.file_type }, ..ui })
    } else if key == seq!['c', 'm'] {
        Some(UiStyles { file_type: FileType { compiled: st, ..ui.file_type }, ..ui })
    } else if key == seq!['b', 'u'] {
        Some(UiStyles { file_type: FileType { build: st, ..ui.file_type }, ..ui })
    } else if key == seq!['s', 'c'] {
        Some(UiStyles { file_type: FileType { source: st, ..ui.file_type }, ..ui })
    } else {
        None
    }
}

pub open spec fn exa_slots_security(key: Seq<char>) -> Option<Seq<SlotId>> {
    if key == seq!['S', 'n'] {
        Some(seq![SlotId::SecurityNone])
    } else if key == seq!['S', 'u'] {
        Some(seq![SlotId::SelinuxUser])
    } else if key == seq!['S', 'r'] {
        Some(seq![SlotId::SelinuxRole])
    } else if key == seq!['S', 't'] {
        Some(seq![SlotId::SelinuxType])
    } else if key == seq!['S', 'l'] {
        Some(seq![SlotId::SelinuxRange])
    } else {
        None
    }
}

pub open spec fn apply_exa_security(ui: UiStyles, key: Seq<char>, st: Style) -> Option<UiStyles> {
    if key == seq!['S', 'n'] {
        Some(UiStyles { security_context: SecurityContext { none: st, ..ui.security_context }, ..ui })
    } else if key == seq!['S', 'u'] {
        Some(UiStyles { security_context: SecurityContext { selinux: SELinuxColours { user: st, ..ui.security_context.selinux }, ..ui.security_context }, ..ui })
    } else if key == seq!['S', 'r'] {
        Some(UiStyles { security_context: SecurityContext { selinux: SELinuxColours { role: st, ..ui.security_context.selinux }, ..ui.security_context }, ..ui })
    } else if key == seq!['S', 't'] {
        Some(UiStyles { security_context: SecurityContext { selinux: SELinuxColours { typ: st, ..ui.security_context.selinux }, ..ui.security_context }, ..ui })
    } else if key == seq!['S', 'l'] {
        Some(UiStyles { security_context: SecurityContext { selinux: SELinuxColours { range: st, ..ui.security_context.selinux }, ..ui.security_context }, ..ui })
    } else {
        None
    }
}

/// The slots an extended code names, when the key is one. Two codes write a
/// whole family of size slots at once; every other code writes one slot.
pub open spec fn exa_slots(key: Seq<char>) -> Option<Seq<SlotId>> {
    if exa_slots_perms(key) is Some {
        exa_slots_perms(key)
    } else if exa_slots_size(key) is Some {
        exa_slots_size(key)
    } else if exa_slots_owners(key) is Some {
        exa_slots_owners(key)
    } else if exa_slots_vcs(key) is Some {
        exa_slots_vcs(key)
    } else if exa_slots_details(key) is Some {
        exa_slots_details(key)
    } else if exa_slots_kinds(key) is Some {
        exa_slots_kinds(key)
    } else if exa_slots_security(key) is Some {
        exa_slots_security(key)
    } else {
        None
    }
}

/// Effect of an extended-code assignment on the table, when the key is such
/// a code.
pub open spec fn apply_exa_key(ui: UiStyles, key: Seq<char>, st: Style) -> Option<UiStyles> {
    if exa_slots_perms(key) is Some {
        apply_exa_perms(ui, key, st)
    } else if exa_slots_size(key) is Some {
        apply_exa_size(ui, key, st)
    } else if exa_slots_owners(key) is Some {
        apply_exa_owners(ui, key, st)
    } else if exa_slots_vcs(key) is Some {
        apply_exa_vcs(ui, key, st)
    } else if exa_slots_details(key) is Some {
        apply_exa_details(ui, key, st)
    } else if exa_slots_kinds(key) is Some {
        apply_exa_kinds(ui, key, st)
    } else if exa_slots_security(key) is Some {
        apply_exa_security(ui, key, st)
    } else {
        None
    }
}

/// Whether the key is the two-character code written `a` then `b`.
fn eq2(key: &Vec<char>, a: char, b: char) -> (r: bool)
    ensures
        r == (key@ == seq![a, b]),
{
    if key.len() == 2 && key[0] == a && key[1] == b {
        proof {
            assert(key@ =~= seq![a, b]);
        }
        true
    } else {
        proof {
            if key@ == seq![a, b] {
                assert(key@.len() == 2);
                assert(key@[0] == a && key@[1] == b);
            }
        }
        false
    }
}

impl UiStyles {
    /// Overwrite the slot a legacy code names with `style`; report whether
    /// the key was such a code. An unrecognized key leaves the table as it
    /// was.
    #[verifier::rlimit(50)]
    pub fn set_ls(&mut self, key: &Vec<char>, style: Style) -> (r: bool)
        ensures
            r == (ls_slot(key@) is Some),
            match apply_ls_key(*old(self), key@, style) {
                Some(u) => *final(self) == u,
                None => *final(self) == *old(self),
            },
    {
        if eq2(key, 'f', 'i') {
            self.filekinds.normal = style;
            true
        } else if eq2(key, 'd', 'i') {
            self.filekinds.directory = style;
            true
        } else if eq2(key, 'l', 'n') {
            self.filekinds.symlink = style;
            true
        } else if eq2(key, 'p', 'i') {
            self.filekinds.pipe = style;
            true
        } else if eq2(key, 's', 'o') {
            self.filekinds.socket = style;
            true
        } else if eq2(key, 'b', 'd') {
            self.filekinds.block_device = style;
            true
        } else if eq2(key, 'c', 'd') {
            self.filekinds.char_device = style;
            true
        } else if eq2(key, 'e', 'x') {
            self.filekinds.executable = style;
            true
        } else if eq2(key, 'o', 'r') {
            self.broken_symlink = style;
            true
        } else {
            false
        }
    }

    #[verifier::rlimit(50)]
    fn set_exa_perms(&mut self, key: &Vec<char>, style: Style) -> (r: bool)
        ensures
            r == (exa_slots_perms(key@) is Some),
            match apply_exa_perms(*old(self), key@, style) {
                Some(u) => *final(self) == u,
                None => *final(self) == *old(self),
            },
    {
        if eq2(key, 'u', 'r') {
            self.perms.user_read = style;
            true
        } else if eq2(key, 'u', 'w') {
            self.perms.user_write = style;
            true
        } else if eq2(key, 'u', 'x') {
            self.perms.user_execute_file = style;
            true
        } else if eq2(key, 'u', 'e') {
            self.perms.user_execute_other = style;
            true
        } else if eq2(key, 'g', 'r') {
            self.perms.group_read = style;
            true
        } else if eq2(key, 'g', 'w') {
            self.perms.group_write = style;
            true
        } else if eq2(key, 'g', 'x') {
            self.perms.group_execute = style;
            true
        } else if eq2(key, 't', 'r') {
            self.perms.other_read = style;
            true
        } else if eq2(key, 't', 'w') {
            self.perms.other_write = style;
            true
        } else if eq2(key, 't', 'x') {
            self.perms.other_execute = style;
            true
        } else if eq2(key, 's', 'u') {
            self.perms.special_user_file = style;
            true
        } else if eq2(key, 's', 'f') {
            self.perms.special_other = style;
            true
        } else if eq2(key, 'x', 'a') {
            self.perms.attribute = style;
            true
        } else {
            false
        }
    }

    #[verifier::rlimit(50)]
    fn set_exa_size(&mut self, key: &Vec<char>, style: Style) -> (r: bool)
        ensures
            r == (exa_slots_size(key@) is Some),
            match apply_exa_size(*old(self), key@, style) {
                Some(u) => *final(self) == u,
                None => *final(self) == *old(self),
            },
    {
        if eq2(key, 's', 'n') {
            self.size.number_byte = style;
            self.size.number_kilo = style;
            self.size.number_mega = style;
            self.size.number_giga = style;
            self.size.number_huge = style;
            true
        } else if eq2(key, 's', 'b') {
            self.size.unit_byte = style;
            self.size.unit_kilo = style;
            self.size.unit_mega = style;
            self.size.unit_giga = style;
            self.size.unit_huge = style;
            true
        } else if eq2(key, 'n', 'b') {
            self.size.number_byte = style;
            true
        } else if eq2(key, 'n', 'k') {
            self.size.number_kilo = style;
            true
        } else if eq2(key, 'n', 'm') {
            self.size.number_mega = style;
            true
        } else if eq2(key, 'n', 'g') {
            self.size.number_giga = style;
            true
        } else if eq2(key, 'n', 't') {
            self.size.number_huge = style;
            true
        } else if eq2(key, 'u', 'b') {
            self.size.unit_byte = style;
            true
        } else if eq2(key, 'u', 'k') {
            self.size.unit_kilo = style;
            true
        } else if eq2(key, 'u', 'm') {
            self.size.unit_mega = style;
            true
        } else if eq2(key, 'u', 'g') {
            self.size.unit_giga = style;
            true
        } else if eq2(key, 'u', 't') {
            self.size.unit_huge = style;
            true
        } else if eq2(key, 'd', 'f') {
            self.size.major = style;
            true
        } else if eq2(key, 'd', 's') {
            self.size.minor = style;
            true
        } else {
            false
        }
    }

    #[verifier::rlimit(50)]
    fn set_exa_owners(&mut self, key: &Vec<char>, style: Style) -> (r: bool)
        ensures
            r == (exa_slots_owners(key@) is Some),
            match apply_exa_owners(*old(self), key@, style) {
                Some(u) => *final(self) == u,
                None => *final(self) == *old(self),
            },
    {
        if eq2(key, 'u', 'u') {
            self.users.user_you = style;
            true
        } else if eq2(key, 'u', 'R') {
            self.users.user_root = style;
            true
        } else if eq2(key, 'u', 'n') {
            self.users.user_other = style;
            true
        } else if eq2(key, 'g', 'u') {
            self.users.group_yours = style;
            true
        } else if eq2(key, 'g', 'R') {
            self.users.group_root = style;
            true
        } else if eq2(key, 'g', 'n') {
            self.users.group_other = style;
            true
        } else if eq2(key, 'l', 'c') {
            self.links.normal = style;
            true
        } else if eq2(key, 'l', 'm') {
            self.links.multi_link_file = style;
            true
        } else {
            false
        }
    }

    #[verifier::rlimit(50)]
    fn set_exa_vcs(&mut self, key: &Vec<char>, style: Style) -> (r: bool)
        ensures
            r == (exa_slots_vcs(key@) is Some),
            match apply_exa_vcs(*old(self), key@, style) {
                Some(u) => *final(self) == u,
                None => *final(self) == *old(self),
            },
    {
        if eq2(key, 'g', 'a') {
            self.git.new = style;
            true
        } else if eq2(key, 'g', 'm') {
            self.git.modified = style;
            true
        } else if eq2(key, 'g', 'd') {
            self.git.deleted = style;
            true
        } else if eq2(key, 'g', 'v') {
            self.git.renamed = style;
            true
        } else if eq2(key, 'g', 't') {
            self.git.typechange = style;
            true
        } else if eq2(key, 'g', 'i') {
            self.git.ignored = style;
            true
        } else if eq2(key, 'g', 'c') {
            self.git.conflicted = style;
            true
        } else if eq2(key, 'G', 'm') {
            self.git_repo.branch_main = style;
            true
        } else if eq2(key, 'G', 'o') {
            self.git_repo.branch_other = style;
            true
        } else if eq2(key, 'G', 'c') {
            self.git_repo.git_clean = style;
            true
        } else if eq2(key, 'G', 'd') {
            self.git_repo.git_dirty = style;
            true
        } else {
            false
        }
    }

    #[verifier::rlimit(50)]
    fn set_exa_details(&mut self, key: &Vec<char>, style: Style) -> (r: bool)
        ensures
            r == (exa_slots_details(key@) is Some),
            match apply_exa_details(*old(self), key@, style) {
                Some(u) => *final(self) == u,
                None => *final(self) == *old(self),
            },
    {
        if eq2(key, 'x', 'x') {
            self.punctuation = style;
            true
        } else if eq2(key, 'd', 'a') {
            self.date = style;
            true
        } else if eq2(key, 'i', 'n') {
            self.inode = style;
            true
        } else if eq2(key, 'b', 'l') {
            self.blocks = style;
            true
        } else if eq2(key, 'h', 'd') {
            self.header = style;
            true
        } else if eq2(key, 'l', 'p') {
            self.symlink_path = style;
            true
        } else if eq2(key, 'c', 'c') {
            self.control_char = style;
            true
        } else if eq2(key, 'b', 'O') {
            self.broken_path_overlay = style;
            true
        } else if eq2(key, 'o', 'c') {
            self.octal = style;
            true
        } else if eq2(key, 'f', 'f') {
            self.flags = style;
            true
        } else {
            false
        }
    }

    #[verifier::rlimit(50)]
    fn set_exa_kinds(&mut self, key: &Vec<char>, style: Style) -> (r: bool)
        ensures
            r == (exa_slots_kinds(key@) is Some),
            match apply_exa_kinds(*old(self), key@, style) {
                Some(u) => *final(self) == u,
                None => *final(self) == *old(self),
            },
    {
        if eq2(key, 'm', 'p') {
            self.filekinds.mount_point = style;
            true
        } else if eq2(key, 's', 'p') {
            self.filekinds.special = style;
            true
        } else if eq2(key, 'i', 'm') {
            self.file_type.image = style;
            true
        } else if eq2(key, 'v', 'i') {
            self.file_type.video = style;
            true
        } else if eq2(key, 'm', 'u') {
            self.file_type.music = style;
            true
        } else if eq2(key, 'l', 'o') {
            self.file_type.lossless = style;
            true
        } else if eq2(key, 'c', 'r') {
            self.file_type.crypto = style;
            true
        } else if eq2(key, 'd', 'o') {
            self.file_type.document = style;
            true
        } else if eq2(key, 'c', 'o') {
            self.file_type.compressed = style;
            true
        } else if eq2(key, 't', 'm') {
            self.file_type.temp = style;
            true
        } else if eq2(key, 'c', 'm') {
            self.file_type.compiled = style;
            true
        } else if eq2(key, 'b', 'u') {
            self.file_type.build = style;
            true
        } else if eq2(key, 's', 'c') {
            self.file_type.source = style;
            true
        } else {
            false
        }
    }

    #[verifier::rlimit(50)]
    fn set_exa_security(&mut self, key: &Vec<char>, style: Style) -> (r: bool)
        ensures
            r == (exa_slots_security(key@) is Some),
            match apply_exa_security(*old(self), key@, style) {
                Some(u) => *final(self) == u,
                None => *final(self) == *old(self),
            },
    {
        if eq2(key, 'S', 'n') {
            self.security_context.none = style;
            true
        } else if eq2(key, 'S', 'u') {
            self.security_context.selinux.user = style;
            true
        } else if eq2(key, 'S', 'r') {
            self.security_context.selinux.role = style;
            true
        } else if eq2(key, 'S', 't') {
            self.security_context.selinux.typ = style;
            true
        } else if eq2(key, 'S', 'l') {
            self.security_context.selinux.range = style;
            true
        } else {
            false
        }
    }

    /// Overwrite the slots an extended code names with `style`; report
    /// whether the key was such a code. An unrecognized key leaves the
    /// table as it was.
    pub fn set_exa(&mut self, key: &Vec<char>, style: Style) -> (r: bool)
        ensures
            r == (exa_slots(key@) is Some),
            match apply_exa_key(*old(self), key@, style) {
                Some(u) => *final(self) == u,
                None => *final(self) == *old(self),
            },
    {
        if self.set_exa_perms(key, style) {
            true
        } else if self.set_exa_size(key, style) {
            true
        } else if self.set_exa_owners(key, style) {
            true
        } else if self.set_exa_vcs(key, style) {
            true
        } else if self.set_exa_details(key, style) {
            true
        } else if self.set_exa_kinds(key, style) {
            true
        } else if self.set_exa_security(key, style) {
            true
        } else {
            false
        }
    }
}

// ---------------------------------------------------------------------------
// Built-in themes
// ---------------------------------------------------------------------------

/// The colour-scale configuration: whether size magnitudes are coloured in
/// graduated steps rather than in one flat colour.
#[derive(Clone, Copy, Debug, PartialEq, Eq)]
pub struct ColorScaleOptions {
    pub size: bool,
}

impl UiStyles {
    /// The all-plain table used when colours are disabled.
    pub open spec fn spec_plain() -> UiStyles {
        UiStyles {
            filekinds: FileKinds {
                normal: Style::spec_plain(),
                directory: Style::spec_plain(),
                symlink: Style::spec_plain(),
                pipe: Style::spec_plain(),
                block_device: Style::spec_plain(),
                char_device: Style::spec_plain(),
                socket: Style::spec_plain(),
                special: Style::spec_plain(),
                executable: Style::spec_plain(),
                mount_point: Style::spec_plain(),
            },
            perms: Permissions {
                user_read: Style::spec_plain(),
                user_write: Style::spec_plain(),
                user_execute_file: Style::spec_plain(),
                user_execute_other: Style::spec_plain(),
                group_read: Style::spec_plain(),
                group_write: Style::spec_plain(),
                group_execute: Style::spec_plain(),
                other_read: Style::spec_plain(),
                other_write: Style::spec_plain(),
                other_execute: Style::spec_plain(),
                special_user_file: Style::spec_plain(),
                special_other: Style::spec_plain(),
                attribute: Style::spec_plain(),
            },
            users: Users {
                user_you: Style::spec_plain(),
                user_root: Style::spec_plain(),
                user_other: Style::spec_plain(),
                group_yours: Style::spec_plain(),
                group_root: Style::spec_plain(),
                group_other: Style::spec_plain(),
            },
            links: Links {
                normal: Style::spec_plain(),
                multi_link_file: Style::spec_plain(),
            },
            git: Git {
                new: Style::spec_plain(),
                modified: Style::spec_plain(),
                deleted: Style::spec_plain(),
                renamed: Style::spec_plain(),
                typechange: Style::spec_plain(),
                ignored: Style::spec_plain(),
                conflicted: Style::spec_plain(),
            },
            git_repo: GitRepo {
                branch_main: Style::spec_plain(),
                branch_other: Style::spec_plain(),
                git_clean: Style::spec_plain(),
                git_dirty: Style::spec_plain(),
            },
            file_type: FileType {
                image: Style::spec_plain(),
                video: Style::spec_plain(),
                music: Style::spec_plain(),
                lossless: Style::spec_plain(),
                crypto: Style::spec_plain(),
                document: Style::spec_plain(),
                compressed: Style::spec_plain(),
                temp: Style::spec_plain(),
                compiled: Style::spec_plain(),
                build: Style::spec_plain(),
                source: Style::spec_plain(),
            },
            size: Size {
                major: Style::spec_plain(),
                minor: Style::spec_plain(),
                number_byte: Style::spec_plain(),
                number_kilo: Style::spec_plain(),
                number_mega: Style::spec_plain(),
                number_giga: Style::spec_plain(),
                number_huge: Style::spec_plain(),
                unit_byte: Style::spec_plain(),
                unit_kilo: Style::spec_plain(),
                unit_mega: Style::spec_plain(),
                unit_giga: Style::spec_plain(),
                unit_huge: Style::spec_plain(),
            },
            security_context: SecurityContext {
                none: Style::spec_plain(),
                selinux: SELinuxColours {
                    colon: Style::spec_plain(),
                    user: Style::spec_plain(),
                    role: Style::spec_plain(),
                    typ: Style::spec_plain(),
                    range: Style::spec_plain(),
                },
            },
            punctuation: Style::spec_plain(),
            date: Style::spec_plain(),
            inode: Style::spec_plain(),
            blocks: Style::spec_plain(),
            header: Style::spec_plain(),
            octal: Style::spec_plain(),
            flags: Style::spec_plain(),
            symlink_path: Style::spec_plain(),
            control_char: Style::spec_plain(),
            broken_symlink: Style::spec_plain(),
            broken_path_overlay: Style::spec_plain(),
        }
    }

    pub fn plain() -> (r: UiStyles)
        ensures
            r == UiStyles::spec_plain(),
    {
        UiStyles {
            filekinds: FileKinds {
                normal: Style::plain(),
                directory: Style::plain(),
                symlink: Style::plain(),
                pipe: Style::plain(),
                block_device: Style::plain(),
                char_device: Style::plain(),
                socket: Style::plain(),
                special: Style::plain(),
                executable: Style::plain(),
                mount_point: Style::plain(),
            },
            perms: Permissions {
                user_read: Style::plain(),
                user_write: Style::plain(),
                user_execute_file: Style::plain(),
                user_execute_other: Style::plain(),
                group_read: Style::plain(),
                group_write: Style::plain(),
                group_execute: Style::plain(),
                other_read: Style::plain(),
                other_write: Style::plain(),
                other_execute: Style::plain(),
                special_user_file: Style::plain(),
                special_other: Style::plain(),
                attribute: Style::plain(),
            },
            users: Users {
                user_you: Style::plain(),
                user_root: Style::plain(),
                user_other: Style::plain(),
                group_yours: Style::plain(),
                group_root: Style::plain(),
                group_other: Style::plain(),
            },
            links: Links {
                normal: Style::plain(),
                multi_link_file: Style::plain(),
            },
            git: Git {
                new: Style::plain(),
                modified: Style::plain(),
                deleted: Style::plain(),
                renamed: Style::plain(),
                typechange: Style::plain(),
                ignored: Style::plain(),
                conflicted: Style::plain(),
            },
            git_repo: GitRepo {
                branch_main: Style::plain(),
                branch_other: Style::plain(),
                git_clean: Style::plain(),
                git_dirty: Style::plain(),
            },
            file_type: FileType {
                image: Style::plain(),
                video: Style::plain(),
                music: Style::plain(),
                lossless: Style::plain(),
                crypto: Style::plain(),
                document: Style::plain(),
                compressed: Style::plain(),
                temp: Style::plain(),
                compiled: Style::plain(),
                build: Style::plain(),
                source: Style::plain(),
            },
            size: Size {
                major: Style::plain(),
                minor: Style::plain(),
                number_byte: Style::plain(),
                number_kilo: Style::plain(),
                number_mega: Style::plain(),
                number_giga: Style::plain(),
                number_huge: Style::plain(),
                unit_byte: Style::plain(),
                unit_kilo: Style::plain(),
                unit_mega: Style::plain(),
                unit_giga: Style::plain(),
                unit_huge: Style::plain(),
            },
            security_context: SecurityContext {
                none: Style::plain(),
                selinux: SELinuxColours {
                    colon: Style::plain(),
                    user: Style::plain(),
                    role: Style::plain(),
                    typ: Style::plain(),
                    range: Style::plain(),
                },
            },
            punctuation: Style::plain(),
            date: Style::plain(),
            inode: Style::plain(),
            blocks: Style::plain(),
            header: Style::plain(),
            octal: Style::plain(),
            flags: Style::plain(),
            symlink_path: Style::plain(),
            control_char: Style::plain(),
            broken_symlink: Style::plain(),
            broken_path_overlay: Style::plain(),
        }
    }

    /// The size-column styles of the default theme: flat green, or
    /// graduated steps when the colour scale asks for them.
    pub open spec fn spec_default_size(scale: ColorScaleOptions) -> Size {
        if scale.size {
            Size {
                major: (Style { foreground: Some(Color::Green), is_bold: true, ..Style::spec_plain() }),
                minor: (Style { foreground: Some(Color::Green), ..Style::spec_plain() }),
                number_byte: (Style { foreground: Some(Color::Fixed(118)), ..Style::spec_plain() }),
                number_kilo: (Style { foreground: Some(Color::Fixed(190)), ..Style::spec_plain() }),
                number_mega: (Style { foreground: Some(Color::Fixed(226)), ..Style::spec_plain() }),
                number_giga: (Style { foreground: Some(Color::Fixed(220)), ..Style::spec_plain() }),
                number_huge: (Style { foreground: Some(Color::Fixed(214)), ..Style::spec_plain() }),
                unit_byte: (Style { foreground: Some(Color::Fixed(118)), ..Style::spec_plain() }),
                unit_kilo: (Style { foreground: Some(Color::Fixed(190)), ..Style::spec_plain() }),
                unit_mega: (Style { foreground: Some(Color::Fixed(226)), ..Style::spec_plain() }),
                unit_giga: (Style { foreground: Some(Color::Fixed(220)), ..Style::spec_plain() }),
                unit_huge: (Style { foreground: Some(Color::Fixed(214)), ..Style::spec_plain() }),
            }
        } else {
            Size {
                major: (Style { foreground: Some(Color::Green), is_bold: true, ..Style::spec_plain() }),
                minor: (Style { foreground: Some(Color::Green), ..Style::spec_plain() }),
                number_byte: (Style { foreground: Some(Color::Green), is_bold: true, ..Style::spec_plain() }),
                number_kilo: (Style { foreground: Some(Color::Green), is_bold: true, ..Style::spec_plain() }),
                number_mega: (Style { foreground: Some(Color::Green), is_bold: true, ..Style::spec_plain() }),
                number_giga: (Style { foreground: Some(Color::Green), is_bold: true, ..Style::spec_plain() }),
                number_huge: (Style { foreground: Some(Color::Green), is_bold: true, ..Style::spec_plain() }),
                unit_byte: (Style { foreground: Some(Color::Green), ..Style::spec_plain() }),
                unit_kilo: (Style { foreground: Some(Color::Green), ..Style::spec_plain() }),
                unit_mega: (Style { foreground: Some(Color::Green), ..Style::spec_plain() }),
                unit_giga: (Style { foreground: Some(Color::Green), ..Style::spec_plain() }),
                unit_huge: (Style { foreground: Some(Color::Green), ..Style::spec_plain() }),
            }
        }
    }

    /// The hard-coded default theme that the spec parser then amends.
    pub open spec fn spec_default_theme(scale: ColorScaleOptions) -> UiStyles {
        UiStyles {
            filekinds: FileKinds {
                normal: Style::spec_plain(),
                directory: (Style { foreground: Some(Color::Blue), is_bold: true, ..Style::spec_plain() }),
                symlink: (Style { foreground: Some(Color::Cyan), ..Style::spec_plain() }),
                pipe: (Style { foreground: Some(Color::Yellow), ..Style::spec_plain() }),
                block_device: (Style { foreground: Some(Color::Yellow), is_bold: true, ..Style::spec_plain() }),
                char_device: (Style { foreground: Some(Color::Yellow), is_bold: true, ..Style::spec_plain() }),
                socket: (Style { foreground: Some(Color::Red), is_bold: true, ..Style::spec_plain() }),
                special: (Style { foreground: Some(Color::Yellow), ..Style::spec_plain() }),
                executable: (Style { foreground: Some(Color::Green), is_bold: true, ..Style::spec_plain() }),
                mount_point: (Style { foreground: Some(Color::Blue), is_bold: true, is_underline: true, ..Style::spec_plain() }),
            },
            perms: Permissions {
                user_read: (Style { foreground: Some(Color::Yellow), is_bold: true, ..Style::spec_plain() }),
                user_write: (Style { foreground: Some(Color::Red), is_bold: true, ..Style::spec_plain() }),
                user_execute_file: (Style { foreground: Some(Color::Green), is_bold: true, is_underline: true, ..Style::spec_plain() }),
                user_execute_other: (Style { foreground: Some(Color::Green), is_bold: true, ..Style::spec_plain() }),
                group_read: (Style { foreground: Some(Color::Yellow), ..Style::spec_plain() }),
                group_write: (Style { foreground: Some(Color::Red), ..Style::spec_plain() }),
                group_execute: (Style { foreground: Some(Color::Green), ..Style::spec_plain() }),
                other_read: (Style { foreground: Some(Color::Yellow), ..Style::spec_plain() }),
                other_write: (Style { foreground: Some(Color::Red), ..Style::spec_plain() }),
                other_execute: (Style { foreground: Some(Color::Green), ..Style::spec_plain() }),
                special_user_file: (Style { foreground: Some(Color::Purple), ..Style::spec_plain() }),
                special_other: (Style { foreground: Some(Color::Purple), ..Style::spec_plain() }),
                attribute: Style::spec_plain(),
            },
            users: Users {
                user_you: (Style { foreground: Some(Color::Yellow), is_bold: true, ..Style::spec_plain() }),
                user_root: (Style { foreground: Some(Color::Red), is_bold: true, ..Style::spec_plain() }),
                user_other: Style::spec_plain(),
                group_yours: (Style { foreground: Some(Color::Yellow), is_bold: true, ..Style::spec_plain() }),
                group_root: (Style { foreground: Some(Color::Red), is_bold: true, ..Style::spec_plain() }),
                group_other: Style::spec_plain(),
            },
            links: Links {
                normal: (Style { foreground: Some(Color::Red), is_bold: true, ..Style::spec_plain() }),
                multi_link_file: (Style { foreground: Some(Color::Red), background: Some(Color::Yellow), ..Style::spec_plain() }),
            },
            git: Git {
                new: (Style { foreground: Some(Color::Green), ..Style::spec_plain() }),
                modified: (Style { foreground: Some(Color::Blue), ..Style::spec_plain() }),
                deleted: (Style { foreground: Some(Color::Red), ..Style::spec_plain() }),
                renamed: (Style { foreground: Some(Color::Yellow), ..Style::spec_plain() }),
                typechange: (Style { foreground: Some(Color::Purple), ..Style::spec_plain() }),
                ignored: (Style { is_dimmed: true, ..Style::spec_plain() }),
                conflicted: (Style { foreground: Some(Color::Red), ..Style::spec_plain() }),
            },
            git_repo: GitRepo {
                branch_main: (Style { foreground: Some(Color::Green), ..Style::spec_plain() }),
                branch_other: (Style { foreground: Some(Color::Yellow), ..Style::spec_plain() }),
                git_clean: (Style { foreground: Some(Color::Green), ..Style::spec_plain() }),
                git_dirty: (Style { foreground: Some(Color::Yellow), is_bold: true, ..Style::spec_plain() }),
            },
            file_type: FileType {
                image: (Style { foreground: Some(Color::Fixed(133)), ..Style::spec_plain() }),
                video: (Style { foreground: Some(Color::Fixed(135)), ..Style::spec_plain() }),
                music: (Style { foreground: Some(Color::Fixed(92)), ..Style::spec_plain() }),
                lossless: (Style { foreground: Some(Color::Fixed(93)), ..Style::spec_plain() }),
                crypto: (Style { foreground: Some(Color::Fixed(109)), ..Style::spec_plain() }),
                document: (Style { foreground: Some(Color::Fixed(105)), ..Style::spec_plain() }),
                compressed: (Style { foreground: Some(Color::Red), ..Style::spec_plain() }),
                temp: (Style { foreground: Some(Color::Fixed(244)), ..Style::spec_plain() }),
                compiled: (Style { foreground: Some(Color::Fixed(137)), ..Style::spec_plain() }),
                build: (Style { foreground: Some(Color::Fixed(130)), ..Style::spec_plain() }),
                source: (Style { foreground: Some(Color::Fixed(111)), ..Style::spec_plain() }),
            },
            size: UiStyles::spec_default_size(scale),
            security_context: SecurityContext {
                none: (Style { foreground: Some(Color::Fixed(245)), ..Style::spec_plain() }),
                selinux: SELinuxColours {
                    colon: (Style { foreground: Some(Color::Fixed(245)), ..Style::spec_plain() }),
                    user: (Style { foreground: Some(Color::Blue), ..Style::spec_plain() }),
                    role: (Style { foreground: Some(Color::Green), ..Style::spec_plain() }),
                    typ: (Style { foreground: Some(Color::Yellow), ..Style::spec_plain() }),
                    range: (Style { foreground: Some(Color::Cyan), ..Style::spec_plain() }),
                },
            },
            punctuation: (Style { foreground: Some(Color::Fixed(244)), ..Style::spec_plain() }),
            date: (Style { foreground: Some(Color::Blue), ..Style::spec_plain() }),
            inode: (Style { foreground: Some(Color::Purple), ..Style::spec_plain() }),
            blocks: (Style { foreground: Some(Color::Cyan), ..Style::spec_plain() }),
            header: (Style { is_underline: true, ..Style::spec_plain() }),
            octal: (Style { foreground: Some(Color::Purple), ..Style::spec_plain() }),
            flags: Style::spec_plain(),
            symlink_path: (Style { foreground: Some(Color::Cyan), ..Style::spec_plain() }),
            control_char: (Style { foreground: Some(Color::Red), ..Style::spec_plain() }),
            broken_symlink: (Style { foreground: Some(Color::Red), ..Style::spec_plain() }),
            broken_path_overlay: (Style { is_underline: true, ..Style::spec_plain() }),
        }
    }

    pub fn default_theme(scale: ColorScaleOptions) -> (r: UiStyles)
        ensures
            r == UiStyles::spec_default_theme(scale),
    {
        let size = if scale.size {
            Size {
                major: Color::Green.bold(),
                minor: Color::Green.normal(),
                number_byte: Color::Fixed(118).normal(),
                number_kilo: Color::Fixed(190).normal(),
                number_mega: Color::Fixed(226).normal(),
                number_giga: Color::Fixed(220).normal(),
                number_huge: Color::Fixed(214).normal(),
                unit_byte: Color::Fixed(118).normal(),
                unit_kilo: Color::Fixed(190).normal(),
                unit_mega: Color::Fixed(226).normal(),
                unit_giga: Color::Fixed(220).normal(),
                unit_huge: Color::Fixed(214).normal(),
            }
        } else {
            Size {
                major: Color::Green.bold(),
                minor: Color::Green.normal(),
                number_byte: Color::Green.bold(),
                number_kilo: Color::Green.bold(),
                number_mega: Color::Green.bold(),
                number_giga: Color::Green.bold(),
                number_huge: Color::Green.bold(),
                unit_byte: Color::Green.normal(),
                unit_kilo: Color::Green.normal(),
                unit_mega: Color::Green.normal(),
                unit_giga: Color::Green.normal(),
                unit_huge: Color::Green.normal(),
            }
        };
        UiStyles {
            filekinds: FileKinds {
                normal: Style::plain(),
                directory: Color::Blue.bold(),
                symlink: Color::Cyan.normal(),
                pipe: Color::Yellow.normal(),
                block_device: Color::Yellow.bold(),
                char_device: Color::Yellow.bold(),
                socket: Color::Red.bold(),
                special: Color::Yellow.normal(),
                executable: Color::Green.bold(),
                mount_point: Color::Blue.bold().underline(),
            },
            perms: Permissions {
                user_read: Color::Yellow.bold(),
                user_write: Color::Red.bold(),
                user_execute_file: Color::Green.bold().underline(),
                user_execute_other: Color::Green.bold(),
                group_read: Color::Yellow.normal(),
                group_write: Color::Red.normal(),
                group_execute: Color::Green.normal(),
                other_read: Color::Yellow.normal(),
                other_write: Color::Red.normal(),
                other_execute: Color::Green.normal(),
                special_user_file: Color::Purple.normal(),
                special_other: Color::Purple.normal(),
                attribute: Style::plain(),
            },
            users: Users {
                user_you: Color::Yellow.bold(),
                user_root: Color::Red.bold(),
                user_other: Style::plain(),
                group_yours: Color::Yellow.bold(),
                group_root: Color::Red.bold(),
                group_other: Style::plain(),
            },
            links: Links {
                normal: Color::Red.bold(),
                multi_link_file: Color::Red.normal().on(Color::Yellow),
            },
            git: Git {
                new: Color::Green.normal(),
                modified: Color::Blue.normal(),
                deleted: Color::Red.normal(),
                renamed: Color::Yellow.normal(),
                typechange: Color::Purple.normal(),
                ignored: Style::plain().dimmed(),
                conflicted: Color::Red.normal(),
            },
            git_repo: GitRepo {
                branch_main: Color::Green.normal(),
                branch_other: Color::Yellow.normal(),
                git_clean: Color::Green.normal(),
                git_dirty: Color::Yellow.bold(),
            },
            file_type: FileType {
                image: Color::Fixed(133).normal(),
                video: Color::Fixed(135).normal(),
                music: Color::Fixed(92).normal(),
                lossless: Color::Fixed(93).normal(),
                crypto: Color::Fixed(109).normal(),
                document: Color::Fixed(105).normal(),
                compressed: Color::Red.normal(),
                temp: Color::Fixed(244).normal(),
                compiled: Color::Fixed(137).normal(),
                build: Color::Fixed(130).normal(),
                source: Color::Fixed(111).normal(),
            },
            size,
            security_context: SecurityContext {
                none: Color::Fixed(245).normal(),
                selinux: SELinuxColours {
                    colon: Color::Fixed(245).normal(),
                    user: Color::Blue.normal(),
                    role: Color::Green.normal(),
                    typ: Color::Yellow.normal(),
                    range: Color::Cyan.normal(),
                },
            },
            punctuation: Color::Fixed(244).normal(),
            date: Color::Blue.normal(),
            inode: Color::Purple.normal(),
            blocks: Color::Cyan.normal(),
            header: Style::plain().underline(),
            octal: Color::Purple.normal(),
            flags: Style::plain(),
            symlink_path: Color::Cyan.normal(),
            control_char: Color::Red.normal(),
            broken_symlink: Color::Red.normal(),
            broken_path_overlay: Style::plain().underline(),
        }
    }
}

impl Default for UiStyles {
    fn default() -> (r: UiStyles)
        ensures
            r == UiStyles::spec_plain(),
    {
        UiStyles::plain()
    }
}

/// Law: a valid legacy two-letter code updates exactly its own slot and no
/// other slot of the table.
#[verifier::rlimit(100)]
pub proof fn lemma_legacy_updates_exactly_one_slot(ui: UiStyles, key: Seq<char>, st: Style)
    requires
        ls_slot(key) is Some,
    ensures
        apply_ls_key(ui, key, st) is Some,
        (apply_ls_key(ui, key, st)->Some_0).slot(ls_slot(key)->Some_0) == st,
        forall|j: SlotId|
            j != ls_slot(key)->Some_0 ==> (apply_ls_key(ui, key, st)->Some_0).slot(j)
                == ui.slot(j),
{
}

// ---------------------------------------------------------------------------
// Slot-level characterization of the code assignments
// ---------------------------------------------------------------------------

proof fn lemma_contains_one(s: Seq<SlotId>, a: SlotId)
    requires
        s == seq![a],
    ensures
        forall|j: SlotId| #[trigger] s.contains(j) <==> j == a,
{
    assert forall|j: SlotId| #[trigger] s.contains(j) <==> j == a by {
        assert(s[0] == a);
        if s.contains(j) {
            let k = choose|k: int| 0 <= k < s.len() && s[k] == j;
        }
    }
}

proof fn lemma_contains_five(s: Seq<SlotId>, a: SlotId, b: SlotId, c: SlotId, d: SlotId, e: SlotId)
    requires
        s == seq![a, b, c, d, e],
    ensures
        forall|j: SlotId| #[trigger] s.contains(j) <==> (j == a || j == b || j == c || j == d || j
            == e),
{
    assert forall|j: SlotId| #[trigger] s.contains(j) <==> (j == a || j == b || j == c || j == d
        || j == e) by {
        assert(s[0] == a && s[1] == b && s[2] == c && s[3] == d && s[4] == e);
        if s.contains(j) {
            let k = choose|k: int| 0 <= k < s.len() && s[k] == j;
        }
    }
}

#[verifier::rlimit(100)]
proof fn lemma_exa_perms_slots(ui: UiStyles, key: Seq<char>, st: Style)
    requires
        exa_slots_perms(key) is Some,
    ensures
        apply_exa_perms(ui, key, st) is Some,
        forall|j: SlotId|
            (apply_exa_perms(ui, key, st)->Some_0).slot(j) == if exa_slots_perms(
                key,
            )->Some_0.contains(j) {
                st
            } else {
                ui.slot(j)
            },
{
    if key == seq!['u', 'r'] {
        lemma_contains_one(exa_slots_perms(key)->Some_0, SlotId::PermUserRead);
    } else if key == seq!['u', 'w'] {
        lemma_contains_one(exa_slots_perms(key)->Some_0, SlotId::PermUserWrite);
    } else if key == seq!['u', 'x'] {
        lemma_contains_one(exa_slots_perms(key)->Some_0, SlotId::PermUserExecuteFile);
    } else if key == seq!['u', 'e'] {
        lemma_contains_one(exa_slots_perms(key)->Some_0, SlotId::PermUserExecuteOther);
    } else if key == seq!['g', 'r'] {
        lemma_contains_one(exa_slots_perms(key)->Some_0, SlotId::PermGroupRead);
    } else if key == seq!['g', 'w'] {
        lemma_contains_one(exa_slots_perms(key)->Some_0, SlotId::PermGroupWrite);
    } else if key == seq!['g', 'x'] {
        lemma_contains_one(exa_slots_perms(key)->Some_0, SlotId::PermGroupExecute);
    } else if key == seq!['t', 'r'] {
        lemma_contains_one(exa_slots_perms(key)->Some_0, SlotId::PermOtherRead);
    } else if key == seq!['t', 'w'] {
        lemma_contains_one(exa_slots_perms(key)->Some_0, SlotId::PermOtherWrite);
    } else if key == seq!['t', 'x'] {
        lemma_contains_one(exa_slots_perms(key)->Some_0, SlotId::PermOtherExecute);
    } else if key == seq!['s', 'u'] {
        lemma_contains_one(exa_slots_perms(key)->Some_0, SlotId::PermSpecialUserFile);
    } else if key == seq!['s', 'f'] {
        lemma_contains_one(exa_slots_perms(key)->Some_0, SlotId::PermSpecialOther);
    } else if key == seq!['x', 'a'] {
        lemma_contains_one(exa_slots_perms(key)->Some_0, SlotId::PermAttribute);
    }
}

#[verifier::rlimit(100)]
proof fn lemma_exa_size_slots(ui: UiStyles, key: Seq<char>, st: Style)
    requires
        exa_slots_size(key) is Some,
    ensures
        apply_exa_size(ui, key, st) is Some,
        forall|j: SlotId|
            (apply_exa_size(ui, key, st)->Some_0).slot(j) == if exa_slots_size(
                key,
            )->Some_0.contains(j) {
                st
            } else {
                ui.slot(j)
            },
{
    if key == seq!['s', 'n'] {
        lemma_contains_five(exa_slots_size(key)->Some_0, SlotId::SizeNumberByte, SlotId::SizeNumberKilo, SlotId::SizeNumberMega, SlotId::SizeNumberGiga, SlotId::SizeNumberHuge);
    } else if key == seq!['s', 'b'] {
        lemma_contains_five(exa_slots_size(key)->Some_0, SlotId::SizeUnitByte, SlotId::SizeUnitKilo, SlotId::SizeUnitMega, SlotId::SizeUnitGiga, SlotId::SizeUnitHuge);
    } else if key == seq!['n', 'b'] {
        lemma_contains_one(exa_slots_size(key)->Some_0, SlotId::SizeNumberByte);
    } else if key == seq!['n', 'k'] {
        lemma_contains_one(exa_slots_size(key)->Some_0, SlotId::SizeNumberKilo);
    } else if key == seq!['n', 'm'] {
        lemma_contains_one(exa_slots_size(key)->Some_0, SlotId::SizeNumberMega);
    } else if key == seq!['n', 'g'] {
        lemma_contains_one(exa_slots_size(key)->Some_0, SlotId::SizeNumberGiga);
    } else if key == seq!['n', 't'] {
        lemma_contains_one(exa_slots_size(key)->Some_0, SlotId::SizeNumberHuge);
    } else if key == seq!['u', 'b'] {
        lemma_contains_one(exa_slots_size(key)->Some_0, SlotId::SizeUnitByte);
    } else if key == seq!['u', 'k'] {
        lemma_contains_one(exa_slots_size(key)->Some_0, SlotId::SizeUnitKilo);
    } else if key == seq!['u', 'm'] {
        lemma_contains_one(exa_slots_size(key)->Some_0, SlotId::SizeUnitMega);
    } else if key == seq!['u', 'g'] {
        lemma_contains_one(exa_slots_size(key)->Some_0, SlotId::SizeUnitGiga);
    } else if key == seq!['u', 't'] {
        lemma_contains_one(exa_slots_size(key)->Some_0, SlotId::SizeUnitHuge);
    } else if key == seq!['d', 'f'] {
        lemma_contains_one(exa_slots_size(key)->Some_0, SlotId::SizeMajor);
    } else if key == seq!['d', 's'] {
        lemma_contains_one(exa_slots_size(key)->Some_0, SlotId::SizeMinor);
    }
}

#[verifier::rlimit(100)]
proof fn lemma_exa_owners_slots(ui: UiStyles, key: Seq<char>, st: Style)
    requires
        exa_slots_owners(key) is Some,
    ensures
        apply_exa_owners(ui, key, st) is Some,
        forall|j: SlotId|
            (apply_exa_owners(ui, key, st)->Some_0).slot(j) == if exa_slots_owners(
                key,
            )->Some_0.contains(j) {
                st
            } else {
                ui.slot(j)
            },
{
    if key == seq!['u', 'u'] {
        lemma_contains_one(exa_slots_owners(key)->Some_0, SlotId::UserYou);
    } else if key == seq!['u', 'R'] {
        lemma_contains_one(exa_slots_owners(key)->Some_0, SlotId::UserRoot);
    } else if key == seq!['u', 'n'] {
        lemma_contains_one(exa_slots_owners(key)->Some_0, SlotId::UserOther);
    } else if key == seq!['g', 'u'] {
        lemma_contains_one(exa_slots_owners(key)->Some_0, SlotId::GroupYours);
    } else if key == seq!['g', 'R'] {
        lemma_contains_one(exa_slots_owners(key)->Some_0, SlotId::GroupRoot);
    } else if key == seq!['g', 'n'] {
        lemma_contains_one(exa_slots_owners(key)->Some_0, SlotId::GroupOther);
    } else if key == seq!['l', 'c'] {
        lemma_contains_one(exa_slots_owners(key)->Some_0, SlotId::LinkNormal);
    } else if key == seq!['l', 'm'] {
        lemma_contains_one(exa_slots_owners(key)->Some_0, SlotId::LinkMultiLinkFile);
    }
}

#[verifier::rlimit(100)]
proof fn lemma_exa_vcs_slots(ui: UiStyles, key: Seq<char>, st: Style)
    requires
        exa_slots_vcs(key) is Some,
    ensures
        apply_exa_vcs(ui, key, st) is Some,
        forall|j: SlotId|
            (apply_exa_vcs(ui, key, st)->Some_0).slot(j) == if exa_slots_vcs(
                key,
            )->Some_0.contains(j) {
                st
            } else {
                ui.slot(j)
            },
{
    if key == seq!['g', 'a'] {
        lemma_contains_one(exa_slots_vcs(key)->Some_0, SlotId::GitNew);
    } else if key == seq!['g', 'm'] {
        lemma_contains_one(exa_slots_vcs(key)->Some_0, SlotId::GitModified);
    } else if key == seq!['g', 'd'] {
        lemma_contains_one(exa_slots_vcs(key)->Some_0, SlotId::GitDeleted);
    } else if key == seq!['g', 'v'] {
        lemma_contains_one(exa_slots_vcs(key)->Some_0, SlotId::GitRenamed);
    } else if key == seq!['g', 't'] {
        lemma_contains_one(exa_slots_vcs(key)->Some_0, SlotId::GitTypechange);
    } else if key == seq!['g', 'i'] {
        lemma_contains_one(exa_slots_vcs(key)->Some_0, SlotId::GitIgnored);
    } else if key == seq!['g', 'c'] {
        lemma_contains_one(exa_slots_vcs(key)->Some_0, SlotId::GitConflicted);
    } else if key == seq!['G', 'm'] {
        lemma_contains_one(exa_slots_vcs(key)->Some_0, SlotId::RepoBranchMain);
    } else if key == seq!['G', 'o'] {
        lemma_contains_one(exa_slots_vcs(key)->Some_0, SlotId::RepoBranchOther);
    } else if key == seq!['G', 'c'] {
        lemma_contains_one(exa_slots_vcs(key)->Some_0, SlotId::RepoGitClean);
    } else if key == seq!['G', 'd'] {
        lemma_contains_one(exa_slots_vcs(key)->Some_0, SlotId::RepoGitDirty);
    }
}

#[verifier::rlimit(100)]
proof fn lemma_exa_details_slots(ui: UiStyles, key: Seq<char>, st: Style)
    requires
        exa_slots_details(key) is Some,
    ensures
        apply_exa_details(ui, key, st) is Some,
        forall|j: SlotId|
            (apply_exa_details(ui, key, st)->Some_0).slot(j) == if exa_slots_details(
                key,
            )->Some_0.contains(j) {
                st
            } else {
                ui.slot(j)
            },
{
    if key == seq!['x', 'x'] {
        lemma_contains_one(exa_slots_details(key)->Some_0, SlotId::Punctuation);
    } else if key == seq!['d', 'a'] {
        lemma_contains_one(exa_slots_details(key)->Some_0, SlotId::Date);
    } else if key == seq!['i', 'n'] {
        lemma_contains_one(exa_slots_details(key)->Some_0, SlotId::Inode);
    } else if key == seq!['b', 'l'] {
        lemma_contains_one(exa_slots_details(key)->Some_0, SlotId::Blocks);
    } else if key == seq!['h', 'd'] {
        lemma_contains_one(exa_slots_details(key)->Some_0, SlotId::Header);
    } else if key == seq!['l', 'p'] {
        lemma_contains_one(exa_slots_details(key)->Some_0, SlotId::SymlinkPath);
    } else if key == seq!['c', 'c'] {
        lemma_contains_one(exa_slots_details(key)->Some_0, SlotId::ControlChar);
    } else if key == seq!['b', 'O'] {
        lemma_contains_one(exa_slots_details(key)->Some_0, SlotId::BrokenPathOverlay);
    } else if key == seq!['o', 'c'] {
        lemma_contains_one(exa_slots_details(key)->Some_0, SlotId::Octal);
    } else if key == seq!['f', 'f'] {
        lemma_contains_one(exa_slots_details(key)->Some_0, SlotId::Flags);
    }
}

#[verifier::rlimit(100)]
proof fn lemma_exa_kinds_slots(ui: UiStyles, key: Seq<char>, st: Style)
    requires
        exa_slots_kinds(key) is Some,
    ensures
        apply_exa_kinds(ui, key, st) is Some,
        forall|j: SlotId|
            (apply_exa_kinds(ui, key, st)->Some_0).slot(j) == if exa_slots_kinds(
                key,
            )->Some_0.contains(j) {
                st
            } else {
                ui.slot(j)
            },
{
    if key == seq!['m', 'p'] {
        lemma_contains_one(exa_slots_kinds(key)->Some_0, SlotId::KindMountPoint);
    } else if key == seq!['s', 'p'] {
        lemma_contains_one(exa_slots_kinds(key)->Some_0, SlotId::KindSpecial);
    } else if key == seq!['i', 'm'] {
        lemma_contains_one(exa_slots_kinds(key)->Some_0, SlotId::TypeImage);
    } else if key == seq!['v', 'i'] {
        lemma_contains_one(exa_slots_kinds(key)->Some_0, SlotId::TypeVideo);
    } else if key == seq!['m', 'u'] {
        lemma_contains_one(exa_slots_kinds(key)->Some_0, SlotId::TypeMusic);
    } else if key == seq!['l', 'o'] {
        lemma_contains_one(exa_slots_kinds(key)->Some_0, SlotId::TypeLossless);
    } else if key == seq!['c', 'r'] {
        lemma_contains_one(exa_slots_kinds(key)->Some_0, SlotId::TypeCrypto);
    } else if key == seq!['d', 'o'] {
        lemma_contains_one(exa_slots_kinds(key)->Some_0, SlotId::TypeDocument);
    } else if key == seq!['c', 'o'] {
        lemma_contains_one(exa_slots_kinds(key)->Some_0, SlotId::TypeCompressed);
    } else if key == seq!['t', 'm'] {
        lemma_contains_one(exa_slots_kinds(key)->Some_0, SlotId::TypeTemp);
    } else if key == seq!['c', 'm'] {
        lemma_contains_one(exa_slots_kinds(key)->Some_0, SlotId::TypeCompiled);
    } else if key == seq!['b', 'u'] {
        lemma_contains_one(exa_slots_kinds(key)->Some_0, SlotId::TypeBuild);
    } else if key == seq!['s', 'c'] {
        lemma_contains_one(exa_slots_kinds(key)->Some_0, SlotId::TypeSource);
    }
}

#[verifier::rlimit(100)]
proof fn lemma_exa_security_slots(ui: UiStyles, key: Seq<char>, st: Style)
    requires
        exa_slots_security(key) is Some,
    ensures
        apply_exa_security(ui, key, st) is Some,
        forall|j: SlotId|
            (apply_exa_security(ui, key, st)->Some_0).slot(j) == if exa_slots_security(
                key,
            )->Some_0.contains(j) {
                st
            } else {
                ui.slot(j)
            },
{
    if key == seq!['S', 'n'] {
        lemma_contains_one(exa_slots_security(key)->Some_0, SlotId::SecurityNone);
    } else if key == seq!['S', 'u'] {
        lemma_contains_one(exa_slots_security(key)->Some_0, SlotId::SelinuxUser);
    } else if key == seq!['S', 'r'] {
        lemma_contains_one(exa_slots_security(key)->Some_0, SlotId::SelinuxRole);
    } else if key == seq!['S', 't'] {
        lemma_contains_one(exa_slots_security(key)->Some_0, SlotId::SelinuxType);
    } else if key == seq!['S', 'l'] {
        lemma_contains_one(exa_slots_security(key)->Some_0, SlotId::SelinuxRange);
    }
}

/// An extended code overwrites exactly the slots it names and no other.
pub proof fn lemma_exa_key_slots(ui: UiStyles, key: Seq<char>, st: Style)
    requires
        exa_slots(key) is Some,
    ensures
        apply_exa_key(ui, key, st) is Some,
        forall|j: SlotId|
            (apply_exa_key(ui, key, st)->Some_0).slot(j) == if exa_slots(
                key,
            )->Some_0.contains(j) {
                st
            } else {
                ui.slot(j)
            },
{
    if exa_slots_perms(key) is Some {
        lemma_exa_perms_slots(ui, key, st);
    } else if exa_slots_size(key) is Some {
        lemma_exa_size_slots(ui, key, st);
    } else if exa_slots_owners(key) is Some {
        lemma_exa_owners_slots(ui, key, st);
    } else if exa_slots_vcs(key) is Some {
        lemma_exa_vcs_slots(ui, key, st);
    } else if exa_slots_details(key) is Some {
        lemma_exa_details_slots(ui, key, st);
    } else if exa_slots_kinds(key) is Some {
        lemma_exa_kinds_slots(ui, key, st);
    } else if exa_slots_security(key) is Some {
        lemma_exa_security_slots(ui, key, st);
    }
}

} // verus!
