//! The SFTP subsystem and its file handles.
//!
//! `Sftp` is a dependent handle like a channel; a `File` is a *nested*
//! dependent handle: it keeps the subsystem's inner state referenced (the
//! per-subsystem strong count in the cell), because native file handles are
//! meaningless once the subsystem has been shut down. Shutting the
//! subsystem down while files are outstanding is refused with the "bad use"
//! error and leaves everything usable.

use vstd::prelude::*;
use crate::engine::{Engine, FileSlot, SftpAttributes, SFTP_ATTR_SIZE, SFTP_ATTR_UIDGID, SFTP_ATTR_PERMISSIONS, SFTP_ATTR_ACMODTIME};
use crate::error::{Error, ErrorCode, ERROR_EAGAIN, ERROR_BAD_USE, ERROR_SFTP_PROTOCOL, ERROR_BUFFER_TOO_SMALL, ERROR_FILE};
use crate::session::SessionCell;
use crate::util::{path2bytes, copy_bytes};

verus! {

/// Open the file for reading.
pub const OPEN_READ: u64 = 0x1;

/// Open the file for writing.
pub const OPEN_WRITE: u64 = 0x2;

/// Force all writes to append at the end of the file.
pub const OPEN_APPEND: u64 = 0x4;

/// Create the file when it does not already exist.
pub const OPEN_CREATE: u64 = 0x8;

/// Truncate an existing file to zero length; implies `OPEN_CREATE`.
pub const OPEN_TRUNCATE: u64 = 0x10 | 0x8;

/// Fail when the named file already exists; implies `OPEN_CREATE`.
pub const OPEN_EXCLUSIVE: u64 = 0x20 | 0x8;

/// In a rename, overwrite the destination if it already exists.
pub const RENAME_OVERWRITE: u64 = 0x1;

/// Prefer an atomic rename operation.
pub const RENAME_ATOMIC: u64 = 0x2;

/// Prefer the remote end's native rename system calls.
pub const RENAME_NATIVE: u64 = 0x4;

/// How to open a handle: as a file or as a directory.
#[derive(Clone, Copy, Debug, PartialEq, Eq, Structural)]
pub enum OpenType {
    /// Open a file.
    File,
    /// Open a directory.
    Dir,
}

/// Metadata about a remote file. Fields are not necessarily all provided.
#[derive(Debug, Clone, PartialEq, Eq)]
pub struct FileStat {
    /// File size in bytes.
    pub size: Option<u64>,
    /// Owner id of the file.
    pub uid: Option<u64>,
    /// Owning group of the file.
    pub gid: Option<u64>,
    /// Permissions (mode) of the file.
    pub perm: Option<u64>,
    /// Last access time of the file.
    pub atime: Option<u64>,
    /// Last modification time of the file.
    pub mtime: Option<u64>,
}

/// The type of a remote file, read from its permission bits.
#[derive(Debug, PartialEq, Eq, Structural)]
pub enum FileType {
    /// Named pipe.
    NamedPipe,
    /// Character device.
    CharDevice,
    /// Block device.
    BlockDevice,
    /// Directory.
    Directory,
    /// Regular file.
    RegularFile,
    /// Symbolic link.
    Symlink,
    /// Unix domain socket.
    Socket,
    /// Any other file type bits.
    Other(u64),
}

/// The file-type mask of the permission bits.
pub const S_IFMT: u64 = 0o170000;

/// Permission bits of a named pipe.
pub const S_IFIFO: u64 = 0o010000;

/// Permission bits of a character device.
pub const S_IFCHR: u64 = 0o020000;

/// Permission bits of a directory.
pub const S_IFDIR: u64 = 0o040000;

/// Permission bits of a block device.
pub const S_IFBLK: u64 = 0o060000;

/// Permission bits of a regular file.
pub const S_IFREG: u64 = 0o100000;

/// Permission bits of a symbolic link.
pub const S_IFLNK: u64 = 0o120000;

/// Permission bits of a socket.
pub const S_IFSOCK: u64 = 0o140000;

impl FileType {
    /// Whether this file type is a directory.
    pub fn is_dir(&self) -> (r: bool)
        ensures
            r == (*self == FileType::Directory),
    {
        *self == FileType::Directory
    }

    /// Whether this file type is a regular file.
    pub fn is_file(&self) -> (r: bool)
        ensures
            r == (*self == FileType::RegularFile),
    {
        *self == FileType::RegularFile
    }

    /// Whether this file type is a symbolic link.
    pub fn is_symlink(&self) -> (r: bool)
        ensures
            r == (*self == FileType::Symlink),
    {
        *self == FileType::Symlink
    }

    /// The file type encoded by permission bits.
    pub open spec fn spec_from_perm(perm: u64) -> FileType {
        let bits = perm & S_IFMT;
        if bits == S_IFIFO {
            FileType::NamedPipe
        } else if bits == S_IFCHR {
            FileType::CharDevice
        } else if bits == S_IFDIR {
            FileType::Directory
        } else if bits == S_IFBLK {
            FileType::BlockDevice
        } else if bits == S_IFREG {
            FileType::RegularFile
        } else if bits == S_IFLNK {
            FileType::Symlink
        } else if bits == S_IFSOCK {
            FileType::Socket
        } else {
            FileType::Other(bits)
        }
    }

    /// Decode the file type from permission bits.
    pub fn from_perm(perm: u64) -> (r: FileType)
        ensures
            r == FileType::spec_from_perm(perm),
    {
        let bits = perm & S_IFMT;
        if bits == S_IFIFO {
            FileType::NamedPipe
        } else if bits == S_IFCHR {
            FileType::CharDevice
        } else if bits == S_IFDIR {
            FileType::Directory
        } else if bits == S_IFBLK {
            FileType::BlockDevice
        } else if bits == S_IFREG {
            FileType::RegularFile
        } else if bits == S_IFLNK {
            FileType::Symlink
        } else if bits == S_IFSOCK {
            FileType::Socket
        } else {
            FileType::Other(bits)
        }
    }
}

/// The metadata decoded from an attribute block: each field is provided
/// exactly when its validity bit is set.
pub open spec fn spec_filestat_of(a: SftpAttributes) -> FileStat {
    FileStat {
        size: if a.flags & SFTP_ATTR_SIZE != 0 {
            Some(a.filesize)
        } else {
            None
        },
        uid: if a.flags & SFTP_ATTR_UIDGID != 0 {
            Some(a.uid)
        } else {
            None
        },
        gid: if a.flags & SFTP_ATTR_UIDGID != 0 {
            Some(a.gid)
        } else {
            None
        },
        perm: if a.flags & SFTP_ATTR_PERMISSIONS != 0 {
            Some(a.permissions)
        } else {
            None
        },
        atime: if a.flags & SFTP_ATTR_ACMODTIME != 0 {
            Some(a.atime)
        } else {
            None
        },
        mtime: if a.flags & SFTP_ATTR_ACMODTIME != 0 {
            Some(a.mtime)
        } else {
            None
        },
    }
}

impl FileStat {
    /// The file type encoded in the permission bits, or the all-zero type
    /// when no permissions were provided.
    pub fn file_type(&self) -> (r: FileType)
        ensures
            self.perm matches Some(p) ==> r == FileType::spec_from_perm(p),
            self.perm is None ==> r == FileType::spec_from_perm(0),
    {
        let p = match self.perm {
            Some(p) => p,
            None => 0,
        };
        FileType::from_perm(p)
    }

    /// Whether this metadata is for a directory.
    pub fn is_dir(&self) -> (r: bool)
        ensures
            self.perm matches Some(p) ==> r == (FileType::spec_from_perm(p)
                == FileType::Directory),
            self.perm is None ==> !r,
    {
        let t = self.file_type();
        let r = t.is_dir();
        proof {
            if self.perm is None {
                assert(FileType::spec_from_perm(0) == FileType::Other(0)) by (bit_vector);
            }
        }
        r
    }

    /// Whether this metadata is for a regular file.
    pub fn is_file(&self) -> (r: bool)
        ensures
            self.perm matches Some(p) ==> r == (FileType::spec_from_perm(p)
                == FileType::RegularFile),
            self.perm is None ==> !r,
    {
        let t = self.file_type();
        let r = t.is_file();
        proof {
            if self.perm is None {
                assert(FileType::spec_from_perm(0) == FileType::Other(0)) by (bit_vector);
            }
        }
        r
    }

    /// Decode an attribute block: each field is provided exactly when its
    /// validity bit is set.
    pub fn from_raw(raw: &SftpAttributes) -> (r: FileStat)
        ensures
            r == spec_filestat_of(*raw),
    {
        FileStat {
            size: if raw.flags & SFTP_ATTR_SIZE != 0 {
                Some(raw.filesize)
            } else {
                None
            },
            uid: if raw.flags & SFTP_ATTR_UIDGID != 0 {
                Some(raw.uid)
            } else {
                None
            },
            gid: if raw.flags & SFTP_ATTR_UIDGID != 0 {
                Some(raw.gid)
            } else {
                None
            },
            perm: if raw.flags & SFTP_ATTR_PERMISSIONS != 0 {
                Some(raw.permissions)
            } else {
                None
            },
            atime: if raw.flags & SFTP_ATTR_ACMODTIME != 0 {
                Some(raw.atime)
            } else {
                None
            },
            mtime: if raw.flags & SFTP_ATTR_ACMODTIME != 0 {
                Some(raw.mtime)
            } else {
                None
            },
        }
    }

    /// Encode this metadata as an attribute block: a validity bit is set
    /// exactly for the provided fields, and absent fields encode as zero.
    pub fn raw(&self) -> (r: SftpAttributes)
        ensures
            r.flags == (if self.size is Some {
                SFTP_ATTR_SIZE
            } else {
                0u64
            }) | (if self.uid is Some || self.gid is Some {
                SFTP_ATTR_UIDGID
            } else {
                0u64
            }) | (if self.perm is Some {
                SFTP_ATTR_PERMISSIONS
            } else {
                0u64
            }) | (if self.atime is Some || self.mtime is Some {
                SFTP_ATTR_ACMODTIME
            } else {
                0u64
            }),
            r.filesize == self.size.unwrap_or(0),
            r.uid == self.uid.unwrap_or(0),
            r.gid == self.gid.unwrap_or(0),
            r.permissions == self.perm.unwrap_or(0),
            r.atime == self.atime.unwrap_or(0),
            r.mtime == self.mtime.unwrap_or(0),
    {
        let size_flag: u64 = if self.size.is_some() {
            SFTP_ATTR_SIZE
        } else {
            0
        };
        let ug_flag: u64 = if self.uid.is_some() || self.gid.is_some() {
            SFTP_ATTR_UIDGID
        } else {
            0
        };
        let perm_flag: u64 = if self.perm.is_some() {
            SFTP_ATTR_PERMISSIONS
        } else {
            0
        };
        let time_flag: u64 = if self.atime.is_some() || self.mtime.is_some() {
            SFTP_ATTR_ACMODTIME
        } else {
            0
        };
        SftpAttributes {
            flags: size_flag | ug_flag | perm_flag | time_flag,
            filesize: self.size.unwrap_or(0),
            uid: self.uid.unwrap_or(0),
            gid: self.gid.unwrap_or(0),
            permissions: self.perm.unwrap_or(0),
            atime: self.atime.unwrap_or(0),
            mtime: self.mtime.unwrap_or(0),
        }
    }
}

/// A handle to a remote filesystem over SFTP. Stands for one counted
/// reference to the session cell and the subsystem's own strong count.
#[derive(Debug)]
pub struct Sftp {
    pub(crate) id: usize,
    pub(crate) active: bool,
}

/// A file handle under an `Sftp`. Holds a strong reference to the owning
/// subsystem's inner state, not only to the session, so the subsystem
/// cannot be torn down while the file is open.
#[derive(Debug)]
pub struct File {
    pub(crate) id: usize,
    pub(crate) sftp: usize,
    pub(crate) active: bool,
}

impl Sftp {
    /// The index of this subsystem in the session's tables.
    pub closed spec fn spec_id(self) -> int {
        self.id as int
    }

    /// Whether the subsystem has not been shut down through this handle.
    pub closed spec fn spec_active(self) -> bool {
        self.active
    }

    /// The handle is valid for this cell.
    pub open spec fn wf(self, cell: SessionCell) -> bool {
        &&& cell.wf()
        &&& 0 <= self.spec_id() < cell.sftp_refs@.len()
        &&& (self.spec_active() ==> cell.live() && cell.sftp_refs@[self.spec_id()] > 0)
    }

    /// The construction step of the subsystem open: wrap the engine's raw
    /// result or return exactly the captured error (or the generic unknown
    /// error when none was captured).
    pub fn from_raw_opt(raw: Option<usize>, err: Option<Error>, cell: &mut SessionCell) -> (r: Result<Sftp, Error>)
        requires
            old(cell).refs > 0,
            old(cell).refs < u64::MAX,
            raw matches Some(id) ==> old(cell).engine.sftps@.len() == old(cell).sftp_refs@.len()
                + 1 && id == old(cell).sftp_refs@.len() && old(cell).engine.sftps@[id as int].alive,
        ensures
            raw is None ==> *final(cell) == *old(cell) && r is Err && (err matches Some(e) ==> r
                == Err::<Sftp, Error>(e)) && (err is None ==> r->Err_0.spec_code()
                == ErrorCode::Session(i32::MIN) && r->Err_0.spec_message()
                == "no other error listed"@),
            raw matches Some(id) ==> r is Ok && r->Ok_0.spec_id() == id && r->Ok_0.spec_active()
                && *final(cell) == (SessionCell {
                refs: (old(cell).refs + 1) as u64,
                sftp_refs: final(cell).sftp_refs,
                ..*old(cell)
            }) && final(cell).sftp_refs@ == old(cell).sftp_refs@.push(1u64),
    {
        match raw {
            None => Err(
                match err {
                    Some(e) => e,
                    None => Error::unknown(),
                },
            ),
            Some(id) => {
                cell.sftp_refs.push(1);
                cell.refs = cell.refs + 1;
                Ok(Sftp { id, active: true })
            }
        }
    }

    /// Shut the subsystem down.
    ///
    /// Refused with the "bad use" error - leaving the subsystem untouched
    /// and usable - while file handles derived from it are still open (the
    /// handle is not the sole owner of the inner state), and likewise when
    /// the subsystem was already shut down through this handle.
    pub fn shutdown(&mut self, cell: &mut SessionCell) -> (r: Result<(), Error>)
        requires
            old(self).wf(*old(cell)),
        ensures
            final(self).wf(*final(cell)),
            final(self).spec_id() == old(self).spec_id(),
            !old(self).spec_active() ==> r is Err && r->Err_0.spec_code() == ErrorCode::Session(
                ERROR_BAD_USE,
            ) && *final(cell) == *old(cell) && *final(self) == *old(self),
            old(self).spec_active() && old(cell).sftp_refs@[old(self).spec_id()] > 1 ==> r is Err
                && r->Err_0.spec_code() == ErrorCode::Session(ERROR_BAD_USE) && *final(cell)
                == *old(cell) && *final(self) == *old(self),
            old(self).spec_active() && old(cell).sftp_refs@[old(self).spec_id()] == 1 ==> ({
                &&& !final(self).spec_active()
                &&& final(cell).sftp_refs@ == old(cell).sftp_refs@.update(
                    old(self).spec_id(),
                    0u64,
                )
                &&& final(cell).refs == old(cell).refs - 1
                &&& (final(cell).engine_alive <==> final(cell).refs > 0)
                &&& (!old(cell).engine.spec_wouldblock_due() ==> r is Ok && !final(cell).engine.sftps@[old(self).spec_id()].alive)
                &&& (old(cell).engine.spec_wouldblock_due() ==> r is Err
                    && r->Err_0.spec_code() == ErrorCode::Session(ERROR_EAGAIN))
            }),
    {
        if !self.active {
            return Err(Error::from_errno(ErrorCode::Session(ERROR_BAD_USE)));
        }
        if cell.sftp_refs[self.id] > 1 {
            return Err(Error::from_errno(ErrorCode::Session(ERROR_BAD_USE)));
        }
        self.active = false;
        let code = cell.engine.sftp_shutdown(self.id);
        cell.sftp_refs[self.id] = 0;
        cell.refs = cell.refs - 1;
        if cell.refs == 0 {
            cell.engine_alive = false;
        }
        cell.rc(code)
    }

    /// Retire this handle: drop its strong reference on the subsystem
    /// inner. When it was the last one, the subsystem is shut down with the
    /// engine forced into blocking mode around the cleanup call (so a
    /// would-block failure cannot escape), the prior mode is restored, and
    /// the inner's counted reference on the cell is dropped.
    pub fn dispose(self, cell: &mut SessionCell)
        requires
            self.wf(*old(cell)),
        ensures
            final(cell).wf(),
            final(cell).engine.blocking == old(cell).engine.blocking,
            !self.spec_active() ==> *final(cell) == *old(cell),
            self.spec_active() && old(cell).sftp_refs@[self.spec_id()] > 1 ==> *final(cell)
                == (SessionCell { sftp_refs: final(cell).sftp_refs, ..*old(cell) }) && final(cell).sftp_refs@ == old(cell).sftp_refs@.update(
                self.spec_id(),
                (old(cell).sftp_refs@[self.spec_id()] - 1) as u64,
            ),
            self.spec_active() && old(cell).sftp_refs@[self.spec_id()] == 1 ==> ({
                &&& !final(cell).engine.sftps@[self.spec_id()].alive
                &&& final(cell).refs == old(cell).refs - 1
                &&& (final(cell).engine_alive <==> final(cell).refs > 0)
            }),
    {
        if !self.active {
            return;
        }
        let id = self.id;
        cell.sftp_refs[id] = cell.sftp_refs[id] - 1;
        if cell.sftp_refs[id] == 0 {
            let was_blocking = cell.engine.blocking;
            cell.engine.set_blocking(true);
            let _ = cell.engine.sftp_shutdown(id);
            cell.engine.set_blocking(was_blocking);
            cell.refs = cell.refs - 1;
            if cell.refs == 0 {
                cell.engine_alive = false;
            }
        }
    }
}

/// Select a readlink-style operation: read a link's target.
pub const SFTP_READLINK: i32 = 1;

/// Select a readlink-style operation: resolve a path.
pub const SFTP_REALPATH: i32 = 2;

/// Translate a failing subsystem status code into a structured error.
///
/// A non-negative code carries no information, so it becomes the generic
/// unknown error. The generic "sftp protocol" code means the precise cause
/// sits in the subsystem's secondary namespace: it is fetched through the
/// dedicated accessor and reported under the `SFTP` code space. Any other
/// code is an engine-level error and is captured as such.
fn error_code_into_error(eng: &Engine, sftp: usize, rc: i32) -> (r: Error)
    requires
        eng.spec_sftp_live(sftp as int),
    ensures
        rc >= 0 ==> r.spec_code() == ErrorCode::Session(i32::MIN) && r.spec_message()
            == "no other error listed"@,
        rc == ERROR_SFTP_PROTOCOL ==> r.spec_code() == ErrorCode::SFTP(
            eng.sftps@[sftp as int].last_fx,
        ) && r.spec_message() == crate::error::spec_sftp_message(
            eng.sftps@[sftp as int].last_fx,
        ),
        rc < 0 && rc != ERROR_SFTP_PROTOCOL ==> r.spec_code() == ErrorCode::Session(rc) && (
        eng.last_code == rc ==> r.spec_message() == eng.last_msg@) && (eng.last_code != rc
            ==> r.spec_message() == crate::error::spec_session_message(rc)),
{
    if rc >= 0 {
        Error::unknown()
    } else if rc == ERROR_SFTP_PROTOCOL {
        let fx = eng.sftp_last_error(sftp);
        Error::from_errno(ErrorCode::SFTP(fx))
    } else {
        Error::from_session_error_raw(eng, rc)
    }
}

/// Translate a subsystem status code into a result.
fn error_code_into_result(eng: &Engine, sftp: usize, rc: i32) -> (r: Result<(), Error>)
    requires
        eng.spec_sftp_live(sftp as int),
    ensures
        r is Ok <==> rc >= 0,
        rc == ERROR_SFTP_PROTOCOL ==> (r matches Err(e) && e.spec_code() == ErrorCode::SFTP(
            eng.sftps@[sftp as int].last_fx,
        )),
        rc < 0 && rc != ERROR_SFTP_PROTOCOL ==> (r matches Err(e) && e.spec_code()
            == ErrorCode::Session(rc)),
{
    if rc >= 0 {
        Ok(())
    } else {
        Err(error_code_into_error(eng, sftp, rc))
    }
}

impl Sftp {
    /// Open a handle to a file or directory.
    ///
    /// The path is marshalled first (separator normalization, embedded-NUL
    /// refusal); the subsystem must not have been shut down through this
    /// handle; the engine's open either yields a handle - which takes one
    /// more strong reference on the subsystem inner - or the error captured
    /// from the engine, resolved through the secondary namespace when the
    /// engine reports the generic subsystem protocol error.
    pub fn open_mode(&self, cell: &mut SessionCell, filename: &[u8], flags: u64, mode: u64, open_type: OpenType) -> (r: Result<File, Error>)
        requires
            self.wf(*old(cell)),
            old(cell).sftp_refs@[self.spec_id()] < u64::MAX,
        ensures
            self.wf(*final(cell)),
            filename@.contains(0u8) ==> *final(cell) == *old(cell) && r is Err
                && crate::util::spec_is_path_nul_error(r->Err_0),
            !self.spec_active() && !filename@.contains(0u8) ==> *final(cell) == *old(cell) && r
                is Err && r->Err_0.spec_code() == ErrorCode::Session(ERROR_BAD_USE),
            r matches Ok(f) ==> self.spec_active() && f.spec_active() && f.spec_sftp()
                == self.spec_id() && f.wf(*final(cell)) && final(cell).sftp_refs@
                == old(cell).sftp_refs@.update(
                self.spec_id(),
                (old(cell).sftp_refs@[self.spec_id()] + 1) as u64,
            ) && f.spec_file_id() == old(cell).engine.files@.len() && *final(cell)
                == (SessionCell {
                engine: final(cell).engine,
                sftp_refs: final(cell).sftp_refs,
                ..*old(cell)
            }),
            self.spec_active() && !filename@.contains(0u8) && !old(cell).engine.spec_scripted()
                && open_type == OpenType::File && (exists|j: int|
                0 <= j < old(cell).engine.remote_files@.len() && (#[trigger] old(cell).engine.remote_files@[j]).path@ == filename@)
                ==> r is Ok && ({
                let k = Engine::spec_file_at(
                    old(cell).engine.remote_files@,
                    filename@,
                );
                let slot = final(cell).engine.files@[r->Ok_0.spec_file_id()];
                slot.data@ == if flags & 0x10u64 != 0 {
                    Seq::<u8>::empty()
                } else {
                    old(cell).engine.remote_files@[k].data@
                }
            }),
            self.spec_active() && !filename@.contains(0u8) && !old(cell).engine.spec_scripted()
                && open_type == OpenType::File && Engine::spec_no_file_before(
                old(cell).engine.remote_files@,
                filename@,
                old(cell).engine.remote_files@.len() as int,
            ) && flags & 0x8u64 == 0 ==> r is Err && r->Err_0.spec_code() == ErrorCode::SFTP(
                crate::error::FX_NO_SUCH_FILE,
            ),
            self.spec_active() && !filename@.contains(0u8) && !old(cell).engine.spec_scripted()
                && open_type == OpenType::Dir && Engine::spec_no_dir_before(
                old(cell).engine.remote_dirs@,
                filename@,
                old(cell).engine.remote_dirs@.len() as int,
            ) ==> r is Err && r->Err_0.spec_code() == ErrorCode::SFTP(
                crate::error::FX_NO_SUCH_FILE,
            ),
            self.spec_active() && !filename@.contains(0u8) && !old(cell).engine.spec_scripted()
                && open_type == OpenType::Dir && (exists|j: int|
                0 <= j < old(cell).engine.remote_dirs@.len() && (#[trigger] old(cell).engine.remote_dirs@[j])@ == filename@) ==> r
                is Ok && ({
                let slot = final(cell).engine.files@[r->Ok_0.spec_file_id()];
                &&& final(cell).engine.files@ == old(cell).engine.files@.push(slot)
                &&& final(cell).engine == (Engine {
                    files: final(cell).engine.files,
                    ..old(cell).engine
                })
                &&& slot.is_dir
                &&& slot.alive
                &&& slot.dir_pos == 0
                &&& slot.pos == 0
                &&& slot.dir_entries@.len() == old(cell).engine.remote_files@.len() + 2
                &&& slot.dir_entries@[0].0@ == seq![0x2eu8]
                &&& slot.dir_entries@[1].0@ == seq![0x2eu8, 0x2eu8]
                &&& forall|i: int|
                    0 <= i < old(cell).engine.remote_files@.len() ==> (#[trigger] slot.dir_entries@[i + 2]).0@
                        == old(cell).engine.remote_files@[i].path@ && slot.dir_entries@[i + 2].1
                        == Engine::spec_attrs_of(old(cell).engine.remote_files@[i])
            }),
    {
        let path = match path2bytes(filename) {
            Ok(p) => p,
            Err(e) => {
                return Err(e);
            }
        };
        if !self.active {
            return Err(Error::from_errno(ErrorCode::Session(ERROR_BAD_USE)));
        }
        let raw = match open_type {
            OpenType::File => cell.engine.sftp_open_file(self.id, &path, flags, mode),
            OpenType::Dir => cell.engine.sftp_open_dir(self.id, &path),
        };
        match raw {
            None => {
                let rc = cell.engine.last_code;
                Err(error_code_into_error(&cell.engine, self.id, rc))
            }
            Some(h) => {
                cell.sftp_refs[self.id] = cell.sftp_refs[self.id] + 1;
                Ok(File { id: h, sftp: self.id, active: true })
            }
        }
    }

    /// Open a file for reading.
    pub fn open(&self, cell: &mut SessionCell, filename: &[u8]) -> (r: Result<File, Error>)
        requires
            self.wf(*old(cell)),
            old(cell).sftp_refs@[self.spec_id()] < u64::MAX,
        ensures
            self.wf(*final(cell)),
            r matches Ok(f) ==> self.spec_active() && f.spec_active() && f.wf(*final(cell))
                && f.spec_sftp() == self.spec_id(),
            filename@.contains(0u8) ==> *final(cell) == *old(cell) && r is Err
                && crate::util::spec_is_path_nul_error(r->Err_0),
            !self.spec_active() && !filename@.contains(0u8) ==> *final(cell) == *old(cell) && r
                is Err && r->Err_0.spec_code() == ErrorCode::Session(ERROR_BAD_USE),
    {
        self.open_mode(cell, filename, OPEN_READ, 0o644, OpenType::File)
    }

    /// Create a file in write-only mode with truncation.
    pub fn create(&self, cell: &mut SessionCell, filename: &[u8]) -> (r: Result<File, Error>)
        requires
            self.wf(*old(cell)),
            old(cell).sftp_refs@[self.spec_id()] < u64::MAX,
        ensures
            self.wf(*final(cell)),
            r matches Ok(f) ==> self.spec_active() && f.spec_active() && f.wf(*final(cell))
                && f.spec_sftp() == self.spec_id(),
            filename@.contains(0u8) ==> *final(cell) == *old(cell) && r is Err
                && crate::util::spec_is_path_nul_error(r->Err_0),
    {
        self.open_mode(cell, filename, OPEN_WRITE | OPEN_TRUNCATE, 0o644, OpenType::File)
    }

    /// Open a directory for reading its contents.
    pub fn opendir(&self, cell: &mut SessionCell, dirname: &[u8]) -> (r: Result<File, Error>)
        requires
            self.wf(*old(cell)),
            old(cell).sftp_refs@[self.spec_id()] < u64::MAX,
        ensures
            self.wf(*final(cell)),
            r matches Ok(f) ==> self.spec_active() && f.spec_active() && f.wf(*final(cell))
                && f.spec_sftp() == self.spec_id()
                && final(cell).sftp_refs@[self.spec_id()]
                == old(cell).sftp_refs@[self.spec_id()] + 1,
            dirname@.contains(0u8) ==> *final(cell) == *old(cell) && r is Err
                && crate::util::spec_is_path_nul_error(r->Err_0),
            !self.spec_active() && !dirname@.contains(0u8) ==> *final(cell) == *old(cell) && r
                is Err && r->Err_0.spec_code() == ErrorCode::Session(ERROR_BAD_USE),
            self.spec_active() && !dirname@.contains(0u8) && !old(cell).engine.spec_scripted()
                && Engine::spec_no_dir_before(
                old(cell).engine.remote_dirs@,
                dirname@,
                old(cell).engine.remote_dirs@.len() as int,
            ) ==> r is Err && r->Err_0.spec_code() == ErrorCode::SFTP(
                crate::error::FX_NO_SUCH_FILE,
            ),
            self.spec_active() && !dirname@.contains(0u8) && !old(cell).engine.spec_scripted()
                && (exists|j: int|
                0 <= j < old(cell).engine.remote_dirs@.len() && (#[trigger] old(cell).engine.remote_dirs@[j])@ == dirname@) ==> r is Ok && ({
                let slot = final(cell).engine.files@[r->Ok_0.spec_file_id()];
                &&& final(cell).engine.files@ == old(cell).engine.files@.push(slot)
                &&& final(cell).engine == (Engine {
                    files: final(cell).engine.files,
                    ..old(cell).engine
                })
                &&& slot.is_dir
                &&& slot.alive
                &&& slot.dir_pos == 0
                &&& slot.dir_entries@.len() == old(cell).engine.remote_files@.len() + 2
                &&& slot.dir_entries@[0].0@ == seq![0x2eu8]
                &&& slot.dir_entries@[1].0@ == seq![0x2eu8, 0x2eu8]
                &&& forall|i: int|
                    0 <= i < old(cell).engine.remote_files@.len() ==> (#[trigger] slot.dir_entries@[i + 2]).0@
                        == old(cell).engine.remote_files@[i].path@ && slot.dir_entries@[i + 2].1
                        == Engine::spec_attrs_of(old(cell).engine.remote_files@[i])
            }),
    {
        self.open_mode(cell, dirname, OPEN_READ, 0, OpenType::Dir)
    }

    /// Create a directory on the remote file system.
    pub fn mkdir(&self, cell: &mut SessionCell, filename: &[u8], mode: u64) -> (r: Result<(), Error>)
        requires
            self.wf(*old(cell)),
        ensures
            self.wf(*final(cell)),
            SessionCell::spec_same_but_engine(*old(cell), *final(cell)),
            filename@.contains(0u8) ==> *final(cell) == *old(cell) && r is Err
                && crate::util::spec_is_path_nul_error(r->Err_0),
            !self.spec_active() && !filename@.contains(0u8) ==> *final(cell) == *old(cell) && r
                is Err && r->Err_0.spec_code() == ErrorCode::Session(ERROR_BAD_USE),
            self.spec_active() && !filename@.contains(0u8) && !old(cell).engine.spec_scripted()
                && Engine::spec_no_dir_before(
                old(cell).engine.remote_dirs@,
                filename@,
                old(cell).engine.remote_dirs@.len() as int,
            ) ==> r is Ok && final(cell).engine.remote_dirs@.len()
                == old(cell).engine.remote_dirs@.len() + 1
                && final(cell).engine.remote_dirs@.last()@ == filename@,
            self.spec_active() && !filename@.contains(0u8) && !old(cell).engine.spec_scripted()
                && (exists|j: int|
                0 <= j < old(cell).engine.remote_dirs@.len() && (#[trigger] old(cell).engine.remote_dirs@[j])@ == filename@) ==> r
                is Err && r->Err_0.spec_code() == ErrorCode::SFTP(
                crate::error::FX_FILE_ALREADY_EXISTS,
            ),
    {
        let path = match path2bytes(filename) {
            Ok(p) => p,
            Err(e) => {
                return Err(e);
            }
        };
        if !self.active {
            return Err(Error::from_errno(ErrorCode::Session(ERROR_BAD_USE)));
        }
        let rc = cell.engine.sftp_mkdir(self.id, &path, mode);
        error_code_into_result(&cell.engine, self.id, rc)
    }

    /// Remove a directory from the remote file system.
    pub fn rmdir(&self, cell: &mut SessionCell, filename: &[u8]) -> (r: Result<(), Error>)
        requires
            self.wf(*old(cell)),
        ensures
            self.wf(*final(cell)),
            SessionCell::spec_same_but_engine(*old(cell), *final(cell)),
            filename@.contains(0u8) ==> *final(cell) == *old(cell) && r is Err
                && crate::util::spec_is_path_nul_error(r->Err_0),
            !self.spec_active() && !filename@.contains(0u8) ==> *final(cell) == *old(cell) && r
                is Err && r->Err_0.spec_code() == ErrorCode::Session(ERROR_BAD_USE),
            self.spec_active() && !filename@.contains(0u8) && !old(cell).engine.spec_scripted()
                && Engine::spec_no_dir_before(
                old(cell).engine.remote_dirs@,
                filename@,
                old(cell).engine.remote_dirs@.len() as int,
            ) ==> r is Err && r->Err_0.spec_code() == ErrorCode::SFTP(
                crate::error::FX_NO_SUCH_FILE,
            ),
            self.spec_active() && !filename@.contains(0u8) && !old(cell).engine.spec_scripted()
                && (exists|j: int|
                0 <= j < old(cell).engine.remote_dirs@.len() && (#[trigger] old(cell).engine.remote_dirs@[j])@ == filename@) ==> r
                is Ok && final(cell).engine.remote_dirs@.len()
                == old(cell).engine.remote_dirs@.len() - 1,
    {
        let path = match path2bytes(filename) {
            Ok(p) => p,
            Err(e) => {
                return Err(e);
            }
        };
        if !self.active {
            return Err(Error::from_errno(ErrorCode::Session(ERROR_BAD_USE)));
        }
        let rc = cell.engine.sftp_rmdir(self.id, &path);
        error_code_into_result(&cell.engine, self.id, rc)
    }

    /// Remove a file on the remote filesystem.
    pub fn unlink(&self, cell: &mut SessionCell, file: &[u8]) -> (r: Result<(), Error>)
        requires
            self.wf(*old(cell)),
        ensures
            self.wf(*final(cell)),
            SessionCell::spec_same_but_engine(*old(cell), *final(cell)),
            file@.contains(0u8) ==> *final(cell) == *old(cell) && r is Err
                && crate::util::spec_is_path_nul_error(r->Err_0),
            !self.spec_active() && !file@.contains(0u8) ==> *final(cell) == *old(cell) && r
                is Err && r->Err_0.spec_code() == ErrorCode::Session(ERROR_BAD_USE),
            self.spec_active() && !file@.contains(0u8) && !old(cell).engine.spec_scripted()
                && Engine::spec_no_file_before(
                old(cell).engine.remote_files@,
                file@,
                old(cell).engine.remote_files@.len() as int,
            ) ==> r is Err && r->Err_0.spec_code() == ErrorCode::SFTP(
                crate::error::FX_NO_SUCH_FILE,
            ),
            self.spec_active() && !file@.contains(0u8) && !old(cell).engine.spec_scripted() && (
            exists|j: int|
                0 <= j < old(cell).engine.remote_files@.len() && (#[trigger] old(cell).engine.remote_files@[j]).path@ == file@) ==> r
                is Ok && final(cell).engine.remote_files@
                == old(cell).engine.remote_files@.remove(
                Engine::spec_file_at(
                    old(cell).engine.remote_files@,
                    file@,
                ),
            ),
    {
        let path = match path2bytes(file) {
            Ok(p) => p,
            Err(e) => {
                return Err(e);
            }
        };
        if !self.active {
            return Err(Error::from_errno(ErrorCode::Session(ERROR_BAD_USE)));
        }
        let rc = cell.engine.sftp_unlink(self.id, &path);
        error_code_into_result(&cell.engine, self.id, rc)
    }

    /// Get the metadata for a file, as by stat.
    pub fn stat(&self, cell: &mut SessionCell, filename: &[u8]) -> (r: Result<FileStat, Error>)
        requires
            self.wf(*old(cell)),
        ensures
            self.wf(*final(cell)),
            SessionCell::spec_same_but_engine(*old(cell), *final(cell)),
            filename@.contains(0u8) ==> *final(cell) == *old(cell) && r is Err
                && crate::util::spec_is_path_nul_error(r->Err_0),
            !self.spec_active() && !filename@.contains(0u8) ==> *final(cell) == *old(cell) && r
                is Err && r->Err_0.spec_code() == ErrorCode::Session(ERROR_BAD_USE),
            self.spec_active() && !filename@.contains(0u8) && !old(cell).engine.spec_scripted()
                && Engine::spec_no_file_before(
                old(cell).engine.remote_files@,
                filename@,
                old(cell).engine.remote_files@.len() as int,
            ) ==> r is Err && r->Err_0.spec_code() == ErrorCode::SFTP(
                crate::error::FX_NO_SUCH_FILE,
            ),
            self.spec_active() && !filename@.contains(0u8) && !old(cell).engine.spec_scripted()
                && (exists|j: int|
                0 <= j < old(cell).engine.remote_files@.len() && (#[trigger] old(cell).engine.remote_files@[j]).path@ == filename@)
                ==> *final(cell) == *old(cell) && ({
                let f = old(cell).engine.remote_files@[Engine::spec_file_at(
                    old(cell).engine.remote_files@,
                    filename@,
                )];
                &&& r is Ok
                &&& r->Ok_0.size == Some(f.data@.len() as u64)
                &&& r->Ok_0.perm == Some(f.mode as u64)
                &&& r->Ok_0.mtime == Some(f.mtime)
                &&& r->Ok_0.atime == Some(f.atime)
                &&& r->Ok_0.uid is None
                &&& r->Ok_0.gid is None
            }),
    {
        let path = match path2bytes(filename) {
            Ok(p) => p,
            Err(e) => {
                return Err(e);
            }
        };
        if !self.active {
            return Err(Error::from_errno(ErrorCode::Session(ERROR_BAD_USE)));
        }
        match cell.engine.sftp_stat_path(self.id, &path) {
            Ok(attrs) => {
                proof {
                    assert((SFTP_ATTR_SIZE | SFTP_ATTR_PERMISSIONS | SFTP_ATTR_ACMODTIME)
                        & SFTP_ATTR_SIZE != 0u64) by (bit_vector);
                    assert((SFTP_ATTR_SIZE | SFTP_ATTR_PERMISSIONS | SFTP_ATTR_ACMODTIME)
                        & SFTP_ATTR_UIDGID == 0u64) by (bit_vector);
                    assert((SFTP_ATTR_SIZE | SFTP_ATTR_PERMISSIONS | SFTP_ATTR_ACMODTIME)
                        & SFTP_ATTR_PERMISSIONS != 0u64) by (bit_vector);
                    assert((SFTP_ATTR_SIZE | SFTP_ATTR_PERMISSIONS | SFTP_ATTR_ACMODTIME)
                        & SFTP_ATTR_ACMODTIME != 0u64) by (bit_vector);
                }
                Ok(FileStat::from_raw(&attrs))
            }
            Err(rc) => Err(error_code_into_error(&cell.engine, self.id, rc)),
        }
    }

    /// Get the metadata for a file, as by lstat. The double stages only
    /// canonical objects, so this reports the same as `stat`.
    pub fn lstat(&self, cell: &mut SessionCell, filename: &[u8]) -> (r: Result<FileStat, Error>)
        requires
            self.wf(*old(cell)),
        ensures
            self.wf(*final(cell)),
            SessionCell::spec_same_but_engine(*old(cell), *final(cell)),
            filename@.contains(0u8) ==> *final(cell) == *old(cell) && r is Err
                && crate::util::spec_is_path_nul_error(r->Err_0),
            !self.spec_active() && !filename@.contains(0u8) ==> *final(cell) == *old(cell) && r
                is Err && r->Err_0.spec_code() == ErrorCode::Session(ERROR_BAD_USE),
    {
        self.stat(cell, filename)
    }

    /// Set the metadata for a file.
    pub fn setstat(&self, cell: &mut SessionCell, filename: &[u8], stat: FileStat) -> (r: Result<(), Error>)
        requires
            self.wf(*old(cell)),
        ensures
            self.wf(*final(cell)),
            SessionCell::spec_same_but_engine(*old(cell), *final(cell)),
            filename@.contains(0u8) ==> *final(cell) == *old(cell) && r is Err
                && crate::util::spec_is_path_nul_error(r->Err_0),
            !self.spec_active() && !filename@.contains(0u8) ==> *final(cell) == *old(cell) && r
                is Err && r->Err_0.spec_code() == ErrorCode::Session(ERROR_BAD_USE),
            self.spec_active() && !filename@.contains(0u8) && !old(cell).engine.spec_scripted()
                && Engine::spec_no_file_before(
                old(cell).engine.remote_files@,
                filename@,
                old(cell).engine.remote_files@.len() as int,
            ) ==> r is Err && r->Err_0.spec_code() == ErrorCode::SFTP(
                crate::error::FX_NO_SUCH_FILE,
            ),
            self.spec_active() && !filename@.contains(0u8) && !old(cell).engine.spec_scripted()
                && (exists|j: int|
                0 <= j < old(cell).engine.remote_files@.len() && (#[trigger] old(cell).engine.remote_files@[j]).path@ == filename@) ==> r is Ok && ({
                let k = Engine::spec_file_at(old(cell).engine.remote_files@, filename@);
                let f = old(cell).engine.remote_files@[k];
                let touched_time = stat.atime is Some || stat.mtime is Some;
                &&& final(cell).engine.remote_files@ == old(cell).engine.remote_files@.update(
                    k,
                    (crate::engine::RemoteFile {
                        mode: if stat.perm is Some {
                            stat.perm.unwrap() as u32
                        } else {
                            f.mode
                        },
                        mtime: if touched_time {
                            stat.mtime.unwrap_or(0)
                        } else {
                            f.mtime
                        },
                        atime: if touched_time {
                            stat.atime.unwrap_or(0)
                        } else {
                            f.atime
                        },
                        ..f
                    }),
                )
                &&& final(cell).engine == (Engine {
                    remote_files: final(cell).engine.remote_files,
                    ..old(cell).engine
                })
            }),
    {
        let path = match path2bytes(filename) {
            Ok(p) => p,
            Err(e) => {
                return Err(e);
            }
        };
        if !self.active {
            return Err(Error::from_errno(ErrorCode::Session(ERROR_BAD_USE)));
        }
        let attrs = stat.raw();
        proof {
            let sflag: u64 = if stat.size is Some {
                SFTP_ATTR_SIZE
            } else {
                0
            };
            let uflag: u64 = if stat.uid is Some || stat.gid is Some {
                SFTP_ATTR_UIDGID
            } else {
                0
            };
            let pflag: u64 = if stat.perm is Some {
                SFTP_ATTR_PERMISSIONS
            } else {
                0
            };
            let tflag: u64 = if stat.atime is Some || stat.mtime is Some {
                SFTP_ATTR_ACMODTIME
            } else {
                0
            };
            assert(attrs.flags == (sflag | uflag | pflag | tflag));
            assert(((sflag | uflag | pflag | tflag) & 0x4u64 != 0) == (pflag == 0x4u64)
                && ((sflag | uflag | pflag | tflag) & 0x8u64 != 0) == (tflag == 0x8u64))
                by (bit_vector)
                requires
                    sflag == 0u64 || sflag == 0x1u64,
                    uflag == 0u64 || uflag == 0x2u64,
                    pflag == 0u64 || pflag == 0x4u64,
                    tflag == 0u64 || tflag == 0x8u64,
            ;
        }
        let rc = cell.engine.sftp_setstat_path(self.id, &path, attrs);
        error_code_into_result(&cell.engine, self.id, rc)
    }

    /// Create a symlink at `path` pointing at `target`.
    pub fn symlink(&self, cell: &mut SessionCell, path: &[u8], target: &[u8]) -> (r: Result<(), Error>)
        requires
            self.wf(*old(cell)),
        ensures
            self.wf(*final(cell)),
            SessionCell::spec_same_but_engine(*old(cell), *final(cell)),
            path@.contains(0u8) || target@.contains(0u8) ==> *final(cell) == *old(cell) && r
                is Err && crate::util::spec_is_path_nul_error(r->Err_0),
            !self.spec_active() && !path@.contains(0u8) && !target@.contains(0u8) ==> *final(cell) == *old(cell) && r is Err && r->Err_0.spec_code() == ErrorCode::Session(
                ERROR_BAD_USE,
            ),
            self.spec_active() && !path@.contains(0u8) && !target@.contains(0u8) && !old(cell).engine.spec_scripted() ==> r is Ok && final(cell).engine.remote_links@.len()
                == old(cell).engine.remote_links@.len() + 1
                && final(cell).engine.remote_links@.last().0@ == path@ && final(cell).engine.remote_links@.last().1@ == target@,
    {
        let p = match path2bytes(path) {
            Ok(p) => p,
            Err(e) => {
                return Err(e);
            }
        };
        let t = match path2bytes(target) {
            Ok(t) => t,
            Err(e) => {
                return Err(e);
            }
        };
        if !self.active {
            return Err(Error::from_errno(ErrorCode::Session(ERROR_BAD_USE)));
        }
        let rc = cell.engine.sftp_symlink(self.id, &p, &t);
        error_code_into_result(&cell.engine, self.id, rc)
    }

    /// Read the target of a symlink.
    pub fn readlink(&self, cell: &mut SessionCell, path: &[u8]) -> (r: Result<Vec<u8>, Error>)
        requires
            self.wf(*old(cell)),
        ensures
            self.wf(*final(cell)),
            SessionCell::spec_same_but_engine(*old(cell), *final(cell)),
            path@.contains(0u8) ==> *final(cell) == *old(cell) && r is Err
                && crate::util::spec_is_path_nul_error(r->Err_0),
            !self.spec_active() && !path@.contains(0u8) ==> *final(cell) == *old(cell) && r
                is Err && r->Err_0.spec_code() == ErrorCode::Session(ERROR_BAD_USE),
            self.spec_active() && !path@.contains(0u8) && !old(cell).engine.spec_scripted() && (
            exists|j: int|
                0 <= j < old(cell).engine.remote_links@.len() && (#[trigger] old(cell).engine.remote_links@[j]).0@ == path@) ==> r
                is Ok && r->Ok_0@ == old(cell).engine.remote_links@[Engine::spec_link_at(
                old(cell).engine.remote_links@,
                path@,
            )].1@,
            self.spec_active() && !path@.contains(0u8) && !old(cell).engine.spec_scripted()
                && Engine::spec_no_link_before(
                old(cell).engine.remote_links@,
                path@,
                old(cell).engine.remote_links@.len() as int,
            ) ==> r is Err && r->Err_0.spec_code() == ErrorCode::SFTP(
                crate::error::FX_NO_SUCH_FILE,
            ),
            self.spec_active() && !path@.contains(0u8) && !old(cell).engine.spec_scripted()
                ==> final(cell).engine.sftp_calls <= old(cell).engine.sftp_calls
                + crate::util::spec_retry_budget(
                128,
                spec_link_target_len(old(cell).engine, path@) as nat,
            ),
    {
        self.readlink_op(cell, path, SFTP_READLINK)
    }

    /// Resolve the real path for `path`.
    pub fn realpath(&self, cell: &mut SessionCell, path: &[u8]) -> (r: Result<Vec<u8>, Error>)
        requires
            self.wf(*old(cell)),
        ensures
            self.wf(*final(cell)),
            SessionCell::spec_same_but_engine(*old(cell), *final(cell)),
            path@.contains(0u8) ==> *final(cell) == *old(cell) && r is Err
                && crate::util::spec_is_path_nul_error(r->Err_0),
            !self.spec_active() && !path@.contains(0u8) ==> *final(cell) == *old(cell) && r
                is Err && r->Err_0.spec_code() == ErrorCode::Session(ERROR_BAD_USE),
            self.spec_active() && !path@.contains(0u8) && !old(cell).engine.spec_scripted()
                && old(cell).engine.spec_path_exists(path@)
                ==> r is Ok && r->Ok_0@ == path@,
            self.spec_active() && !path@.contains(0u8) && !old(cell).engine.spec_scripted()
                && !old(cell).engine.spec_path_exists(path@)
                ==> r is Err && r->Err_0.spec_code() == ErrorCode::SFTP(
                crate::error::FX_NO_SUCH_FILE,
            ),
            self.spec_active() && !path@.contains(0u8) && !old(cell).engine.spec_scripted()
                ==> final(cell).engine.sftp_calls <= old(cell).engine.sftp_calls
                + crate::util::spec_retry_budget(128, path@.len()),
    {
        self.readlink_op(cell, path, SFTP_REALPATH)
    }

    /// The shared grow-and-retry body of `readlink` and `realpath`: run the
    /// engine call with a growing buffer capacity until the result fits,
    /// doubling (with saturation) on every "buffer too small" report.
    ///
    /// The number of engine attempts is bounded by the logarithmic retry
    /// budget of the doubling discipline, counted on the engine's attempt
    /// counter: at most `spec_retry_budget(128, needed)` attempts, that is
    /// one more than the base-two logarithm of the growth ratio.
    fn readlink_op(&self, cell: &mut SessionCell, path: &[u8], op: i32) -> (r: Result<Vec<u8>, Error>)
        requires
            self.wf(*old(cell)),
        ensures
            self.wf(*final(cell)),
            SessionCell::spec_same_but_engine(*old(cell), *final(cell)),
            path@.contains(0u8) ==> *final(cell) == *old(cell) && r is Err
                && crate::util::spec_is_path_nul_error(r->Err_0),
            !self.spec_active() && !path@.contains(0u8) ==> *final(cell) == *old(cell) && r
                is Err && r->Err_0.spec_code() == ErrorCode::Session(ERROR_BAD_USE),
            self.spec_active() && !path@.contains(0u8) && !old(cell).engine.spec_scripted()
                && op == SFTP_READLINK ==> ({
                let links = old(cell).engine.remote_links@;
                let p = path@;
                &&& (exists|j: int|
                    0 <= j < links.len() && (#[trigger] links[j]).0@ == p) ==> r is Ok
                    && r->Ok_0@ == links[Engine::spec_link_at(links, p)].1@
                &&& Engine::spec_no_link_before(links, p, links.len() as int) ==> r is Err
                    && r->Err_0.spec_code() == ErrorCode::SFTP(crate::error::FX_NO_SUCH_FILE)
            }),
            self.spec_active() && !path@.contains(0u8) && !old(cell).engine.spec_scripted()
                && op != SFTP_READLINK ==> ({
                let p = path@;
                &&& old(cell).engine.spec_path_exists(p) ==> r is Ok && r->Ok_0@ == p
                &&& !old(cell).engine.spec_path_exists(p) ==> r is Err
                    && r->Err_0.spec_code() == ErrorCode::SFTP(crate::error::FX_NO_SUCH_FILE)
            }),
            self.spec_active() && !path@.contains(0u8) && !old(cell).engine.spec_scripted()
                ==> ({
                let needed = if op == SFTP_READLINK {
                    spec_link_target_len(old(cell).engine, path@)
                } else {
                    path@.len() as int
                };
                final(cell).engine.sftp_calls <= old(cell).engine.sftp_calls
                    + crate::util::spec_retry_budget(128, needed as nat)
            }),
    {
        let p = match path2bytes(path) {
            Ok(p) => p,
            Err(e) => {
                return Err(e);
            }
        };
        if !self.active {
            return Err(Error::from_errno(ErrorCode::Session(ERROR_BAD_USE)));
        }
        let plen: usize = p.len();
        let ghost needed: int = if op == SFTP_READLINK {
            spec_link_target_len(old(cell).engine, path@)
        } else {
            path@.len() as int
        };
        let ghost mut attempts: nat = 0;
        let mut cap: usize = 128;
        loop
            invariant
                self.wf(*cell),
                self.spec_active(),
                cap >= 1,
                p@ == path@,
                p@.len() == plen,
                !path@.contains(0u8),
                needed == (if op == SFTP_READLINK {
                    spec_link_target_len(old(cell).engine, path@)
                } else {
                    path@.len() as int
                }),
                SessionCell::spec_same_but_engine(*old(cell), *cell),
                cell.engine == (Engine {
                    sftp_calls: cell.engine.sftp_calls,
                    last_code: cell.engine.last_code,
                    last_msg: cell.engine.last_msg,
                    block_dirs: cell.engine.block_dirs,
                    fail_next: cell.engine.fail_next,
                    wouldblock: cell.engine.wouldblock,
                    ..old(cell).engine
                }),
                !old(cell).engine.spec_scripted() ==> cell.engine == (Engine {
                    sftp_calls: cell.engine.sftp_calls,
                    ..old(cell).engine
                }) && cell.engine.sftp_calls <= old(cell).engine.sftp_calls + attempts
                    && attempts + crate::util::spec_retry_budget(cap as nat, needed as nat)
                    <= crate::util::spec_retry_budget(128, needed as nat),
            decreases (if cell.engine.spec_scripted() {
                1int
            } else {
                0int
            }), ({
                let n = if op == SFTP_READLINK {
                    spec_link_target_len(cell.engine, path@)
                } else {
                    path@.len() as int
                };
                if n >= cap {
                    n - cap
                } else {
                    0int
                }
            }),
        {
            let result = if op == SFTP_READLINK {
                cell.engine.sftp_readlink(self.id, &p, cap)
            } else {
                cell.engine.sftp_realpath(self.id, &p, cap)
            };
            match result {
                Ok(bytes) => {
                    proof {
                        if !old(cell).engine.spec_scripted() {
                            crate::util::lemma_retry_budget_pos(cap as nat, needed as nat);
                        }
                    }
                    return Ok(bytes);
                }
                Err(code) => {
                    if code == ERROR_BUFFER_TOO_SMALL {
                        proof {
                            attempts = attempts + 1;
                            if !old(cell).engine.spec_scripted() {
                                assert(cap < needed);
                            }
                        }
                        let old_cap = cap;
                        cap = if cap <= usize::MAX / 2 {
                            cap * 2
                        } else {
                            usize::MAX
                        };
                        proof {
                            if !old(cell).engine.spec_scripted() {
                                if cap < 2 * old_cap {
                                    // capacity saturated at the maximum, which already
                                    // holds any result the engine can report
                                    assert(needed <= usize::MAX as int);
                                    assert(crate::util::spec_retry_budget(
                                        cap as nat,
                                        needed as nat,
                                    ) == 1);
                                    crate::util::lemma_retry_budget_pos(
                                        (2 * old_cap) as nat,
                                        needed as nat,
                                    );
                                }
                            }
                        }
                    } else {
                        proof {
                            if !old(cell).engine.spec_scripted() {
                                crate::util::lemma_retry_budget_pos(cap as nat, needed as nat);
                            }
                        }
                        return Err(error_code_into_error(&cell.engine, self.id, code));
                    }
                }
            }
        }
    }

    /// Rename a filesystem object on the remote filesystem. Without the
    /// overwrite flag an existing destination is an error; when no flags
    /// are given, all of them are used.
    pub fn rename(&self, cell: &mut SessionCell, src: &[u8], dst: &[u8], flags: Option<u64>) -> (r: Result<(), Error>)
        requires
            self.wf(*old(cell)),
        ensures
            self.wf(*final(cell)),
            SessionCell::spec_same_but_engine(*old(cell), *final(cell)),
            src@.contains(0u8) || dst@.contains(0u8) ==> *final(cell) == *old(cell) && r is Err
                && crate::util::spec_is_path_nul_error(r->Err_0),
            !self.spec_active() && !src@.contains(0u8) && !dst@.contains(0u8) ==> *final(cell)
                == *old(cell) && r is Err && r->Err_0.spec_code() == ErrorCode::Session(
                ERROR_BAD_USE,
            ),
            self.spec_active() && !src@.contains(0u8) && !dst@.contains(0u8) && !old(cell).engine.spec_scripted() && Engine::spec_no_file_before(
                old(cell).engine.remote_files@,
                src@,
                old(cell).engine.remote_files@.len() as int,
            ) ==> r is Err && r->Err_0.spec_code() == ErrorCode::SFTP(
                crate::error::FX_NO_SUCH_FILE,
            ),
            self.spec_active() && !src@.contains(0u8) && !dst@.contains(0u8) && !old(cell).engine.spec_scripted() && (exists|j: int|
                0 <= j < old(cell).engine.remote_files@.len() && (#[trigger] old(cell).engine.remote_files@[j]).path@ == src@)
                && Engine::spec_no_file_before(
                old(cell).engine.remote_files@,
                dst@,
                old(cell).engine.remote_files@.len() as int,
            ) ==> r is Ok && final(cell).engine.remote_files@[Engine::spec_file_at(
                old(cell).engine.remote_files@,
                src@,
            )].path@ == dst@,
    {
        let p_src = match path2bytes(src) {
            Ok(p) => p,
            Err(e) => {
                return Err(e);
            }
        };
        let p_dst = match path2bytes(dst) {
            Ok(p) => p,
            Err(e) => {
                return Err(e);
            }
        };
        if !self.active {
            return Err(Error::from_errno(ErrorCode::Session(ERROR_BAD_USE)));
        }
        let flags = match flags {
            Some(f) => f,
            None => RENAME_OVERWRITE | RENAME_ATOMIC | RENAME_NATIVE,
        };
        let overwrite = flags & RENAME_OVERWRITE != 0;
        let rc = cell.engine.sftp_rename(self.id, &p_src, &p_dst, overwrite);
        error_code_into_result(&cell.engine, self.id, rc)
    }
}

/// The length of the first staged link target for `path`, or 0 when there
/// is none; the termination measure of the readlink retry loop.
pub open spec fn spec_link_target_len(eng: Engine, path: Seq<u8>) -> int {
    if exists|j: int| 0 <= j < eng.remote_links@.len() && (#[trigger] eng.remote_links@[j]).0@
        == path {
        eng.remote_links@[Engine::spec_link_at(eng.remote_links@, path)].1@.len() as int
    } else {
        0
    }
}

/// Where to seek from in a file.
#[derive(Clone, Copy, Debug)]
pub enum SeekFrom {
    /// An absolute position.
    Start(u64),
    /// Relative to the current position.
    Current(i64),
    /// Relative to the end of the file, as reported by its metadata.
    End(i64),
}

impl File {
    /// The index of this handle in the engine's file table.
    pub closed spec fn spec_file_id(self) -> int {
        self.id as int
    }

    /// The subsystem this handle belongs to.
    pub closed spec fn spec_sftp(self) -> int {
        self.sftp as int
    }

    /// Whether the handle has not been closed.
    pub closed spec fn spec_active(self) -> bool {
        self.active
    }

    /// The handle is valid for this cell.
    pub open spec fn wf(self, cell: SessionCell) -> bool {
        &&& cell.wf()
        &&& 0 <= self.spec_sftp() < cell.sftp_refs@.len()
        &&& 0 <= self.spec_file_id() < cell.engine.files@.len()
        &&& (self.spec_active() ==> cell.live() && cell.sftp_refs@[self.spec_sftp()] > 0
            && cell.engine.files@[self.spec_file_id()].alive
            && cell.engine.files@[self.spec_file_id()].sftp == self.spec_sftp())
    }

    /// Get the metadata for this handle.
    pub fn stat(&mut self, cell: &mut SessionCell) -> (r: Result<FileStat, Error>)
        requires
            old(self).wf(*old(cell)),
        ensures
            *final(self) == *old(self),
            final(self).wf(*final(cell)),
            SessionCell::spec_same_but_engine(*old(cell), *final(cell)),
            !old(self).spec_active() ==> *final(cell) == *old(cell) && r is Err
                && r->Err_0.spec_code() == ErrorCode::Session(ERROR_BAD_USE),
            old(self).spec_active() ==> *final(cell) == *old(cell) && ({
                let attrs = old(cell).engine.files@[old(self).spec_file_id()].attrs;
                &&& r is Ok
                &&& r->Ok_0.size == (if attrs.flags & SFTP_ATTR_SIZE != 0 {
                    Some(attrs.filesize)
                } else {
                    None::<u64>
                })
                &&& r->Ok_0.perm == (if attrs.flags & SFTP_ATTR_PERMISSIONS != 0 {
                    Some(attrs.permissions)
                } else {
                    None::<u64>
                })
            }),
    {
        if !self.active {
            return Err(Error::from_errno(ErrorCode::Session(ERROR_BAD_USE)));
        }
        let attrs = cell.engine.sftp_fstat(self.id);
        Ok(FileStat::from_raw(&attrs))
    }

    /// Set the metadata for this handle.
    pub fn setstat(&mut self, cell: &mut SessionCell, stat: FileStat) -> (r: Result<(), Error>)
        requires
            old(self).wf(*old(cell)),
        ensures
            *final(self) == *old(self),
            final(self).wf(*final(cell)),
            SessionCell::spec_same_but_engine(*old(cell), *final(cell)),
            !old(self).spec_active() ==> *final(cell) == *old(cell) && r is Err
                && r->Err_0.spec_code() == ErrorCode::Session(ERROR_BAD_USE),
            old(self).spec_active() && !old(cell).engine.spec_scripted() ==> r is Ok && final(cell).engine.files@[old(self).spec_file_id()].attrs.permissions == stat.perm.unwrap_or(
                0,
            ),
    {
        if !self.active {
            return Err(Error::from_errno(ErrorCode::Session(ERROR_BAD_USE)));
        }
        let attrs = stat.raw();
        let rc = cell.engine.sftp_fsetstat(self.id, attrs);
        error_code_into_result(&cell.engine, self.sftp, rc)
    }

    /// Ask the remote server to synchronize the file to disk.
    pub fn fsync(&mut self, cell: &mut SessionCell) -> (r: Result<(), Error>)
        requires
            old(self).wf(*old(cell)),
        ensures
            *final(self) == *old(self),
            final(self).wf(*final(cell)),
            SessionCell::spec_same_but_engine(*old(cell), *final(cell)),
            !old(self).spec_active() ==> *final(cell) == *old(cell) && r is Err
                && r->Err_0.spec_code() == ErrorCode::Session(ERROR_BAD_USE),
            old(self).spec_active() && !old(cell).engine.spec_scripted() ==> r is Ok
                && *final(cell) == *old(cell),
    {
        if !self.active {
            return Err(Error::from_errno(ErrorCode::Session(ERROR_BAD_USE)));
        }
        let rc = cell.engine.sftp_fsync(self.id);
        error_code_into_result(&cell.engine, self.sftp, rc)
    }

    /// Read the next directory entry of a directory handle: the cursor
    /// protocol against the engine, with a buffer grown and retried when
    /// the engine reports it too small for the entry's name.
    ///
    /// Exhaustion is reported as the distinguished "no more files" error,
    /// distinct from any engine failure.
    pub fn readdir(&mut self, cell: &mut SessionCell) -> (r: Result<(Vec<u8>, FileStat), Error>)
        requires
            old(self).wf(*old(cell)),
        ensures
            *final(self) == *old(self),
            final(self).wf(*final(cell)),
            SessionCell::spec_same_but_engine(*old(cell), *final(cell)),
            !old(self).spec_active() ==> *final(cell) == *old(cell) && r is Err
                && r->Err_0.spec_code() == ErrorCode::Session(ERROR_BAD_USE),
            old(self).spec_active() ==> ({
                let pre = old(cell).engine.files@[old(self).spec_file_id()];
                let post = final(cell).engine.files@[old(self).spec_file_id()];
                &&& final(cell).engine.files@.len() == old(cell).engine.files@.len()
                &&& post.dir_entries@ == pre.dir_entries@
                &&& post.dir_pos >= pre.dir_pos
                &&& post.alive == pre.alive
                &&& (r is Ok ==> post.dir_pos > pre.dir_pos)
                &&& final(cell).engine.blocking == old(cell).engine.blocking
                &&& !final(cell).engine.spec_scripted()
                &&& (!old(cell).engine.spec_scripted() ==> final(cell).engine.wouldblock
                    <= old(cell).engine.wouldblock)
            }),
            old(self).spec_active() && !old(cell).engine.spec_scripted() && !old(cell).engine.spec_wouldblock_due() ==> ({
                let slot = old(cell).engine.files@[old(self).spec_file_id()];
                &&& slot.dir_pos == slot.dir_entries@.len() ==> r is Err
                    && r->Err_0.spec_code() == ErrorCode::Session(ERROR_FILE)
                    && r->Err_0.spec_message() == "no more files"@ && *final(cell) == *old(cell)
                &&& slot.dir_pos < slot.dir_entries@.len() ==> r is Ok && r->Ok_0.0@
                    == slot.dir_entries@[slot.dir_pos as int].0@ && r->Ok_0.1
                    == spec_filestat_of(slot.dir_entries@[slot.dir_pos as int].1)
                    && final(cell).engine.files@ == old(cell).engine.files@.update(
                    old(self).spec_file_id(),
                    (FileSlot { dir_pos: (slot.dir_pos + 1) as usize, ..slot }),
                ) && final(cell).engine == (Engine {
                    files: final(cell).engine.files,
                    ..old(cell).engine
                }) && final(cell).engine.files@[old(self).spec_file_id()].dir_pos == (slot.dir_pos + 1) as usize
            }),
    {
        if !self.active {
            return Err(Error::from_errno(ErrorCode::Session(ERROR_BAD_USE)));
        }
        let mut cap: usize = 4096;
        loop
            invariant
                self.wf(*cell),
                self.spec_active(),
                cap >= 4096,
                cap > 4096 ==> !cell.engine.spec_scripted(),
                SessionCell::spec_same_but_engine(*old(cell), *cell),
                Engine::spec_only_err_changed(old(cell).engine, cell.engine),
                !old(cell).engine.spec_scripted() ==> *cell == *old(cell),
            decreases (if cell.engine.spec_scripted() {
                1int
            } else {
                0int
            }), ({
                let slot = cell.engine.files@[self.spec_file_id()];
                if slot.dir_pos < slot.dir_entries@.len() && slot.dir_entries@[slot.dir_pos as int].0@.len() >= cap {
                    slot.dir_entries@[slot.dir_pos as int].0@.len() as int - cap
                } else {
                    0int
                }
            }),
        {
            match cell.engine.sftp_readdir(self.id, cap) {
                Ok(None) => {
                    return Err(Error::new(ErrorCode::Session(ERROR_FILE), "no more files"));
                }
                Ok(Some((name, attrs))) => {
                    return Ok((name, FileStat::from_raw(&attrs)));
                }
                Err(code) => {
                    if code == ERROR_BUFFER_TOO_SMALL {
                        cap = if cap <= usize::MAX / 2 {
                            cap * 2
                        } else {
                            usize::MAX
                        };
                    } else {
                        return Err(error_code_into_error(&cell.engine, self.sftp, code));
                    }
                }
            }
        }
    }

    /// Read up to `len` bytes from the file at its cursor.
    pub fn read(&mut self, cell: &mut SessionCell, len: usize) -> (r: Result<Vec<u8>, Error>)
        requires
            old(self).wf(*old(cell)),
        ensures
            *final(self) == *old(self),
            final(self).wf(*final(cell)),
            SessionCell::spec_same_but_engine(*old(cell), *final(cell)),
            !old(self).spec_active() ==> *final(cell) == *old(cell) && r is Err
                && r->Err_0.spec_code() == ErrorCode::Session(ERROR_BAD_USE),
            old(self).spec_active() && !old(cell).engine.spec_scripted() && !old(cell).engine.spec_wouldblock_due() ==> ({
                let slot = old(cell).engine.files@[old(self).spec_file_id()];
                let n = if len <= slot.data@.len() - slot.pos {
                    len as int
                } else {
                    slot.data@.len() - slot.pos
                };
                &&& r is Ok
                &&& r->Ok_0@ == slot.data@.subrange(slot.pos as int, slot.pos + n)
                &&& final(cell).engine.files@[old(self).spec_file_id()].pos == (slot.pos
                    + n) as usize
            }),
    {
        if !self.active {
            return Err(Error::from_errno(ErrorCode::Session(ERROR_BAD_USE)));
        }
        match cell.engine.sftp_read(self.id, len) {
            Ok(bytes) => Ok(bytes),
            Err(code) => Err(error_code_into_error(&cell.engine, self.sftp, code)),
        }
    }

    /// Write bytes to the file.
    pub fn write(&mut self, cell: &mut SessionCell, data: &[u8]) -> (r: Result<usize, Error>)
        requires
            old(self).wf(*old(cell)),
            data@.len() <= usize::MAX - old(cell).engine.files@[old(self).spec_file_id()].data@.len(),
        ensures
            *final(self) == *old(self),
            final(self).wf(*final(cell)),
            SessionCell::spec_same_but_engine(*old(cell), *final(cell)),
            !old(self).spec_active() ==> *final(cell) == *old(cell) && r is Err
                && r->Err_0.spec_code() == ErrorCode::Session(ERROR_BAD_USE),
            old(self).spec_active() && !old(cell).engine.spec_scripted() && !old(cell).engine.spec_wouldblock_due() ==> r == Ok::<usize, Error>(data@.len() as usize)
                && final(cell).engine.files@[old(self).spec_file_id()].data@
                == old(cell).engine.files@[old(self).spec_file_id()].data@ + data@,
    {
        if !self.active {
            return Err(Error::from_errno(ErrorCode::Session(ERROR_BAD_USE)));
        }
        match cell.engine.sftp_write(self.id, data) {
            Ok(n) => Ok(n),
            Err(code) => Err(error_code_into_error(&cell.engine, self.sftp, code)),
        }
    }

    /// Flush buffered writes; the double's writes complete immediately.
    pub fn flush(&mut self, cell: &mut SessionCell) -> (r: Result<(), Error>)
        requires
            old(self).wf(*old(cell)),
        ensures
            *final(self) == *old(self),
            final(self).wf(*final(cell)),
            *final(cell) == *old(cell),
            r is Ok,
    {
        let _ = cell;
        Ok(())
    }

    /// Move the file cursor. A relative seek reads the current position
    /// back from the engine; an end-relative seek reads the size from the
    /// handle's metadata. Positions past the end are clamped to the end.
    pub fn seek(&mut self, cell: &mut SessionCell, how: SeekFrom) -> (r: Result<u64, Error>)
        requires
            old(self).wf(*old(cell)),
        ensures
            *final(self) == *old(self),
            final(self).wf(*final(cell)),
            SessionCell::spec_same_but_engine(*old(cell), *final(cell)),
            !old(self).spec_active() ==> *final(cell) == *old(cell) && r is Err
                && r->Err_0.spec_code() == ErrorCode::Session(ERROR_BAD_USE),
            how matches SeekFrom::Start(p) ==> (old(self).spec_active() ==> ({
                let slot = old(cell).engine.files@[old(self).spec_file_id()];
                let target = if p <= slot.data@.len() {
                    p as int
                } else {
                    slot.data@.len() as int
                };
                r == Ok::<u64, Error>(p) && final(cell).engine.files@[old(self).spec_file_id()].pos == target as usize
            })),
            how matches SeekFrom::Current(offset) ==> (old(self).spec_active() ==> ({
                let slot = old(cell).engine.files@[old(self).spec_file_id()];
                let wanted = if slot.pos + offset < 0 {
                    0int
                } else if slot.pos + offset > u64::MAX {
                    u64::MAX as int
                } else {
                    slot.pos + offset
                };
                let target = if wanted <= slot.data@.len() {
                    wanted
                } else {
                    slot.data@.len() as int
                };
                r == Ok::<u64, Error>(wanted as u64) && final(cell).engine.files@[old(self).spec_file_id()].pos == target as usize
            })),
            how matches SeekFrom::End(offset) ==> (old(self).spec_active() ==> ({
                let slot = old(cell).engine.files@[old(self).spec_file_id()];
                let size = slot.attrs.filesize as int;
                let wanted = if size + offset < 0 {
                    0int
                } else if size + offset > u64::MAX {
                    u64::MAX as int
                } else {
                    size + offset
                };
                let target = if wanted <= slot.data@.len() {
                    wanted
                } else {
                    slot.data@.len() as int
                };
                r == Ok::<u64, Error>(wanted as u64) && final(cell).engine.files@[old(self).spec_file_id()].pos == target as usize
            })),
    {
        if !self.active {
            return Err(Error::from_errno(ErrorCode::Session(ERROR_BAD_USE)));
        }
        let next: u64 = match how {
            SeekFrom::Start(p) => p,
            SeekFrom::Current(offset) => {
                let cur = cell.engine.sftp_tell(self.id);
                if offset >= 0 {
                    if cur <= u64::MAX - (offset as u64) {
                        cur + (offset as u64)
                    } else {
                        u64::MAX
                    }
                } else {
                    let back = (-(offset as i128)) as u64;
                    if back <= cur {
                        cur - back
                    } else {
                        0
                    }
                }
            }
            SeekFrom::End(offset) => {
                let attrs = cell.engine.sftp_fstat(self.id);
                let size = attrs.filesize;
                if offset >= 0 {
                    if size <= u64::MAX - (offset as u64) {
                        size + (offset as u64)
                    } else {
                        u64::MAX
                    }
                } else {
                    let back = (-(offset as i128)) as u64;
                    if back <= size {
                        size - back
                    } else {
                        0
                    }
                }
            }
        };
        cell.engine.sftp_seek(self.id, next);
        Ok(next)
    }

    /// Close the handle explicitly, propagating any failure.
    ///
    /// After a would-block failure the handle stays usable so the close can
    /// be retried; after success or any other failure the handle must not
    /// be used again, and a later implicit cleanup is a safe no-op. Closing
    /// the last handle of a subsystem whose `Sftp` value is already gone
    /// tears the subsystem down, with blocking mode forced and restored
    /// around that cleanup.
    pub fn close(&mut self, cell: &mut SessionCell) -> (r: Result<(), Error>)
        requires
            old(self).wf(*old(cell)),
        ensures
            final(self).wf(*final(cell)),
            final(cell).engine.blocking == old(cell).engine.blocking,
            !old(self).spec_active() ==> *final(cell) == *old(cell) && r is Err
                && r->Err_0.spec_code() == ErrorCode::Session(ERROR_BAD_USE),
            old(self).spec_active() && !old(cell).engine.spec_wouldblock_due() ==> r is Ok
                && !final(self).spec_active()
                && !final(cell).engine.files@[old(self).spec_file_id()].alive
                && final(cell).sftp_refs@[old(self).spec_sftp()]
                == old(cell).sftp_refs@[old(self).spec_sftp()] - 1,
            old(self).spec_active() && old(cell).engine.spec_wouldblock_due() ==> r is Err
                && r->Err_0.spec_code() == ErrorCode::Session(ERROR_EAGAIN)
                && final(self).spec_active() && *final(self) == *old(self)
                && final(cell).sftp_refs@ == old(cell).sftp_refs@,
    {
        if !self.active {
            return Err(Error::from_errno(ErrorCode::Session(ERROR_BAD_USE)));
        }
        let rc = cell.engine.sftp_close_handle(self.id);
        if rc == ERROR_EAGAIN {
            return Err(error_code_into_error(&cell.engine, self.sftp, rc));
        }
        self.active = false;
        let sid = self.sftp;
        cell.sftp_refs[sid] = cell.sftp_refs[sid] - 1;
        if cell.sftp_refs[sid] == 0 {
            let was_blocking = cell.engine.blocking;
            cell.engine.set_blocking(true);
            let _ = cell.engine.sftp_shutdown(sid);
            cell.engine.set_blocking(was_blocking);
            cell.refs = cell.refs - 1;
            if cell.refs == 0 {
                cell.engine_alive = false;
            }
        }
        cell.rc(rc)
    }

    /// Retire this handle: close it if it is still open, with blocking
    /// mode forced and restored around the cleanup calls, ignoring any
    /// failure as a destructor must.
    pub fn dispose(self, cell: &mut SessionCell)
        requires
            self.wf(*old(cell)),
        ensures
            final(cell).wf(),
            final(cell).engine.blocking == old(cell).engine.blocking,
            final(cell).sftp_refs@.len() == old(cell).sftp_refs@.len(),
            !self.spec_active() ==> *final(cell) == *old(cell),
            self.spec_active() ==> !final(cell).engine.files@[self.spec_file_id()].alive
                && final(cell).sftp_refs@[self.spec_sftp()] == old(cell).sftp_refs@[self.spec_sftp()]
                - 1,
            self.spec_active() && old(cell).sftp_refs@[self.spec_sftp()] > 1 ==> final(cell).refs == old(cell).refs && final(cell).engine_alive == old(cell).engine_alive,
    {
        if !self.active {
            return;
        }
        let was_blocking = cell.engine.blocking;
        cell.engine.set_blocking(true);
        let _ = cell.engine.sftp_close_handle(self.id);
        let sid = self.sftp;
        cell.sftp_refs[sid] = cell.sftp_refs[sid] - 1;
        if cell.sftp_refs[sid] == 0 {
            let _ = cell.engine.sftp_shutdown(sid);
            cell.refs = cell.refs - 1;
            if cell.refs == 0 {
                cell.engine_alive = false;
            }
        }
        cell.engine.set_blocking(was_blocking);
    }
}

impl Sftp {
    /// Convenience enumeration of a directory's contents: open a directory
    /// handle, walk the cursor protocol until the distinguished "no more
    /// files" report, filter out the `.` and `..` entries, and join each
    /// remaining name onto `dirname` with the protocol's separator.
    ///
    /// On a staged directory, with no failure scripted and no would-block
    /// reply due, the result is owed: one entry per staged remote file (in
    /// staging order, none of them named `.` or `..`), carrying the joined
    /// name and the file's metadata.
    pub fn readdir(&self, cell: &mut SessionCell, dirname: &[u8]) -> (r: Result<Vec<(Vec<u8>, FileStat)>, Error>)
        requires
            self.wf(*old(cell)),
            old(cell).sftp_refs@[self.spec_id()] < u64::MAX,
        ensures
            self.wf(*final(cell)),
            dirname@.contains(0u8) ==> *final(cell) == *old(cell) && r is Err
                && crate::util::spec_is_path_nul_error(r->Err_0),
            !self.spec_active() && !dirname@.contains(0u8) ==> *final(cell) == *old(cell) && r
                is Err && r->Err_0.spec_code() == ErrorCode::Session(ERROR_BAD_USE),
            self.spec_active() && !dirname@.contains(0u8) && !old(cell).engine.spec_scripted()
                && Engine::spec_no_dir_before(
                old(cell).engine.remote_dirs@,
                dirname@,
                old(cell).engine.remote_dirs@.len() as int,
            ) ==> r is Err && r->Err_0.spec_code() == ErrorCode::SFTP(
                crate::error::FX_NO_SUCH_FILE,
            ),
            r matches Ok(entries) ==> forall|i: int|
                0 <= i < entries@.len() ==> (#[trigger] entries@[i]).0@.len() > dirname@.len(),
            self.spec_active() && !dirname@.contains(0u8) && !old(cell).engine.spec_scripted()
                && (old(cell).engine.blocking || old(cell).engine.wouldblock == 0) && (exists|j: int|
                0 <= j < old(cell).engine.remote_dirs@.len() && (#[trigger] old(cell).engine.remote_dirs@[j])@ == dirname@) && (forall|j: int|
                0 <= j < old(cell).engine.remote_files@.len() ==> (#[trigger] old(cell).engine.remote_files@[j]).path@ != seq![0x2eu8] && old(cell).engine.remote_files@[j].path@
                    != seq![0x2eu8, 0x2eu8]) ==> r is Ok && ({
                let files = old(cell).engine.remote_files@;
                let entries = r->Ok_0@;
                &&& entries.len() == files.len()
                &&& forall|i: int|
                    0 <= i < files.len() ==> (#[trigger] entries[i]).0@ == dirname@.push(
                        0x2fu8,
                    ) + files[i].path@ && entries[i].1 == spec_filestat_of(
                        Engine::spec_attrs_of(files[i]),
                    )
            }),
    {
        let mut dir = match self.opendir(cell, dirname) {
            Ok(d) => d,
            Err(e) => {
                return Err(e);
            }
        };
        let prefix = match path2bytes(dirname) {
            Ok(p) => p,
            Err(e) => {
                dir.dispose(cell);
                return Err(e);
            }
        };
        let ghost files0 = old(cell).engine.remote_files@;
        let ghost clean = self.spec_active() && !dirname@.contains(0u8) && !old(
            cell,
        ).engine.spec_scripted() && (old(cell).engine.blocking || old(cell).engine.wouldblock
            == 0) && (forall|j: int|
            0 <= j < files0.len() ==> (#[trigger] files0[j]).path@ != seq![0x2eu8]
                && files0[j].path@ != seq![0x2eu8, 0x2eu8]);
        let mut dot: Vec<u8> = Vec::new();
        dot.push(0x2eu8);
        let mut dotdot: Vec<u8> = Vec::new();
        dotdot.push(0x2eu8);
        dotdot.push(0x2eu8);
        let mut ret: Vec<(Vec<u8>, FileStat)> = Vec::new();
        loop
            invariant
                dir.wf(*cell),
                dir.spec_active(),
                self.wf(*cell),
                self.spec_active(),
                dir.spec_sftp() == self.spec_id(),
                cell.sftp_refs@[self.spec_id()] >= 2,
                !dirname@.contains(0u8),
                prefix@ == dirname@,
                dot@ == seq![0x2eu8],
                dotdot@ == seq![0x2eu8, 0x2eu8],
                files0 == old(cell).engine.remote_files@,
                clean == (self.spec_active() && !dirname@.contains(0u8) && !old(cell).engine.spec_scripted() && (old(cell).engine.blocking || old(cell).engine.wouldblock == 0) && (forall|j: int|
                    0 <= j < files0.len() ==> (#[trigger] files0[j]).path@ != seq![0x2eu8]
                        && files0[j].path@ != seq![0x2eu8, 0x2eu8])),
                !old(cell).engine.spec_scripted() ==> exists|j: int|
                    0 <= j < old(cell).engine.remote_dirs@.len() && (#[trigger] old(cell).engine.remote_dirs@[j])@ == dirname@,
                forall|i: int|
                    0 <= i < ret@.len() ==> (#[trigger] ret@[i]).0@.len() > prefix@.len(),
                clean ==> ({
                    let slot = cell.engine.files@[dir.spec_file_id()];
                    &&& !cell.engine.spec_scripted()
                    &&& cell.engine.blocking == old(cell).engine.blocking
                    &&& cell.engine.wouldblock <= old(cell).engine.wouldblock
                    &&& !cell.engine.spec_wouldblock_due()
                    &&& slot.dir_entries@.len() == files0.len() + 2
                    &&& slot.dir_entries@[0].0@ == seq![0x2eu8]
                    &&& slot.dir_entries@[1].0@ == seq![0x2eu8, 0x2eu8]
                    &&& (forall|i: int|
                        0 <= i < files0.len() ==> (#[trigger] slot.dir_entries@[i + 2]).0@
                            == files0[i].path@ && slot.dir_entries@[i + 2].1
                            == Engine::spec_attrs_of(files0[i]))
                    &&& slot.dir_pos <= slot.dir_entries@.len()
                    &&& (slot.dir_pos <= 2 ==> ret@.len() == 0)
                    &&& (slot.dir_pos > 2 ==> ret@.len() == slot.dir_pos - 2)
                    &&& (forall|i: int|
                        0 <= i < ret@.len() ==> (#[trigger] ret@[i]).0@ == dirname@.push(
                            0x2fu8,
                        ) + files0[i].path@ && ret@[i].1 == spec_filestat_of(
                            Engine::spec_attrs_of(files0[i]),
                        ))
                }),
            decreases (if cell.engine.spec_scripted() {
                1int
            } else {
                0int
            }), cell.engine.wouldblock, cell.engine.files@[dir.spec_file_id()].dir_entries@.len()
                - cell.engine.files@[dir.spec_file_id()].dir_pos,
        {
            let ghost pre_pos = cell.engine.files@[dir.spec_file_id()].dir_pos as int;
            let ghost pre_slot = cell.engine.files@[dir.spec_file_id()];
            match dir.readdir(cell) {
                Ok((name, stat)) => {
                    proof {
                        if clean {
                            assert(pre_pos < pre_slot.dir_entries@.len());
                            assert(name@ == pre_slot.dir_entries@[pre_pos].0@);
                            if pre_pos >= 2 {
                                assert(pre_slot.dir_entries@[(pre_pos - 2) + 2].0@ == files0[
                                    pre_pos - 2].path@ && pre_slot.dir_entries@[(pre_pos - 2)
                                    + 2].1 == Engine::spec_attrs_of(files0[pre_pos - 2]));
                            }
                        }
                    }
                    let skip = crate::engine::bytes_match(&name, &dot) || crate::engine::bytes_match(
                        &name,
                        &dotdot,
                    );
                    if !skip {
                        proof {
                            if clean {
                                if pre_pos == 0 {
                                    assert(name@ == seq![0x2eu8]);
                                }
                                if pre_pos == 1 {
                                    assert(name@ == seq![0x2eu8, 0x2eu8]);
                                }
                                assert(pre_pos >= 2);
                            }
                        }
                        let mut joined = crate::util::copy_bytes(prefix.as_slice());
                        joined.push(0x2fu8);
                        let mut tail = name;
                        joined.append(&mut tail);
                        proof {
                            if clean {
                                assert(joined@ =~= dirname@.push(0x2fu8) + files0[pre_pos
                                    - 2].path@);
                            }
                            assert(joined@.len() > prefix@.len());
                        }
                        ret.push((joined, stat));
                    } else {
                        proof {
                            if clean {
                                if pre_pos >= 2 {
                                    assert(name@ == files0[pre_pos - 2].path@);
                                    assert(files0[pre_pos - 2].path@ != seq![0x2eu8]
                                        && files0[pre_pos - 2].path@ != seq![0x2eu8, 0x2eu8]);
                                    assert(false);
                                }
                            }
                        }
                    }
                }
                Err(e) => {
                    let is_done = match e.code() {
                        ErrorCode::Session(c) => c == ERROR_FILE,
                        _ => false,
                    };
                    if is_done {
                        proof {
                            if clean {
                                let slot = cell.engine.files@[dir.spec_file_id()];
                                assert(slot.dir_pos == slot.dir_entries@.len());
                                assert(ret@.len() == files0.len());
                            }
                        }
                        dir.dispose(cell);
                        return Ok(ret);
                    }
                    proof {
                        if clean {
                            assert(false);
                        }
                    }
                    dir.dispose(cell);
                    return Err(e);
                }
            }
        }
    }
}

} // verus!
