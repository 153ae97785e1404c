//! Opening and closing an archive: the arguments of the open call, checked
//! and completed, and the owner of the native archive.
use vstd::prelude::*;
use crate::error::Status;
use crate::error::status_result;
use crate::handle::OwnedExternHandle;
use crate::native::ErrorCode;
use crate::reader::first_nul;
use crate::reader::is_first_nul;

verus! {

/// The number of bytes of an event chunk where none is asked for.
pub const OTF2_CHUNK_SIZE_EVENTS_DEFAULT: u64 = 1024 * 1024;

/// The number of bytes of a definition chunk where none is asked for.
pub const OTF2_CHUNK_SIZE_DEFINITIONS_DEFAULT: u64 = 4 * 1024 * 1024;

/// How an archive is opened.
#[derive(Clone, Copy, Debug, PartialEq, Eq, Structural)]
pub enum Mode {
    Write,
    Read,
    Modify,
}

/// What an archive is stored on.
#[derive(Clone, Copy, Debug, PartialEq, Eq, Structural)]
pub enum Substrate {
    Undefined,
    Posix,
    Sion,
    Nothing,
}

/// How an archive is compressed.
#[derive(Clone, Copy, Debug, PartialEq, Eq, Structural)]
pub enum Compression {
    Undefined,
    Nothing,
    Zlib,
}

/// Why an archive could not be opened.
#[derive(Debug, Clone, PartialEq, Eq)]
pub enum ArchiveBuilderError {
    /// The builder was not told this argument, which the open call needs.
    MissingField(&'static str),
    /// The argument `field` holds a zero byte at `pos`, so it cannot be
    /// handed to the engine as a string.
    NullByte { field: &'static str, pos: usize },
    /// The engine returned no archive.
    OpenReturnedNull { name: String, path: String },
}

impl ArchiveBuilderError {
    /// The error for a zero byte at `pos` in the argument `field`.
    pub fn null_byte(field: &'static str, pos: usize) -> (e: Self)
        ensures
            e == (ArchiveBuilderError::NullByte { field, pos }),
    {
        ArchiveBuilderError::NullByte { field, pos }
    }

    /// The error for an open call that returned the null address.
    pub fn open_returned_null(name: String, path: String) -> (e: Self)
        ensures
            e == (ArchiveBuilderError::OpenReturnedNull { name, path }),
    {
        ArchiveBuilderError::OpenReturnedNull { name, path }
    }
}

/// Why an archive could not be closed.
#[derive(Debug, Clone, Copy, PartialEq, Eq)]
pub enum ArchiveError {
    /// The close call returned this status.
    Close(Status),
}

/// The arguments of the open call, all of them settled.
#[derive(Clone, Copy, Debug, PartialEq, Eq, Structural)]
pub struct ArchiveOpenArgs {
    pub mode: Mode,
    pub chunk_size_events: u64,
    pub chunk_size_defs: u64,
    pub substrate: Substrate,
    pub compression: Compression,
}

/// The arguments of the open call as far as they were told. The mode has to
/// be told; the others have defaults.
#[derive(Clone, Copy, Debug, PartialEq, Eq, Structural)]
pub struct ArchiveBuilder {
    pub mode: Option<Mode>,
    pub chunk_size_events: Option<u64>,
    pub chunk_size_defs: Option<u64>,
    pub substrate: Option<Substrate>,
    pub compression: Option<Compression>,
}

impl Default for ArchiveBuilder {
    fn default() -> (builder: Self)
        ensures
            builder == ArchiveBuilder::empty(),
    {
        ArchiveBuilder {
            mode: None,
            chunk_size_events: None,
            chunk_size_defs: None,
            substrate: None,
            compression: None,
        }
    }
}

impl ArchiveBuilder {
    /// The builder that was told nothing.
    pub open spec fn empty() -> ArchiveBuilder {
        ArchiveBuilder {
            mode: None,
            chunk_size_events: None,
            chunk_size_defs: None,
            substrate: None,
            compression: None,
        }
    }

    /// The arguments that this builder settles on: what it was told, and the
    /// default for what it was not told. Without a mode there are none.
    pub open spec fn settled(self) -> Option<ArchiveOpenArgs> {
        match self.mode {
            None => None,
            Some(mode) => Some(
                ArchiveOpenArgs {
                    mode,
                    chunk_size_events: match self.chunk_size_events {
                        Some(n) => n,
                        None => OTF2_CHUNK_SIZE_EVENTS_DEFAULT,
                    },
                    chunk_size_defs: match self.chunk_size_defs {
                        Some(n) => n,
                        None => OTF2_CHUNK_SIZE_DEFINITIONS_DEFAULT,
                    },
                    substrate: match self.substrate {
                        Some(s) => s,
                        None => Substrate::Posix,
                    },
                    compression: match self.compression {
                        Some(c) => c,
                        None => Compression::Nothing,
                    },
                },
            ),
        }
    }

    /// Asks for an archive that is read.
    pub fn read(&mut self) -> (builder: &mut Self)
        ensures
            *builder == (ArchiveBuilder { mode: Some(Mode::Read), ..*old(self) }),
            *final(self) == *final(builder),
    {
        self.mode = Some(Mode::Read);
        self
    }

    /// Asks for an archive that is written.
    pub fn write(&mut self) -> (builder: &mut Self)
        ensures
            *builder == (ArchiveBuilder { mode: Some(Mode::Write), ..*old(self) }),
            *final(self) == *final(builder),
    {
        self.mode = Some(Mode::Write);
        self
    }

    /// Asks for an archive that is read and written.
    pub fn readwrite(&mut self) -> (builder: &mut Self)
        ensures
            *builder == (ArchiveBuilder { mode: Some(Mode::Modify), ..*old(self) }),
            *final(self) == *final(builder),
    {
        self.mode = Some(Mode::Modify);
        self
    }

    /// Asks for event chunks of `value` bytes.
    pub fn chunk_size_events(&mut self, value: u64) -> (builder: &mut Self)
        ensures
            *builder == (ArchiveBuilder { chunk_size_events: Some(value), ..*old(self) }),
            *final(self) == *final(builder),
    {
        self.chunk_size_events = Some(value);
        self
    }

    /// Asks for definition chunks of `value` bytes.
    pub fn chunk_size_defs(&mut self, value: u64) -> (builder: &mut Self)
        ensures
            *builder == (ArchiveBuilder { chunk_size_defs: Some(value), ..*old(self) }),
            *final(self) == *final(builder),
    {
        self.chunk_size_defs = Some(value);
        self
    }

    /// Asks for an archive on the substrate `value`.
    pub fn substrate(&mut self, value: Substrate) -> (builder: &mut Self)
        ensures
            *builder == (ArchiveBuilder { substrate: Some(value), ..*old(self) }),
            *final(self) == *final(builder),
    {
        self.substrate = Some(value);
        self
    }

    /// Asks for an archive with the compression `value`.
    pub fn compression(&mut self, value: Compression) -> (builder: &mut Self)
        ensures
            *builder == (ArchiveBuilder { compression: Some(value), ..*old(self) }),
            *final(self) == *final(builder),
    {
        self.compression = Some(value);
        self
    }

    /// Checks and completes the arguments of the open call for the archive
    /// `name` under `path`, both given as the bytes of the strings. The
    /// checks come in this order, and the first that fails gives the error:
    /// `path` holds no zero byte; `name` holds none; the mode was told.
    pub fn open_args(&self, path: &[u8], name: &[u8]) -> (r: Result<
        ArchiveOpenArgs,
        ArchiveBuilderError,
    >)
        ensures
            match r {
                Ok(args) => {
                    &&& forall|i: int| 0 <= i < path@.len() ==> path@[i] != 0
                    &&& forall|i: int| 0 <= i < name@.len() ==> name@[i] != 0
                    &&& self.settled() == Some(args)
                },
                Err(ArchiveBuilderError::NullByte { field, pos }) => {
                    ||| field == "path" && is_first_nul(path@, pos as int)
                    ||| field == "name" && is_first_nul(name@, pos as int) && forall|i: int|
                        0 <= i < path@.len() ==> path@[i] != 0
                },
                Err(ArchiveBuilderError::MissingField(field)) => {
                    &&& field == "mode"
                    &&& self.mode is None
                    &&& forall|i: int| 0 <= i < path@.len() ==> path@[i] != 0
                    &&& forall|i: int| 0 <= i < name@.len() ==> name@[i] != 0
                },
                Err(ArchiveBuilderError::OpenReturnedNull { .. }) => false,
            },
    {
        if let Some(pos) = first_nul(path) {
            return Err(ArchiveBuilderError::null_byte("path", pos));
        }
        if let Some(pos) = first_nul(name) {
            return Err(ArchiveBuilderError::null_byte("name", pos));
        }
        let mode = match self.mode {
            Some(mode) => mode,
            None => {
                return Err(ArchiveBuilderError::MissingField("mode"));
            },
        };
        Ok(
            ArchiveOpenArgs {
                mode,
                chunk_size_events: match self.chunk_size_events {
                    Some(n) => n,
                    None => OTF2_CHUNK_SIZE_EVENTS_DEFAULT,
                },
                chunk_size_defs: match self.chunk_size_defs {
                    Some(n) => n,
                    None => OTF2_CHUNK_SIZE_DEFINITIONS_DEFAULT,
                },
                substrate: match self.substrate {
                    Some(s) => s,
                    None => Substrate::Posix,
                },
                compression: match self.compression {
                    Some(c) => c,
                    None => Compression::Nothing,
                },
            },
        )
    }
}

/// An open archive: the owner of the native archive, which `close` releases
/// through the native close call.
#[verifier::reject_recursive_types(F)]
pub struct Archive<F: FnOnce(usize) -> ErrorCode> {
    pub handle: OwnedExternHandle<ErrorCode, F>,
    pub path: String,
    pub name: String,
}

impl<F: FnOnce(usize) -> ErrorCode> Archive<F> {
    /// Takes over what the open call returned for the archive `name` under
    /// `path`: the archive, to be closed by `close`, or, where the call
    /// returned the null address, the error that names both.
    pub fn opened(handle: usize, close: F, path: String, name: String) -> (r: Result<
        Self,
        ArchiveBuilderError,
    >)
        requires
            handle != 0 ==> call_requires(close, (handle,)),
        ensures
            handle == 0 ==> r == Err::<Self, ArchiveBuilderError>(
                ArchiveBuilderError::OpenReturnedNull { name, path },
            ),
            handle != 0 ==> (r matches Ok(archive) && archive.handle.addr() == handle
                && archive.handle.release_fn() == Some(close) && archive.handle.release_count() == 0
                && archive.path == path && archive.name == name),
    {
        match OwnedExternHandle::new(handle, close) {
            Ok(handle) => Ok(Archive { handle, path, name }),
            Err(_) => Err(ArchiveBuilderError::open_returned_null(name, path)),
        }
    }

    /// Closes the archive: the native close call is made once, on the
    /// archive's address, and a status other than success comes back as the
    /// error. An archive whose handle was released before is closed already.
    pub fn close(self) -> (r: Result<(), ArchiveError>)
        ensures
            self.handle.spec_dropped() ==> r == Ok::<(), ArchiveError>(()),
            !self.handle.spec_dropped() ==> self.handle.release_fn() is Some && exists|
                code: ErrorCode,
            |
                call_ensures(self.handle.release_fn()->0, (self.handle.addr(),), code) && r == (
                match status_result(Status::spec_from(code)) {
                    Ok(_) => Ok::<(), ArchiveError>(()),
                    Err(status) => Err::<(), ArchiveError>(ArchiveError::Close(status)),
                }),
    {
        let mut this = self;
        match this.handle.drop_handle() {
            Ok(_) => Ok(()),
            Err(status) => Err(ArchiveError::Close(status)),
        }
    }
}

} // verus!
