use vstd::prelude::*;

verus! {

/// Firmware status code returned to the boot manager when a boot attempt
/// ends. Each failure path maps to a distinct code so the caller can tell
/// the causes apart.
#[derive(Clone, Copy, Debug, PartialEq, Eq, Structural)]
pub enum Status {
    Success,
    NotFound,
    LoadError,
    OutOfResources,
    Unsupported,
    InvalidParameter,
    BufferTooSmall,
    DeviceError,
}

/// Failures of volume resolution, directory opening and file loading.
#[derive(Clone, Copy, Debug, PartialEq, Eq, Structural)]
pub enum LoadError {
    /// The underlying firmware service failed outright (no boot volume
    /// could be resolved for the image).
    Firmware,
    /// No entry of the requested name exists.
    NotFound,
    /// The entry exists but is a regular file where a directory was required.
    NotADirectory,
    /// The entry exists but is a directory where a regular file was required.
    NotAFile,
    /// The allocator could not provide a buffer of the requested size.
    AllocationFailed,
    /// A full read delivered fewer bytes than the file's queried size.
    ShortRead,
}

impl LoadError {
    /// The status code reported for this failure.
    pub open spec fn spec_status(&self) -> Status {
        match self {
            LoadError::Firmware => Status::DeviceError,
            LoadError::NotFound => Status::NotFound,
            LoadError::NotADirectory => Status::InvalidParameter,
            LoadError::NotAFile => Status::Unsupported,
            LoadError::AllocationFailed => Status::OutOfResources,
            LoadError::ShortRead => Status::LoadError,
        }
    }

    /// The status code reported for this failure.
    pub fn status(&self) -> (s: Status)
        ensures
            s == self.spec_status(),
    {
        match self {
            LoadError::Firmware => Status::DeviceError,
            LoadError::NotFound => Status::NotFound,
            LoadError::NotADirectory => Status::InvalidParameter,
            LoadError::NotAFile => Status::Unsupported,
            LoadError::AllocationFailed => Status::OutOfResources,
            LoadError::ShortRead => Status::LoadError,
        }
    }
}

/// Failures of boot-info assembly.
#[derive(Clone, Copy, Debug, PartialEq, Eq, Structural)]
pub enum BuildError {
    /// The pool allocator could not provide the memory-map buffer.
    AllocationFailed,
    /// The memory-map snapshot no longer fits the buffer allocated for it.
    MapBufferTooSmall,
    /// No graphics-output protocol instance is available.
    GraphicsUnavailable,
}

impl BuildError {
    /// The status code reported for this failure.
    pub open spec fn spec_status(&self) -> Status {
        match self {
            BuildError::AllocationFailed => Status::OutOfResources,
            BuildError::MapBufferTooSmall => Status::BufferTooSmall,
            BuildError::GraphicsUnavailable => Status::DeviceError,
        }
    }

    /// The status code reported for this failure.
    pub fn status(&self) -> (s: Status)
        ensures
            s == self.spec_status(),
    {
        match self {
            BuildError::AllocationFailed => Status::OutOfResources,
            BuildError::MapBufferTooSmall => Status::BufferTooSmall,
            BuildError::GraphicsUnavailable => Status::DeviceError,
        }
    }
}

/// Failures of executable-header validation, with the offset and the
/// expected and found bytes where a single byte decides.
#[derive(Clone, Copy, Debug, PartialEq, Eq, Structural)]
pub enum FormatError {
    /// The buffer is shorter than the four-byte executable magic.
    TooShort { length: usize },
    /// A byte of the magic prefix differs from the expected executable magic.
    BadMagic { offset: usize, expected: u8, found: u8 },
    /// The magic is present but the parser rejected the rest of the header.
    Malformed,
}

impl FormatError {
    /// Every malformed executable ends the attempt as a load error.
    pub fn status(&self) -> (s: Status)
        ensures
            s == Status::LoadError,
    {
        Status::LoadError
    }
}

} // verus!
