//! Types a core implementation exchanges with the frontend driver: the
//! system information block, configuration variables, and capability
//! witnesses.

use vstd::prelude::*;

verus! {

/// Static information about a core: its name, version, the file extensions
/// it accepts, and two loading flags.
#[derive(Clone, Debug)]
pub struct SystemInfo {
    pub library_name: String,
    pub library_version: String,
    pub valid_extensions: String,
    pub need_fullpath: bool,
    pub block_extract: bool,
}

impl SystemInfo {
    /// Minimal constructor; leaves both loading flags off.
    pub fn new(library_name: String, library_version: String, valid_extensions: String) -> (r:
        SystemInfo)
        ensures
            r.library_name@ == library_name@,
            r.library_version@ == library_version@,
            r.valid_extensions@ == valid_extensions@,
            !r.need_fullpath,
            !r.block_extract,
    {
        SystemInfo {
            library_name,
            library_version,
            valid_extensions,
            need_fullpath: false,
            block_extract: false,
        }
    }

    /// The same info block, asking the frontend not to extract archives.
    pub fn with_block_extract(self) -> (r: SystemInfo)
        ensures
            r == (SystemInfo { block_extract: true, ..self }),
    {
        SystemInfo { block_extract: true, ..self }
    }

    /// The same info block, asking for the game's full path instead of its
    /// data.
    pub fn with_need_full_path(self) -> (r: SystemInfo)
        ensures
            r == (SystemInfo { need_fullpath: true, ..self }),
    {
        SystemInfo { need_fullpath: true, ..self }
    }

    /// Whether the core wants the game's full path rather than its data.
    pub fn need_fullpath(&self) -> (r: bool)
        ensures
            r == self.need_fullpath,
    {
        self.need_fullpath
    }

    /// Whether the frontend must not extract archives for this core.
    pub fn block_extract(&self) -> (r: bool)
        ensures
            r == self.block_extract,
    {
        self.block_extract
    }

    /// The five fields in declaration order.
    pub fn into_inner(self) -> (r: (String, String, String, bool, bool))
        ensures
            r.0@ == self.library_name@,
            r.1@ == self.library_version@,
            r.2@ == self.valid_extensions@,
            r.3 == self.need_fullpath,
            r.4 == self.block_extract,
    {
        (self.library_name, self.library_version, self.valid_extensions, self.need_fullpath, self
            .block_extract)
    }
}

/// Witness that the inputs were polled this frame; only the driver can mint
/// one.
pub struct InputsPolled(pub(crate) ());

/// A configuration variable's value as the frontend answers it: absent when
/// the variable is not set.
#[derive(Clone, Debug, Default)]
pub struct RetroVariable(pub Option<String>);

impl RetroVariable {
    /// Wraps a frontend answer.
    pub fn new(value: Option<String>) -> (r: RetroVariable)
        ensures
            r.0 == value,
    {
        RetroVariable(value)
    }
}

} // verus!
