//! The configuration that the engine consumes, as typed values.

use vstd::prelude::*;
use crate::pattern::{pattern_compiles, FilePattern};

verus! {

/// A local directory that is watched for files.
#[derive(Debug, PartialEq, Eq)]
pub struct DirectorySource {
    pub name: String,
    pub directory: String,
}

impl Clone for DirectorySource {
    fn clone(&self) -> (copy: DirectorySource)
        ensures
            copy.name@ == self.name@,
            copy.directory@ == self.directory@,
    {
        DirectorySource { name: self.name.clone(), directory: self.directory.clone() }
    }
}

/// How a directory target brings a file into its directory.
#[derive(Clone, Copy, Debug, PartialEq, Eq, Structural)]
pub enum LocalTargetMethod {
    Copy,
    Hardlink,
    Symlink,
}

/// A local directory into which files are materialised.
#[derive(Debug, PartialEq, Eq)]
pub struct DirectoryTarget {
    pub name: String,
    pub directory: String,
    pub method: LocalTargetMethod,
}

/// A remote directory that is polled for files whose name matches a pattern.
#[derive(Debug)]
pub struct SftpSource {
    pub name: String,
    pub address: String,
    pub username: String,
    pub directory: String,
    pub regex: FilePattern,
    /// Milliseconds to rest between two scan cycles.
    pub scan_interval: u64,
}

/// Why a configured value was refused.
#[derive(Clone, Copy, Debug, PartialEq, Eq, Structural)]
pub enum SettingsError {
    /// The file-name pattern is no valid regular expression.
    InvalidPattern,
}

impl SftpSource {
    /// Builds a remote source from its configured values, compiling the
    /// file-name pattern. Fails exactly where the pattern does not compile.
    pub fn new(
        name: String,
        address: String,
        username: String,
        directory: String,
        pattern: &str,
        scan_interval: u64,
    ) -> (built: Result<SftpSource, SettingsError>)
        ensures
            match built {
                Ok(source) => {
                    &&& pattern_compiles(pattern@)
                    &&& source.regex@ == pattern@
                    &&& source.name@ == name@
                    &&& source.address@ == address@
                    &&& source.username@ == username@
                    &&& source.directory@ == directory@
                    &&& source.scan_interval == scan_interval
                },
                Err(e) => e == SettingsError::InvalidPattern && !pattern_compiles(pattern@),
            },
    {
        match FilePattern::new(pattern) {
            Ok(regex) => Ok(SftpSource { name, address, username, directory, regex, scan_interval }),
            Err(e) => Err(e),
        }
    }
}

} // verus!
