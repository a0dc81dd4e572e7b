//! The ports the materializer depends on: the file-system collaborator and
//! the generator capability itself.

use vstd::prelude::*;
use crate::domain::config::Config;
use crate::domain::validate::ConfigError;

verus! {

/// An error raised by the file-system collaborator: directory creation or a
/// file write failed.
#[derive(Clone, Debug)]
pub struct FsError {
    pub message: String,
}

/// The reasons a generation run terminates without a complete output tree.
#[derive(Clone, Debug)]
pub enum GenError {
    /// The configuration was rejected before any file was produced.
    Config(ConfigError),
    /// A directory creation or file write failed; the run stops at the first
    /// such failure, with no cleanup of partial output.
    Io(FsError),
}

/// The file-system boundary the materializer writes through. Implementations
/// live outside the library; nothing is assumed of them beyond their
/// signatures.
pub trait FileSystem {
    /// Creates a directory and all of its missing parents.
    fn create_dir_all(&self, path: &str) -> Result<(), FsError>;

    /// Writes `content` to `path`, replacing any previous content.
    fn write_file(&self, path: &str, content: &str) -> Result<(), FsError>;

    /// Reads the file at `path` into a string.
    fn read_to_string(&self, path: &str) -> Result<String, FsError>;
}

/// The capability of scaffolding a whole project from a configuration.
pub trait ProjectGenerator {
    /// Materializes the project that `config` describes.
    fn generate_project(&self, config: Config) -> Result<(), GenError>;
}

} // verus!
