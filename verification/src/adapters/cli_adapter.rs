//! The CLI adapter: owns the project service that a command-line run drives.
//!
//! Reading the configuration file, parsing it and reporting the outcome are
//! input/output work done outside the library, against the `FileSystem` and
//! `ProjectGenerator` ports.

use vstd::prelude::*;
use crate::application::project_service::ProjectService;
use crate::domain::ports::FileSystem;

verus! {

/// The command-line entry point's view of the application.
pub struct CliAdapter<F: FileSystem> {
    pub project_service: ProjectService<F>,
}

impl<F: FileSystem> CliAdapter<F> {
    /// Wraps a project service.
    pub fn new(project_service: ProjectService<F>) -> (r: CliAdapter<F>)
        ensures
            r.project_service == project_service,
    {
        CliAdapter { project_service }
    }
}

} // verus!
