//! Options of the documentation builder.
use vstd::prelude::*;
use crate::paths::{join_path, join_spec};

verus! {

/// Where the builder keeps its files, and how it decides what to build.
/// Paths are kept as slash-separated text.
#[derive(Clone, Debug)]
pub struct DocBuilderOptions {
    pub keep_build_directory: bool,
    pub prefix: String,
    pub destination: String,
    pub crates_io_index_path: String,
    pub skip_if_exists: bool,
    pub skip_if_log_exists: bool,
    pub skip_oldest_versions: bool,
    pub build_only_latest_version: bool,
    pub debug: bool,
}

/// A path that must exist before the builder can run is missing.
#[derive(Clone, Debug)]
pub enum OptionsError {
    DestinationMissing(String),
    IndexMissing(String),
}

pub open spec fn destination_of(prefix: Seq<char>) -> Seq<char> {
    join_spec(prefix, "documentations"@)
}

pub open spec fn index_path_of(prefix: Seq<char>) -> Seq<char> {
    join_spec(prefix, "crates.io-index"@)
}

/// The prefix itself, the documentation destination under it, and the
/// registry index checkout under it.
pub fn generate_paths(prefix: String) -> (r: (String, String, String))
    ensures
        r.0@ == prefix@,
        r.1@ == destination_of(prefix@),
        r.2@ == index_path_of(prefix@),
{
    let destination = join_path(prefix.as_str(), "documentations");
    let crates_io_index_path = join_path(prefix.as_str(), "crates.io-index");
    (prefix, destination, crates_io_index_path)
}

impl DocBuilderOptions {
    /// Creates options rooted at `prefix`, with every flag off.
    pub fn from_prefix(prefix: String) -> (r: DocBuilderOptions)
        ensures
            r.prefix@ == prefix@,
            r.destination@ == destination_of(prefix@),
            r.crates_io_index_path@ == index_path_of(prefix@),
            !r.keep_build_directory,
            !r.skip_if_exists,
            !r.skip_if_log_exists,
            !r.skip_oldest_versions,
            !r.build_only_latest_version,
            !r.debug,
    {
        let (prefix, destination, crates_io_index_path) = generate_paths(prefix);
        DocBuilderOptions {
            keep_build_directory: false,
            prefix,
            destination,
            crates_io_index_path,
            skip_if_exists: false,
            skip_if_log_exists: false,
            skip_oldest_versions: false,
            build_only_latest_version: false,
            debug: false,
        }
    }

    /// Checks the two paths the builder needs, given whether each exists:
    /// the destination is checked first, then the index checkout.
    pub fn check_paths(&self, destination_exists: bool, index_exists: bool) -> (r: Result<
        (),
        OptionsError,
    >)
        ensures
            destination_exists && index_exists <==> r is Ok,
            !destination_exists ==> (r matches Err(OptionsError::DestinationMissing(p)) && p@
                == self.destination@),
            destination_exists && !index_exists ==> (r matches Err(
                OptionsError::IndexMissing(p),
            ) && p@ == self.crates_io_index_path@),
    {
        if !destination_exists {
            return Err(OptionsError::DestinationMissing(self.destination.clone()));
        }
        if !index_exists {
            return Err(OptionsError::IndexMissing(self.crates_io_index_path.clone()));
        }
        Ok(())
    }
}

} // verus!
