//! Build-time helper for native GUI sources: decides whether the static
//! archive must be rebuilt, plans the compilation, and resolves the linker
//! directives of the toolkit. All input and output is left to the caller,
//! who drives a [`session::Session`] from [`build`] to its end.

use crate::request::{BuildRequest, BuildRequestView, ToolchainContext};
use crate::session::{opening, Action, Session};
use vstd::prelude::*;

pub mod bridge;
pub mod compile;
pub mod course;
pub mod error;
pub mod flags;
pub mod link;
pub mod paths;
pub mod request;
pub mod session;
pub mod stale;
pub mod text;
pub mod toolchain;
pub mod units;

verus! {

/// Opens the build of the native sources in `folder` for the toolchain of
/// `context`. With `add_start` the entry-point bridge for the application
/// class `appname` is built in. The result is the session of the build and
/// the first thing it asks of its driver: the age of the archive.
pub fn build(folder: &str, add_start: bool, appname: &str, context: ToolchainContext) -> (opened: (
    Session,
    Action,
))
    ensures
        (opened.0@, opened.1@) == opening(
            BuildRequestView {
                source_folder: folder@,
                emit_bridge: add_start,
                app_name: Some(appname@),
            },
            context@,
        ),
{
    Session::start(BuildRequest::new(folder, add_start, appname), context)
}

} // verus!
