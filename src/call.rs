use vstd::prelude::*;

use crate::request::{Request, RequestView};

verus! {

/// The CI services the bot watches.
#[derive(Clone, Copy, PartialEq, Eq, Structural, Debug)]
pub enum Backend {
    Travis,
    AppVeyor,
    Azure,
}

/// What a request is for, and so how its reply is read.
#[derive(Clone, PartialEq, Eq, Debug)]
pub enum Purpose {
    /// The builds of one repository on the branch.
    ListBuilds,
    /// The last build of the branch, with its jobs, to be judged only when it
    /// is the latest build of the history: the one with this number and
    /// version.
    BranchTip(u32, String),
    /// One build with its jobs.
    BuildDetail,
    /// The timeline of the given build.
    Timeline(u32),
    /// A cancellation; its reply carries nothing.
    Cancel,
}

pub enum PurposeView {
    ListBuilds,
    BranchTip(u32, Seq<char>),
    BuildDetail,
    Timeline(u32),
    Cancel,
}

impl View for Purpose {
    type V = PurposeView;

    open spec fn view(&self) -> PurposeView {
        match self {
            Purpose::ListBuilds => PurposeView::ListBuilds,
            Purpose::BranchTip(n, v) => PurposeView::BranchTip(*n, v@),
            Purpose::BuildDetail => PurposeView::BuildDetail,
            Purpose::Timeline(id) => PurposeView::Timeline(*id),
            Purpose::Cancel => PurposeView::Cancel,
        }
    }
}

/// A request of the run, tagged with its service, the position of its
/// repository in the configuration, and its purpose.
#[derive(Debug)]
pub struct Call {
    pub backend: Backend,
    pub repo: usize,
    pub purpose: Purpose,
    pub request: Request,
}

pub struct CallView {
    pub backend: Backend,
    pub repo: usize,
    pub purpose: PurposeView,
    pub request: RequestView,
}

impl View for Call {
    type V = CallView;

    open spec fn view(&self) -> CallView {
        CallView {
            backend: self.backend,
            repo: self.repo,
            purpose: self.purpose@,
            request: self.request@,
        }
    }
}

pub open spec fn calls_view(calls: Seq<Call>) -> Seq<CallView> {
    calls.map_values(|c: Call| c@)
}

/// Why a request brought nothing usable; the repository is left alone for
/// this run.
#[derive(Debug)]
pub enum FetchError {
    /// The connection failed.
    Transport(String),
    /// The service answered with a status other than 200 or 204.
    Status(u32, String),
    /// The reply did not have the expected shape; holds the offending text.
    Decode(String),
}

} // verus!
