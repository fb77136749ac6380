//! Fetching an image into the local cache.
//!
//! A fetch is a short exchange between a [`FetchSession`] and the caller:
//! the session names an action (look for the cached file, create the
//! directory, download, write, commit, clean up), the caller performs it and
//! reports whether it succeeded, and the session names the next one, until
//! it finishes with the file's path or an error.
//!
//! A file that already exists at the cache path is used as it is, with no
//! download. A download is written to a partial file first and only renamed
//! to the cache path once it is complete, so that a failed fetch never
//! leaves a file that a later fetch would take for a cache hit.

use vstd::prelude::*;
use crate::models::WHImageData;
use crate::naming::{cache_path, cache_path_of};

verus! {

/// Which asset of an image is fetched.
#[derive(Debug, Clone, Copy, PartialEq, Eq, Structural)]
pub enum AssetKind {
    /// The small preview, from `thumbs.small`.
    Thumbnail,
    /// The full-resolution image, from `path`.
    Original,
}

/// Why a fetch failed.
#[derive(Debug, Clone, Copy, PartialEq, Eq, Structural)]
pub enum FetchError {
    /// The target directory could not be created.
    DirectoryCreate,
    /// The download failed.
    Network,
    /// The downloaded bytes could not be written to the cache.
    Write,
}

/// Where a fetch reads from and writes to.
#[derive(Debug, Clone)]
pub struct FetchPlan {
    pub dir: String,
    pub path: String,
    pub partial_path: String,
    pub url: String,
}

/// The stage a fetch has reached: the action last named is under way.
#[derive(Debug)]
pub enum FetchStage {
    Check,
    MakeDir,
    Download,
    Write,
    Commit,
    Cleanup(FetchError),
    Done(Result<String, FetchError>),
}

/// What the caller is to do next.
#[derive(Debug)]
pub enum FetchAction {
    /// Report whether a file exists at this path.
    CheckExists(String),
    /// Create this directory and its parents; report success.
    CreateDir(String),
    /// Download this URL into memory; report success.
    Download(String),
    /// Write the downloaded bytes to this partial file; report success.
    WritePartial(String),
    /// Rename the partial file `from` to the cache path `to`; report success.
    Commit { from: String, to: String },
    /// Remove this partial file, if present; the result does not matter.
    RemovePartial(String),
    /// The fetch is over, with the cached file's path or an error.
    Finish(Result<String, FetchError>),
}

/// The URL of the asset `kind` of `image`.
pub open spec fn asset_url(image: WHImageData, kind: AssetKind) -> Seq<char> {
    match kind {
        AssetKind::Thumbnail => image.thumbs.small@,
        AssetKind::Original => image.path@,
    }
}

/// The suffix of the file a download is written to before it is complete.
pub const PARTIAL_SUFFIX: &'static str = ".part";

/// Whether `plan` fetches the asset `kind` of `image` into `dir`.
pub open spec fn plans(plan: FetchPlan, image: WHImageData, dir: Seq<char>, kind: AssetKind) -> bool {
    &&& plan.dir@ == dir
    &&& plan.path@ == cache_path_of(dir, image.id@, image.file_type@)
    &&& plan.partial_path@ == plan.path@ + PARTIAL_SUFFIX@
    &&& plan.url@ == asset_url(image, kind)
}

/// The stage and the action that follow `stage` when the action under way
/// succeeded (`ok`) or failed.
pub open spec fn transition(plan: FetchPlan, stage: FetchStage, ok: bool) -> (FetchStage, FetchAction) {
    match stage {
        FetchStage::Check => if ok {
            (FetchStage::Done(Ok(plan.path)), FetchAction::Finish(Ok(plan.path)))
        } else {
            (FetchStage::MakeDir, FetchAction::CreateDir(plan.dir))
        },
        FetchStage::MakeDir => if ok {
            (FetchStage::Download, FetchAction::Download(plan.url))
        } else {
            (
                FetchStage::Done(Err(FetchError::DirectoryCreate)),
                FetchAction::Finish(Err(FetchError::DirectoryCreate)),
            )
        },
        FetchStage::Download => if ok {
            (FetchStage::Write, FetchAction::WritePartial(plan.partial_path))
        } else {
            (
                FetchStage::Done(Err(FetchError::Network)),
                FetchAction::Finish(Err(FetchError::Network)),
            )
        },
        FetchStage::Write => if ok {
            (FetchStage::Commit, FetchAction::Commit { from: plan.partial_path, to: plan.path })
        } else {
            (FetchStage::Cleanup(FetchError::Write), FetchAction::RemovePartial(plan.partial_path))
        },
        FetchStage::Commit => if ok {
            (FetchStage::Done(Ok(plan.path)), FetchAction::Finish(Ok(plan.path)))
        } else {
            (FetchStage::Cleanup(FetchError::Write), FetchAction::RemovePartial(plan.partial_path))
        },
        FetchStage::Cleanup(e) => (FetchStage::Done(Err(e)), FetchAction::Finish(Err(e))),
        FetchStage::Done(res) => (FetchStage::Done(res), FetchAction::Finish(res)),
    }
}

/// Whether `stage` can only finish with the cache path of `plan`.
pub open spec fn claims_own_path(plan: FetchPlan, stage: FetchStage) -> bool {
    stage matches FetchStage::Done(Ok(p)) ==> p == plan.path
}

/// The plan for fetching the asset `kind` of `image` into `dir`.
pub fn plan_fetch(image: &WHImageData, dir: &str, kind: AssetKind) -> (r: FetchPlan)
    ensures
        plans(r, *image, dir@, kind),
{
    let path = cache_path(dir, image.id.as_str(), image.file_type.as_str());
    let partial_path = path.clone().concat(PARTIAL_SUFFIX);
    let url = match kind {
        AssetKind::Thumbnail => image.thumbs.small.clone(),
        AssetKind::Original => image.path.clone(),
    };
    FetchPlan { dir: String::from_str(dir), path, partial_path, url }
}

/// One fetch in progress.
pub struct FetchSession {
    plan: FetchPlan,
    stage: FetchStage,
}

impl FetchSession {
    /// A finished fetch holds no path but its own cache path.
    #[verifier::type_invariant]
    spec fn finishes_on_own_path(&self) -> bool {
        claims_own_path(self.plan, self.stage)
    }

    /// The plan this fetch follows.
    pub closed spec fn plan_of(&self) -> FetchPlan {
        self.plan
    }

    /// The plan this fetch follows.
    pub fn plan(&self) -> (r: &FetchPlan)
        ensures
            *r == self.plan_of(),
    {
        &self.plan
    }

    /// The stage this fetch has reached.
    pub closed spec fn stage_of(&self) -> FetchStage {
        self.stage
    }

    /// Starts fetching the asset `kind` of `image` into `dir`: the first
    /// action is to look for the cached file.
    pub fn begin(image: &WHImageData, dir: &str, kind: AssetKind) -> (r: (FetchSession, FetchAction))
        ensures
            plans(r.0.plan_of(), *image, dir@, kind),
            r.0.stage_of() is Check,
            r.1 == FetchAction::CheckExists(r.0.plan_of().path),
    {
        let plan = plan_fetch(image, dir, kind);
        let first = FetchAction::CheckExists(plan.path.clone());
        (FetchSession { plan, stage: FetchStage::Check }, first)
    }

    /// Reports whether the action under way succeeded, and returns the next
    /// one.
    pub fn step(&mut self, ok: bool) -> (r: FetchAction)
        ensures
            final(self).plan_of() == old(self).plan_of(),
            (final(self).stage_of(), r) == transition(old(self).plan_of(), old(self).stage_of(), ok),
            r matches FetchAction::Finish(Ok(p)) ==> p == old(self).plan_of().path,
    {
        proof {
            use_type_invariant(&*self);
        }
        let (stage, action) = match &self.stage {
            FetchStage::Check => if ok {
                (FetchStage::Done(Ok(self.plan.path.clone())), FetchAction::Finish(Ok(self.plan.path.clone())))
            } else {
                (FetchStage::MakeDir, FetchAction::CreateDir(self.plan.dir.clone()))
            },
            FetchStage::MakeDir => if ok {
                (FetchStage::Download, FetchAction::Download(self.plan.url.clone()))
            } else {
                (
                    FetchStage::Done(Err(FetchError::DirectoryCreate)),
                    FetchAction::Finish(Err(FetchError::DirectoryCreate)),
                )
            },
            FetchStage::Download => if ok {
                (FetchStage::Write, FetchAction::WritePartial(self.plan.partial_path.clone()))
            } else {
                (
                    FetchStage::Done(Err(FetchError::Network)),
                    FetchAction::Finish(Err(FetchError::Network)),
                )
            },
            FetchStage::Write => if ok {
                (
                    FetchStage::Commit,
                    FetchAction::Commit {
                        from: self.plan.partial_path.clone(),
                        to: self.plan.path.clone(),
                    },
                )
            } else {
                (
                    FetchStage::Cleanup(FetchError::Write),
                    FetchAction::RemovePartial(self.plan.partial_path.clone()),
                )
            },
            FetchStage::Commit => if ok {
                (FetchStage::Done(Ok(self.plan.path.clone())), FetchAction::Finish(Ok(self.plan.path.clone())))
            } else {
                (
                    FetchStage::Cleanup(FetchError::Write),
                    FetchAction::RemovePartial(self.plan.partial_path.clone()),
                )
            },
            FetchStage::Cleanup(e) => (FetchStage::Done(Err(*e)), FetchAction::Finish(Err(*e))),
            FetchStage::Done(res) => {
                let kept = match res {
                    Ok(p) => Ok(p.clone()),
                    Err(e) => Err(*e),
                };
                let again = match res {
                    Ok(p) => Ok(p.clone()),
                    Err(e) => Err(*e),
                };
                (FetchStage::Done(kept), FetchAction::Finish(again))
            },
        };
        self.stage = stage;
        action
    }
}

/// Two fetches of the same asset of the same image into the same directory
/// use the same cache path; and a fetch that finds a file at that path
/// finishes at once with it, creating no directory and downloading nothing.
/// So once one fetch has stored the file, every later one is a cache hit.
pub proof fn lemma_cache_hit(
    first: FetchPlan,
    second: FetchPlan,
    image: WHImageData,
    dir: Seq<char>,
    kind: AssetKind,
)
    requires
        plans(first, image, dir, kind),
        plans(second, image, dir, kind),
    ensures
        second.path@ == first.path@,
        transition(second, FetchStage::Check, true) == (
            FetchStage::Done(Ok(second.path)),
            FetchAction::Finish(Ok(second.path)),
        ),
{
}

/// A fetch claims a path only when the file was found at its cache path or
/// the complete download was renamed there, and it never claims another
/// path; the partial file is renamed only after it was written in full,
/// and a failed write or rename ends in its removal.
pub proof fn lemma_claims_only_complete_files(plan: FetchPlan, stage: FetchStage, ok: bool)
    requires
        claims_own_path(plan, stage),
    ensures
        claims_own_path(plan, transition(plan, stage, ok).0),
        transition(plan, stage, ok).1 matches FetchAction::Finish(Ok(p)) ==> {
            &&& p == plan.path
            &&& ok && (stage is Check || stage is Commit) || stage matches FetchStage::Done(Ok(_))
        },
        transition(plan, stage, ok).1 is Commit ==> stage is Write && ok,
        (stage is Write || stage is Commit) && !ok ==> transition(plan, stage, ok)
            == (
            FetchStage::Cleanup(FetchError::Write),
            FetchAction::RemovePartial(plan.partial_path),
        ),
{
}

} // verus!
