//! The secure asset writer: the decisions of saving bytes under a
//! caller-supplied file name inside the asset directory of a vault.
//!
//! The writer does not touch the file system. It says what is to be asked
//! of it, one request at a time, and decides on each reply how to go on.
//! The bytes are handed out for writing only after the directory of the
//! target, resolved afresh, was found under the resolved asset directory.

use crate::error::{BoundaryError, ErrorModel};
use crate::path::{
    base_name, base_name_of, components, is_plain_name, join, joined, lemma_base_name_is_plain,
    lemma_joined_adds_a_component, path_starts_with, starts_with,
};
use vstd::prelude::*;

verus! {

/// What a save waits for.
#[derive(Debug, Clone, Copy, PartialEq, Eq, Structural)]
pub enum Stage {
    /// The asset directory is being created, with every missing ancestor.
    CreatingDirectory,
    /// The asset directory is being resolved.
    ResolvingDirectory,
    /// The directory of the target is being resolved, afresh.
    ResolvingParent,
    /// The bytes are being written.
    Writing,
}

/// What the file system is asked to do next.
#[derive(Debug, PartialEq, Eq)]
pub enum FsRequest {
    /// Create the directory at this path, with every missing ancestor.
    CreateDirAll(String),
    /// Resolve this path: every symbolic link and relative segment in it.
    Canonicalize(String),
    /// Write these bytes to the file at this path, in place of what it held.
    Write(String, Vec<u8>),
}

/// What the file system answered.
#[derive(Debug, PartialEq, Eq)]
pub enum FsReply {
    /// The directory was created, or the file written.
    Done,
    /// The path was resolved to this one.
    Resolved(String),
    /// The request failed, with this message.
    Failed(String),
}

/// A save of one asset under way: the plan that was made of the file name
/// and the vault root, and how far it has come.
#[derive(Debug, PartialEq, Eq)]
pub struct AssetSave {
    stage: Stage,
    base_name: String,
    assets_dir: String,
    file_path: String,
    canonical_assets: String,
    bytes: Vec<u8>,
}

/// A save after a step: it either asks the file system for one thing more,
/// or is over.
#[derive(Debug, PartialEq, Eq)]
pub enum Progress {
    Pending(AssetSave, FsRequest),
    /// The locator of the saved asset, or why nothing was saved.
    Finished(Result<String, BoundaryError>),
}

/// The mathematical value of an [`FsRequest`].
pub enum RequestModel {
    CreateDirAll(Seq<char>),
    Canonicalize(Seq<char>),
    Write(Seq<char>, Seq<u8>),
}

/// The mathematical value of an [`FsReply`].
pub enum ReplyModel {
    Done,
    Resolved(Seq<char>),
    Failed(Seq<char>),
}

/// The mathematical value of an [`AssetSave`].
pub struct SaveModel {
    pub stage: Stage,
    /// The base name of the file name that was given.
    pub base_name: Seq<char>,
    /// The asset directory under the vault root.
    pub assets_dir: Seq<char>,
    /// The target: the base name under the asset directory.
    pub file_path: Seq<char>,
    /// What the asset directory resolved to, once it has.
    pub canonical_assets: Seq<char>,
    /// The bytes that are still to be written.
    pub bytes: Seq<u8>,
}

/// The mathematical value of a [`Progress`].
pub enum ProgressModel {
    Pending(SaveModel, RequestModel),
    Finished(Result<Seq<char>, ErrorModel>),
}

impl View for FsRequest {
    type V = RequestModel;

    open spec fn view(&self) -> RequestModel {
        match self {
            FsRequest::CreateDirAll(path) => RequestModel::CreateDirAll(path@),
            FsRequest::Canonicalize(path) => RequestModel::Canonicalize(path@),
            FsRequest::Write(path, bytes) => RequestModel::Write(path@, bytes@),
        }
    }
}

impl View for FsReply {
    type V = ReplyModel;

    open spec fn view(&self) -> ReplyModel {
        match self {
            FsReply::Done => ReplyModel::Done,
            FsReply::Resolved(path) => ReplyModel::Resolved(path@),
            FsReply::Failed(message) => ReplyModel::Failed(message@),
        }
    }
}

impl View for AssetSave {
    type V = SaveModel;

    closed spec fn view(&self) -> SaveModel {
        SaveModel {
            stage: self.stage,
            base_name: self.base_name@,
            assets_dir: self.assets_dir@,
            file_path: self.file_path@,
            canonical_assets: self.canonical_assets@,
            bytes: self.bytes@,
        }
    }
}

impl View for Progress {
    type V = ProgressModel;

    open spec fn view(&self) -> ProgressModel {
        match self {
            Progress::Pending(save, request) => ProgressModel::Pending(save@, request@),
            Progress::Finished(Ok(locator)) => ProgressModel::Finished(Ok(locator@)),
            Progress::Finished(Err(failure)) => ProgressModel::Finished(Err(failure@)),
        }
    }
}

/// The asset directory of the vault at `vault_root`.
pub open spec fn assets_dir_of(vault_root: Seq<char>) -> Seq<char> {
    joined(joined(vault_root, ".taskdown"@), "assets"@)
}

/// The locator under which the asset of this base name is served.
pub open spec fn asset_uri(base_name: Seq<char>) -> Seq<char> {
    "asset://localhost/"@ + base_name
}

/// The failure that ends a save on a reply that does not answer its
/// request.
pub open spec fn unexpected_reply() -> ErrorModel {
    ErrorModel::IoError("unexpected reply from the file system"@)
}

/// The failure that a reply other than the awaited one ends a save with:
/// the file system's own message where it reported a failure.
pub open spec fn failure_of(reply: ReplyModel) -> ErrorModel {
    match reply {
        ReplyModel::Failed(message) => ErrorModel::IoError(message),
        _ => unexpected_reply(),
    }
}

/// How a save begins. A file name without a base name ends it at once;
/// else the asset directory is to be created.
pub open spec fn started(
    filename: Seq<char>,
    bytes: Seq<u8>,
    vault_root: Seq<char>,
) -> ProgressModel {
    match base_name(filename) {
        None => ProgressModel::Finished(Err(ErrorModel::InvalidFilename)),
        Some(name) => ProgressModel::Pending(
            SaveModel {
                stage: Stage::CreatingDirectory,
                base_name: name,
                assets_dir: assets_dir_of(vault_root),
                file_path: joined(assets_dir_of(vault_root), name),
                canonical_assets: Seq::empty(),
                bytes,
            },
            RequestModel::CreateDirAll(assets_dir_of(vault_root)),
        ),
    }
}

impl SaveModel {
    /// Whether the plan holds together: the base name is a plain name, and
    /// the target is that name under the asset directory.
    pub open spec fn wf(self) -> bool {
        &&& is_plain_name(self.base_name)
        &&& self.file_path == joined(self.assets_dir, self.base_name)
    }

    /// Whether the target, taken under what its directory resolved to, lies
    /// under what the asset directory resolved to.
    pub open spec fn contains_target(self, canonical_parent: Seq<char>) -> bool {
        starts_with(joined(canonical_parent, self.base_name), self.canonical_assets)
    }

    /// The save after `reply` answered its request.
    ///
    /// The directory is created, then resolved, then resolved once more as
    /// the directory of the target; only if the target then lies under the
    /// asset directory are the bytes handed out to be written, and only
    /// when they are written is the locator given. Any other reply ends the
    /// save with a failure.
    pub open spec fn advanced(self, reply: ReplyModel) -> ProgressModel {
        match (self.stage, reply) {
            (Stage::CreatingDirectory, ReplyModel::Done) => ProgressModel::Pending(
                SaveModel { stage: Stage::ResolvingDirectory, ..self },
                RequestModel::Canonicalize(self.assets_dir),
            ),
            (Stage::ResolvingDirectory, ReplyModel::Resolved(path)) => ProgressModel::Pending(
                SaveModel { stage: Stage::ResolvingParent, canonical_assets: path, ..self },
                RequestModel::Canonicalize(self.assets_dir),
            ),
            (Stage::ResolvingParent, ReplyModel::Resolved(path)) => if self.contains_target(path) {
                ProgressModel::Pending(
                    SaveModel { stage: Stage::Writing, bytes: Seq::empty(), ..self },
                    RequestModel::Write(self.file_path, self.bytes),
                )
            } else {
                ProgressModel::Finished(Err(ErrorModel::PathTraversalDetected))
            },
            (Stage::Writing, ReplyModel::Done) => ProgressModel::Finished(
                Ok(asset_uri(self.base_name)),
            ),
            _ => ProgressModel::Finished(Err(failure_of(reply))),
        }
    }
}

/// The failure that a reply other than the awaited one ends a save with.
fn failure(reply: FsReply) -> (failure: BoundaryError)
    ensures
        failure@ == failure_of(reply@),
{
    match reply {
        FsReply::Failed(message) => BoundaryError::IoError(message),
        _ => BoundaryError::IoError(String::from_str("unexpected reply from the file system")),
    }
}

impl AssetSave {
    /// Begins the save of `bytes` under the base name of `filename`, in the
    /// asset directory of the vault at `vault_root`.
    ///
    /// Both are read by the POSIX convention: only `/` separates. A host
    /// whose file system takes another character for a separator as well,
    /// as `\` on Windows, must convert or refuse a file name that holds it
    /// before it begins a save: here such a name is one base name, and the
    /// file system would take it apart again.
    pub fn start(filename: &str, bytes: Vec<u8>, vault_root: &str) -> (progress: Progress)
        ensures
            progress@ == started(filename@, bytes@, vault_root@),
            progress matches Progress::Pending(save, _) ==> save@.wf(),
    {
        match base_name_of(filename) {
            None => Progress::Finished(Err(BoundaryError::InvalidFilename)),
            Some(name) => {
                let hidden = join(vault_root, ".taskdown");
                let assets_dir = join(hidden.as_str(), "assets");
                let file_path = join(assets_dir.as_str(), name.as_str());
                let request = FsRequest::CreateDirAll(assets_dir.clone());
                Progress::Pending(
                    AssetSave {
                        stage: Stage::CreatingDirectory,
                        base_name: name,
                        assets_dir,
                        file_path,
                        canonical_assets: String::new(),
                        bytes,
                    },
                    request,
                )
            },
        }
    }

    /// What the save waits for.
    pub fn stage(&self) -> (stage: Stage)
        ensures
            stage == self@.stage,
    {
        self.stage
    }

    /// The base name under which the asset is saved.
    pub fn base_name(&self) -> (name: &str)
        ensures
            name@ == self@.base_name,
    {
        self.base_name.as_str()
    }

    /// The path of the file that the asset is written to.
    pub fn target(&self) -> (path: &str)
        ensures
            path@ == self@.file_path,
    {
        self.file_path.as_str()
    }

    /// Takes the file system's reply to the request that is pending, and
    /// says what comes next.
    pub fn step(self, reply: FsReply) -> (progress: Progress)
        ensures
            progress@ == self@.advanced(reply@),
    {
        match (self.stage, reply) {
            (Stage::CreatingDirectory, FsReply::Done) => {
                let request = FsRequest::Canonicalize(self.assets_dir.clone());
                Progress::Pending(
                    AssetSave {
                        stage: Stage::ResolvingDirectory,
                        base_name: self.base_name,
                        assets_dir: self.assets_dir,
                        file_path: self.file_path,
                        canonical_assets: self.canonical_assets,
                        bytes: self.bytes,
                    },
                    request,
                )
            },
            (Stage::ResolvingDirectory, FsReply::Resolved(path)) => {
                let request = FsRequest::Canonicalize(self.assets_dir.clone());
                Progress::Pending(
                    AssetSave {
                        stage: Stage::ResolvingParent,
                        base_name: self.base_name,
                        assets_dir: self.assets_dir,
                        file_path: self.file_path,
                        canonical_assets: path,
                        bytes: self.bytes,
                    },
                    request,
                )
            },
            (Stage::ResolvingParent, FsReply::Resolved(path)) => {
                let canonical_file = join(path.as_str(), self.base_name.as_str());
                if path_starts_with(canonical_file.as_str(), self.canonical_assets.as_str()) {
                    let request = FsRequest::Write(self.file_path.clone(), self.bytes);
                    Progress::Pending(
                        AssetSave {
                            stage: Stage::Writing,
                            base_name: self.base_name,
                            assets_dir: self.assets_dir,
                            file_path: self.file_path,
                            canonical_assets: self.canonical_assets,
                            bytes: Vec::new(),
                        },
                        request,
                    )
                } else {
                    Progress::Finished(Err(BoundaryError::PathTraversalDetected))
                }
            },
            (Stage::Writing, FsReply::Done) => {
                let scheme = String::from_str("asset://localhost/");
                Progress::Finished(Ok(scheme.concat(self.base_name.as_str())))
            },
            (_, reply) => Progress::Finished(Err(failure(reply))),
        }
    }
}

/// What holds of a save that is under way for `filename`, `bytes` and
/// `vault_root`: its plan is that of the beginning, each stage asks for
/// what it awaits, and the bytes are handed out only for the target, and
/// only after the containment check passed.
pub open spec fn follows_plan(
    filename: Seq<char>,
    bytes: Seq<u8>,
    vault_root: Seq<char>,
    save: SaveModel,
    request: RequestModel,
) -> bool {
    &&& base_name(filename) == Some(save.base_name)
    &&& save.assets_dir == assets_dir_of(vault_root)
    &&& save.wf()
    &&& match save.stage {
        Stage::CreatingDirectory => request == RequestModel::CreateDirAll(save.assets_dir)
            && save.bytes == bytes,
        Stage::ResolvingDirectory => request == RequestModel::Canonicalize(save.assets_dir)
            && save.bytes == bytes,
        Stage::ResolvingParent => request == RequestModel::Canonicalize(save.assets_dir)
            && save.bytes == bytes,
        Stage::Writing => request == RequestModel::Write(save.file_path, bytes) && exists|
            parent: Seq<char>,
        | #[trigger] save.contains_target(parent),
    }
}

/// Where a save stands after the file system gave `replies`, one by one,
/// to a save that stood at `first`. Once it is over it stays so.
pub open spec fn after(first: ProgressModel, replies: Seq<ReplyModel>) -> ProgressModel
    decreases replies.len(),
{
    if replies.len() == 0 {
        first
    } else {
        match after(first, replies.drop_last()) {
            ProgressModel::Pending(save, _) => save.advanced(replies.last()),
            finished => finished,
        }
    }
}

/// The target of a save is a direct child of its asset directory, whatever
/// the file name was: its components are those of the directory and then
/// the base name.
pub proof fn lemma_target_is_child(save: SaveModel)
    requires
        save.wf(),
    ensures
        components(save.file_path) == components(save.assets_dir).push(save.base_name),
        starts_with(save.file_path, save.assets_dir),
{
    lemma_joined_adds_a_component(save.assets_dir, save.base_name);
}

/// A step keeps the plan.
pub proof fn lemma_step_follows_plan(
    filename: Seq<char>,
    bytes: Seq<u8>,
    vault_root: Seq<char>,
    save: SaveModel,
    request: RequestModel,
    reply: ReplyModel,
)
    requires
        follows_plan(filename, bytes, vault_root, save, request),
    ensures
        save.advanced(reply) matches ProgressModel::Pending(next, asked) ==> follows_plan(
            filename,
            bytes,
            vault_root,
            next,
            asked,
        ),
{
    match save.advanced(reply) {
        ProgressModel::Pending(next, asked) => {
            if next.stage == Stage::Writing {
                let parent = reply->Resolved_0;
                assert(next.contains_target(parent));
            }
        },
        _ => {},
    }
}

/// Whatever the file name and whatever the file system answers, a save
/// never asks to write anywhere but to the base name under the asset
/// directory of the vault, and never other bytes than it was given.
pub proof fn lemma_writes_stay_inside(
    filename: Seq<char>,
    bytes: Seq<u8>,
    vault_root: Seq<char>,
    replies: Seq<ReplyModel>,
)
    ensures
        after(started(filename, bytes, vault_root), replies) matches ProgressModel::Pending(
            save,
            request,
        ) ==> {
            &&& follows_plan(filename, bytes, vault_root, save, request)
            &&& request matches RequestModel::Write(path, written) ==> {
                &&& base_name(filename) matches Some(name)
                &&& is_plain_name(name)
                &&& path == joined(assets_dir_of(vault_root), name)
                &&& starts_with(path, assets_dir_of(vault_root))
                &&& written == bytes
            }
        },
    decreases replies.len(),
{
    let first = started(filename, bytes, vault_root);
    lemma_base_name_is_plain(filename);
    if replies.len() == 0 {
        match first {
            ProgressModel::Pending(save, request) => {
                lemma_target_is_child(save);
            },
            _ => {},
        }
    } else {
        lemma_writes_stay_inside(filename, bytes, vault_root, replies.drop_last());
        match after(first, replies.drop_last()) {
            ProgressModel::Pending(save, request) => {
                lemma_step_follows_plan(filename, bytes, vault_root, save, request, replies.last());
                match save.advanced(replies.last()) {
                    ProgressModel::Pending(next, asked) => {
                        lemma_target_is_child(next);
                    },
                    _ => {},
                }
            },
            _ => {},
        }
    }
}

/// How many replies a save at this stage has taken.
pub open spec fn replies_taken(stage: Stage) -> nat {
    match stage {
        Stage::CreatingDirectory => 0,
        Stage::ResolvingDirectory => 1,
        Stage::ResolvingParent => 2,
        Stage::Writing => 3,
    }
}

/// A save that is still under way has taken exactly the replies of its
/// stage, so every save is over after four replies at most.
pub proof fn lemma_save_ends(
    filename: Seq<char>,
    bytes: Seq<u8>,
    vault_root: Seq<char>,
    replies: Seq<ReplyModel>,
)
    ensures
        after(started(filename, bytes, vault_root), replies) matches ProgressModel::Pending(
            save,
            _,
        ) ==> replies_taken(save.stage) == replies.len(),
        replies.len() >= 4 ==> after(started(filename, bytes, vault_root), replies) is Finished,
    decreases replies.len(),
{
    if replies.len() > 0 {
        lemma_save_ends(filename, bytes, vault_root, replies.drop_last());
    }
}

/// A target whose directory resolves to a place that is not under the
/// resolved asset directory is refused, and nothing is written.
pub proof fn lemma_escape_is_refused(save: SaveModel, canonical_parent: Seq<char>)
    requires
        save.stage == Stage::ResolvingParent,
        !save.contains_target(canonical_parent),
    ensures
        save.advanced(ReplyModel::Resolved(canonical_parent)) == ProgressModel::Finished(
            Err(ErrorModel::PathTraversalDetected),
        ),
{
}

/// Where the directory resolves both times to the same place, the check
/// passes: the bytes are handed out for the target.
pub proof fn lemma_steady_directory_is_accepted(save: SaveModel)
    requires
        save.wf(),
        save.stage == Stage::ResolvingParent,
    ensures
        save.contains_target(save.canonical_assets),
        save.advanced(ReplyModel::Resolved(save.canonical_assets)) matches ProgressModel::Pending(
            _,
            request,
        ) && request == RequestModel::Write(save.file_path, save.bytes),
{
    lemma_joined_adds_a_component(save.canonical_assets, save.base_name);
}

/// A save that the file system serves without failure, resolving the asset
/// directory to `canonical` both times, ends with the locator of the base
/// name after exactly four replies.
pub proof fn lemma_undisturbed_save(
    filename: Seq<char>,
    bytes: Seq<u8>,
    vault_root: Seq<char>,
    canonical: Seq<char>,
)
    requires
        base_name(filename) is Some,
    ensures
        after(
            started(filename, bytes, vault_root),
            seq![
                ReplyModel::Done,
                ReplyModel::Resolved(canonical),
                ReplyModel::Resolved(canonical),
                ReplyModel::Done,
            ],
        ) == ProgressModel::Finished(Ok(asset_uri(base_name(filename)->0))),
        after(
            started(filename, bytes, vault_root),
            seq![
                ReplyModel::Done,
                ReplyModel::Resolved(canonical),
                ReplyModel::Resolved(canonical),
            ],
        ) matches ProgressModel::Pending(_, request) && request == RequestModel::Write(
            joined(assets_dir_of(vault_root), base_name(filename)->0),
            bytes,
        ),
{
    let first = started(filename, bytes, vault_root);
    let name = base_name(filename)->0;
    lemma_base_name_is_plain(filename);
    let r0: Seq<ReplyModel> = seq![];
    let r1 = seq![ReplyModel::Done];
    let r2 = seq![ReplyModel::Done, ReplyModel::Resolved(canonical)];
    let r3 = seq![
        ReplyModel::Done,
        ReplyModel::Resolved(canonical),
        ReplyModel::Resolved(canonical),
    ];
    let r4 = seq![
        ReplyModel::Done,
        ReplyModel::Resolved(canonical),
        ReplyModel::Resolved(canonical),
        ReplyModel::Done,
    ];
    assert(r1.drop_last() =~= r0);
    assert(r2.drop_last() =~= r1);
    assert(r3.drop_last() =~= r2);
    assert(r4.drop_last() =~= r3);
    assert(after(first, r0) == first);
    let s1 = after(first, r1);
    assert(s1 is Pending);
    let s2 = after(first, r2);
    assert(s2 is Pending);
    lemma_joined_adds_a_component(canonical, name);
    let s3 = after(first, r3);
    assert(s3 is Pending);
    let s4 = after(first, r4);
}

} // verus!
