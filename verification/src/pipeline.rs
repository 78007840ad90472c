//! One generation as a state machine.
//!
//! The library decides and the host acts. A [`Generation`] says which action
//! is due; the host performs it and reports what happened as an [`Event`];
//! [`Generation::advance`] takes the event to the next state. The run ends in
//! [`Action::Finish`] with the rendered image, or in [`Action::Fail`].

use vstd::prelude::*;
use crate::avatar::{
    avatar_file_name, file_name_text, judge_status, role_prefix_text, status_verdict, AvatarMap,
    AvatarRole, StatusVerdict,
};
use crate::command::{
    oxipng_invocation, typst_invocation, HostEnvironment, HostEnvironmentView, Invocation,
    InvocationView,
};
use crate::data::OgImageData;
use crate::error::{DownloadFailure, DownloadFailureView, OgImageError, OgImageErrorView};
use crate::format::{classify, sniff, ImageFormat};
use crate::generator::{GeneratorView, OgImageGenerator};
use crate::json::json_object_text;
use crate::workspace::{
    asset_path_text, assets_directory, assets_directory_text, avatar_path, avatar_path_text,
    BundledAsset,
};

verus! {

/// What the host reports after it has performed an action.
#[derive(Debug, Clone, PartialEq, Eq)]
pub enum Event {
    /// The directory or file that was asked for now stands at this path.
    Ready(String),
    /// The action failed; the text is the underlying error's own account.
    Failed(String),
    /// The server answered the request for an avatar with this status.
    Status(u16),
    /// The whole body of the avatar's response.
    Body(Vec<u8>),
    /// The request and the avatar map as JSON texts.
    Serialized { data_json: String, avatar_map_json: String },
    /// The tool ran and ended: with this exit code, if it ended by itself, and
    /// with this output.
    Exited { code: Option<i32>, stdout: String, stderr: String },
}

/// What the host is to do next.
#[derive(Debug, Clone, PartialEq, Eq)]
pub enum Action {
    /// Create an empty temporary directory, the workspace, for this run alone;
    /// remove it when the run is over, however it ends.
    CreateWorkspace,
    /// Create the directory at `path` in the workspace.
    CreateDirectory { path: String },
    /// Write the bundled file `asset` to `path` in the workspace.
    WriteAsset { asset: BundledAsset, path: String },
    /// Request `url` over HTTP and report the status of the response.
    FetchAvatar { url: String },
    /// Read the body of the response that was just reported.
    ReadAvatarBody,
    /// Write `bytes` to `path` in the workspace.
    WriteAvatar { path: String, bytes: Vec<u8> },
    /// Allocate the temporary file that will hold the image; it outlives the
    /// workspace and belongs to the caller.
    AllocateOutput,
    /// Serialize the request as JSON and hand the result to
    /// [`Generation::serialized`], which adds the avatar map and says what to
    /// report.
    Serialize,
    /// Start the tool and wait until it ends.
    Run(Invocation),
    /// The run is over: the image stands at `output`.
    Finish { output: String },
    /// The run is over: it failed.
    Fail(OgImageError),
}

/// Where a run stands.
#[derive(Debug, Clone, PartialEq, Eq)]
pub enum Phase {
    CreatingWorkspace,
    CreatingAssetsDirectory,
    WritingAsset(BundledAsset),
    FetchingAvatar(AvatarRole),
    ReadingAvatar(AvatarRole),
    WritingAvatar { role: AvatarRole, format: ImageFormat, bytes: Vec<u8> },
    AllocatingOutput,
    Serializing,
    Rendering { data_json: String, avatar_map_json: String },
    Optimizing,
    Finished,
    Failed(OgImageError),
}

/// The milestones of a run, in the order in which it passes them. A run ends
/// in `Done` or in `Error` and stays there.
#[derive(Clone, Copy, Debug, PartialEq, Eq, Structural)]
pub enum Stage {
    /// The workspace is being built.
    Start,
    /// The workspace holds the bundled icons; the avatars are being resolved.
    WorkspacePrepared,
    /// Every avatar is stored or skipped; the image is being rendered.
    AvatarsResolved,
    /// The image is rendered; the optimizer has its try.
    Rendered,
    /// The image is the caller's.
    Done,
    /// The run has failed.
    Error,
}

/// An [`Event`] as mathematical values.
pub enum EventView {
    Ready(Seq<char>),
    Failed(Seq<char>),
    Status(u16),
    Body(Seq<u8>),
    Serialized { data_json: Seq<char>, avatar_map_json: Seq<char> },
    Exited { code: Option<i32>, stdout: Seq<char>, stderr: Seq<char> },
}

/// An [`Action`] as mathematical values.
pub enum ActionView {
    CreateWorkspace,
    CreateDirectory { path: Seq<char> },
    WriteAsset { asset: BundledAsset, path: Seq<char> },
    FetchAvatar { url: Seq<char> },
    ReadAvatarBody,
    WriteAvatar { path: Seq<char>, bytes: Seq<u8> },
    AllocateOutput,
    Serialize,
    Run(InvocationView),
    Finish { output: Seq<char> },
    Fail(OgImageErrorView),
}

/// A [`Phase`] as mathematical values.
pub enum PhaseView {
    CreatingWorkspace,
    CreatingAssetsDirectory,
    WritingAsset(BundledAsset),
    FetchingAvatar(AvatarRole),
    ReadingAvatar(AvatarRole),
    WritingAvatar { role: AvatarRole, format: ImageFormat, bytes: Seq<u8> },
    AllocatingOutput,
    Serializing,
    Rendering { data_json: Seq<char>, avatar_map_json: Seq<char> },
    Optimizing,
    Finished,
    Failed(OgImageErrorView),
}

impl View for Event {
    type V = EventView;

    open spec fn view(&self) -> EventView {
        match self {
            Event::Ready(path) => EventView::Ready(path@),
            Event::Failed(source) => EventView::Failed(source@),
            Event::Status(status) => EventView::Status(*status),
            Event::Body(bytes) => EventView::Body(bytes@),
            Event::Serialized { data_json, avatar_map_json } => EventView::Serialized {
                data_json: data_json@,
                avatar_map_json: avatar_map_json@,
            },
            Event::Exited { code, stdout, stderr } => EventView::Exited {
                code: *code,
                stdout: stdout@,
                stderr: stderr@,
            },
        }
    }
}

impl View for Action {
    type V = ActionView;

    open spec fn view(&self) -> ActionView {
        match self {
            Action::CreateWorkspace => ActionView::CreateWorkspace,
            Action::CreateDirectory { path } => ActionView::CreateDirectory { path: path@ },
            Action::WriteAsset { asset, path } => ActionView::WriteAsset {
                asset: *asset,
                path: path@,
            },
            Action::FetchAvatar { url } => ActionView::FetchAvatar { url: url@ },
            Action::ReadAvatarBody => ActionView::ReadAvatarBody,
            Action::WriteAvatar { path, bytes } => ActionView::WriteAvatar {
                path: path@,
                bytes: bytes@,
            },
            Action::AllocateOutput => ActionView::AllocateOutput,
            Action::Serialize => ActionView::Serialize,
            Action::Run(invocation) => ActionView::Run(invocation@),
            Action::Finish { output } => ActionView::Finish { output: output@ },
            Action::Fail(error) => ActionView::Fail(error@),
        }
    }
}

/// The milestone that a phase belongs to.
pub open spec fn stage_of(phase: PhaseView) -> Stage {
    match phase {
        PhaseView::CreatingWorkspace => Stage::Start,
        PhaseView::CreatingAssetsDirectory => Stage::Start,
        PhaseView::WritingAsset(BundledAsset::Template) => Stage::AvatarsResolved,
        PhaseView::WritingAsset(_) => Stage::Start,
        PhaseView::FetchingAvatar(_) => Stage::WorkspacePrepared,
        PhaseView::ReadingAvatar(_) => Stage::WorkspacePrepared,
        PhaseView::WritingAvatar { .. } => Stage::WorkspacePrepared,
        PhaseView::AllocatingOutput => Stage::AvatarsResolved,
        PhaseView::Serializing => Stage::AvatarsResolved,
        PhaseView::Rendering { .. } => Stage::AvatarsResolved,
        PhaseView::Optimizing => Stage::Rendered,
        PhaseView::Finished => Stage::Done,
        PhaseView::Failed(_) => Stage::Error,
    }
}

impl Phase {
    /// The milestone that this phase belongs to.
    pub fn stage(&self) -> (stage: Stage)
        ensures
            stage == stage_of(self@),
    {
        match self {
            Phase::CreatingWorkspace => Stage::Start,
            Phase::CreatingAssetsDirectory => Stage::Start,
            Phase::WritingAsset(BundledAsset::Template) => Stage::AvatarsResolved,
            Phase::WritingAsset(_) => Stage::Start,
            Phase::FetchingAvatar(_) => Stage::WorkspacePrepared,
            Phase::ReadingAvatar(_) => Stage::WorkspacePrepared,
            Phase::WritingAvatar { .. } => Stage::WorkspacePrepared,
            Phase::AllocatingOutput => Stage::AvatarsResolved,
            Phase::Serializing => Stage::AvatarsResolved,
            Phase::Rendering { .. } => Stage::AvatarsResolved,
            Phase::Optimizing => Stage::Rendered,
            Phase::Finished => Stage::Done,
            Phase::Failed(_) => Stage::Error,
        }
    }
}

impl View for Phase {
    type V = PhaseView;

    open spec fn view(&self) -> PhaseView {
        match self {
            Phase::CreatingWorkspace => PhaseView::CreatingWorkspace,
            Phase::CreatingAssetsDirectory => PhaseView::CreatingAssetsDirectory,
            Phase::WritingAsset(asset) => PhaseView::WritingAsset(*asset),
            Phase::FetchingAvatar(role) => PhaseView::FetchingAvatar(*role),
            Phase::ReadingAvatar(role) => PhaseView::ReadingAvatar(*role),
            Phase::WritingAvatar { role, format, bytes } => PhaseView::WritingAvatar {
                role: *role,
                format: *format,
                bytes: bytes@,
            },
            Phase::AllocatingOutput => PhaseView::AllocatingOutput,
            Phase::Serializing => PhaseView::Serializing,
            Phase::Rendering { data_json, avatar_map_json } => PhaseView::Rendering {
                data_json: data_json@,
                avatar_map_json: avatar_map_json@,
            },
            Phase::Optimizing => PhaseView::Optimizing,
            Phase::Finished => PhaseView::Finished,
            Phase::Failed(error) => PhaseView::Failed(error@),
        }
    }
}

/// One run of the generator: its configuration, the two avatar references of
/// the request, how far it has come and what it has gathered on the way.
#[derive(Debug, Clone)]
pub struct Generation<'a> {
    generator: &'a OgImageGenerator,
    host: HostEnvironment,
    author_avatar: &'a str,
    community_avatar: &'a str,
    phase: Phase,
    avatar_map: AvatarMap,
    template_path: String,
    output_path: String,
}

/// A [`Generation`] as mathematical values.
pub struct GenerationView {
    pub generator: GeneratorView,
    pub host: HostEnvironmentView,
    pub author_avatar: Seq<char>,
    pub community_avatar: Seq<char>,
    pub phase: PhaseView,
    pub avatar_map: Map<Seq<char>, Seq<char>>,
    pub template_path: Seq<char>,
    pub output_path: Seq<char>,
}

impl<'a> View for Generation<'a> {
    type V = GenerationView;

    closed spec fn view(&self) -> GenerationView {
        GenerationView {
            generator: self.generator@,
            host: self.host@,
            author_avatar: self.author_avatar@,
            community_avatar: self.community_avatar@,
            phase: self.phase@,
            avatar_map: self.avatar_map@,
            template_path: self.template_path@,
            output_path: self.output_path@,
        }
    }
}

impl GenerationView {
    /// This run in another phase.
    pub open spec fn at(self, phase: PhaseView) -> GenerationView {
        GenerationView { phase, ..self }
    }

    /// This run, failed with `error`.
    pub open spec fn failed(self, error: OgImageErrorView) -> GenerationView {
        self.at(PhaseView::Failed(error))
    }

    /// The avatar reference of `role` in the request.
    pub open spec fn reference(self, role: AvatarRole) -> Seq<char> {
        match role {
            AvatarRole::Author => self.author_avatar,
            AvatarRole::Community => self.community_avatar,
        }
    }

    /// The phase that follows the avatar of `role`, resolved or skipped. The
    /// community's avatar is resolved only where its reference differs from the
    /// author's: no reference is resolved twice.
    pub open spec fn after_avatar(self, role: AvatarRole) -> PhaseView {
        if role == AvatarRole::Author && self.community_avatar != self.author_avatar {
            PhaseView::FetchingAvatar(AvatarRole::Community)
        } else {
            PhaseView::WritingAsset(BundledAsset::Template)
        }
    }
}

/// The phase that follows the writing of `asset`: the icons in their order,
/// then the avatars; after the template, the output file.
pub open spec fn after_asset(asset: BundledAsset) -> PhaseView {
    match asset {
        BundledAsset::InertiaIcon => PhaseView::WritingAsset(BundledAsset::LikesIcon),
        BundledAsset::LikesIcon => PhaseView::WritingAsset(BundledAsset::OgTemplate),
        BundledAsset::OgTemplate => PhaseView::WritingAsset(BundledAsset::VolumeIcon),
        BundledAsset::VolumeIcon => PhaseView::FetchingAvatar(AvatarRole::Author),
        BundledAsset::Template => PhaseView::AllocatingOutput,
    }
}

/// The state in which a run begins.
pub open spec fn initial(
    generator: GeneratorView,
    host: HostEnvironmentView,
    author_avatar: Seq<char>,
    community_avatar: Seq<char>,
) -> GenerationView {
    GenerationView {
        generator,
        host,
        author_avatar,
        community_avatar,
        phase: PhaseView::CreatingWorkspace,
        avatar_map: Map::empty(),
        template_path: Seq::empty(),
        output_path: Seq::empty(),
    }
}

/// The error of an avatar of the run `s` that could not be downloaded.
pub open spec fn download_error(
    s: GenerationView,
    role: AvatarRole,
    failure: DownloadFailureView,
) -> OgImageErrorView {
    OgImageErrorView::AvatarDownloadError { url: s.reference(role), failure }
}

/// The state after the host has reported on the creation of the workspace.
pub open spec fn after_workspace(s: GenerationView, e: EventView) -> GenerationView {
    match e {
        EventView::Ready(_) => s.at(PhaseView::CreatingAssetsDirectory),
        EventView::Failed(source) => s.failed(OgImageErrorView::TempDirError(source)),
        _ => s,
    }
}

/// The state after the host has reported on the creation of the assets
/// directory.
pub open spec fn after_assets_directory(s: GenerationView, e: EventView) -> GenerationView {
    match e {
        EventView::Ready(_) => s.at(PhaseView::WritingAsset(BundledAsset::InertiaIcon)),
        EventView::Failed(source) => s.failed(OgImageErrorView::IoError(source)),
        _ => s,
    }
}

/// The state after the host has reported on the writing of `asset`. The
/// template's path is kept for the rendering engine.
pub open spec fn after_asset_written(
    s: GenerationView,
    asset: BundledAsset,
    e: EventView,
) -> GenerationView {
    match e {
        EventView::Ready(path) => GenerationView {
            phase: after_asset(asset),
            template_path: if asset == BundledAsset::Template {
                path
            } else {
                s.template_path
            },
            ..s
        },
        EventView::Failed(source) => s.failed(OgImageErrorView::IoError(source)),
        _ => s,
    }
}

/// The state after the host has reported on the request for the avatar of
/// `role`: a missing avatar is skipped, a refusal or a transport failure ends
/// the run, and any other answer has its body read.
pub open spec fn after_fetch(s: GenerationView, role: AvatarRole, e: EventView) -> GenerationView {
    match e {
        EventView::Status(status) => match status_verdict(status) {
            StatusVerdict::Missing => s.at(s.after_avatar(role)),
            StatusVerdict::Refused => s.failed(
                download_error(s, role, DownloadFailureView::Status(status)),
            ),
            StatusVerdict::Accepted => s.at(PhaseView::ReadingAvatar(role)),
        },
        EventView::Failed(source) => s.failed(
            download_error(s, role, DownloadFailureView::Transport(source)),
        ),
        _ => s,
    }
}

/// The state after the host has reported on the body of the avatar of `role`:
/// bytes of a known format are to be stored, any others are skipped.
pub open spec fn after_body(s: GenerationView, role: AvatarRole, e: EventView) -> GenerationView {
    match e {
        EventView::Body(bytes) => match sniff(bytes) {
            Some(format) => s.at(PhaseView::WritingAvatar { role, format, bytes }),
            None => s.at(s.after_avatar(role)),
        },
        EventView::Failed(source) => s.failed(
            download_error(s, role, DownloadFailureView::Transport(source)),
        ),
        _ => s,
    }
}

/// The state after the host has reported on the storing of the avatar of
/// `role`: once it is stored, the avatar map knows its file.
pub open spec fn after_avatar_written(
    s: GenerationView,
    role: AvatarRole,
    format: ImageFormat,
    e: EventView,
) -> GenerationView {
    match e {
        EventView::Ready(_) => GenerationView {
            phase: s.after_avatar(role),
            avatar_map: s.avatar_map.insert(
                s.reference(role),
                file_name_text(role_prefix_text(role), format),
            ),
            ..s
        },
        EventView::Failed(source) => s.failed(
            OgImageErrorView::AvatarWriteError {
                path: avatar_path_text(role_prefix_text(role), format),
                source,
            },
        ),
        _ => s,
    }
}

/// The state after the host has reported on the allocation of the output file.
pub open spec fn after_output(s: GenerationView, e: EventView) -> GenerationView {
    match e {
        EventView::Ready(path) => GenerationView {
            phase: PhaseView::Serializing,
            output_path: path,
            ..s
        },
        EventView::Failed(source) => s.failed(OgImageErrorView::TempFileError(source)),
        _ => s,
    }
}

/// The state after the host has reported on the serialization.
pub open spec fn after_serialization(s: GenerationView, e: EventView) -> GenerationView {
    match e {
        EventView::Serialized { data_json, avatar_map_json } => s.at(
            PhaseView::Rendering { data_json, avatar_map_json },
        ),
        EventView::Failed(source) => s.failed(OgImageErrorView::JsonSerializationError(source)),
        _ => s,
    }
}

/// The state after the host has reported on the rendering engine: only an exit
/// with code 0 is a success; an engine that did not start and one that ended
/// otherwise are two different errors.
pub open spec fn after_rendering(s: GenerationView, e: EventView) -> GenerationView {
    match e {
        EventView::Exited { code, stdout, stderr } => if code == Some(0i32) {
            s.at(PhaseView::Optimizing)
        } else {
            s.failed(OgImageErrorView::TypstCompilationError { stderr, stdout, exit_code: code })
        },
        EventView::Failed(source) => s.failed(OgImageErrorView::TypstNotFound(source)),
        _ => s,
    }
}

/// The state after the host has reported on the optimizer: however it ended,
/// and whether it started at all, the run is finished.
pub open spec fn after_optimization(s: GenerationView, e: EventView) -> GenerationView {
    match e {
        EventView::Exited { .. } => s.at(PhaseView::Finished),
        EventView::Failed(_) => s.at(PhaseView::Finished),
        _ => s,
    }
}

/// The state that follows `s` on the event `e`. An event that the pending
/// action cannot produce leaves the run as it is, and so does any event once
/// the run is over.
pub open spec fn advance(s: GenerationView, e: EventView) -> GenerationView {
    match s.phase {
        PhaseView::CreatingWorkspace => after_workspace(s, e),
        PhaseView::CreatingAssetsDirectory => after_assets_directory(s, e),
        PhaseView::WritingAsset(asset) => after_asset_written(s, asset, e),
        PhaseView::FetchingAvatar(role) => after_fetch(s, role, e),
        PhaseView::ReadingAvatar(role) => after_body(s, role, e),
        PhaseView::WritingAvatar { role, format, .. } => after_avatar_written(s, role, format, e),
        PhaseView::AllocatingOutput => after_output(s, e),
        PhaseView::Serializing => after_serialization(s, e),
        PhaseView::Rendering { .. } => after_rendering(s, e),
        PhaseView::Optimizing => after_optimization(s, e),
        PhaseView::Finished => s,
        PhaseView::Failed(_) => s,
    }
}

/// The action that is due in the state `s`.
pub open spec fn pending_action(s: GenerationView) -> ActionView {
    match s.phase {
        PhaseView::CreatingWorkspace => ActionView::CreateWorkspace,
        PhaseView::CreatingAssetsDirectory => ActionView::CreateDirectory {
            path: assets_directory_text(),
        },
        PhaseView::WritingAsset(asset) => ActionView::WriteAsset {
            asset,
            path: asset_path_text(asset),
        },
        PhaseView::FetchingAvatar(role) => ActionView::FetchAvatar { url: s.reference(role) },
        PhaseView::ReadingAvatar(_) => ActionView::ReadAvatarBody,
        PhaseView::WritingAvatar { role, format, bytes } => ActionView::WriteAvatar {
            path: avatar_path_text(role_prefix_text(role), format),
            bytes,
        },
        PhaseView::AllocatingOutput => ActionView::AllocateOutput,
        PhaseView::Serializing => ActionView::Serialize,
        PhaseView::Rendering { data_json, avatar_map_json } => ActionView::Run(
            typst_invocation(
                s.generator,
                s.host,
                data_json,
                avatar_map_json,
                s.template_path,
                s.output_path,
            ),
        ),
        PhaseView::Optimizing => ActionView::Run(
            oxipng_invocation(s.generator, s.host, s.output_path),
        ),
        PhaseView::Finished => ActionView::Finish { output: s.output_path },
        PhaseView::Failed(error) => ActionView::Fail(error),
    }
}

/// Whether two texts are the same.
fn same_text(left: &str, right: &str) -> (same: bool)
    ensures
        same == (left@ == right@),
{
    left.to_owned() == right.to_owned()
}

/// A copy of `bytes`.
fn copy_bytes(bytes: &Vec<u8>) -> (copy: Vec<u8>)
    ensures
        copy@ == bytes@,
{
    let mut copy: Vec<u8> = Vec::new();
    let mut index: usize = 0;
    while index < bytes.len()
        invariant
            index <= bytes.len(),
            copy@ == bytes@.subrange(0, index as int),
        decreases bytes.len() - index,
    {
        copy.push(bytes[index]);
        index = index + 1;
    }
    copy
}

impl OgImageGenerator {
    /// Begins the generation of the image for `data`.
    ///
    /// The run that comes back has done nothing yet: its first action is the
    /// creation of the workspace. The host performs each action and hands what
    /// happened to [`Generation::advance`], until the action is
    /// [`Action::Finish`] or [`Action::Fail`].
    pub fn generate<'a>(&'a self, data: &OgImageData<'a>, host: HostEnvironment) -> (run:
        Generation<'a>)
        ensures
            run@ == initial(self@, host@, data.author.avatar@, data.community.avatar@),
    {
        Generation {
            generator: self,
            host,
            author_avatar: data.author.avatar,
            community_avatar: data.community.avatar,
            phase: Phase::CreatingWorkspace,
            avatar_map: AvatarMap::new(),
            template_path: String::new(),
            output_path: String::new(),
        }
    }
}

impl<'a> Generation<'a> {
    /// Where the run stands.
    pub fn phase(&self) -> (phase: &Phase)
        ensures
            phase@ == self@.phase,
    {
        &self.phase
    }

    /// The avatars that were stored so far, each under its reference.
    pub fn avatar_map(&self) -> (map: &AvatarMap)
        ensures
            map@ == self@.avatar_map,
    {
        &self.avatar_map
    }

    /// The avatar reference of `role` in the request.
    fn reference(&self, role: AvatarRole) -> (reference: &'a str)
        ensures
            reference@ == self@.reference(role),
    {
        match role {
            AvatarRole::Author => self.author_avatar,
            AvatarRole::Community => self.community_avatar,
        }
    }

    /// The phase that follows the avatar of `role`, resolved or skipped.
    fn after_avatar(&self, role: AvatarRole) -> (phase: Phase)
        ensures
            phase@ == self@.after_avatar(role),
    {
        match role {
            AvatarRole::Author => {
                if same_text(self.community_avatar, self.author_avatar) {
                    Phase::WritingAsset(BundledAsset::Template)
                } else {
                    Phase::FetchingAvatar(AvatarRole::Community)
                }
            },
            AvatarRole::Community => Phase::WritingAsset(BundledAsset::Template),
        }
    }

    /// The error of an avatar that could not be downloaded.
    fn download_error(&self, role: AvatarRole, failure: DownloadFailure) -> (error: OgImageError)
        ensures
            error@ == download_error(self@, role, failure@),
    {
        OgImageError::AvatarDownloadError { url: self.reference(role).to_owned(), failure }
    }

    /// The action that is due: what the host is to do now.
    pub fn action(&self) -> (action: Action)
        ensures
            action@ == pending_action(self@),
    {
        match &self.phase {
            Phase::CreatingWorkspace => Action::CreateWorkspace,
            Phase::CreatingAssetsDirectory => Action::CreateDirectory {
                path: assets_directory().to_owned(),
            },
            Phase::WritingAsset(asset) => Action::WriteAsset {
                asset: *asset,
                path: asset.path().to_owned(),
            },
            Phase::FetchingAvatar(role) => Action::FetchAvatar {
                url: self.reference(*role).to_owned(),
            },
            Phase::ReadingAvatar(_) => Action::ReadAvatarBody,
            Phase::WritingAvatar { role, format, bytes } => Action::WriteAvatar {
                path: avatar_path(role.prefix(), *format),
                bytes: copy_bytes(bytes),
            },
            Phase::AllocatingOutput => Action::AllocateOutput,
            Phase::Serializing => Action::Serialize,
            Phase::Rendering { data_json, avatar_map_json } => Action::Run(
                self.generator.typst_command(
                    &self.host,
                    data_json.as_str(),
                    avatar_map_json.as_str(),
                    self.template_path.as_str(),
                    self.output_path.as_str(),
                ),
            ),
            Phase::Optimizing => Action::Run(
                self.generator.oxipng_command(&self.host, self.output_path.as_str()),
            ),
            Phase::Finished => Action::Finish { output: self.output_path.clone() },
            Phase::Failed(error) => Action::Fail(error.duplicate()),
        }
    }

    /// What to report for [`Action::Serialize`], given the request as JSON
    /// from the host, or the reason it could not be serialized. The avatar map
    /// is encoded here, by itself. The request is looked at first; if either
    /// of the two cannot be serialized, the report is that failure's.
    pub fn serialized(&self, data_json: Result<String, String>) -> (event: Event)
        ensures
            match data_json {
                Ok(text) => match json_object_text(self@.avatar_map) {
                    Some(avatar_map_json) => event@ == (EventView::Serialized {
                        data_json: text@,
                        avatar_map_json,
                    }),
                    None => event@ is Failed,
                },
                Err(reason) => event@ == EventView::Failed(reason@),
            },
    {
        match data_json {
            Ok(data_json) => match self.avatar_map.to_json() {
                Ok(avatar_map_json) => Event::Serialized { data_json, avatar_map_json },
                Err(reason) => Event::Failed(reason),
            },
            Err(reason) => Event::Failed(reason),
        }
    }

    /// Takes the run to its next state on what the host reports.
    ///
    /// An event that the pending action cannot produce changes nothing, and
    /// nothing changes once the run is over.
    pub fn advance(self, event: Event) -> (next: Generation<'a>)
        ensures
            next@ == advance(self@, event@),
    {
        let mut run = self;
        let phase = match &run.phase {
            Phase::CreatingWorkspace => match event {
                Event::Ready(_) => Phase::CreatingAssetsDirectory,
                Event::Failed(source) => Phase::Failed(OgImageError::TempDirError(source)),
                _ => {
                    return run;
                },
            },
            Phase::CreatingAssetsDirectory => match event {
                Event::Ready(_) => Phase::WritingAsset(BundledAsset::InertiaIcon),
                Event::Failed(source) => Phase::Failed(OgImageError::IoError(source)),
                _ => {
                    return run;
                },
            },
            Phase::WritingAsset(asset) => match event {
                Event::Ready(path) => match asset {
                    BundledAsset::InertiaIcon => Phase::WritingAsset(BundledAsset::LikesIcon),
                    BundledAsset::LikesIcon => Phase::WritingAsset(BundledAsset::OgTemplate),
                    BundledAsset::OgTemplate => Phase::WritingAsset(BundledAsset::VolumeIcon),
                    BundledAsset::VolumeIcon => Phase::FetchingAvatar(AvatarRole::Author),
                    BundledAsset::Template => {
                        run.template_path = path;
                        Phase::AllocatingOutput
                    },
                },
                Event::Failed(source) => Phase::Failed(OgImageError::IoError(source)),
                _ => {
                    return run;
                },
            },
            Phase::FetchingAvatar(role) => match event {
                Event::Status(status) => match judge_status(status) {
                    StatusVerdict::Missing => run.after_avatar(*role),
                    StatusVerdict::Refused => Phase::Failed(
                        run.download_error(*role, DownloadFailure::Status(status)),
                    ),
                    StatusVerdict::Accepted => Phase::ReadingAvatar(*role),
                },
                Event::Failed(source) => Phase::Failed(
                    run.download_error(*role, DownloadFailure::Transport(source)),
                ),
                _ => {
                    return run;
                },
            },
            Phase::ReadingAvatar(role) => match event {
                Event::Body(bytes) => match classify(bytes.as_slice()) {
                    Some(format) => Phase::WritingAvatar { role: *role, format, bytes },
                    None => run.after_avatar(*role),
                },
                Event::Failed(source) => Phase::Failed(
                    run.download_error(*role, DownloadFailure::Transport(source)),
                ),
                _ => {
                    return run;
                },
            },
            Phase::WritingAvatar { role, format, .. } => match event {
                Event::Ready(_) => {
                    let role = *role;
                    let format = *format;
                    let next = run.after_avatar(role);
                    let reference = run.reference(role).to_owned();
                    run.avatar_map.insert(reference, avatar_file_name(role.prefix(), format));
                    next
                },
                Event::Failed(source) => Phase::Failed(
                    OgImageError::AvatarWriteError {
                        path: avatar_path(role.prefix(), *format),
                        source,
                    },
                ),
                _ => {
                    return run;
                },
            },
            Phase::AllocatingOutput => match event {
                Event::Ready(path) => {
                    run.output_path = path;
                    Phase::Serializing
                },
                Event::Failed(source) => Phase::Failed(OgImageError::TempFileError(source)),
                _ => {
                    return run;
                },
            },
            Phase::Serializing => match event {
                Event::Serialized { data_json, avatar_map_json } => Phase::Rendering {
                    data_json,
                    avatar_map_json,
                },
                Event::Failed(source) => Phase::Failed(
                    OgImageError::JsonSerializationError(source),
                ),
                _ => {
                    return run;
                },
            },
            Phase::Rendering { .. } => match event {
                Event::Exited { code, stdout, stderr } => match code {
                    Some(0) => Phase::Optimizing,
                    _ => Phase::Failed(
                        OgImageError::TypstCompilationError { stderr, stdout, exit_code: code },
                    ),
                },
                Event::Failed(source) => Phase::Failed(OgImageError::TypstNotFound(source)),
                _ => {
                    return run;
                },
            },
            Phase::Optimizing => match event {
                Event::Exited { .. } => Phase::Finished,
                Event::Failed(_) => Phase::Finished,
                _ => {
                    return run;
                },
            },
            Phase::Finished => {
                return run;
            },
            Phase::Failed(_) => {
                return run;
            },
        };
        run.phase = phase;
        run
    }
}

} // verus!
