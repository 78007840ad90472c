//! What holds of every run, proved from the state machine.

use vstd::prelude::*;
use crate::avatar::{file_name_text, role_prefix_text, AvatarRole};
use crate::command::{oxipng_invocation, typst_invocation};
use crate::json::json_object_text;
use crate::error::OgImageErrorView;
use crate::format::{sniff, ImageFormat};
use crate::pipeline::{
    advance, initial, pending_action, stage_of, ActionView, EventView, GenerationView, PhaseView,
    Stage,
};
use crate::workspace::{avatar_path_text, BundledAsset};

verus! {

/// The state that `events`, taken in order, lead to from `s`.
pub open spec fn run(s: GenerationView, events: Seq<EventView>) -> GenerationView
    decreases events.len(),
{
    if events.len() == 0 {
        s
    } else {
        advance(run(s, events.drop_last()), events.last())
    }
}

/// How far a phase is on the way from the start to the end of a run.
pub open spec fn rank(phase: PhaseView) -> nat {
    match phase {
        PhaseView::CreatingWorkspace => 0,
        PhaseView::CreatingAssetsDirectory => 1,
        PhaseView::WritingAsset(BundledAsset::InertiaIcon) => 2,
        PhaseView::WritingAsset(BundledAsset::LikesIcon) => 3,
        PhaseView::WritingAsset(BundledAsset::OgTemplate) => 4,
        PhaseView::WritingAsset(BundledAsset::VolumeIcon) => 5,
        PhaseView::FetchingAvatar(AvatarRole::Author) => 6,
        PhaseView::ReadingAvatar(AvatarRole::Author) => 7,
        PhaseView::WritingAvatar { role: AvatarRole::Author, .. } => 8,
        PhaseView::FetchingAvatar(AvatarRole::Community) => 9,
        PhaseView::ReadingAvatar(AvatarRole::Community) => 10,
        PhaseView::WritingAvatar { role: AvatarRole::Community, .. } => 11,
        PhaseView::WritingAsset(BundledAsset::Template) => 12,
        PhaseView::AllocatingOutput => 13,
        PhaseView::Serializing => 14,
        PhaseView::Rendering { .. } => 15,
        PhaseView::Optimizing => 16,
        PhaseView::Finished => 17,
        PhaseView::Failed(_) => 17,
    }
}

/// Whether the run is over.
pub open spec fn is_over(s: GenerationView) -> bool {
    s.phase is Finished || s.phase is Failed
}

/// Whether the phase of `s` fits its request: the community's avatar is being
/// resolved only where its reference differs from the author's.
pub open spec fn consistent(s: GenerationView) -> bool {
    match s.phase {
        PhaseView::FetchingAvatar(AvatarRole::Community) => s.community_avatar != s.author_avatar,
        PhaseView::ReadingAvatar(AvatarRole::Community) => s.community_avatar != s.author_avatar,
        PhaseView::WritingAvatar { role: AvatarRole::Community, .. } => s.community_avatar
            != s.author_avatar,
        _ => true,
    }
}

/// A run that is over stays as it is, whatever is reported to it: success and
/// failure are both final.
pub proof fn lemma_over_is_final(s: GenerationView, e: EventView)
    requires
        is_over(s),
    ensures
        advance(s, e) == s,
{
}

/// Every event either leaves the run as it is or takes it strictly further:
/// no phase is ever entered a second time.
pub proof fn lemma_advance_moves_forward(s: GenerationView, e: EventView)
    ensures
        advance(s, e) == s || rank(advance(s, e).phase) > rank(s.phase),
{
}

/// The milestones are passed one by one and in order: an event leaves the run
/// at its milestone or takes it to the next one, and from any milestone before
/// the image is rendered it may take it to `Error` instead. Once the image is
/// rendered the run cannot fail any more.
pub proof fn lemma_milestones_in_order(s: GenerationView, e: EventView)
    ensures
        match stage_of(s.phase) {
            Stage::Start => stage_of(advance(s, e).phase) == Stage::Start || stage_of(
                advance(s, e).phase,
            ) == Stage::WorkspacePrepared || stage_of(advance(s, e).phase) == Stage::Error,
            Stage::WorkspacePrepared => stage_of(advance(s, e).phase) == Stage::WorkspacePrepared
                || stage_of(advance(s, e).phase) == Stage::AvatarsResolved || stage_of(
                advance(s, e).phase,
            ) == Stage::Error,
            Stage::AvatarsResolved => stage_of(advance(s, e).phase) == Stage::AvatarsResolved
                || stage_of(advance(s, e).phase) == Stage::Rendered || stage_of(
                advance(s, e).phase,
            ) == Stage::Error,
            Stage::Rendered => stage_of(advance(s, e).phase) == Stage::Rendered || stage_of(
                advance(s, e).phase,
            ) == Stage::Done,
            Stage::Done => stage_of(advance(s, e).phase) == Stage::Done,
            Stage::Error => stage_of(advance(s, e).phase) == Stage::Error,
        },
{
}

/// A run is over exactly when it has come the whole way, and no run is ever
/// further than that: since every event that changes anything takes the run
/// strictly further, a run changes at most seventeen times.
pub proof fn lemma_run_ends(s: GenerationView)
    ensures
        rank(s.phase) <= 17,
        rank(s.phase) == 17 <==> is_over(s),
{
}

/// No run is stuck: while it is not over, the failure of the pending action is
/// an event that takes it on, and so is the action's success.
pub proof fn lemma_no_phase_is_stuck(s: GenerationView, text: Seq<char>, bytes: Seq<u8>)
    requires
        !is_over(s),
    ensures
        advance(s, EventView::Failed(text)) != s,
        match s.phase {
            PhaseView::FetchingAvatar(_) => advance(s, EventView::Status(200)) != s,
            PhaseView::ReadingAvatar(_) => advance(s, EventView::Body(bytes)) != s,
            PhaseView::Serializing => advance(
                s,
                EventView::Serialized { data_json: text, avatar_map_json: text },
            ) != s,
            PhaseView::Rendering { .. } => advance(
                s,
                EventView::Exited { code: Some(0i32), stdout: text, stderr: text },
            ) != s,
            PhaseView::Optimizing => advance(
                s,
                EventView::Exited { code: Some(0i32), stdout: text, stderr: text },
            ) != s,
            _ => advance(s, EventView::Ready(text)).phase != s.phase,
        },
{
}

/// An event never changes the configuration, the host's variables or the
/// request's avatar references.
pub proof fn lemma_advance_keeps_request(s: GenerationView, e: EventView)
    ensures
        advance(s, e).generator == s.generator,
        advance(s, e).host == s.host,
        advance(s, e).author_avatar == s.author_avatar,
        advance(s, e).community_avatar == s.community_avatar,
{
}

/// Consistency holds at the start and is kept by every event.
pub proof fn lemma_consistency_is_kept(s: GenerationView, e: EventView)
    requires
        consistent(s),
    ensures
        consistent(advance(s, e)),
{
}

/// Over any sequence of events the run moves forward or stays, and it stays
/// consistent with its request.
pub proof fn lemma_run_moves_forward(s: GenerationView, events: Seq<EventView>)
    requires
        consistent(s),
    ensures
        run(s, events) == s || rank(run(s, events).phase) > rank(s.phase),
        consistent(run(s, events)),
        run(s, events).author_avatar == s.author_avatar,
        run(s, events).community_avatar == s.community_avatar,
    decreases events.len(),
{
    if events.len() > 0 {
        lemma_run_moves_forward(s, events.drop_last());
        let before = run(s, events.drop_last());
        lemma_advance_moves_forward(before, events.last());
        lemma_consistency_is_kept(before, events.last());
        lemma_advance_keeps_request(before, events.last());
    }
}

/// Each distinct avatar reference is requested at most once in a run: if an
/// avatar is being fetched in `s` and one is being fetched again after
/// `events`, then either nothing has happened in between and it is the same
/// request, or the first was the author's, the second is the community's, and
/// the two references differ.
pub proof fn lemma_reference_fetched_once(s: GenerationView, events: Seq<EventView>)
    requires
        consistent(s),
        s.phase is FetchingAvatar,
        run(s, events).phase is FetchingAvatar,
    ensures
        run(s, events) == s || (s.phase == PhaseView::FetchingAvatar(AvatarRole::Author) && run(
            s,
            events,
        ).phase == PhaseView::FetchingAvatar(AvatarRole::Community) && pending_action(s)
            != pending_action(run(s, events))),
{
    lemma_run_moves_forward(s, events);
}

/// An avatar that the server does not have is skipped: the run goes on to what
/// follows the avatar, the avatar map is as before, nothing is to be written
/// for it, and the run has not failed.
pub proof fn lemma_missing_avatar_is_skipped(s: GenerationView, role: AvatarRole)
    requires
        s.phase == PhaseView::FetchingAvatar(role),
    ensures
        advance(s, EventView::Status(404)) == s.at(s.after_avatar(role)),
        advance(s, EventView::Status(404)).avatar_map == s.avatar_map,
        !(pending_action(advance(s, EventView::Status(404))) is WriteAvatar),
        !(advance(s, EventView::Status(404)).phase is Failed),
{
}

/// An avatar whose bytes are of no known format is skipped in the same way.
pub proof fn lemma_unrecognized_avatar_is_skipped(
    s: GenerationView,
    role: AvatarRole,
    bytes: Seq<u8>,
)
    requires
        s.phase == PhaseView::ReadingAvatar(role),
        sniff(bytes) is None,
    ensures
        advance(s, EventView::Body(bytes)) == s.at(s.after_avatar(role)),
        advance(s, EventView::Body(bytes)).avatar_map == s.avatar_map,
        !(pending_action(advance(s, EventView::Body(bytes))) is WriteAvatar),
        !(advance(s, EventView::Body(bytes)).phase is Failed),
{
}

/// An avatar whose bytes are of a known format is stored: the next action
/// writes exactly the downloaded bytes to the file named by the role and the
/// format, and once that is done the avatar map gives the avatar's reference
/// that file's name.
pub proof fn lemma_recognized_avatar_is_stored(
    s: GenerationView,
    role: AvatarRole,
    bytes: Seq<u8>,
    format: ImageFormat,
    stored_at: Seq<char>,
)
    requires
        s.phase == PhaseView::ReadingAvatar(role),
        sniff(bytes) == Some(format),
    ensures
        pending_action(advance(s, EventView::Body(bytes))) == (ActionView::WriteAvatar {
            path: avatar_path_text(role_prefix_text(role), format),
            bytes,
        }),
        advance(advance(s, EventView::Body(bytes)), EventView::Ready(stored_at)).avatar_map
            == s.avatar_map.insert(s.reference(role), file_name_text(role_prefix_text(role), format)),
        advance(advance(s, EventView::Body(bytes)), EventView::Ready(stored_at)).phase
            == s.after_avatar(role),
{
}

/// The names under which avatars are stored: a PNG of the author as
/// `author_avatar.png`, a JPEG of the community as `community_avatar.jpg`, and
/// likewise for the other two pairs. No two of them are the same.
pub proof fn lemma_avatar_file_names()
    ensures
        file_name_text(role_prefix_text(AvatarRole::Author), ImageFormat::Png)
            == "author_avatar.png"@,
        file_name_text(role_prefix_text(AvatarRole::Author), ImageFormat::Jpeg)
            == "author_avatar.jpg"@,
        file_name_text(role_prefix_text(AvatarRole::Community), ImageFormat::Png)
            == "community_avatar.png"@,
        file_name_text(role_prefix_text(AvatarRole::Community), ImageFormat::Jpeg)
            == "community_avatar.jpg"@,
{
    reveal_strlit("author");
    reveal_strlit("community");
    reveal_strlit("_avatar.");
    reveal_strlit("png");
    reveal_strlit("jpg");
    reveal_strlit("author_avatar.png");
    reveal_strlit("author_avatar.jpg");
    reveal_strlit("community_avatar.png");
    reveal_strlit("community_avatar.jpg");
}

/// A file is written for an avatar only after its body has arrived and was of
/// a known format, and what is written is that body.
pub proof fn lemma_avatar_written_only_if_recognized(s: GenerationView, e: EventView)
    requires
        !(s.phase is WritingAvatar),
        advance(s, e).phase is WritingAvatar,
    ensures
        s.phase is ReadingAvatar,
        e is Body,
        sniff(e->Body_0) == Some(advance(s, e).phase->WritingAvatar_format),
        advance(s, e).phase->WritingAvatar_bytes == e->Body_0,
        advance(s, e).phase->WritingAvatar_role == s.phase->ReadingAvatar_0,
{
}

/// Whether the avatar map of `s` holds nothing but avatars of the request, each
/// under the reference of its role and with a file name of that role.
pub open spec fn holds_only_request_avatars(s: GenerationView) -> bool {
    forall|reference: Seq<char>| #[trigger]
        s.avatar_map.contains_key(reference) ==> exists|role: AvatarRole, format: ImageFormat|
            reference == s.reference(role) && s.avatar_map[reference] == #[trigger] file_name_text(
                role_prefix_text(role),
                format,
            )
}

/// The avatar map never holds anything but avatars of the request: that is so
/// at the start, where it is empty, and every event keeps it so.
pub proof fn lemma_avatar_map_holds_only_request_avatars(s: GenerationView, e: EventView)
    requires
        holds_only_request_avatars(s),
    ensures
        holds_only_request_avatars(advance(s, e)),
        holds_only_request_avatars(
            initial(s.generator, s.host, s.author_avatar, s.community_avatar),
        ),
{
    let next = advance(s, e);
    assert forall|reference: Seq<char>| #[trigger]
        next.avatar_map.contains_key(reference) implies exists|
        role: AvatarRole,
        format: ImageFormat,
    |
        reference == next.reference(role) && next.avatar_map[reference] == #[trigger] file_name_text(
            role_prefix_text(role),
            format,
        ) by {
        if s.avatar_map.contains_key(reference) && next.avatar_map[reference]
            == s.avatar_map[reference] {
            let (role, format) = choose|role: AvatarRole, format: ImageFormat|
                reference == s.reference(role) && s.avatar_map[reference]
                    == #[trigger] file_name_text(role_prefix_text(role), format);
            assert(reference == next.reference(role) && next.avatar_map[reference]
                == file_name_text(role_prefix_text(role), format));
        } else {
            let role = s.phase->WritingAvatar_role;
            let format = s.phase->WritingAvatar_format;
            assert(reference == next.reference(role) && next.avatar_map[reference]
                == file_name_text(role_prefix_text(role), format));
        }
    }
}

/// In every state that a run can reach from its start, the avatar map holds
/// nothing but avatars of the request, and the community's avatar is being
/// resolved only where its reference differs from the author's.
pub proof fn lemma_reachable_states(start: GenerationView, events: Seq<EventView>)
    requires
        start == initial(start.generator, start.host, start.author_avatar, start.community_avatar),
    ensures
        holds_only_request_avatars(run(start, events)),
        consistent(run(start, events)),
        run(start, events).author_avatar == start.author_avatar,
        run(start, events).community_avatar == start.community_avatar,
    decreases events.len(),
{
    lemma_run_moves_forward(start, events);
    if events.len() > 0 {
        lemma_reachable_states(start, events.drop_last());
        lemma_avatar_map_holds_only_request_avatars(run(start, events.drop_last()), events.last());
    }
}

/// The avatar map changes only when an avatar has been stored.
pub proof fn lemma_avatar_map_changes_only_on_store(s: GenerationView, e: EventView)
    requires
        advance(s, e).avatar_map != s.avatar_map,
    ensures
        s.phase is WritingAvatar,
        e is Ready,
{
}

/// The rendering engine is given what the run gathered: where the report on
/// the serialization carries the encoding of the run's own avatar map, the
/// engine is started with the request as its input `data`, with that encoding
/// as its input `avatar_map`, on the template and the output file whose paths
/// the host reported.
pub proof fn lemma_engine_is_given_the_avatar_map(
    s: GenerationView,
    data_json: Seq<char>,
    avatar_map_json: Seq<char>,
)
    ensures
        s.phase is Serializing && json_object_text(s.avatar_map) == Some(avatar_map_json) ==> ({
            let invocation = typst_invocation(
                s.generator,
                s.host,
                data_json,
                avatar_map_json,
                s.template_path,
                s.output_path,
            );
            &&& pending_action(advance(s, EventView::Serialized { data_json, avatar_map_json }))
                == ActionView::Run(invocation)
            &&& invocation.args[4] == "data="@ + data_json
            &&& invocation.args[6] == "avatar_map="@ + avatar_map_json
            &&& invocation.args[invocation.args.len() - 2] == s.template_path
            &&& invocation.args[invocation.args.len() - 1] == s.output_path
        }),
{
}

/// The optimizer cannot make a run fail. Whether it ends well, ends badly or
/// does not start, the run finishes with the image that the rendering engine
/// wrote, at the path it was written to.
pub proof fn lemma_optimizer_cannot_fail(s: GenerationView, e: EventView)
    requires
        s.phase is Optimizing,
    ensures
        !(advance(s, e).phase is Failed),
        advance(s, e).output_path == s.output_path,
        (e is Exited || e is Failed) ==> pending_action(advance(s, e)) == (ActionView::Finish {
            output: s.output_path,
        }),
{
}

/// A run fails only where an action other than the optimization was pending,
/// and each failure has its own error: which one, the pending action decides.
pub proof fn lemma_failure_kinds(s: GenerationView, e: EventView)
    requires
        !is_over(s),
        advance(s, e).phase is Failed,
    ensures
        match s.phase {
            PhaseView::CreatingWorkspace => advance(s, e).phase->Failed_0 is TempDirError,
            PhaseView::CreatingAssetsDirectory => advance(s, e).phase->Failed_0 is IoError,
            PhaseView::WritingAsset(_) => advance(s, e).phase->Failed_0 is IoError,
            PhaseView::FetchingAvatar(_) => advance(s, e).phase->Failed_0 is AvatarDownloadError,
            PhaseView::ReadingAvatar(_) => advance(s, e).phase->Failed_0 is AvatarDownloadError,
            PhaseView::WritingAvatar { .. } => advance(s, e).phase->Failed_0 is AvatarWriteError,
            PhaseView::AllocatingOutput => advance(s, e).phase->Failed_0 is TempFileError,
            PhaseView::Serializing => advance(s, e).phase->Failed_0 is JsonSerializationError,
            PhaseView::Rendering { .. } => advance(s, e).phase->Failed_0 is TypstNotFound
                || advance(s, e).phase->Failed_0 is TypstCompilationError,
            _ => false,
        },
{
}

/// Rendering succeeds exactly when the engine exits with code 0. Any other
/// end is a compilation error that carries the engine's output and its exit
/// code, and an engine that could not be started is reported as not found.
pub proof fn lemma_rendering_outcomes(
    s: GenerationView,
    code: Option<i32>,
    stdout: Seq<char>,
    stderr: Seq<char>,
    source: Seq<char>,
)
    requires
        s.phase is Rendering,
    ensures
        code == Some(0i32) ==> advance(s, EventView::Exited { code, stdout, stderr }) == s.at(
            PhaseView::Optimizing,
        ),
        code != Some(0i32) ==> advance(s, EventView::Exited { code, stdout, stderr }) == s.failed(
            OgImageErrorView::TypstCompilationError { stderr, stdout, exit_code: code },
        ),
        advance(s, EventView::Failed(source)) == s.failed(OgImageErrorView::TypstNotFound(source)),
{
}

/// Missing avatars are no obstacle: when every action succeeds, both avatars
/// are absent from their servers and the rendering engine exits with code 0,
/// the run finishes with the image at the path of the output file, with an
/// empty avatar map, whatever the optimizer does. Nothing here depends on the
/// request's graph, which may be empty.
pub proof fn lemma_missing_avatars_still_render(
    start: GenerationView,
    stored_at: Seq<char>,
    template_path: Seq<char>,
    output_path: Seq<char>,
    data_json: Seq<char>,
    avatar_map_json: Seq<char>,
    stdout: Seq<char>,
    stderr: Seq<char>,
    optimizer: EventView,
)
    requires
        start == initial(start.generator, start.host, start.author_avatar, start.community_avatar),
        optimizer is Exited || optimizer is Failed,
    ensures
        ({
            let ready = EventView::Ready(stored_at);
            let missing = EventView::Status(404);
            let prepared = run(start, seq![ready, ready, ready, ready, ready, ready]);
            let resolved = if start.community_avatar != start.author_avatar {
                run(prepared, seq![missing, missing])
            } else {
                run(prepared, seq![missing])
            };
            let rendered = run(
                resolved,
                seq![
                    EventView::Ready(template_path),
                    EventView::Ready(output_path),
                    EventView::Serialized { data_json, avatar_map_json },
                    EventView::Exited { code: Some(0i32), stdout, stderr },
                ],
            );
            let done = advance(rendered, optimizer);
            &&& prepared.phase == PhaseView::FetchingAvatar(AvatarRole::Author)
            &&& resolved.phase == PhaseView::WritingAsset(BundledAsset::Template)
            &&& rendered.phase == PhaseView::Optimizing
            &&& pending_action(rendered) == ActionView::Run(
                oxipng_invocation(start.generator, start.host, output_path),
            )
            &&& pending_action(done) == (ActionView::Finish { output: output_path })
            &&& done.avatar_map == Map::<Seq<char>, Seq<char>>::empty()
        }),
{
    let ready = EventView::Ready(stored_at);
    let missing = EventView::Status(404);
    lemma_run_of_six(start, ready, ready, ready, ready, ready, ready);
    let prepared = run(start, seq![ready, ready, ready, ready, ready, ready]);
    lemma_run_of_two(prepared, missing, missing);
    lemma_run_of_one(prepared, missing);
    let resolved = if start.community_avatar != start.author_avatar {
        run(prepared, seq![missing, missing])
    } else {
        run(prepared, seq![missing])
    };
    lemma_run_of_four(
        resolved,
        EventView::Ready(template_path),
        EventView::Ready(output_path),
        EventView::Serialized { data_json, avatar_map_json },
        EventView::Exited { code: Some(0i32), stdout, stderr },
    );
}

/// One more event at the end of a sequence is one more step of the run.
pub proof fn lemma_run_push(s: GenerationView, events: Seq<EventView>, e: EventView)
    ensures
        run(s, events.push(e)) == advance(run(s, events), e),
{
    assert(events.push(e).drop_last() =~= events);
}

/// What `run` is on one event.
proof fn lemma_run_of_one(s: GenerationView, a: EventView)
    ensures
        run(s, seq![a]) == advance(s, a),
{
    lemma_run_push(s, Seq::empty(), a);
}

/// What `run` is on two events.
proof fn lemma_run_of_two(s: GenerationView, a: EventView, b: EventView)
    ensures
        run(s, seq![a, b]) == advance(advance(s, a), b),
{
    lemma_run_of_one(s, a);
    lemma_run_push(s, seq![a], b);
    assert(seq![a, b] =~= seq![a].push(b));
}

/// What `run` is on four events.
proof fn lemma_run_of_four(s: GenerationView, a: EventView, b: EventView, c: EventView, d: EventView)
    ensures
        run(s, seq![a, b, c, d]) == advance(advance(advance(advance(s, a), b), c), d),
{
    lemma_run_of_two(s, a, b);
    lemma_run_push(s, seq![a, b], c);
    assert(seq![a, b, c] =~= seq![a, b].push(c));
    lemma_run_push(s, seq![a, b, c], d);
    assert(seq![a, b, c, d] =~= seq![a, b, c].push(d));
}

/// What `run` is on six events.
proof fn lemma_run_of_six(
    s: GenerationView,
    a: EventView,
    b: EventView,
    c: EventView,
    d: EventView,
    e: EventView,
    f: EventView,
)
    ensures
        run(s, seq![a, b, c, d, e, f]) == advance(
            advance(advance(advance(advance(advance(s, a), b), c), d), e),
            f,
        ),
{
    lemma_run_of_four(s, a, b, c, d);
    lemma_run_push(s, seq![a, b, c, d], e);
    assert(seq![a, b, c, d, e] =~= seq![a, b, c, d].push(e));
    lemma_run_push(s, seq![a, b, c, d, e], f);
    assert(seq![a, b, c, d, e, f] =~= seq![a, b, c, d, e].push(f));
}

} // verus!
