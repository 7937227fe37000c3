use vstd::prelude::*;
use crate::dispatch::Action;
use crate::session::SessionView;

verus! {

/// One user edit of a single form field, as the model sees it.
pub enum FieldEdit {
    SyncRepoUrl(Seq<char>),
    SyncPath(Seq<char>),
    SyncDryRun(bool),
    GenSrfPath(Seq<char>),
    LaunchPath(Seq<char>),
}

/// The form group an edit belongs to.
pub open spec fn group_of(e: FieldEdit) -> Action {
    match e {
        FieldEdit::SyncRepoUrl(_) => Action::Sync,
        FieldEdit::SyncPath(_) => Action::Sync,
        FieldEdit::SyncDryRun(_) => Action::Sync,
        FieldEdit::GenSrfPath(_) => Action::GenSrf,
        FieldEdit::LaunchPath(_) => Action::Launch,
    }
}

/// Whether two edits write the same field.
pub open spec fn same_field(e1: FieldEdit, e2: FieldEdit) -> bool {
    match (e1, e2) {
        (FieldEdit::SyncRepoUrl(_), FieldEdit::SyncRepoUrl(_)) => true,
        (FieldEdit::SyncPath(_), FieldEdit::SyncPath(_)) => true,
        (FieldEdit::SyncDryRun(_), FieldEdit::SyncDryRun(_)) => true,
        (FieldEdit::GenSrfPath(_), FieldEdit::GenSrfPath(_)) => true,
        (FieldEdit::LaunchPath(_), FieldEdit::LaunchPath(_)) => true,
        _ => false,
    }
}

/// The session after one edit: the named field holds the new value, and
/// everything else stays.
pub open spec fn apply_edit(s: SessionView, e: FieldEdit) -> SessionView {
    match e {
        FieldEdit::SyncRepoUrl(v) => SessionView { sync_repo_url: v, ..s },
        FieldEdit::SyncPath(v) => SessionView { sync_path: v, ..s },
        FieldEdit::SyncDryRun(b) => SessionView { sync_dry_run: b, ..s },
        FieldEdit::GenSrfPath(v) => SessionView { gen_srf_path: v, ..s },
        FieldEdit::LaunchPath(v) => SessionView { launch_path: v, ..s },
    }
}

/// The session after a sequence of edits, applied oldest first.
pub open spec fn apply_edits(s: SessionView, es: Seq<FieldEdit>) -> SessionView
    decreases es.len(),
{
    if es.len() == 0 {
        s
    } else {
        apply_edits(apply_edit(s, es[0]), es.drop_first())
    }
}

/// Whether one group's form reads the same in two sessions.
pub open spec fn group_agrees(s1: SessionView, s2: SessionView, a: Action) -> bool {
    match a {
        Action::Sync => s1.sync_repo_url == s2.sync_repo_url && s1.sync_path == s2.sync_path
            && s1.sync_dry_run == s2.sync_dry_run,
        Action::GenSrf => s1.gen_srf_path == s2.gen_srf_path,
        Action::Launch => s1.launch_path == s2.launch_path,
    }
}

/// The form groups are mutually independent: after any sequence of edits
/// that all belong to one group, every other group's form — and the outcome
/// slot — reads exactly as before. Submitting another group's action
/// therefore still reads its own untouched values.
pub proof fn lemma_edits_stay_in_group(s: SessionView, es: Seq<FieldEdit>, g: Action)
    requires
        forall|i: int| 0 <= i < es.len() ==> group_of(es[i]) == g,
    ensures
        forall|h: Action| h != g ==> group_agrees(s, apply_edits(s, es), h),
        apply_edits(s, es).message == s.message,
    decreases es.len(),
{
    if es.len() > 0 {
        let s1 = apply_edit(s, es[0]);
        assert(group_of(es[0]) == g);
        assert forall|i: int| 0 <= i < es.drop_first().len() implies group_of(
            es.drop_first()[i],
        ) == g by {
            assert(es.drop_first()[i] == es[i + 1]);
        }
        lemma_edits_stay_in_group(s1, es.drop_first(), g);
        assert forall|h: Action| h != g implies group_agrees(s, apply_edits(s, es), h) by {
            assert(group_agrees(s, s1, h));
            assert(group_agrees(s1, apply_edits(s1, es.drop_first()), h));
        }
    }
}

/// Within one field, the latest edit wins: editing a field and then editing
/// it again leaves the session exactly as if only the second edit had
/// happened, so a submission sees the latest value.
pub proof fn lemma_latest_edit_wins(s: SessionView, e1: FieldEdit, e2: FieldEdit)
    requires
        same_field(e1, e2),
    ensures
        apply_edit(apply_edit(s, e1), e2) == apply_edit(s, e2),
{
}

} // verus!
