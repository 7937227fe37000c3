use vstd::prelude::*;
use vstd::string::StringExecFns;
use crate::session::NimbleGui;
use crate::session::SessionView;

verus! {

/// The three operations a button press can trigger.
#[derive(Clone, Copy, Debug, PartialEq, Eq, Structural)]
pub enum Action {
    Sync,
    GenSrf,
    Launch,
}

/// A collaborator's failure report: the diagnostic detail it supplied,
/// already rendered as text. The controller never interprets it — it only
/// embeds it verbatim in the outcome message.
pub struct OpFailure {
    pub detail: String,
}

/// The fixed text shown when an action succeeds.
pub open spec fn success_text(a: Action) -> Seq<char> {
    match a {
        Action::Sync => "Sync completed successfully"@,
        Action::GenSrf => "SRF generated successfully"@,
        Action::Launch => "Launch completed successfully"@,
    }
}

/// The text an action's failure message starts with; the collaborator's
/// detail follows it verbatim.
pub open spec fn failure_prefix(a: Action) -> Seq<char> {
    match a {
        Action::Sync => "Sync error: "@,
        Action::GenSrf => "Gen SRF error: "@,
        Action::Launch => "Launch error: "@,
    }
}

/// A collaborator's result as the model sees it: success, or the failure
/// detail as a character sequence.
pub open spec fn result_view(r: Result<(), OpFailure>) -> Result<(), Seq<char>> {
    match r {
        Result::Ok(u) => Result::Ok(u),
        Result::Err(f) => Result::Err(f.detail@),
    }
}

/// The message text of the outcome an action's result produces.
pub open spec fn outcome_text(a: Action, r: Result<(), Seq<char>>) -> Seq<char> {
    match r {
        Result::Ok(_) => success_text(a),
        Result::Err(d) => failure_prefix(a) + d,
    }
}

/// The whole outcome an action's result produces: message text and error flag.
pub open spec fn outcome_of(a: Action, r: Result<(), Seq<char>>) -> (Seq<char>, bool) {
    (outcome_text(a, r), r is Err)
}

/// The session after an action completes: the outcome slot is replaced in
/// full, and no form field moves.
pub open spec fn completed(s: SessionView, a: Action, r: Result<(), Seq<char>>) -> SessionView {
    SessionView { message: Option::Some(outcome_of(a, r)), ..s }
}

/// A successful action's outcome is never an error, and its message is
/// exactly that action's fixed success text — whatever the session held
/// before.
pub proof fn lemma_success_outcome(s: SessionView, a: Action)
    ensures
        completed(s, a, Result::Ok(())).message == Option::Some((success_text(a), false)),
{
}

/// A failing action's outcome is an error, and its message embeds the
/// collaborator's detail verbatim: it is the action's failure prefix
/// followed, character for character, by the detail.
pub proof fn lemma_failure_outcome(s: SessionView, a: Action, d: Seq<char>)
    ensures
        completed(s, a, Result::Err(d)).message == Option::Some((failure_prefix(a) + d, true)),
        outcome_text(a, Result::Err(d)).len() == failure_prefix(a).len() + d.len(),
        outcome_text(a, Result::Err(d)).subrange(
            failure_prefix(a).len() as int,
            outcome_text(a, Result::Err(d)).len() as int,
        ) == d,
{
    assert(outcome_text(a, Result::Err(d)).subrange(
        failure_prefix(a).len() as int,
        outcome_text(a, Result::Err(d)).len() as int,
    ) =~= d);
}

/// Completing an action is idempotent: the same action with the same
/// result, run twice in a row, leaves the session exactly as one run does —
/// nothing accumulates or duplicates.
pub proof fn lemma_completion_idempotent(s: SessionView, a: Action, r: Result<(), Seq<char>>)
    ensures
        completed(completed(s, a, r), a, r) == completed(s, a, r),
{
}

/// A later completion fully overwrites an earlier one, whatever the two
/// actions are: the session after action A's result and then action B's is
/// exactly the session after B's alone, and A's outcome is discarded.
pub proof fn lemma_completion_overwrites(
    s: SessionView,
    a: Action,
    ra: Result<(), Seq<char>>,
    b: Action,
    rb: Result<(), Seq<char>>,
)
    ensures
        completed(completed(s, a, ra), b, rb) == completed(s, b, rb),
{
}

/// The fixed success message of an action, as an owned string.
fn success_message(a: Action) -> (r: String)
    ensures
        r@ == success_text(a),
{
    match a {
        Action::Sync => "Sync completed successfully".to_owned(),
        Action::GenSrf => "SRF generated successfully".to_owned(),
        Action::Launch => "Launch completed successfully".to_owned(),
    }
}

/// The failure-message prefix of an action, as an owned string.
fn failure_prefix_message(a: Action) -> (r: String)
    ensures
        r@ == failure_prefix(a),
{
    match a {
        Action::Sync => "Sync error: ".to_owned(),
        Action::GenSrf => "Gen SRF error: ".to_owned(),
        Action::Launch => "Launch error: ".to_owned(),
    }
}

impl NimbleGui {
    /// Finish one action dispatch: given the collaborator's result, replace
    /// the outcome slot — with the action's fixed success text, or with its
    /// failure prefix followed by the collaborator's detail verbatim. Every
    /// form field keeps its value.
    pub fn complete_action(&mut self, action: Action, result: Result<(), OpFailure>)
        ensures
            final(self)@ == completed(old(self)@, action, result_view(result)),
    {
        match result {
            Result::Ok(()) => {
                let msg = success_message(action);
                self.show_message(msg, false);
            }
            Result::Err(f) => {
                let mut msg = failure_prefix_message(action);
                msg.append(f.detail.as_str());
                self.show_message(msg, true);
            }
        }
    }
}

} // verus!
