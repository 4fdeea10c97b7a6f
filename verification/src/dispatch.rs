//! The dispatcher: one command is driven through login and update to an
//! outcome, the same way for both inbound channels; the channel only decides
//! what is done with the outcome afterwards.

use vstd::prelude::*;
use vstd::string::*;

use crate::client::AuthError;
use crate::client::RemoteError;
use crate::mqtt::MqttCommand;
use crate::text::json_escape;
use crate::text::json_escape_str;

verus! {

/// The result of dispatching one command: whether it succeeded, the HTTP
/// status owed to a synchronous caller, and a human-readable message.
pub struct Outcome {
    pub success: bool,
    pub status: u16,
    pub message: String,
}

/// The mathematical content of an outcome.
#[verifier::ext_equal]
pub struct OutcomeModel {
    pub success: bool,
    pub status: u16,
    pub message: Seq<char>,
}

impl View for Outcome {
    type V = OutcomeModel;

    open spec fn view(&self) -> OutcomeModel {
        OutcomeModel { success: self.success, status: self.status, message: self.message@ }
    }
}

/// Where a dispatch stands after the login step: either the update is still
/// owed, carrying the session token to use, or the dispatch is finished.
pub enum DispatchStep {
    AwaitUpdate { token: String },
    Done { outcome: Outcome },
}

/// The mathematical content of a dispatch step.
#[verifier::ext_equal]
pub enum StepModel {
    AwaitUpdate { token: Seq<char> },
    Done { outcome: OutcomeModel },
}

impl View for DispatchStep {
    type V = StepModel;

    open spec fn view(&self) -> StepModel {
        match self {
            DispatchStep::AwaitUpdate { token } => StepModel::AwaitUpdate { token: token@ },
            DispatchStep::Done { outcome } => StepModel::Done { outcome: outcome@ },
        }
    }
}

/// The text of a login failure.
pub open spec fn auth_error_text(e: AuthError) -> Seq<char> {
    match e {
        AuthError::NoCookie => "No cookies found in response"@,
        AuthError::Transport(m) => m@,
    }
}

/// The text of an update failure.
pub open spec fn remote_error_text(e: RemoteError) -> Seq<char> {
    match e {
        RemoteError::Transport(m) => m@,
    }
}

/// The message reported when login fails: the fixed prefix and the failure's
/// own text.
pub open spec fn login_failure_message(e: AuthError) -> Seq<char> {
    "Failed to login to AdGuard Home: "@ + auth_error_text(e)
}

/// The message reported when a command went through.
pub open spec fn success_message(cmd: MqttCommand) -> Seq<char> {
    match cmd {
        MqttCommand::EnableYouTube => "YouTube blocking enabled successfully"@,
        MqttCommand::DisableYouTube => "YouTube blocking disabled successfully"@,
    }
}

/// The message reported when the update call failed.
pub open spec fn update_failure_message(cmd: MqttCommand, e: RemoteError) -> Seq<char> {
    match cmd {
        MqttCommand::EnableYouTube => "Failed to enable YouTube blocking: "@ + remote_error_text(e),
        MqttCommand::DisableYouTube => "Failed to disable YouTube blocking: "@ + remote_error_text(
            e,
        ),
    }
}

/// The outcome of a dispatch whose login failed: unauthorized, whatever the
/// command was.
pub open spec fn login_failure_outcome(e: AuthError) -> OutcomeModel {
    OutcomeModel { success: false, status: 401, message: login_failure_message(e) }
}

/// The outcome of a dispatch whose login succeeded, from the update's own
/// result: success reports 200, a transport failure reports 500.
pub open spec fn update_outcome(cmd: MqttCommand, r: Result<(), RemoteError>) -> OutcomeModel {
    match r {
        Ok(_) => OutcomeModel { success: true, status: 200, message: success_message(cmd) },
        Err(e) => OutcomeModel {
            success: false,
            status: 500,
            message: update_failure_message(cmd, e),
        },
    }
}

/// A token result as its mathematical content.
pub open spec fn token_result_view(r: Result<String, AuthError>) -> Result<Seq<char>, AuthError> {
    match r {
        Ok(t) => Ok(t@),
        Err(e) => Err(e),
    }
}

/// Where a dispatch stands after login: a token leads to the update step, a
/// failure finishes the dispatch at once with the unauthorized outcome.
pub open spec fn login_step_model(r: Result<Seq<char>, AuthError>) -> StepModel {
    match r {
        Ok(token) => StepModel::AwaitUpdate { token },
        Err(e) => StepModel::Done { outcome: login_failure_outcome(e) },
    }
}

/// Step a dispatch past its login: on a token the update is owed next, with
/// that token; on a failure the dispatch is done with status 401. The update
/// step is reachable only through a token, so a failed login never leads to
/// an update call.
pub fn on_login_result(r: Result<String, AuthError>) -> (step: DispatchStep)
    ensures
        step@ == login_step_model(token_result_view(r)),
{
    match r {
        Ok(token) => DispatchStep::AwaitUpdate { token },
        Err(e) => {
            let mut message: String = String::from_str("Failed to login to AdGuard Home: ");
            match &e {
                AuthError::NoCookie => message.append("No cookies found in response"),
                AuthError::Transport(m) => message.append(m.as_str()),
            }
            let outcome = Outcome { success: false, status: 401, message };
            proof {
                assert(outcome@ =~= login_failure_outcome(e));
            }
            DispatchStep::Done { outcome }
        },
    }
}

/// Finish a dispatch from the update call's result: success reports 200 with
/// the command's success message, a transport failure reports 500 with the
/// command's failure message.
pub fn on_update_result(cmd: MqttCommand, r: Result<(), RemoteError>) -> (outcome: Outcome)
    ensures
        outcome@ == update_outcome(cmd, r),
{
    match r {
        Ok(_) => {
            let message: String = match cmd {
                MqttCommand::EnableYouTube => String::from_str(
                    "YouTube blocking enabled successfully",
                ),
                MqttCommand::DisableYouTube => String::from_str(
                    "YouTube blocking disabled successfully",
                ),
            };
            Outcome { success: true, status: 200, message }
        },
        Err(e) => {
            let mut message: String = match cmd {
                MqttCommand::EnableYouTube => String::from_str(
                    "Failed to enable YouTube blocking: ",
                ),
                MqttCommand::DisableYouTube => String::from_str(
                    "Failed to disable YouTube blocking: ",
                ),
            };
            match &e {
                RemoteError::Transport(m) => message.append(m.as_str()),
            }
            let outcome = Outcome { success: false, status: 500, message };
            proof {
                assert(outcome@ =~= update_outcome(cmd, Err(e)));
            }
            outcome
        },
    }
}

/// The outcome of the liveness probe: always well.
pub fn status_outcome() -> (outcome: Outcome)
    ensures
        outcome.success,
        outcome.status == 200,
        outcome.message@ == "AdGuard YouTube API is running"@,
{
    Outcome {
        success: true,
        status: 200,
        message: String::from_str("AdGuard YouTube API is running"),
    }
}

/// The response body reported for an outcome, as JSON: a `success` flag and
/// a `message` string, in that order, with the message escaped.
pub open spec fn body_text(success: bool, message: Seq<char>) -> Seq<char> {
    "{\"success\":"@ + (if success {
        "true"@
    } else {
        "false"@
    }) + ",\"message\":\""@ + json_escape(message) + "\"}"@
}

/// Render the response body owed for an outcome.
pub fn render_body(outcome: &Outcome) -> (r: String)
    ensures
        r@ == body_text(outcome.success, outcome.message@),
{
    let mut r: String = String::from_str("{\"success\":");
    if outcome.success {
        r.append("true");
    } else {
        r.append("false");
    }
    r.append(",\"message\":\"");
    let escaped: String = json_escape_str(outcome.message.as_str());
    r.append(escaped.as_str());
    r.append("\"}");
    proof {
        assert(r@ =~= body_text(outcome.success, outcome.message@));
    }
    r
}

/// When login succeeds the dispatch goes on to the update with the token the
/// appliance issued, and when the update then also succeeds, the outcome for
/// either command is status 200 with success set.
pub proof fn lemma_dispatch_success(cmd: MqttCommand, token: Seq<char>)
    ensures
        login_step_model(Ok(token)) == (StepModel::AwaitUpdate { token }),
        update_outcome(cmd, Ok(())).status == 200,
        update_outcome(cmd, Ok(())).success,
{
}

/// When login fails the dispatch is finished at once with status 401 and the
/// login failure message, whatever the failure was; no update step is ever
/// reached, since only a token leads to one.
pub proof fn lemma_login_failure_final(e: AuthError)
    ensures
        login_step_model(Err(e)) matches StepModel::Done { outcome } && outcome.status == 401
            && !outcome.success && outcome.message == login_failure_message(e),
{
}

/// When login succeeds but the update's transport fails, the outcome is
/// status 500 with the command's failure message.
pub proof fn lemma_update_failure(cmd: MqttCommand, e: RemoteError)
    ensures
        update_outcome(cmd, Err(e)).status == 500,
        !update_outcome(cmd, Err(e)).success,
        update_outcome(cmd, Err(e)).message == update_failure_message(cmd, e),
{
}

} // verus!
