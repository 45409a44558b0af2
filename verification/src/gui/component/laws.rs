//! What holds of the session controller whatever the daemon answers.
use vstd::prelude::*;

use crate::greetd::session::AuthMessageView;
use crate::greetd::AuthMessageType;
use crate::greetd::ErrorType;
use crate::greetd::RequestView;
use crate::greetd::ResponseView;
use crate::gui::component::greetd_controls::command_is_valid;
use crate::gui::component::greetd_controls::invalid_session_text;
use crate::gui::component::greetd_controls::CommandOutputView;
use crate::gui::component::greetd_controls::ExchangeView;
use crate::gui::component::greetd_controls::GreetdControlsMsgView;
use crate::gui::component::greetd_controls::GreetdControlsOutputView;
use crate::gui::component::greetd_controls::GreetdControlsView;
use crate::gui::component::greetd_controls::GreetdStateView;
use crate::gui::component::greetd_controls::StateCategory;

verus! {

/// An error that the daemon reports leaves the state as it was: whichever
/// operation was made, the exchange ends in the very state it started from,
/// so in the same category, with the error's text to report.
pub proof fn lemma_daemon_error_keeps_state<C>(
    exchange: ExchangeView<C>,
    error_type: ErrorType,
    description: Seq<char>,
)
    requires
        exchange.wf(),
    ensures
        exchange.completion(Ok(ResponseView::Error { error_type, description })).greetd_state
            == exchange.state,
        exchange.completion(
            Ok(ResponseView::Error { error_type, description }),
        ).greetd_state.category() == exchange.state.category(),
        exchange.completion(Ok(ResponseView::Error { error_type, description })).error is Some,
{
}

/// A failure of the connection leaves the state as it was, too, and is
/// reported.
pub proof fn lemma_failure_keeps_state<C>(exchange: ExchangeView<C>, failure: Seq<char>)
    requires
        exchange.wf(),
    ensures
        exchange.completion(Err(failure)).greetd_state == exchange.state,
        exchange.completion(Err(failure)).error is Some,
{
}

/// The controller holds on to the state that an exchange failed in: it passes
/// the error on to its parent as the first output, keeps the state that the
/// operation was made from, and starts no exchange of its own.
pub proof fn lemma_error_is_surfaced_and_state_retained<C>(
    model: GreetdControlsView<C>,
    state: GreetdStateView<C>,
    error: Seq<char>,
)
    requires
        state.is_live(),
    ensures
        model.update_cmd(CommandOutputView { greetd_state: state, error: Some(error) }).model.greetd_state
            == state,
        model.update_cmd(CommandOutputView { greetd_state: state, error: Some(error) }).exchange
            is None,
        model.update_cmd(CommandOutputView { greetd_state: state, error: Some(error) }).outputs.len()
            > 0,
        model.update_cmd(CommandOutputView { greetd_state: state, error: Some(error) }).outputs[0]
            == GreetdControlsOutputView::NotifyError(error),
{
}

/// A cancel request that the daemon accepts always leads to the state in
/// which no session exists, on the same connection.
pub proof fn lemma_cancel_success_yields_not_created<C>(exchange: ExchangeView<C>)
    requires
        exchange.wf(),
        exchange.request is CancelSession,
    ensures
        exchange.completion(Ok(ResponseView::Success)) == (CommandOutputView {
            greetd_state: GreetdStateView::NotCreated(exchange.state.connection()),
            error: None,
        }),
{
}

/// Cancelling again after a cancel has succeeded is legal and does nothing:
/// the controller sends no request to the daemon and stays in the state in
/// which no session exists.
pub proof fn lemma_cancel_twice_is_noop<C>(model: GreetdControlsView<C>, exchange: ExchangeView<C>)
    requires
        exchange.wf(),
        exchange.request is CancelSession,
    ensures
        ({
            let cancelled = model.update_cmd(exchange.completion(Ok(ResponseView::Success))).model;
            let again = cancelled.update(GreetdControlsMsgView::Cancel);
            &&& cancelled.greetd_state == GreetdStateView::NotCreated(exchange.state.connection())
            &&& again.exchange is None
            &&& again.model.greetd_state == cancelled.greetd_state
            &&& again.model.username == cancelled.username
        }),
{
}

/// A cancel message starts a cancel exchange from every state in which a
/// session exists, and from no other.
pub proof fn lemma_cancel_is_an_edge_from_every_session_state<C>(model: GreetdControlsView<C>)
    ensures
        model.greetd_state.can_cancel() ==> model.update(GreetdControlsMsgView::Cancel).exchange
            == Some(ExchangeView { state: model.greetd_state, request: RequestView::CancelSession }),
        !model.greetd_state.can_cancel() ==> model.update(GreetdControlsMsgView::Cancel).exchange
            is None && model.update(GreetdControlsMsgView::Cancel).model.greetd_state
            == model.greetd_state,
{
}

/// Once an exchange has succeeded and left the session startable, and a
/// command that names an executable is configured, the very step that takes
/// the result in issues the request to start the session with that command
/// and the configured environment: no further message is needed.
pub proof fn lemma_auto_start<C>(model: GreetdControlsView<C>, conn: C)
    requires
        command_is_valid(model.command),
    ensures
        model.update_cmd(
            CommandOutputView { greetd_state: GreetdStateView::Startable(conn), error: None },
        ).exchange == Some(
            ExchangeView {
                state: GreetdStateView::Startable(conn),
                request: RequestView::StartSession { cmd: model.command->0, env: model.env },
            },
        ),
{
}

/// Without a command that names an executable, a startable session is not
/// started: advancing reports a local error, sends nothing and stays
/// startable, and so does the step that takes in a successful result.
pub proof fn lemma_invalid_command_is_local_error<C>(model: GreetdControlsView<C>, conn: C)
    requires
        !command_is_valid(model.command),
    ensures
        model.greetd_state == GreetdStateView::Startable(conn) ==> ({
            let step = model.update(GreetdControlsMsgView::AdvanceAuthentication(None));
            &&& step.exchange is None
            &&& step.model.greetd_state == model.greetd_state
            &&& step.outputs.len() > 0
            &&& step.outputs[0] == GreetdControlsOutputView::NotifyError(invalid_session_text())
        }),
        ({
            let step = model.update_cmd(
                CommandOutputView { greetd_state: GreetdStateView::Startable(conn), error: None },
            );
            &&& step.exchange is None
            &&& step.model.greetd_state == GreetdStateView::Startable(conn)
            &&& step.outputs.len() > 0
            &&& step.outputs[0] == GreetdControlsOutputView::NotifyError(invalid_session_text())
        }),
{
}

/// Every exchange that a step of the controller hands out is one that the
/// protocol allows in the state it starts from, and that state is the one the
/// controller held.
pub proof fn lemma_steps_start_legal_exchanges<C>(
    model: GreetdControlsView<C>,
    message: GreetdControlsMsgView,
)
    requires
        model.greetd_state.wf(),
    ensures
        model.update(message).exchange matches Some(exchange) ==> exchange.wf() && exchange.state
            == model.greetd_state,
        model.update(message).model.greetd_state.wf(),
{
}

/// Once the session is started, no message changes the state any more, and
/// none starts an exchange.
pub proof fn lemma_session_started_is_final<C>(
    model: GreetdControlsView<C>,
    message: GreetdControlsMsgView,
)
    requires
        model.greetd_state is SessionStarted,
        !(message is UpdateUser),
    ensures
        model.update(message).model.greetd_state is SessionStarted,
        model.update(message).exchange is None,
{
}

/// A state that waits on a prompt always holds the daemon's most recent
/// prompt: when the daemon answers `create_session` or `respond` with a
/// prompt, the next state holds that very prompt, as a question if it is
/// visible or secret and as an informative message otherwise.
pub proof fn lemma_prompt_is_the_latest<C>(
    exchange: ExchangeView<C>,
    kind: AuthMessageType,
    text: Seq<char>,
)
    requires
        exchange.wf(),
        exchange.request is CreateSession || exchange.request is PostAuthMessageResponse,
    ensures
        ({
            let next = exchange.completion(
                Ok(ResponseView::AuthMessage { auth_message_type: kind, auth_message: text }),
            );
            let prompt = AuthMessageView { conn: exchange.state.connection(), kind, message: text };
            &&& next.error is None
            &&& kind.is_question() ==> next.greetd_state == GreetdStateView::AuthQuestion(prompt)
            &&& kind.is_informative() ==> next.greetd_state == GreetdStateView::AuthInformative(
                prompt,
            )
        }),
{
}

/// The edges of the protocol.  Creating a session and answering a prompt lead
/// to a startable session or to a prompt, starting a session leads to the
/// started session, and cancelling leads back to where no session exists;
/// an error of the daemon or a failure of the connection leaves the state
/// where it was.  No exchange ends in the placeholder state.
pub proof fn lemma_edges<C>(exchange: ExchangeView<C>, outcome: Result<ResponseView, Seq<char>>)
    requires
        exchange.wf(),
        exchange.accepts(outcome),
    ensures
        ({
            let next = exchange.completion(outcome).greetd_state.category();
            let failed = outcome is Err || outcome->Ok_0 is Error;
            &&& failed ==> next == exchange.state.category()
            &&& !failed ==> match exchange.request {
                RequestView::StartSession { .. } => next == StateCategory::SessionStarted,
                RequestView::CancelSession => next == StateCategory::NotCreated,
                _ => next == StateCategory::Startable || next == StateCategory::AuthQuestion
                    || next == StateCategory::AuthInformative,
            }
            &&& next != StateCategory::Loading
            &&& exchange.completion(outcome).greetd_state.wf()
        }),
{
}

/// After a cancel has succeeded the connection can be used for a fresh
/// session: advancing creates one, for the stored user, on the connection
/// that the cancelled session was on.
pub proof fn lemma_connection_is_reusable_after_cancel<C>(
    model: GreetdControlsView<C>,
    exchange: ExchangeView<C>,
)
    requires
        exchange.wf(),
        exchange.request is CancelSession,
    ensures
        ({
            let cancelled = model.update_cmd(exchange.completion(Ok(ResponseView::Success))).model;
            let fresh = cancelled.update(GreetdControlsMsgView::AdvanceAuthentication(None));
            fresh.exchange == Some(
                ExchangeView {
                    state: GreetdStateView::NotCreated(exchange.state.connection()),
                    request: RequestView::CreateSession { username: model.username },
                },
            )
        }),
{
}

/// The controller holds the connection in exactly one place: a step that
/// hands out an exchange leaves the controller with the placeholder state,
/// and a step that hands out none leaves the state's connection where it
/// was.
pub proof fn lemma_connection_has_one_owner<C>(
    model: GreetdControlsView<C>,
    message: GreetdControlsMsgView,
)
    ensures
        model.update(message).exchange is Some ==> model.update(message).model.greetd_state
            is Loading,
        model.update(message).exchange is None ==> model.update(message).model.greetd_state
            == model.greetd_state,
{
}

} // verus!
