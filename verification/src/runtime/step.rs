//! The decisions of the interactive loop, one event at a time: whether a
//! prompt changes a setting, steers the running turn, is queued or starts a
//! turn; what each answer of the server does to the settings and the
//! status line; when an interrupt ends the session; and when to reconnect.
//! The caller performs each command and hands back its answer as the next
//! event.
use vstd::prelude::*;

use super::{is_no_active_turn_error, no_active_turn, submission_input, submission_spec};
use crate::protocol::UserInput;
use crate::settings::{parse_settings_command, settings_result, SettingsCommand, SettingsError};
use crate::text::{concat2, concat3, dec, is_blank, owned, push_dec, trim};

verus! {

/// A collaboration mode for planning: the model it runs and its reasoning
/// effort.
pub struct PlanMode {
    pub model: String,
    pub effort: Option<String>,
}

/// The request whose answer the loop waits for, with what it needs to
/// finish: the prompt and the images taken for it, and the error of a
/// refused steer that fell back to the queue.
pub enum Awaiting {
    Nothing,
    Steer { prompt: String, images: Vec<String> },
    Queue { prompt: String, images: Vec<String> },
    QueueAfterSteer { prompt: String, images: Vec<String>, steer_error: String },
    Start { prompt: String, images: Vec<String> },
    Settings(SettingsCommand),
    Models,
    Interrupt,
}

/// The state the loop decides on: the session settings, whether the
/// permission profile was fixed at start, the plan mode the server offers,
/// the running turn, the images waiting to be sent, the status line, the
/// connection and reconnection, and the request in flight.
pub struct TuiState {
    pub model: Option<String>,
    pub model_provider: Option<String>,
    pub effort: Option<String>,
    pub permissions: Option<String>,
    pub permissions_fixed: bool,
    pub plan_mode: Option<PlanMode>,
    pub active_turn: Option<String>,
    pub pending_images: Vec<String>,
    pub status: Option<String>,
    pub connected: bool,
    pub reconnect_thread_id: Option<String>,
    pub reconnecting: bool,
    pub reconnect_failed: bool,
    pub awaiting: Awaiting,
}

/// What the loop hears: a prompt to submit or to queue, an answer of the
/// server to the request in flight, an interrupt, a change of the running
/// turn, a lost connection (with the thread to reconnect to, or the error
/// that finding it gave), or a request to quit.
pub enum TuiEvent {
    Submit(String),
    Queue(String),
    SteerResult(Result<(), String>),
    QueueResult(Result<(), String>),
    StartResult(Result<String, String>),
    SettingsResult(Result<(), String>),
    ModelsResult(Result<(), String>),
    Interrupt,
    /// The answer to an interrupt; an error is given by the messages of its
    /// chain of causes.
    InterruptResult(Result<(), Vec<String>>),
    TurnChanged(Option<String>),
    /// The connection was lost: the id of the session's thread, or the
    /// error (its chain of causes) that reading it gave.
    Disconnected(Result<String, Vec<String>>),
    /// The answer to a reconnect: the permission profile active on the new
    /// session, if any.
    ReconnectResult(Result<Option<String>, String>),
    /// The answer to remembering a prompt in the prompt history.
    PromptHistoryResult(Result<(), String>),
    /// An image pasted from the clipboard: where it was saved and its
    /// width and height.
    ImagePasted(Result<(String, u32, u32), String>),
    /// The answer to taking a queued input back for editing: whether the
    /// server deleted it, and whether it could then be put back in the
    /// composer.
    QueueEditResult { deleted: Result<bool, String>, restored: bool },
    /// The answer to switching to another agent's thread.
    SwitchResult(Result<(), String>),
    Quit,
}

/// What the loop asks of its caller.
pub enum TuiCommand {
    Nothing,
    Quit,
    /// The session ends with this error, given by its chain of causes.
    Fail(Vec<String>),
    Steer { turn_id: String, input: Vec<UserInput> },
    Queue { input: Vec<UserInput> },
    StartTurn { input: Vec<UserInput> },
    UpdateSettings {
        model: Option<String>,
        provider: Option<String>,
        effort: Option<String>,
        permissions: Option<String>,
    },
    UpdateCollaborationMode { model: String, effort: Option<String> },
    ListModels,
    Interrupt { turn_id: String },
    /// Remember the prompt in the prompt history; its answer comes back as
    /// `PromptHistoryResult`.
    PersistPrompt(String),
    Reconnect { thread_id: String },
    /// Read the queued inputs again.
    RefreshQueue,
}

/// What follows a sent prompt: remembering it in the prompt history,
/// unless it is blank.
pub open spec fn persist(prompt: String) -> TuiCommand {
    if trim(prompt@).len() == 0 {
        TuiCommand::Nothing
    } else {
        TuiCommand::PersistPrompt(prompt)
    }
}

/// Whether the status line reads `s`.
pub open spec fn status_is(n: TuiState, s: Seq<char>) -> bool {
    n.status matches Some(x) && x@ == s
}

/// A settings command typed while connected. Plan mode is asked for when
/// the server offers it, else refused; the model list, a model, an effort
/// or a permission profile are asked for.
pub open spec fn command_submitted(o: TuiState, n: TuiState, cmd: SettingsCommand, c: TuiCommand) -> bool {
    match cmd {
        SettingsCommand::Plan => match o.plan_mode {
            None => status_is(n, "plan mode unavailable on this server"@) && n == (TuiState {
                status: n.status,
                ..o
            }) && c is Nothing,
            Some(pm) => n == (TuiState { awaiting: Awaiting::Settings(SettingsCommand::Plan), ..o })
                && (c matches TuiCommand::UpdateCollaborationMode { model, effort } && model == pm.model
                && effort == pm.effort),
        },
        SettingsCommand::ModelPicker => n == (TuiState { awaiting: Awaiting::Models, ..o }) && c
            is ListModels,
        _ => {
            &&& n == (TuiState { awaiting: Awaiting::Settings(cmd), ..o })
            &&& c matches TuiCommand::UpdateSettings { model, provider, effort, permissions }
            &&& match cmd {
                SettingsCommand::Model { model: m, provider: p } => model == Some(m) && provider == p
                    && effort is None && permissions is None,
                SettingsCommand::Effort(v) => model is None && provider is None && effort == Some(v)
                    && permissions is None,
                SettingsCommand::Permissions(v) => model is None && provider is None && effort
                    is None && permissions == Some(v),
                _ => false,
            }
        },
    }
}

/// A prompt that is no settings command, typed while connected: it takes
/// the waiting images and steers the running turn, or starts a turn when
/// none runs.
pub open spec fn turn_submitted(o: TuiState, n: TuiState, prompt: String, c: TuiCommand) -> bool {
    &&& n.pending_images@.len() == 0
    &&& match o.active_turn {
        Some(t) => {
            &&& n == (TuiState {
                pending_images: n.pending_images,
                awaiting: Awaiting::Steer { prompt, images: o.pending_images },
                ..o
            })
            &&& c matches TuiCommand::Steer { turn_id, input } && turn_id == t && submission_spec(
                prompt@,
                o.pending_images@,
                input@,
            )
        },
        None => {
            &&& n == (TuiState {
                pending_images: n.pending_images,
                awaiting: Awaiting::Start { prompt, images: o.pending_images },
                ..o
            })
            &&& c matches TuiCommand::StartTurn { input } && submission_spec(
                prompt@,
                o.pending_images@,
                input@,
            )
        },
    }
}

/// A prompt typed while connected, with `parsed` what it says as a
/// settings command: a malformed command shows its usage
/// (`command_submitted`, `turn_submitted`).
pub open spec fn submitted(
    o: TuiState,
    n: TuiState,
    prompt: String,
    parsed: Option<Result<SettingsCommand, SettingsError>>,
    c: TuiCommand,
) -> bool {
    match parsed {
        Some(Err(err)) => status_is(n, err.message_text()) && n == (TuiState { status: n.status, ..o })
            && c is Nothing,
        Some(Ok(cmd)) => command_submitted(o, n, cmd, c),
        None => turn_submitted(o, n, prompt, c),
    }
}

/// A failed request gives back the images it took, ahead of any waiting
/// ones, and shows `message`; nothing is in flight after.
pub open spec fn given_back(o: TuiState, n: TuiState, images: Vec<String>, message: Seq<char>) -> bool {
    &&& n.pending_images@ == images@ + o.pending_images@
    &&& status_is(n, message)
    &&& n == (TuiState {
        pending_images: n.pending_images,
        status: n.status,
        awaiting: Awaiting::Nothing,
        ..o
    })
}

/// The settings after the server accepted `cmd`, with the status line that
/// says so.
pub open spec fn settings_applied(o: TuiState, n: TuiState, cmd: SettingsCommand) -> bool {
    match cmd {
        SettingsCommand::Plan => match o.plan_mode {
            Some(pm) => status_is(n, "plan mode"@) && n == (TuiState {
                model: Some(pm.model),
                effort: pm.effort,
                status: n.status,
                awaiting: Awaiting::Nothing,
                ..o
            }),
            None => n == (TuiState { awaiting: Awaiting::Nothing, ..o }),
        },
        SettingsCommand::Model { model, provider } => status_is(n, "settings updated"@) && n == (
        TuiState {
            model: Some(model),
            model_provider: provider,
            status: n.status,
            awaiting: Awaiting::Nothing,
            ..o
        }),
        SettingsCommand::Effort(v) => status_is(n, "settings updated"@) && n == (TuiState {
            effort: Some(v),
            status: n.status,
            awaiting: Awaiting::Nothing,
            ..o
        }),
        SettingsCommand::Permissions(v) => status_is(n, "settings updated"@) && n == (TuiState {
            permissions: Some(v),
            status: n.status,
            awaiting: Awaiting::Nothing,
            ..o
        }),
        SettingsCommand::ModelPicker => n == (TuiState { awaiting: Awaiting::Nothing, ..o }),
    }
}

/// One step of the loop from `o` to `n`, asking `c`. While disconnected
/// only a quit or a lost connection's answers count. A steer that the
/// server refuses falls back to the queue; a failed queue or start gives
/// the images back and shows why (after a refused steer, both errors). An
/// interrupt with no turn running, or one the server answers with "no
/// active turn", quits; any other failed interrupt ends the session with
/// its error. A lost connection reconnects to its thread, and ends the
/// session with the error when the thread cannot be named; a
/// reconnect adopts the server's permission profile unless one was fixed
/// at start. An answer to no request in flight changes nothing.
pub open spec fn tui_stepped(o: TuiState, n: TuiState, e: TuiEvent, c: TuiCommand) -> bool {
    match e {
        TuiEvent::Quit => n == o && c is Quit,
        TuiEvent::PromptHistoryResult(res) => c is Nothing && match res {
            Ok(_) => n == o,
            Err(err) => status_is(n, "prompt history unavailable: "@ + err@) && n == (TuiState {
                status: n.status,
                ..o
            }),
        },
        TuiEvent::TurnChanged(t) => n == (TuiState { active_turn: t, ..o }) && c is Nothing,
        TuiEvent::ImagePasted(res) => c is Nothing && match res {
            Ok((path, w, h)) => status_is(n, "image attached: "@ + dec(w as nat) + "x"@ + dec(h as nat))
                && n.pending_images@ == o.pending_images@.push(path) && n == (TuiState {
                pending_images: n.pending_images,
                status: n.status,
                ..o
            }),
            Err(err) => status_is(n, "image paste failed: "@ + err@) && n == (TuiState {
                status: n.status,
                ..o
            }),
        },
        TuiEvent::QueueEditResult { deleted, restored } => n == (TuiState { status: n.status, ..o })
            && match deleted {
            Ok(d) => if d && restored {
                status_is(n, "queued input editing"@) && c is Nothing
            } else {
                status_is(n, "queued input unavailable"@) && c is RefreshQueue
            },
            Err(err) => status_is(n, "queue edit failed: "@ + err@) && c is Nothing,
        },
        TuiEvent::SwitchResult(res) => c is Nothing && n == (TuiState { status: n.status, ..o })
            && status_is(
            n,
            match res {
                Ok(_) => "switched agent"@,
                Err(err) => "agent switch failed: "@ + err@,
            },
        ),
        TuiEvent::Submit(prompt) => if !o.connected {
            n == o && c is Nothing
        } else {
            exists|p: Option<Result<SettingsCommand, SettingsError>>|
                #[trigger] settings_result(prompt@, p) && submitted(o, n, prompt, p, c)
        },
        TuiEvent::Queue(prompt) => if !o.connected {
            n == o && c is Nothing
        } else {
            &&& n.pending_images@.len() == 0
            &&& n == (TuiState {
                pending_images: n.pending_images,
                awaiting: Awaiting::Queue { prompt, images: o.pending_images },
                ..o
            })
            &&& c matches TuiCommand::Queue { input } && submission_spec(prompt@, o.pending_images@, input@)
        },
        TuiEvent::SteerResult(res) => match o.awaiting {
            Awaiting::Steer { prompt, images } => match res {
                Ok(_) => status_is(n, "steering"@) && n == (TuiState {
                    status: n.status,
                    awaiting: Awaiting::Nothing,
                    ..o
                }) && c == persist(prompt),
                Err(err) => n == (TuiState {
                    awaiting: Awaiting::QueueAfterSteer { prompt, images, steer_error: err },
                    ..o
                }) && (c matches TuiCommand::Queue { input } && submission_spec(prompt@, images@, input@)),
            },
            _ => n == o && c is Nothing,
        },
        TuiEvent::QueueResult(res) => match o.awaiting {
            Awaiting::Queue { prompt, images } => match res {
                Ok(_) => status_is(n, "queued"@) && n == (TuiState {
                    status: n.status,
                    awaiting: Awaiting::Nothing,
                    ..o
                }) && c == persist(prompt),
                Err(q) => given_back(o, n, images, q@) && c is Nothing,
            },
            Awaiting::QueueAfterSteer { prompt, images, steer_error } => match res {
                Ok(_) => status_is(n, "queued"@) && n == (TuiState {
                    status: n.status,
                    awaiting: Awaiting::Nothing,
                    ..o
                }) && c == persist(prompt),
                Err(q) => given_back(o, n, images, steer_error@ + "; queue failed: "@ + q@) && c is Nothing,
            },
            _ => n == o && c is Nothing,
        },
        TuiEvent::StartResult(res) => match o.awaiting {
            Awaiting::Start { prompt, images } => match res {
                Ok(turn_id) => n == (TuiState {
                    active_turn: Some(turn_id),
                    awaiting: Awaiting::Nothing,
                    ..o
                }) && c == persist(prompt),
                Err(err) => given_back(o, n, images, err@) && c is Nothing,
            },
            _ => n == o && c is Nothing,
        },
        TuiEvent::SettingsResult(res) => match o.awaiting {
            Awaiting::Settings(cmd) => c is Nothing && match res {
                Ok(_) => settings_applied(o, n, cmd),
                Err(err) => status_is(n, err@) && n == (TuiState {
                    status: n.status,
                    awaiting: Awaiting::Nothing,
                    ..o
                }),
            },
            _ => n == o && c is Nothing,
        },
        TuiEvent::ModelsResult(res) => match o.awaiting {
            Awaiting::Models => c is Nothing && status_is(
                n,
                match res {
                    Ok(_) => "choose model"@,
                    Err(err) => err@,
                },
            ) && n == (TuiState { status: n.status, awaiting: Awaiting::Nothing, ..o }),
            _ => n == o && c is Nothing,
        },
        TuiEvent::Interrupt => if !o.connected {
            n == o && c is Nothing
        } else {
            match o.active_turn {
                Some(t) => n == (TuiState { awaiting: Awaiting::Interrupt, ..o }) && c
                    == TuiCommand::Interrupt { turn_id: t },
                None => n == o && c is Quit,
            }
        },
        TuiEvent::InterruptResult(res) => match o.awaiting {
            Awaiting::Interrupt => match res {
                Ok(_) => status_is(n, "interrupting"@) && n == (TuiState {
                    status: n.status,
                    awaiting: Awaiting::Nothing,
                    ..o
                }) && c is Nothing,
                Err(chain) => n == (TuiState { awaiting: Awaiting::Nothing, ..o }) && if no_active_turn(
                    chain@.map_values(|s: String| s@),
                ) {
                    c is Quit
                } else {
                    c == TuiCommand::Fail(chain)
                },
            },
            _ => n == o && c is Nothing,
        },
        TuiEvent::Disconnected(tid) => if !o.connected {
            n == o && c is Nothing
        } else {
            match tid {
                Ok(t) => n == (TuiState {
                    connected: false,
                    reconnect_thread_id: Some(t),
                    reconnecting: true,
                    reconnect_failed: false,
                    ..o
                }) && c == TuiCommand::Reconnect { thread_id: t },
                Err(chain) => n == o && c == TuiCommand::Fail(chain),
            }
        },
        TuiEvent::ReconnectResult(res) => if !o.reconnecting {
            n == o && c is Nothing
        } else {
            c is Nothing && match res {
                Ok(profile) => status_is(n, "reconnected"@) && n == (TuiState {
                    connected: true,
                    reconnecting: false,
                    reconnect_thread_id: None,
                    reconnect_failed: false,
                    permissions: if !o.permissions_fixed && profile is Some {
                        profile
                    } else {
                        o.permissions
                    },
                    status: n.status,
                    ..o
                }),
                Err(err) => status_is(n, "reconnect failed: "@ + err@) && n == (TuiState {
                    reconnecting: false,
                    reconnect_failed: true,
                    status: n.status,
                    ..o
                }),
            }
        },
    }
}

/// While disconnected, a prompt, a queued prompt or an interrupt changes
/// nothing and asks for nothing.
pub proof fn lemma_disconnected_ignores_input(o: TuiState, n: TuiState, e: TuiEvent, c: TuiCommand)
    requires
        !o.connected,
        (e is Submit) || (e is Queue) || (e is Interrupt),
        tui_stepped(o, n, e, c),
    ensures
        n == o,
        c is Nothing,
{
}

/// An interrupt with no turn running quits; with a turn running it asks
/// the server to interrupt that turn and waits for the answer.
pub proof fn lemma_interrupt_quits_without_a_turn(o: TuiState, n: TuiState, c: TuiCommand)
    requires
        o.connected,
        tui_stepped(o, n, TuiEvent::Interrupt, c),
    ensures
        o.active_turn is None ==> c is Quit && n == o,
        (o.active_turn matches Some(t) ==> (c == (TuiCommand::Interrupt { turn_id: t }) && (n.awaiting
            is Interrupt))),
{
}

/// A steer the server refuses is queued with the same prompt and images,
/// and the queue's answer is then awaited.
pub proof fn lemma_refused_steer_is_queued(
    o: TuiState,
    n: TuiState,
    prompt: String,
    images: Vec<String>,
    err: String,
    c: TuiCommand,
)
    requires
        o.awaiting == (Awaiting::Steer { prompt, images }),
        tui_stepped(o, n, TuiEvent::SteerResult(Err(err)), c),
    ensures
        (c matches TuiCommand::Queue { input } && submission_spec(prompt@, images@, input@)),
        n.awaiting == (Awaiting::QueueAfterSteer { prompt, images, steer_error: err }),
        n.pending_images == o.pending_images,
        n.status == o.status,
{
}

/// A prompt whose turn cannot start loses none of the images attached to
/// it: they wait again, in their order, and the status line says why.
pub proof fn lemma_failed_start_gives_images_back(
    o: TuiState,
    m: TuiState,
    n: TuiState,
    prompt: String,
    error: String,
    c1: TuiCommand,
    c2: TuiCommand,
)
    requires
        o.connected,
        o.active_turn is None,
        settings_result(prompt@, None),
        tui_stepped(o, m, TuiEvent::Submit(prompt), c1),
        tui_stepped(m, n, TuiEvent::StartResult(Err(error)), c2),
    ensures
        n.pending_images@ == o.pending_images@,
        status_is(n, error@),
        n.awaiting is Nothing,
        c2 is Nothing,
{
    let p = choose|p: Option<Result<SettingsCommand, SettingsError>>|
        #[trigger] settings_result(prompt@, p) && submitted(o, m, prompt, p, c1);
    assert(p is None);
    assert(m.pending_images@ + Seq::<String>::empty() == m.pending_images@);
    assert(o.pending_images@ + m.pending_images@ =~= o.pending_images@);
}

fn persist_cmd(prompt: String) -> (r: TuiCommand)
    ensures
        r == persist(prompt),
{
    if is_blank(prompt.as_str()) {
        TuiCommand::Nothing
    } else {
        TuiCommand::PersistPrompt(prompt)
    }
}

fn clone_opt(o: &Option<String>) -> (r: Option<String>)
    ensures
        r == *o,
{
    match o {
        Some(x) => Some(x.clone()),
        None => None,
    }
}

/// Sends a settings command (`command_submitted`).
fn submit_command(st: TuiState, cmd: SettingsCommand) -> (r: (TuiState, TuiCommand))
    ensures
        command_submitted(st, r.0, cmd, r.1),
{
    let mut st = st;
    match cmd {
        SettingsCommand::Plan => {
            let chosen = match &st.plan_mode {
                Some(pm) => Some((pm.model.clone(), clone_opt(&pm.effort))),
                None => None,
            };
            match chosen {
                Some((model, effort)) => {
                    st.awaiting = Awaiting::Settings(SettingsCommand::Plan);
                    (st, TuiCommand::UpdateCollaborationMode { model, effort })
                },
                None => {
                    st.status = Some(owned("plan mode unavailable on this server"));
                    (st, TuiCommand::Nothing)
                },
            }
        },
        SettingsCommand::ModelPicker => {
            st.awaiting = Awaiting::Models;
            (st, TuiCommand::ListModels)
        },
        SettingsCommand::Model { model, provider } => {
            let c = TuiCommand::UpdateSettings {
                model: Some(model.clone()),
                provider: clone_opt(&provider),
                effort: None,
                permissions: None,
            };
            st.awaiting = Awaiting::Settings(SettingsCommand::Model { model, provider });
            (st, c)
        },
        SettingsCommand::Effort(v) => {
            let c = TuiCommand::UpdateSettings {
                model: None,
                provider: None,
                effort: Some(v.clone()),
                permissions: None,
            };
            st.awaiting = Awaiting::Settings(SettingsCommand::Effort(v));
            (st, c)
        },
        SettingsCommand::Permissions(v) => {
            let c = TuiCommand::UpdateSettings {
                model: None,
                provider: None,
                effort: None,
                permissions: Some(v.clone()),
            };
            st.awaiting = Awaiting::Settings(SettingsCommand::Permissions(v));
            (st, c)
        },
    }
}

/// Takes the waiting images.
fn take_images(st: &mut TuiState) -> (r: Vec<String>)
    ensures
        r == old(st).pending_images,
        final(st).pending_images@.len() == 0,
        *final(st) == (TuiState { pending_images: final(st).pending_images, ..*old(st) }),
{
    let mut images: Vec<String> = Vec::new();
    std::mem::swap(&mut images, &mut st.pending_images);
    images
}

/// Sends a prompt as turn input (`turn_submitted`).
fn submit_turn(st: TuiState, prompt: String) -> (r: (TuiState, TuiCommand))
    ensures
        turn_submitted(st, r.0, prompt, r.1),
{
    let mut st = st;
    let images = take_images(&mut st);
    let input = submission_input(owned(prompt.as_str()), &images);
    let turn = clone_opt(&st.active_turn);
    match turn {
        Some(turn_id) => {
            st.awaiting = Awaiting::Steer { prompt, images };
            (st, TuiCommand::Steer { turn_id, input })
        },
        None => {
            st.awaiting = Awaiting::Start { prompt, images };
            (st, TuiCommand::StartTurn { input })
        },
    }
}

/// Gives the images of a failed request back and shows why
/// (`given_back`).
fn give_back(st: TuiState, images: Vec<String>, message: String) -> (r: TuiState)
    ensures
        given_back(st, r, images, message@),
{
    let mut st = st;
    let mut back = images;
    back.append(&mut st.pending_images);
    st.pending_images = back;
    st.status = Some(message);
    st.awaiting = Awaiting::Nothing;
    st
}

/// The settings after the server accepted `cmd` (`settings_applied`).
fn apply_settings(st: TuiState, cmd: SettingsCommand) -> (r: TuiState)
    ensures
        settings_applied(st, r, cmd),
{
    let mut st = st;
    st.awaiting = Awaiting::Nothing;
    match cmd {
        SettingsCommand::Plan => {
            let chosen = match &st.plan_mode {
                Some(pm) => Some((pm.model.clone(), clone_opt(&pm.effort))),
                None => None,
            };
            if let Some((model, effort)) = chosen {
                st.model = Some(model);
                st.effort = effort;
                st.status = Some(owned("plan mode"));
            }
        },
        SettingsCommand::Model { model, provider } => {
            st.model = Some(model);
            st.model_provider = provider;
            st.status = Some(owned("settings updated"));
        },
        SettingsCommand::Effort(v) => {
            st.effort = Some(v);
            st.status = Some(owned("settings updated"));
        },
        SettingsCommand::Permissions(v) => {
            st.permissions = Some(v);
            st.status = Some(owned("settings updated"));
        },
        SettingsCommand::ModelPicker => {},
    }
    st
}

/// Takes the request in flight out of the state.
fn take_awaiting(st: &mut TuiState) -> (r: Awaiting)
    ensures
        r == old(st).awaiting,
        *final(st) == (TuiState { awaiting: Awaiting::Nothing, ..*old(st) }),
{
    let mut aw = Awaiting::Nothing;
    std::mem::swap(&mut aw, &mut st.awaiting);
    aw
}

/// One step of the interactive loop (`tui_stepped`).
pub fn tui_step(state: TuiState, event: TuiEvent) -> (r: (TuiState, TuiCommand))
    ensures
        tui_stepped(state, r.0, event, r.1),
{
    let mut st = state;
    match event {
        TuiEvent::Quit => (st, TuiCommand::Quit),
        TuiEvent::PromptHistoryResult(res) => {
            if let Err(err) = res {
                st.status = Some(concat2("prompt history unavailable: ", err.as_str()));
            }
            (st, TuiCommand::Nothing)
        },
        TuiEvent::TurnChanged(t) => {
            st.active_turn = t;
            (st, TuiCommand::Nothing)
        },
        TuiEvent::ImagePasted(res) => {
            match res {
                Ok((path, w, h)) => {
                    let mut message = owned("image attached: ");
                    push_dec(&mut message, w as u64);
                    message.append("x");
                    push_dec(&mut message, h as u64);
                    st.pending_images.push(path);
                    st.status = Some(message);
                },
                Err(err) => {
                    st.status = Some(concat2("image paste failed: ", err.as_str()));
                },
            }
            (st, TuiCommand::Nothing)
        },
        TuiEvent::QueueEditResult { deleted, restored } => match deleted {
            Ok(d) => if d && restored {
                st.status = Some(owned("queued input editing"));
                (st, TuiCommand::Nothing)
            } else {
                st.status = Some(owned("queued input unavailable"));
                (st, TuiCommand::RefreshQueue)
            },
            Err(err) => {
                st.status = Some(concat2("queue edit failed: ", err.as_str()));
                (st, TuiCommand::Nothing)
            },
        },
        TuiEvent::SwitchResult(res) => {
            st.status = Some(
                match res {
                    Ok(_) => owned("switched agent"),
                    Err(err) => concat2("agent switch failed: ", err.as_str()),
                },
            );
            (st, TuiCommand::Nothing)
        },
        TuiEvent::Submit(prompt) => {
            if !st.connected {
                return (st, TuiCommand::Nothing);
            }
            let parsed = parse_settings_command(prompt.as_str());
            let ghost gp = parsed;
            let ghost o = st;
            let ghost gprompt = prompt;
            let r = match parsed {
                Some(Err(err)) => {
                    st.status = Some(owned(err.message()));
                    (st, TuiCommand::Nothing)
                },
                Some(Ok(cmd)) => submit_command(st, cmd),
                None => submit_turn(st, prompt),
            };
            assert(submitted(o, r.0, gprompt, gp, r.1));
            r
        },
        TuiEvent::Queue(prompt) => {
            if !st.connected {
                return (st, TuiCommand::Nothing);
            }
            let images = take_images(&mut st);
            let input = submission_input(owned(prompt.as_str()), &images);
            st.awaiting = Awaiting::Queue { prompt, images };
            (st, TuiCommand::Queue { input })
        },
        TuiEvent::SteerResult(res) => {
            let aw = take_awaiting(&mut st);
            match aw {
                Awaiting::Steer { prompt, images } => match res {
                    Ok(_) => {
                        st.status = Some(owned("steering"));
                        (st, persist_cmd(prompt))
                    },
                    Err(err) => {
                        let input = submission_input(owned(prompt.as_str()), &images);
                        st.awaiting = Awaiting::QueueAfterSteer { prompt, images, steer_error: err };
                        (st, TuiCommand::Queue { input })
                    },
                },
                other => {
                    st.awaiting = other;
                    (st, TuiCommand::Nothing)
                },
            }
        },
        TuiEvent::QueueResult(res) => {
            let aw = take_awaiting(&mut st);
            match aw {
                Awaiting::Queue { prompt, images } => match res {
                    Ok(_) => {
                        st.status = Some(owned("queued"));
                        (st, persist_cmd(prompt))
                    },
                    Err(q) => (give_back(st, images, q), TuiCommand::Nothing),
                },
                Awaiting::QueueAfterSteer { prompt, images, steer_error } => match res {
                    Ok(_) => {
                        st.status = Some(owned("queued"));
                        (st, persist_cmd(prompt))
                    },
                    Err(q) => {
                        let message = concat3(steer_error.as_str(), "; queue failed: ", q.as_str());
                        (give_back(st, images, message), TuiCommand::Nothing)
                    },
                },
                other => {
                    st.awaiting = other;
                    (st, TuiCommand::Nothing)
                },
            }
        },
        TuiEvent::StartResult(res) => {
            let aw = take_awaiting(&mut st);
            match aw {
                Awaiting::Start { prompt, images } => match res {
                    Ok(turn_id) => {
                        st.active_turn = Some(turn_id);
                        (st, persist_cmd(prompt))
                    },
                    Err(err) => (give_back(st, images, err), TuiCommand::Nothing),
                },
                other => {
                    st.awaiting = other;
                    (st, TuiCommand::Nothing)
                },
            }
        },
        TuiEvent::SettingsResult(res) => {
            let aw = take_awaiting(&mut st);
            match aw {
                Awaiting::Settings(cmd) => match res {
                    Ok(_) => (apply_settings(st, cmd), TuiCommand::Nothing),
                    Err(err) => {
                        st.status = Some(err);
                        (st, TuiCommand::Nothing)
                    },
                },
                other => {
                    st.awaiting = other;
                    (st, TuiCommand::Nothing)
                },
            }
        },
        TuiEvent::ModelsResult(res) => {
            let aw = take_awaiting(&mut st);
            match aw {
                Awaiting::Models => {
                    st.status = Some(
                        match res {
                            Ok(_) => owned("choose model"),
                            Err(err) => err,
                        },
                    );
                    (st, TuiCommand::Nothing)
                },
                other => {
                    st.awaiting = other;
                    (st, TuiCommand::Nothing)
                },
            }
        },
        TuiEvent::Interrupt => {
            if !st.connected {
                return (st, TuiCommand::Nothing);
            }
            match clone_opt(&st.active_turn) {
                Some(turn_id) => {
                    st.awaiting = Awaiting::Interrupt;
                    (st, TuiCommand::Interrupt { turn_id })
                },
                None => (st, TuiCommand::Quit),
            }
        },
        TuiEvent::InterruptResult(res) => {
            let aw = take_awaiting(&mut st);
            match aw {
                Awaiting::Interrupt => match res {
                    Ok(_) => {
                        st.status = Some(owned("interrupting"));
                        (st, TuiCommand::Nothing)
                    },
                    Err(chain) => {
                        if is_no_active_turn_error(&chain) {
                            (st, TuiCommand::Quit)
                        } else {
                            (st, TuiCommand::Fail(chain))
                        }
                    },
                },
                other => {
                    st.awaiting = other;
                    (st, TuiCommand::Nothing)
                },
            }
        },
        TuiEvent::Disconnected(tid) => {
            if !st.connected {
                return (st, TuiCommand::Nothing);
            }
            match tid {
                Ok(t) => {
                    let thread_id = t.clone();
                    st.connected = false;
                    st.reconnect_thread_id = Some(t);
                    st.reconnecting = true;
                    st.reconnect_failed = false;
                    (st, TuiCommand::Reconnect { thread_id })
                },
                Err(chain) => (st, TuiCommand::Fail(chain)),
            }
        },
        TuiEvent::ReconnectResult(res) => {
            if !st.reconnecting {
                return (st, TuiCommand::Nothing);
            }
            st.reconnecting = false;
            match res {
                Ok(profile) => {
                    st.connected = true;
                    st.reconnect_thread_id = None;
                    st.reconnect_failed = false;
                    if !st.permissions_fixed && profile.is_some() {
                        st.permissions = profile;
                    }
                    st.status = Some(owned("reconnected"));
                },
                Err(err) => {
                    st.reconnect_failed = true;
                    st.status = Some(concat2("reconnect failed: ", err.as_str()));
                },
            }
            (st, TuiCommand::Nothing)
        },
    }
}

} // verus!
