//! The decisions of the terminal runtime around the conversation: which
//! model routes are accepted, how a prompt becomes turn input, what a
//! finished run reports, which errors mean there is no turn to act on, and
//! the status shown after copying or exporting.
use vstd::prelude::*;

pub mod step;

use crate::projection::{last_answer, ConversationProjection};
use crate::protocol::UserInput;
use crate::text::{contains_seq, contains_text, lower_ascii, owned, to_ascii_lowercase, trim, trimmed};

verus! {

/// The outcome of a non-interactive run.
pub struct ExecResult {
    pub thread_id: String,
    pub turn_id: String,
    pub status: String,
    pub output: String,
}

/// The result of a run whose turn finished: the conversation's status and
/// its final answer.
pub fn exec_result(thread_id: String, turn_id: String, projection: &ConversationProjection) -> (r:
    ExecResult)
    ensures
        r.thread_id@ == thread_id@,
        r.turn_id@ == turn_id@,
        r.status@ == projection.status_text(),
        r.output@ == last_answer(
            projection.entries_view(),
            projection.phases_view(),
            projection.entries_view().len() as int,
        ),
{
    ExecResult { thread_id, turn_id, status: projection.status(), output: projection.final_answer() }
}

/// Why a model route is refused.
#[derive(Clone, Copy, Debug, PartialEq, Eq, Structural)]
pub enum RouteError {
    /// A model and a provider were given and one of them is blank.
    Empty,
    /// Only one of the model and the provider was given.
    Unpaired,
}

impl RouteError {
    pub open spec fn message_text(self) -> Seq<char> {
        match self {
            RouteError::Empty => "model and provider must not be empty"@,
            RouteError::Unpaired => "--model and --provider must be specified together"@,
        }
    }

    /// The message shown for the error.
    pub fn message(&self) -> (r: &'static str)
        ensures
            r@ == self.message_text(),
    {
        match self {
            RouteError::Empty => "model and provider must not be empty",
            RouteError::Unpaired => "--model and --provider must be specified together",
        }
    }
}

/// Which model routes are accepted: neither a model nor a provider, or
/// both, neither blank.
pub open spec fn route_check(model: Option<Seq<char>>, provider: Option<Seq<char>>) -> Result<
    (),
    RouteError,
> {
    match (model, provider) {
        (Some(m), Some(p)) => if trim(m).len() == 0 || trim(p).len() == 0 {
            Err(RouteError::Empty)
        } else {
            Ok(())
        },
        (Some(_), None) => Err(RouteError::Unpaired),
        (None, Some(_)) => Err(RouteError::Unpaired),
        (None, None) => Ok(()),
    }
}

/// A route is accepted exactly when the model and the provider are both
/// left out, or both given and neither is blank; giving only one of them is
/// refused as unpaired, and giving both with one blank as empty.
pub proof fn lemma_route_accepted_when_paired(model: Option<Seq<char>>, provider: Option<Seq<char>>)
    ensures
        (route_check(model, provider) is Ok) == ((model is None && provider is None) || (model is Some
            && provider is Some && trim(model.unwrap()).len() > 0 && trim(provider.unwrap()).len()
            > 0)),
        (model is Some) != (provider is Some) ==> route_check(model, provider) == Err::<(), RouteError>(
            RouteError::Unpaired,
        ),
        route_check(model, provider) == Err::<(), RouteError>(RouteError::Empty) ==> model is Some
            && provider is Some,
{
}

pub open spec fn opt_view(v: Option<&str>) -> Option<Seq<char>> {
    match v {
        Some(s) => Some(s@),
        None => None,
    }
}

/// Checks a model route (`route_check`).
pub fn validate_model_route(model: Option<&str>, provider: Option<&str>) -> (r: Result<(), RouteError>)
    ensures
        r == route_check(opt_view(model), opt_view(provider)),
{
    match (model, provider) {
        (Some(m), Some(p)) => {
            if trimmed(m).as_str().is_empty() || trimmed(p).as_str().is_empty() {
                Err(RouteError::Empty)
            } else {
                Ok(())
            }
        },
        (Some(_), None) => Err(RouteError::Unpaired),
        (None, Some(_)) => Err(RouteError::Unpaired),
        (None, None) => Ok(()),
    }
}

/// Whether an error, given by the messages of its chain of causes, says
/// that there is no active turn.
pub open spec fn no_active_turn(chain: Seq<Seq<char>>) -> bool {
    exists|i: int|
        0 <= i < chain.len() && (contains_seq(lower_ascii(#[trigger] chain[i]), "no active turn"@)
            || contains_seq(lower_ascii(chain[i]), "turn_not_active"@))
}

/// Whether an error says there is no active turn (`no_active_turn`).
pub fn is_no_active_turn_error(chain: &Vec<String>) -> (r: bool)
    ensures
        r == no_active_turn(chain@.map_values(|s: String| s@)),
{
    let ghost c = chain@.map_values(|s: String| s@);
    let mut i: usize = 0;
    while i < chain.len()
        invariant
            i <= chain.len(),
            c == chain@.map_values(|s: String| s@),
            forall|j: int|
                0 <= j < i ==> !(contains_seq(lower_ascii(#[trigger] c[j]), "no active turn"@)
                    || contains_seq(lower_ascii(c[j]), "turn_not_active"@)),
        decreases chain.len() - i,
    {
        let message = to_ascii_lowercase(chain[i].as_str());
        if contains_text(message.as_str(), "no active turn") || contains_text(
            message.as_str(),
            "turn_not_active",
        ) {
            assert(c[i as int] == chain@[i as int]@);
            return true;
        }
        i = i + 1;
    }
    false
}

/// The input of a turn: the attached images in order, then the prompt
/// unless it is empty.
pub open spec fn submission_spec(prompt: Seq<char>, images: Seq<String>, input: Seq<UserInput>) -> bool {
    let n = images.len();
    &&& input.len() == if prompt.len() > 0 {
        n + 1
    } else {
        n
    }
    &&& forall|i: int|
        0 <= i < n ==> (#[trigger] input[i] matches UserInput::LocalImage { path } && path@
            == images[i]@)
    &&& prompt.len() > 0 ==> (input[n as int] matches UserInput::Text(t) && t@ == prompt)
}

/// The input of a turn (`submission_spec`).
pub fn submission_input(prompt: String, images: &Vec<String>) -> (r: Vec<UserInput>)
    ensures
        submission_spec(prompt@, images@, r@),
{
    let mut input: Vec<UserInput> = Vec::new();
    let mut i: usize = 0;
    while i < images.len()
        invariant
            i <= images.len(),
            input@.len() == i,
            forall|k: int|
                0 <= k < i ==> (#[trigger] input@[k] matches UserInput::LocalImage { path } && path@
                    == images@[k]@),
        decreases images.len() - i,
    {
        input.push(UserInput::LocalImage { path: owned(images[i].as_str()) });
        i = i + 1;
    }
    if !prompt.as_str().is_empty() {
        input.push(UserInput::Text(prompt));
    }
    input
}

/// The projection after its status was set to `s`: the status replaced,
/// the reasoning heading cleared, everything else kept.
pub open spec fn status_set(old: ConversationProjection, new: ConversationProjection, s: Seq<char>) -> bool {
    &&& new.status_view() == s
    &&& new.header_view() is None
    &&& new.entries_view() == old.entries_view()
    &&& new.boundaries_view() == old.boundaries_view()
    &&& new.active_turn_view() == old.active_turn_view()
    &&& new.hooks_view() == old.hooks_view()
    &&& new.phases_view() == old.phases_view()
    &&& new.review_view() == old.review_view()
    &&& new.closed_view() == old.closed_view()
}

/// The final answer of a conversation.
pub open spec fn answer_of(p: ConversationProjection) -> Seq<char> {
    last_answer(p.entries_view(), p.phases_view(), p.entries_view().len() as int)
}

/// The status after a copy: done, or why it failed.
pub open spec fn copy_status<L>(res: Result<L, String>) -> Seq<char> {
    match res {
        Ok(_) => "copied last response"@,
        Err(e) => "copy failed: "@ + e@,
    }
}

/// Copies the final answer with `copy` and says how it went in the status;
/// with no answer, says so and copies nothing. What `copy` handed back on
/// success (a clipboard lease) is returned.
pub fn copy_last_response_with<L, F: FnOnce(String) -> Result<L, String>>(
    projection: &mut ConversationProjection,
    copy: F,
) -> (r: Option<L>)
    requires
        forall|s: String| #[trigger] copy.requires((s,)),
    ensures
        answer_of(*old(projection)).len() == 0 ==> r is None && status_set(
            *old(projection),
            *final(projection),
            "no agent response to copy"@,
        ),
        answer_of(*old(projection)).len() > 0 ==> exists|s: String, res: Result<L, String>|
            s@ == answer_of(*old(projection)) && #[trigger] copy.ensures((s,), res) && status_set(
                *old(projection),
                *final(projection),
                copy_status(res),
            ) && r == match res {
                Ok(l) => Some(l),
                Err(_) => None,
            },
{
    let response = projection.final_answer();
    if response.as_str().is_empty() {
        projection.set_status("no agent response to copy");
        return None;
    }
    let res = copy(response);
    match res {
        Ok(lease) => {
            projection.set_status("copied last response");
            Some(lease)
        },
        Err(error) => {
            let mut status = owned("copy failed: ");
            status.append(error.as_str());
            projection.set_status(status.as_str());
            None
        },
    }
}

/// Exports the rendered conversation: to the file at `path` with `write`
/// (which answers the path written), or else to the clipboard with `copy`;
/// the status says how it went. Nothing is written when rendering failed.
pub fn export_transcript_with<L, W: FnOnce(String, String) -> Result<String, String>, C: FnOnce(
    String,
) -> Result<L, String>>(
    projection: &mut ConversationProjection,
    rendered: Result<String, String>,
    path: Option<String>,
    write: W,
    copy: C,
) -> (r: Option<L>)
    requires
        forall|p: String, m: String| #[trigger] write.requires((p, m)),
        forall|m: String| #[trigger] copy.requires((m,)),
    ensures
        rendered is Err ==> r is None && status_set(
            *old(projection),
            *final(projection),
            "export failed: "@ + rendered->Err_0@,
        ),
        rendered is Ok && path is Some ==> r is None && exists|p: String, m: String, res: Result<String, String>|
            p@ == path->Some_0@ && m@ == rendered->Ok_0@ && #[trigger] write.ensures((p, m), res)
                && status_set(
                *old(projection),
                *final(projection),
                match res {
                    Ok(w) => "exported conversation to "@ + w@,
                    Err(e) => "export failed: "@ + e@,
                },
            ),
        rendered is Ok && path is None ==> exists|m: String, res: Result<L, String>|
            m@ == rendered->Ok_0@ && #[trigger] copy.ensures((m,), res) && status_set(
                *old(projection),
                *final(projection),
                match res {
                    Ok(_) => "exported conversation to clipboard"@,
                    Err(e) => "export failed: "@ + e@,
                },
            ) && r == match res {
                Ok(l) => Some(l),
                Err(_) => None,
            },
{
    let markdown = match rendered {
        Ok(m) => m,
        Err(error) => {
            let mut status = owned("export failed: ");
            status.append(error.as_str());
            projection.set_status(status.as_str());
            return None;
        },
    };
    match path {
        Some(p) => {
            let res = write(p, markdown);
            match res {
                Ok(written) => {
                    let mut status = owned("exported conversation to ");
                    status.append(written.as_str());
                    projection.set_status(status.as_str());
                },
                Err(error) => {
                    let mut status = owned("export failed: ");
                    status.append(error.as_str());
                    projection.set_status(status.as_str());
                },
            }
            None
        },
        None => {
            let res = copy(markdown);
            match res {
                Ok(lease) => {
                    projection.set_status("exported conversation to clipboard");
                    Some(lease)
                },
                Err(error) => {
                    let mut status = owned("export failed: ");
                    status.append(error.as_str());
                    projection.set_status(status.as_str());
                    None
                },
            }
        },
    }
}

} // verus!
