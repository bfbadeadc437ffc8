//! Whole conversations with the controller: which requests a port change
//! sends, and how it ends, for given replies. What is proved here holds of
//! every caller that sends each request [`UnifiApi::step`] gives and hands
//! each reply to [`UnifiApi::on_reply`], until the step is to stop.
//!
//! [`UnifiApi::step`]: crate::client::UnifiApi::step
//! [`UnifiApi::on_reply`]: crate::client::UnifiApi::on_reply

use vstd::prelude::*;
use crate::client::{
    api_after, change_after, change_outcome, change_request_of, login_request_of, pending,
    port_change, reported_message, OutcomeView, PhaseView, PortChangeView, StepView,
    UnifiApiView,
};
use crate::command::{planned, requested_change, selected_profile, PlanView, PortProfile};
use crate::error::{login_required_sentinel, ErrorCodeView};
use crate::settings::{config_of, first_missing, has_setting, ConfigError, SettingKey};
use crate::wire::{
    login_request, port_override, port_request, ReplyView, RequestView, UnifiApiReturnCode,
};

verus! {

/// A conversation as far as the replies carried it.
pub struct Conversation {
    /// The requests sent, in order. The last one is still unanswered where
    /// the replies ran out.
    pub requests: Seq<RequestView>,
    /// How the operation ended, if it did.
    pub outcome: Option<OutcomeView>,
    /// The client afterwards.
    pub api: UnifiApiView,
}

/// The conversation of a port change whose requests are answered by
/// `replies`, one after the other. Replies beyond its end are not looked
/// at.
pub open spec fn converse(
    api: UnifiApiView,
    change: PortChangeView,
    replies: Seq<ReplyView>,
) -> Conversation
    decreases replies.len(),
{
    match pending(api, change) {
        StepView::Done(outcome) => Conversation {
            requests: Seq::empty(),
            outcome: Some(outcome),
            api,
        },
        StepView::Send(request) => if replies.len() == 0 {
            Conversation { requests: seq![request], outcome: None, api }
        } else {
            let rest = converse(
                api_after(api, change.phase, replies[0]),
                change_after(change, replies[0]),
                replies.drop_first(),
            );
            Conversation { requests: seq![request] + rest.requests, ..rest }
        },
    }
}

/// Why a command failed.
pub enum Failure {
    /// The configuration could not be had.
    Config(ConfigError),
    /// The controller refused.
    Controller(ErrorCodeView),
}

/// A command as far as the replies carried it.
pub struct Run {
    /// The requests sent, in order.
    pub requests: Seq<RequestView>,
    /// How the command ended, if it did.
    pub exit: Option<Result<(), Failure>>,
}

/// The run of a command on given settings, with the controller answering
/// by `replies`.
pub open spec fn run(
    settings: Map<Seq<char>, Seq<char>>,
    port_number: int,
    profile: PortProfile,
    replies: Seq<ReplyView>,
) -> Run {
    match planned(settings, port_number, profile) {
        Err(error) => Run { requests: Seq::empty(), exit: Some(Err(Failure::Config(error))) },
        Ok(plan) => match plan.change {
            None => Run { requests: Seq::empty(), exit: Some(Ok(())) },
            Some(change) => {
                let conversation = converse(plan.api, change, replies);
                Run {
                    requests: conversation.requests,
                    exit: match conversation.outcome {
                        None => None,
                        Some(Ok(())) => Some(Ok(())),
                        Some(Err(code)) => Some(Err(Failure::Controller(code))),
                    },
                }
            },
        },
    }
}

/// A reply that reports the error `msg`.
pub open spec fn error_reply(msg: Seq<char>) -> ReplyView {
    ReplyView { rc: UnifiApiReturnCode::Error, msg: Some(msg) }
}

/// Whether a request is a login.
pub open spec fn is_login(request: RequestView) -> bool {
    request.method is Post
}

/// A command whose settings lack one required setting, and only that one,
/// fails with an error that names it, and sends nothing.
pub proof fn lemma_missing_setting_is_named(
    settings: Map<Seq<char>, Seq<char>>,
    key: SettingKey,
    port_number: int,
    profile: PortProfile,
    replies: Seq<ReplyView>,
)
    requires
        !has_setting(settings, key),
        forall|other: SettingKey| other != key ==> has_setting(settings, other),
    ensures
        planned(settings, port_number, profile) == Err::<PlanView, ConfigError>(
            ConfigError::MissingSetting(key),
        ),
        run(settings, port_number, profile, replies).requests == Seq::<RequestView>::empty(),
        run(settings, port_number, profile, replies).exit == Some(
            Err::<(), Failure>(Failure::Config(ConfigError::MissingSetting(key))),
        ),
{
    assert(key != SettingKey::BaseUrl ==> has_setting(settings, SettingKey::BaseUrl));
    assert(key != SettingKey::Login ==> has_setting(settings, SettingKey::Login));
    assert(key != SettingKey::Password ==> has_setting(settings, SettingKey::Password));
    assert(key != SettingKey::DeviceId ==> has_setting(settings, SettingKey::DeviceId));
    assert(key != SettingKey::PortProfileDown ==> has_setting(
        settings,
        SettingKey::PortProfileDown,
    ));
    assert(key != SettingKey::PortProfileUp ==> has_setting(settings, SettingKey::PortProfileUp));
}

/// A command that fails for its settings sends nothing, whichever settings
/// are missing.
pub proof fn lemma_config_failure_sends_nothing(
    settings: Map<Seq<char>, Seq<char>>,
    port_number: int,
    profile: PortProfile,
    replies: Seq<ReplyView>,
)
    requires
        first_missing(settings) is Some,
    ensures
        run(settings, port_number, profile, replies).requests == Seq::<RequestView>::empty(),
        run(settings, port_number, profile, replies).exit == Some(
            Err::<(), Failure>(Failure::Config(ConfigError::MissingSetting(first_missing(settings)->0))),
        ),
{
}

/// With a port number that is not positive a command sends nothing,
/// whatever the profile selector is, and it succeeds wherever its settings
/// are complete.
pub proof fn lemma_nonpositive_port_is_a_no_op(
    settings: Map<Seq<char>, Seq<char>>,
    port_number: int,
    profile: PortProfile,
    replies: Seq<ReplyView>,
)
    requires
        port_number <= 0,
    ensures
        run(settings, port_number, profile, replies).requests == Seq::<RequestView>::empty(),
        first_missing(settings) is None ==> run(settings, port_number, profile, replies).exit
            == Some(Ok::<(), Failure>(())),
{
}

/// The profile selector decides which profile the port is put under: the
/// one override that the change request carries names the port as given
/// and the profile for enabled ports with `Up`, the one for disabled ports
/// with `Down`.
pub proof fn lemma_profile_selects_payload(
    api: UnifiApiView,
    device_id: Seq<char>,
    port_number: int,
    profile: PortProfile,
)
    requires
        port_number > 0,
    ensures
        requested_change(api, device_id, port_number, profile) is Some,
        ({
            let change = requested_change(api, device_id, port_number, profile)->0;
            let request = change_request_of(api, change);
            &&& request.method is Put
            &&& request.body is PortOverrides
            &&& request.body->port_overrides.len() == 1
            &&& request.body->port_overrides[0] == port_override(
                port_number,
                selected_profile(api, profile),
            )
            &&& request.body->port_overrides[0].port_idx == port_number
            &&& profile is Up ==> request.body->port_overrides[0].portconf_id
                == api.port_enable_profile_id
            &&& profile is Down ==> request.body->port_overrides[0].portconf_id
                == api.port_disable_profile_id
        }),
{
}

/// Every request of a conversation is the client's login or the change
/// request of the port change: the same two requests throughout, whatever
/// the replies are.
pub proof fn lemma_requests_never_vary(
    api: UnifiApiView,
    change: PortChangeView,
    replies: Seq<ReplyView>,
    i: int,
)
    requires
        0 <= i < converse(api, change, replies).requests.len(),
    ensures
        converse(api, change, replies).requests[i] == login_request_of(api) || converse(
            api,
            change,
            replies,
        ).requests[i] == change_request_of(api, change),
    decreases replies.len(),
{
    if replies.len() > 0 && i > 0 {
        let next_api = api_after(api, change.phase, replies[0]);
        let next_change = change_after(change, replies[0]);
        lemma_requests_never_vary(next_api, next_change, replies.drop_first(), i - 1);
    }
}

/// The number of requests that a port change can still send from a phase.
pub open spec fn requests_left(phase: PhaseView) -> nat {
    match phase {
        PhaseView::Connecting => 4,
        PhaseView::Changing => 3,
        PhaseView::Reconnecting => 2,
        PhaseView::Retrying => 1,
        PhaseView::Finished(_) => 0,
    }
}

/// A conversation is bounded: from each phase no more requests are sent
/// than are left to it, and it has ended once that many replies came.
pub proof fn lemma_conversation_ends(
    api: UnifiApiView,
    change: PortChangeView,
    replies: Seq<ReplyView>,
)
    ensures
        converse(api, change, replies).requests.len() <= requests_left(change.phase),
        replies.len() >= requests_left(change.phase) ==> converse(
            api,
            change,
            replies,
        ).outcome is Some,
    decreases replies.len(),
{
    if replies.len() > 0 && !(change.phase is Finished) {
        let next_api = api_after(api, change.phase, replies[0]);
        let next_change = change_after(change, replies[0]);
        lemma_conversation_ends(next_api, next_change, replies.drop_first());
    }
}

/// The requests of a port change, from its beginning, are an initial part
/// of login, change, login, change where the client had no session, and of
/// change, login, change where it had one. So there is at most one login
/// to open the first session and at most one more to renew it, and the
/// change is asked for at most twice.
pub proof fn lemma_conversation_shape(
    api: UnifiApiView,
    device_id: Seq<char>,
    port_number: int,
    profile_id: Seq<char>,
    replies: Seq<ReplyView>,
)
    ensures
        ({
            let change = port_change(api, device_id, port_number, profile_id);
            let requests = converse(api, change, replies).requests;
            let login = login_request_of(api);
            let put = change_request_of(api, change);
            let whole = if api.session_established {
                seq![put, login, put]
            } else {
                seq![login, put, login, put]
            };
            &&& 1 <= requests.len() <= whole.len()
            &&& requests == whole.subrange(0, requests.len() as int)
        }),
{
    reveal_with_fuel(converse, 5);
    let change = port_change(api, device_id, port_number, profile_id);
    let requests = converse(api, change, replies).requests;
    let login = login_request_of(api);
    let put = change_request_of(api, change);
    let whole = if api.session_established {
        seq![put, login, put]
    } else {
        seq![login, put, login, put]
    };
    assert(requests =~= whole.subrange(0, requests.len() as int));
}

/// No change is asked for before a session was opened: with a client that
/// has none, the first request is the login, and a change request follows
/// only where that login succeeded.
pub proof fn lemma_session_precedes_change(
    api: UnifiApiView,
    device_id: Seq<char>,
    port_number: int,
    profile_id: Seq<char>,
    replies: Seq<ReplyView>,
    i: int,
)
    requires
        !api.session_established,
        0 <= i < converse(
            api,
            port_change(api, device_id, port_number, profile_id),
            replies,
        ).requests.len(),
    ensures
        ({
            let conversation = converse(
                api,
                port_change(api, device_id, port_number, profile_id),
                replies,
            );
            &&& conversation.requests[0] == login_request_of(api)
            &&& !is_login(conversation.requests[i]) ==> i >= 1 && replies.len() >= 1
                && replies[0].rc is Success
        }),
{
    reveal_with_fuel(converse, 5);
}

/// Where the controller answers a change request by asking for a login,
/// the client logs in once and then asks for the same change once more.
/// A failed login ends the operation with the controller's message. The
/// answer to the second change request is final: success, or its error,
/// also where that error asks for a login again.
pub proof fn lemma_login_required_retries_once(
    api: UnifiApiView,
    change: PortChangeView,
    replies: Seq<ReplyView>,
)
    requires
        change.phase is Changing,
        replies.len() >= 1,
        replies[0] == error_reply(login_required_sentinel()),
    ensures
        ({
            let conversation = converse(api, change, replies);
            let requests = conversation.requests;
            &&& requests.len() >= 2
            &&& requests[0] == change_request_of(api, change)
            &&& requests[1] == login_request_of(api)
            &&& replies.len() == 1 ==> requests.len() == 2 && conversation.outcome is None
            &&& replies.len() >= 2 && replies[1].rc is Error ==> {
                &&& requests.len() == 2
                &&& conversation.outcome == Some(
                    Err::<(), ErrorCodeView>(
                        ErrorCodeView::Unknown(reported_message(replies[1])),
                    ),
                )
            }
            &&& replies.len() >= 2 && replies[1].rc is Success ==> {
                &&& requests.len() == 3
                &&& requests[2] == requests[0]
                &&& conversation.api.session_established
            }
            &&& replies.len() == 2 && replies[1].rc is Success ==> conversation.outcome is None
            &&& replies.len() >= 3 && replies[1].rc is Success ==> {
                &&& conversation.outcome == Some(change_outcome(replies[2]))
                &&& replies[2].rc is Success ==> conversation.outcome == Some(
                    Ok::<(), ErrorCodeView>(()),
                )
                &&& replies[2] == error_reply(login_required_sentinel())
                    ==> conversation.outcome == Some(
                    Err::<(), ErrorCodeView>(ErrorCodeView::LoginRequired),
                )
            }
        }),
{
    reveal_with_fuel(converse, 5);
}

/// Where the controller answers a change request with an error that does
/// not ask for a login, nothing more is sent, no login either, and the
/// operation fails with the controller's message unchanged: with an empty
/// text where the error came without a message.
pub proof fn lemma_other_error_is_final(
    api: UnifiApiView,
    change: PortChangeView,
    replies: Seq<ReplyView>,
)
    requires
        change.phase is Changing || change.phase is Retrying,
        replies.len() >= 1,
        replies[0].rc is Error,
        replies[0].msg != Some(login_required_sentinel()),
    ensures
        converse(api, change, replies).requests == seq![change_request_of(api, change)],
        converse(api, change, replies).outcome == Some(
            Err::<(), ErrorCodeView>(ErrorCodeView::Unknown(reported_message(replies[0]))),
        ),
        converse(api, change, replies).api == api,
{
    reveal_with_fuel(converse, 3);
    assert(converse(api, change, replies).requests =~= seq![change_request_of(api, change)]);
}

/// An error that comes without a message ends a port change in whichever
/// phase it arrives: the request it answers is the last one sent, and the
/// operation fails with an unclassified error of empty text. The session
/// is as it was.
pub proof fn lemma_error_without_message_is_final(
    api: UnifiApiView,
    change: PortChangeView,
    replies: Seq<ReplyView>,
)
    requires
        !(change.phase is Finished),
        replies.len() >= 1,
        replies[0].rc is Error,
        replies[0].msg is None,
    ensures
        converse(api, change, replies).requests.len() == 1,
        pending(api, change) == StepView::Send(converse(api, change, replies).requests[0]),
        converse(api, change, replies).outcome == Some(
            Err::<(), ErrorCodeView>(ErrorCodeView::Unknown(Seq::empty())),
        ),
        converse(api, change, replies).api == api,
{
    reveal_with_fuel(converse, 3);
}

/// The first command of a client whose settings are complete, for a
/// positive port number: where the controller accepts the login and the
/// change, exactly these two requests are sent, the change for the device
/// of the settings with the selected profile, and the command succeeds.
pub proof fn lemma_accepted_command_succeeds(
    settings: Map<Seq<char>, Seq<char>>,
    port_number: int,
    profile: PortProfile,
    replies: Seq<ReplyView>,
)
    requires
        first_missing(settings) is None,
        port_number > 0,
        replies.len() >= 2,
        replies[0].rc is Success,
        replies[1].rc is Success,
    ensures
        ({
            let config = config_of(settings);
            let profile_id = match profile {
                PortProfile::Up => config.port_profile_up,
                PortProfile::Down => config.port_profile_down,
            };
            &&& run(settings, port_number, profile, replies).requests == seq![
                login_request(config.base_url, config.login, config.password),
                port_request(config.base_url, config.device_id, port_number, profile_id),
            ]
            &&& run(settings, port_number, profile, replies).exit == Some(Ok::<(), Failure>(()))
        }),
{
    reveal_with_fuel(converse, 4);
    let config = config_of(settings);
    let profile_id = match profile {
        PortProfile::Up => config.port_profile_up,
        PortProfile::Down => config.port_profile_down,
    };
    assert(run(settings, port_number, profile, replies).requests =~= seq![
        login_request(config.base_url, config.login, config.password),
        port_request(config.base_url, config.device_id, port_number, profile_id),
    ]);
}

} // verus!
