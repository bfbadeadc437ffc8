//! The command: from the settings, a port number and a profile selector to
//! the one port change that is asked for, if any.

use vstd::prelude::*;
use crate::client::{port_change, PortChange, PortChangeView, UnifiApi, UnifiApiView};
use crate::settings::{
    load_result, ConfigError, ControllerConfig, ControllerConfigView, Settings,
};

verus! {

/// The profile a port is to be put under.
#[derive(Debug, Clone, Copy, PartialEq, Eq, Structural)]
pub enum PortProfile {
    /// The profile for an enabled port.
    Up,
    /// The profile for a disabled port.
    Down,
}

/// What a command leads to: the client, and the port change to carry out
/// with it. Without a change there is nothing to send.
#[derive(Debug)]
pub struct Plan {
    pub api: UnifiApi,
    pub change: Option<PortChange>,
}

/// The mathematical value of a [`Plan`].
pub struct PlanView {
    pub api: UnifiApiView,
    pub change: Option<PortChangeView>,
}

impl View for Plan {
    type V = PlanView;

    open spec fn view(&self) -> PlanView {
        PlanView {
            api: self.api@,
            change: match self.change {
                Some(change) => Some(change@),
                None => None,
            },
        }
    }
}

/// The client that a configuration describes: it has both profiles and no
/// session yet.
pub open spec fn client_of(config: ControllerConfigView) -> UnifiApiView {
    UnifiApiView {
        base_url: config.base_url,
        login: config.login,
        password: config.password,
        port_enable_profile_id: config.port_profile_up,
        port_disable_profile_id: config.port_profile_down,
        session_established: false,
    }
}

/// The profile identifier that a selector stands for with a client.
pub open spec fn selected_profile(api: UnifiApiView, profile: PortProfile) -> Seq<char> {
    match profile {
        PortProfile::Up => api.port_enable_profile_id,
        PortProfile::Down => api.port_disable_profile_id,
    }
}

/// The port change that a command asks of a client: none unless the port
/// number is positive.
pub open spec fn requested_change(
    api: UnifiApiView,
    device_id: Seq<char>,
    port_number: int,
    profile: PortProfile,
) -> Option<PortChangeView> {
    if port_number > 0 {
        Some(port_change(api, device_id, port_number, selected_profile(api, profile)))
    } else {
        None
    }
}

/// What a command leads to: the failure to load the configuration, or the
/// client for it and the change asked of it.
pub open spec fn planned(
    settings: Map<Seq<char>, Seq<char>>,
    port_number: int,
    profile: PortProfile,
) -> Result<PlanView, ConfigError> {
    match load_result(settings) {
        Err(error) => Err(error),
        Ok(config) => Ok(
            PlanView {
                api: client_of(config),
                change: requested_change(client_of(config), config.device_id, port_number, profile),
            },
        ),
    }
}

/// The value of the result of planning.
pub open spec fn plan_view(plan: Result<Plan, ConfigError>) -> Result<PlanView, ConfigError> {
    match plan {
        Ok(plan) => Ok(plan@),
        Err(error) => Err(error),
    }
}

/// The client for a configuration.
pub fn client_for(config: &ControllerConfig) -> (api: UnifiApi)
    ensures
        api@ == client_of(config@),
{
    let mut api = UnifiApi::new(
        config.base_url.as_str(),
        config.login.as_str(),
        config.password.as_str(),
    );
    api.set_port_disable_profile_id(config.port_profile_down.clone());
    api.set_port_enable_profile_id(config.port_profile_up.clone());
    api
}

/// Begins the port change that a command asks for. A port number that is
/// not positive asks for nothing.
pub fn request_change(
    api: &UnifiApi,
    device_id: &str,
    port_number: i32,
    profile: PortProfile,
) -> (change: Option<PortChange>)
    ensures
        match change {
            Some(change) => Some(change@),
            None => None,
        } == requested_change(api@, device_id@, port_number as int, profile),
{
    if port_number > 0 {
        Some(
            match profile {
                PortProfile::Up => api.enable_port(device_id, port_number),
                PortProfile::Down => api.disable_port(device_id, port_number),
            },
        )
    } else {
        None
    }
}

/// Turns the settings and the arguments of a command into the client and
/// the port change to carry out. The settings are read first: a missing
/// one fails the command whatever the port number is.
pub fn plan(
    settings: &Settings,
    port_number: i32,
    profile: PortProfile,
) -> (plan: Result<Plan, ConfigError>)
    ensures
        plan_view(plan) == planned(settings@, port_number as int, profile),
{
    let config = match ControllerConfig::load(settings) {
        Ok(config) => config,
        Err(error) => return Err(error),
    };
    let api = client_for(&config);
    let change = request_change(&api, config.device_id.as_str(), port_number, profile);
    Ok(Plan { api, change })
}

} // verus!
