//! The messages exchanged with the controller: the two requests the client
//! sends and the envelope every reply comes in.

use vstd::prelude::*;
use vstd::string::*;

verus! {

/// The desired configuration of one port, as sent to the controller.
#[derive(Debug, Clone, PartialEq, Eq)]
pub struct PortOverride {
    pub port_idx: i32,
    pub poe_mode: String,
    pub portconf_id: String,
    pub port_security_mac_address: Vec<String>,
    pub stp_port_mode: bool,
    pub autoneg: bool,
    pub port_security_enabled: bool,
}

/// The mathematical value of a [`PortOverride`].
pub struct PortOverrideView {
    pub port_idx: int,
    pub poe_mode: Seq<char>,
    pub portconf_id: Seq<char>,
    pub port_security_mac_address: Seq<Seq<char>>,
    pub stp_port_mode: bool,
    pub autoneg: bool,
    pub port_security_enabled: bool,
}

impl View for PortOverride {
    type V = PortOverrideView;

    open spec fn view(&self) -> PortOverrideView {
        PortOverrideView {
            port_idx: self.port_idx as int,
            poe_mode: self.poe_mode@,
            portconf_id: self.portconf_id@,
            port_security_mac_address: self.port_security_mac_address@.map_values(
                |address: String| address@,
            ),
            stp_port_mode: self.stp_port_mode,
            autoneg: self.autoneg,
            port_security_enabled: self.port_security_enabled,
        }
    }
}

/// The override that puts port `port_number` under the profile
/// `profile_id`: power over Ethernet on automatic, no address allow-list,
/// spanning tree and autonegotiation on, port security off.
pub open spec fn port_override(port_number: int, profile_id: Seq<char>) -> PortOverrideView {
    PortOverrideView {
        port_idx: port_number,
        poe_mode: "auto"@,
        portconf_id: profile_id,
        port_security_mac_address: Seq::empty(),
        stp_port_mode: true,
        autoneg: true,
        port_security_enabled: false,
    }
}

impl PortOverride {
    /// Builds the override for one port and one profile.
    pub fn new(port_number: i32, profile_id: &str) -> (record: PortOverride)
        ensures
            record@ == port_override(port_number as int, profile_id@),
    {
        let record = PortOverride {
            port_idx: port_number,
            poe_mode: "auto".to_owned(),
            portconf_id: profile_id.to_owned(),
            port_security_mac_address: Vec::new(),
            stp_port_mode: true,
            autoneg: true,
            port_security_enabled: false,
        };
        assert(record@.port_security_mac_address =~= Seq::empty());
        record
    }
}

/// The HTTP method of a request.
#[derive(Debug, Clone, Copy, PartialEq, Eq, Structural)]
pub enum HttpMethod {
    Post,
    Put,
}

/// What a request carries. Each variant is sent as one JSON object.
#[derive(Debug, Clone, PartialEq, Eq)]
pub enum RequestBody {
    /// `{"username": .., "password": ..}`
    Login { username: String, password: String },
    /// `{"port_overrides": [..]}`
    PortOverrides { port_overrides: Vec<PortOverride> },
}

/// The mathematical value of a [`RequestBody`].
pub enum RequestBodyView {
    Login { username: Seq<char>, password: Seq<char> },
    PortOverrides { port_overrides: Seq<PortOverrideView> },
}

impl View for RequestBody {
    type V = RequestBodyView;

    open spec fn view(&self) -> RequestBodyView {
        match self {
            RequestBody::Login { username, password } => RequestBodyView::Login {
                username: username@,
                password: password@,
            },
            RequestBody::PortOverrides { port_overrides } => RequestBodyView::PortOverrides {
                port_overrides: port_overrides@.map_values(|record: PortOverride| record@),
            },
        }
    }
}

/// One HTTP request for the caller to perform.
#[derive(Debug, Clone, PartialEq, Eq)]
pub struct Request {
    pub method: HttpMethod,
    pub url: String,
    pub body: RequestBody,
}

/// The mathematical value of a [`Request`].
pub struct RequestView {
    pub method: HttpMethod,
    pub url: Seq<char>,
    pub body: RequestBodyView,
}

impl View for Request {
    type V = RequestView;

    open spec fn view(&self) -> RequestView {
        RequestView { method: self.method, url: self.url@, body: self.body@ }
    }
}

/// Where credentials are posted.
pub open spec fn login_url(base_url: Seq<char>) -> Seq<char> {
    base_url + "/api/login"@
}

/// The REST resource of one device.
pub open spec fn device_url(base_url: Seq<char>, device_id: Seq<char>) -> Seq<char> {
    base_url + "/api/s/default/rest/device/"@ + device_id
}

/// The request that opens a session.
pub open spec fn login_request(
    base_url: Seq<char>,
    username: Seq<char>,
    password: Seq<char>,
) -> RequestView {
    RequestView {
        method: HttpMethod::Post,
        url: login_url(base_url),
        body: RequestBodyView::Login { username, password },
    }
}

/// The request that puts one port of a device under a profile: a list of
/// exactly one override.
pub open spec fn port_request(
    base_url: Seq<char>,
    device_id: Seq<char>,
    port_number: int,
    profile_id: Seq<char>,
) -> RequestView {
    RequestView {
        method: HttpMethod::Put,
        url: device_url(base_url, device_id),
        body: RequestBodyView::PortOverrides {
            port_overrides: seq![port_override(port_number, profile_id)],
        },
    }
}

impl Request {
    /// Builds the login request.
    pub fn login(base_url: &str, username: &str, password: &str) -> (request: Request)
        ensures
            request@ == login_request(base_url@, username@, password@),
    {
        Request {
            method: HttpMethod::Post,
            url: base_url.to_owned().concat("/api/login"),
            body: RequestBody::Login {
                username: username.to_owned(),
                password: password.to_owned(),
            },
        }
    }

    /// Builds the request that changes one port.
    pub fn port_overrides(
        base_url: &str,
        device_id: &str,
        port_number: i32,
        profile_id: &str,
    ) -> (request: Request)
        ensures
            request@ == port_request(base_url@, device_id@, port_number as int, profile_id@),
    {
        let mut port_overrides: Vec<PortOverride> = Vec::new();
        port_overrides.push(PortOverride::new(port_number, profile_id));
        let request = Request {
            method: HttpMethod::Put,
            url: base_url.to_owned().concat("/api/s/default/rest/device/").concat(device_id),
            body: RequestBody::PortOverrides { port_overrides },
        };
        assert(request@.body->port_overrides =~= seq![
            port_override(port_number as int, profile_id@),
        ]);
        request
    }
}

/// The result code of a reply.
#[derive(Debug, Clone, Copy, PartialEq, Eq, Structural)]
pub enum UnifiApiReturnCode {
    /// `"ok"` on the wire.
    Success,
    /// `"error"` on the wire.
    Error,
}

/// The `meta` object of a reply: the result code and, with an error, the
/// message that says what went wrong, if the controller gave one.
#[derive(Debug, Clone, PartialEq, Eq)]
pub struct UnifiApiMetaResponse {
    pub rc: UnifiApiReturnCode,
    pub msg: Option<String>,
}

/// The envelope of every reply of the controller.
#[derive(Debug, Clone, PartialEq, Eq)]
pub struct UnifiApiResponse {
    pub meta: UnifiApiMetaResponse,
}

/// The mathematical value of a reply.
pub struct ReplyView {
    pub rc: UnifiApiReturnCode,
    pub msg: Option<Seq<char>>,
}

impl View for UnifiApiMetaResponse {
    type V = ReplyView;

    open spec fn view(&self) -> ReplyView {
        ReplyView {
            rc: self.rc,
            msg: match self.msg {
                Some(text) => Some(text@),
                None => None,
            },
        }
    }
}

impl View for UnifiApiResponse {
    type V = ReplyView;

    open spec fn view(&self) -> ReplyView {
        self.meta@
    }
}

} // verus!
