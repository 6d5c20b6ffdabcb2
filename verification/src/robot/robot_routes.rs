//! What the robot posts: telemetry, events, and where it can be reached.

use crate::clock::{wall_clock, Timestamp};
use crate::error::{ControlError, ControlErrorView};
use crate::robot::client_routes::{dispatched, refusal_view};
use crate::robot::models::{RobotEvent, RobotState, RobotStateView};
use crate::robot::state::{SharedRobotState, StoreView};
use crate::robot::{process_queue_at, DispatchOutcome};
use crate::text::{join_text, constant_time_eq, decimal, decimal_text};
use vstd::prelude::*;
use vstd::string::StringExecFns;

verus! {

/// The body of a registration: the port the robot listens on.
#[derive(Debug)]
pub struct RobotRegistration {
    port: u16,
}

impl RobotRegistration {
    pub fn new(port: u16) -> (r: RobotRegistration)
        ensures
            r.port_number() == port,
    {
        RobotRegistration { port }
    }

    pub closed spec fn port_number(&self) -> u16 {
        self.port
    }

    pub fn port(&self) -> (p: u16)
        ensures
            p == self.port_number(),
    {
        self.port
    }
}

/// The view of an optional key.
pub open spec fn key_view(k: Option<&str>) -> Option<Seq<char>> {
    match k {
        Some(s) => Some(s@),
        None => None,
    }
}

/// Why a request of the robot is refused, if it is: it must carry the
/// configured key.
pub open spec fn api_key_refusal(presented: Option<Seq<char>>, expected: Seq<char>) -> Option<
    ControlErrorView,
> {
    match presented {
        None => Some(ControlErrorView::MissingApiKey),
        Some(k) => if k == expected {
            None
        } else {
            Some(ControlErrorView::InvalidApiKey)
        },
    }
}

/// Checks the key of a request of the robot against the configured key, in
/// constant time.
pub fn check_api_key(presented: Option<&str>, expected: &str) -> (checked: Result<(), ControlError>)
    ensures
        refusal_view(checked) == api_key_refusal(key_view(presented), expected@),
{
    match presented {
        None => Err(ControlError::MissingApiKey),
        Some(k) => {
            if constant_time_eq(k, expected) {
                Ok(())
            } else {
                Err(ControlError::InvalidApiKey)
            }
        },
    }
}

/// Where the robot is reached: `http://`, the address, a colon, the port.
pub open spec fn robot_url_text(ip: Seq<char>, port: nat) -> Seq<char> {
    "http://"@ + ip + ":"@ + decimal(port)
}

/// The URL under which a robot at `ip` that listens on `port` is reached.
pub fn robot_url(ip: &str, port: u16) -> (url: String)
    ensures
        url@ == robot_url_text(ip@, port as nat),
{
    let mut url = join_text("http://", ip);
    url.append(":");
    let digits = decimal_text(port as u64);
    url.append(digits.as_str());
    url
}

/// A forwarded-address header as the HTTP layer read it.
#[derive(Debug)]
pub enum ForwardedAddress {
    /// The header is missing, or is not text.
    Absent,
    /// The header is there, but what it holds is no IP address.
    Unreadable,
    /// The address the header gives.
    Address(String),
}

pub open spec fn chosen_address(
    real_ip: ForwardedAddress,
    forwarded_for: ForwardedAddress,
    peer: Seq<char>,
) -> Seq<char> {
    match real_ip {
        ForwardedAddress::Address(a) => a@,
        ForwardedAddress::Unreadable => peer,
        ForwardedAddress::Absent => match forwarded_for {
            ForwardedAddress::Address(a) => a@,
            _ => peer,
        },
    }
}

/// The address a registration comes from: what `X-Real-IP` gives; without
/// that header, the first address of `X-Forwarded-For`; and the peer's
/// address where the header that was looked at holds no address.
pub fn client_address(real_ip: ForwardedAddress, forwarded_for: ForwardedAddress, peer: String) -> (ip:
    String)
    ensures
        ip@ == chosen_address(real_ip, forwarded_for, peer@),
{
    match real_ip {
        ForwardedAddress::Address(a) => a,
        ForwardedAddress::Unreadable => peer,
        ForwardedAddress::Absent => match forwarded_for {
            ForwardedAddress::Address(a) => a,
            _ => peer,
        },
    }
}

impl StoreView {
    /// The store after telemetry arrived at `now`, before the dispatcher
    /// runs: the snapshot replaces the old one whole, the robot counts as
    /// seen at `now`, and an active route is complete if the robot is idle.
    pub open spec fn with_telemetry(self, payload: RobotStateView, now: int) -> StoreView {
        StoreView {
            telemetry: Some(payload),
            last_update: Some(now),
            active_route: if payload.is_idle() {
                None
            } else {
                self.active_route
            },
            ..self
        }
    }

    /// The store after the robot posted its state at `now`, given how the
    /// dispatch that follows ended.
    pub open spec fn after_state_post(
        self,
        refused: bool,
        payload: RobotStateView,
        now: int,
        delivered: bool,
    ) -> StoreView {
        if refused {
            self
        } else {
            self.with_telemetry(payload, now).after_dispatch(now, delivered)
        }
    }

    /// The store with the robot's URL set.
    pub open spec fn with_robot_url(self, url: Seq<char>) -> StoreView {
        StoreView { robot_url: Some(url), ..self }
    }
}

impl SharedRobotState {
    /// Records telemetry that arrived at `now` and detects the completion of
    /// the active route. The dispatcher is not run.
    pub fn record_telemetry_at(&mut self, payload: RobotState, now: Timestamp)
        ensures
            final(self)@ == old(self)@.with_telemetry(payload@, now@),
    {
        if self.active_route.is_some() && payload.is_idle() {
            self.active_route = None;
        }
        self.current_state = Some(payload);
        self.last_state_update = Some(now);
    }

    /// Records where the robot is reached. The URL is written only when it
    /// differs from the one on record; the result says whether it did.
    pub fn set_robot_url(&mut self, url: String) -> (changed: bool)
        ensures
            changed == (old(self)@.robot_url != Some(url@)),
            final(self)@ == old(self)@.with_robot_url(url@),
    {
        let same = match &self.robot_url {
            Some(current) => *current == url,
            None => false,
        };
        if !same {
            self.robot_url = Some(url);
        }
        !same
    }
}

/// Takes a state post of the robot at `now`. With the right key the
/// telemetry is recorded, an active route that the robot finished is
/// cleared, and the dispatcher runs. With a wrong key or none the store stays
/// as it is.
pub fn update_robot_state_at(
    state: &mut SharedRobotState,
    api_key: Option<&str>,
    expected_key: &str,
    payload: RobotState,
    now: Timestamp,
) -> (posted: Result<DispatchOutcome, ControlError>)
    ensures
        refusal_view(posted) == api_key_refusal(key_view(api_key), expected_key@),
        posted matches Ok(outcome) ==> (outcome is NotReady <==> !old(state)@.with_telemetry(
            payload@,
            now@,
        ).dispatch_ready(now@)),
        final(state)@ == old(state)@.after_state_post(
            posted is Err,
            payload@,
            now@,
            dispatched(posted),
        ),
{
    match check_api_key(api_key, expected_key) {
        Err(e) => Err(e),
        Ok(()) => {
            state.record_telemetry_at(payload, now);
            let outcome = process_queue_at(state, now);
            Ok(outcome)
        },
    }
}

/// Takes a state post of the robot by the wall clock.
pub fn update_robot_state(
    state: &mut SharedRobotState,
    api_key: Option<&str>,
    expected_key: &str,
    payload: RobotState,
) -> (posted: Result<DispatchOutcome, ControlError>)
    ensures
        refusal_view(posted) == api_key_refusal(key_view(api_key), expected_key@),
        exists|now: int|
            final(state)@ == #[trigger] old(state)@.after_state_post(
                posted is Err,
                payload@,
                now,
                dispatched(posted),
            ),
{
    let now = wall_clock();
    let ghost sent = payload@;
    let posted = update_robot_state_at(state, api_key, expected_key, payload, now);
    assert(state@ == old(state)@.after_state_post(posted is Err, sent, now@, dispatched(posted)));
    posted
}

/// Takes an event of the robot: it is accepted with the right key and
/// changes nothing.
pub fn handle_robot_event(api_key: Option<&str>, expected_key: &str, event: &RobotEvent) -> (taken:
    Result<(), ControlError>)
    ensures
        refusal_view(taken) == api_key_refusal(key_view(api_key), expected_key@),
{
    check_api_key(api_key, expected_key)
}

/// Takes a registration of the robot, which listens on the port of
/// `registration` at the address `ip`. With the right key the URL is
/// recorded; the result says whether it differs from the one on record.
pub fn register_robot(
    state: &mut SharedRobotState,
    api_key: Option<&str>,
    expected_key: &str,
    ip: &str,
    registration: &RobotRegistration,
) -> (registered: Result<bool, ControlError>)
    ensures
        refusal_view(registered) == api_key_refusal(key_view(api_key), expected_key@),
        registered matches Ok(changed) ==> changed == (old(state)@.robot_url != Some(
            robot_url_text(ip@, registration.port_number() as nat),
        )) && final(state)@ == old(state)@.with_robot_url(
            robot_url_text(ip@, registration.port_number() as nat),
        ),
        registered is Err ==> final(state)@ == old(state)@,
{
    match check_api_key(api_key, expected_key) {
        Err(e) => Err(e),
        Ok(()) => {
            let url = robot_url(ip, registration.port());
            let changed = state.set_robot_url(url);
            Ok(changed)
        },
    }
}

} // verus!
