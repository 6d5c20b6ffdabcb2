//! Discovery: the robot announces by datagram where it listens.

use crate::json::{
    member_count, member_is_text, members_of, parse_document, parsed_members, Members,
};
use crate::robot::robot_routes::{robot_url, robot_url_text};
use crate::robot::state::{SharedRobotState, StoreView};
use vstd::prelude::*;

verus! {

/// The UDP port on which announcements are received.
pub const DISCOVERY_PORT: u16 = 3001;

/// The port that a document announces: it is an object whose `type` is the
/// string `announce` and whose `port` is an integer that is a port number.
pub open spec fn announced_port_of(doc: Members) -> Option<u16> {
    if doc.texts.contains_key("type"@) && doc.texts["type"@] == "announce"@
        && doc.counts.contains_key("port"@) && doc.counts["port"@] <= u16::MAX {
        Some(doc.counts["port"@] as u16)
    } else {
        None
    }
}

/// The port that the text of a datagram announces: none where the text is
/// no JSON document.
pub open spec fn announced_port_of_text(message: Seq<char>) -> Option<u16> {
    match parsed_members(message) {
        Some(doc) => announced_port_of(doc),
        None => None,
    }
}

/// The port that a parsed datagram announces, if it is an announcement.
pub fn announced_port_in(doc: &serde_json::Value) -> (port: Option<u16>)
    ensures
        port == announced_port_of(members_of(*doc)),
{
    if !member_is_text(doc, "type", "announce") {
        return None;
    }
    match member_count(doc, "port") {
        Some(p) => {
            if p <= 65535 {
                Some(p as u16)
            } else {
                None
            }
        },
        None => None,
    }
}

/// The port that the text of a datagram announces. A text that is no JSON
/// document announces nothing.
pub fn announced_port(message: &str) -> (port: Option<u16>)
    ensures
        port == announced_port_of_text(message@),
{
    match parse_document(message) {
        Some(doc) => announced_port_in(&doc),
        None => None,
    }
}

/// Records the robot's URL from an announced port and the address the
/// datagram came from. The result says whether the URL on record changed.
pub fn record_announcement(state: &mut SharedRobotState, sender_ip: &str, port: u16) -> (changed:
    bool)
    ensures
        changed == (old(state)@.robot_url != Some(robot_url_text(sender_ip@, port as nat))),
        final(state)@ == old(state)@.with_robot_url(robot_url_text(sender_ip@, port as nat)),
{
    let url = robot_url(sender_ip, port);
    state.set_robot_url(url)
}

impl StoreView {
    /// The store after a datagram from `sender_ip` was handled.
    pub open spec fn after_datagram(self, sender_ip: Seq<char>, message: Seq<char>) -> StoreView {
        match announced_port_of_text(message) {
            Some(port) => self.with_robot_url(robot_url_text(sender_ip, port as nat)),
            None => self,
        }
    }
}

/// Handles the text of one datagram from `sender_ip`. An announcement sets
/// the robot's URL; anything else is discarded and changes nothing. The
/// result is `None` for a discarded datagram, and otherwise says whether the
/// URL on record changed.
pub fn handle_datagram(state: &mut SharedRobotState, sender_ip: &str, message: &str) -> (handled:
    Option<bool>)
    ensures
        handled == (match announced_port_of_text(message@) {
            Some(port) => Some(
                old(state)@.robot_url != Some(robot_url_text(sender_ip@, port as nat)),
            ),
            None => None,
        }),
        final(state)@ == old(state)@.after_datagram(sender_ip@, message@),
{
    match announced_port(message) {
        Some(port) => Some(record_announcement(state, sender_ip, port)),
        None => None,
    }
}

} // verus!
