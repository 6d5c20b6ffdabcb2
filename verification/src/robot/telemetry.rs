//! The wire form of telemetry: a JSON object with camel-case keys.

use crate::json::{
    member_count, member_is_blank, member_text, members_of, parse_document, parsed_members,
    Members,
};
use crate::robot::models::{RobotState, RobotStateView};
use crate::robot::state::telemetry_view;
use vstd::prelude::*;

verus! {

/// What a document holds under a key that may be left out: `Some(None)` for
/// a member that is null or missing, `Some(Some(text))` for a string, and
/// `None` for anything else.
pub open spec fn optional_text_of(doc: Members, key: Seq<char>) -> Option<Option<Seq<char>>> {
    if doc.blanks.contains(key) {
        Some(None)
    } else if doc.texts.contains_key(key) {
        Some(Some(doc.texts[key]))
    } else {
        None
    }
}

/// The telemetry that a document holds: `systemHealth`, `driveMode`,
/// `cargoStatus` and `currentPosition` as strings, `batteryLevel` as an
/// integer from 0 to 255, and `lastNode` and `targetNode` as strings, null
/// or left out. Every other member is ignored.
pub open spec fn telemetry_of_document(doc: Members) -> Option<RobotStateView> {
    if doc.texts.contains_key("systemHealth"@) && doc.counts.contains_key("batteryLevel"@)
        && doc.counts["batteryLevel"@] <= u8::MAX && doc.texts.contains_key("driveMode"@)
        && doc.texts.contains_key("cargoStatus"@) && doc.texts.contains_key("currentPosition"@)
        && optional_text_of(doc, "lastNode"@) is Some && optional_text_of(doc, "targetNode"@)
        is Some {
        Some(
            RobotStateView {
                system_health: doc.texts["systemHealth"@],
                battery_level: doc.counts["batteryLevel"@] as u8,
                drive_mode: doc.texts["driveMode"@],
                cargo_status: doc.texts["cargoStatus"@],
                current_position: doc.texts["currentPosition"@],
                last_node: optional_text_of(doc, "lastNode"@)->0,
                target_node: optional_text_of(doc, "targetNode"@)->0,
            },
        )
    } else {
        None
    }
}

/// The telemetry that the text of a request body holds: none where the
/// text is no JSON document.
pub open spec fn telemetry_of_text(body: Seq<char>) -> Option<RobotStateView> {
    match parsed_members(body) {
        Some(doc) => telemetry_of_document(doc),
        None => None,
    }
}

pub open spec fn optional_text_view(t: Option<Option<String>>) -> Option<Option<Seq<char>>> {
    match t {
        Some(Some(s)) => Some(Some(s@)),
        Some(None) => Some(None),
        None => None,
    }
}

fn optional_text_in(doc: &serde_json::Value, key: &str) -> (text: Option<Option<String>>)
    ensures
        optional_text_view(text) == optional_text_of(members_of(*doc), key@),
{
    if member_is_blank(doc, key) {
        Some(None)
    } else {
        match member_text(doc, key) {
            Some(t) => Some(Some(t)),
            None => None,
        }
    }
}

/// Reads telemetry out of a parsed document.
pub fn telemetry_in(doc: &serde_json::Value) -> (telemetry: Option<RobotState>)
    ensures
        telemetry_view(telemetry) == telemetry_of_document(members_of(*doc)),
{
    let system_health = match member_text(doc, "systemHealth") {
        Some(t) => t,
        None => {
            return None;
        },
    };
    let battery_level: u8 = match member_count(doc, "batteryLevel") {
        Some(n) => {
            if n > 255 {
                return None;
            }
            n as u8
        },
        None => {
            return None;
        },
    };
    let drive_mode = match member_text(doc, "driveMode") {
        Some(t) => t,
        None => {
            return None;
        },
    };
    let cargo_status = match member_text(doc, "cargoStatus") {
        Some(t) => t,
        None => {
            return None;
        },
    };
    let current_position = match member_text(doc, "currentPosition") {
        Some(t) => t,
        None => {
            return None;
        },
    };
    let last_node = match optional_text_in(doc, "lastNode") {
        Some(t) => t,
        None => {
            return None;
        },
    };
    let target_node = match optional_text_in(doc, "targetNode") {
        Some(t) => t,
        None => {
            return None;
        },
    };
    Some(
        RobotState {
            system_health,
            battery_level,
            drive_mode,
            cargo_status,
            current_position,
            last_node,
            target_node,
        },
    )
}

/// Reads telemetry out of the text of a request body. A text that is no
/// JSON document holds none.
pub fn decode_telemetry(body: &str) -> (telemetry: Option<RobotState>)
    ensures
        telemetry_view(telemetry) == telemetry_of_text(body@),
{
    match parse_document(body) {
        Some(doc) => telemetry_in(&doc),
        None => None,
    }
}

/// Whether two documents hold the same under the seven keys of telemetry.
pub open spec fn same_telemetry_members(a: Members, b: Members) -> bool {
    &&& forall|key: Seq<char>|
        key == "systemHealth"@ || key == "driveMode"@ || key == "cargoStatus"@ || key
            == "currentPosition"@ || key == "lastNode"@ || key == "targetNode"@ ==> (
        a.texts.contains_key(key) == b.texts.contains_key(key)) && (a.texts.contains_key(key)
            ==> a.texts[key] == b.texts[key])
    &&& a.blanks.contains("lastNode"@) == b.blanks.contains("lastNode"@)
    &&& a.blanks.contains("targetNode"@) == b.blanks.contains("targetNode"@)
    &&& a.counts.contains_key("batteryLevel"@) == b.counts.contains_key("batteryLevel"@)
    &&& a.counts.contains_key("batteryLevel"@) ==> a.counts["batteryLevel"@]
        == b.counts["batteryLevel"@]
}

/// Decoding tolerates unknown fields: what a document holds under any
/// other key has no part in the telemetry read from it.
pub proof fn unknown_members_do_not_matter(a: Members, b: Members)
    requires
        same_telemetry_members(a, b),
    ensures
        telemetry_of_document(a) == telemetry_of_document(b),
{
    assert(a.texts.contains_key("systemHealth"@) == b.texts.contains_key("systemHealth"@));
    assert(a.texts.contains_key("driveMode"@) == b.texts.contains_key("driveMode"@));
    assert(a.texts.contains_key("cargoStatus"@) == b.texts.contains_key("cargoStatus"@));
    assert(a.texts.contains_key("currentPosition"@) == b.texts.contains_key("currentPosition"@));
    assert(a.texts.contains_key("lastNode"@) == b.texts.contains_key("lastNode"@));
    assert(a.texts.contains_key("targetNode"@) == b.texts.contains_key("targetNode"@));
}

/// A member added to a document under a key that telemetry does not use
/// changes nothing of what is read from it.
pub proof fn extra_member_is_ignored(doc: Members, key: Seq<char>, value: Seq<char>)
    requires
        key != "systemHealth"@,
        key != "batteryLevel"@,
        key != "driveMode"@,
        key != "cargoStatus"@,
        key != "currentPosition"@,
        key != "lastNode"@,
        key != "targetNode"@,
    ensures
        telemetry_of_document(Members { texts: doc.texts.insert(key, value), ..doc })
            == telemetry_of_document(doc),
        telemetry_of_document(Members { counts: doc.counts.insert(key, 0), ..doc })
            == telemetry_of_document(doc),
        telemetry_of_document(Members { blanks: doc.blanks.insert(key), ..doc })
            == telemetry_of_document(doc),
{
}

} // verus!
