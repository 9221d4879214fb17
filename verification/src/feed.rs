//! Reading event records out of a decoded feed response.
//!
//! The feed answers with an object holding the partition identifier under
//! `"ID"` and one field per event under `"revives"`.  Every field of an
//! event beyond identity, timestamp and partition is payload: missing or
//! ill-typed payload fields fall back to a neutral value rather than
//! failing the cycle, exactly as the sink expects them.

use vstd::prelude::*;

use crate::json::JsonValue;
use crate::structures::ReviveEntry;
use crate::structures::ReviveEntryModel;
use crate::structures::TargetLastAction;
use crate::structures::TargetLastActionModel;
use crate::text::dec_str;
use crate::text::u64_to_string;

verus! {

/// The named field as an unsigned integer, or 0.
pub open spec fn u64_field_or_zero(v: JsonValue, key: Seq<char>) -> u64 {
    match v.spec_field(key) {
        Option::Some(f) => match f.spec_u64() {
            Option::Some(u) => u,
            Option::None => 0,
        },
        Option::None => 0,
    }
}

/// The named field as text, or the empty string.
pub open spec fn text_field_or_empty(v: JsonValue, key: Seq<char>) -> Seq<char> {
    match v.spec_field(key) {
        Option::Some(f) => match f.spec_text() {
            Option::Some(s) => s,
            Option::None => Seq::empty(),
        },
        Option::None => Seq::empty(),
    }
}

/// The named field as a boolean, or false.
pub open spec fn bool_field_or_false(v: JsonValue, key: Seq<char>) -> bool {
    match v.spec_field(key) {
        Option::Some(f) => match f.spec_bool() {
            Option::Some(b) => b,
            Option::None => false,
        },
        Option::None => false,
    }
}

/// The event's chance as decimal text: integers are rendered, any other
/// number keeps the decoder's text, everything else reads "0".
pub open spec fn chance_text(data: JsonValue) -> Seq<char> {
    match data.spec_field("chance"@) {
        Option::Some(JsonValue::UInt(u)) => dec_str(u as nat),
        Option::Some(JsonValue::NumText(t)) => t@,
        _ => seq!['0'],
    }
}

/// The target's last-known-action sub-record of an event.
pub open spec fn spec_last_action(data: JsonValue) -> TargetLastActionModel {
    match data.spec_field("target_last_action"@) {
        Option::Some(sub) => TargetLastActionModel {
            status: text_field_or_empty(sub, "status"@),
            timestamp: u64_field_or_zero(sub, "timestamp"@),
        },
        Option::None => TargetLastActionModel { status: Seq::empty(), timestamp: 0 },
    }
}

/// The event record read from one field of the feed's `"revives"` object.
pub open spec fn spec_entry(id: Seq<char>, data: JsonValue) -> ReviveEntryModel {
    ReviveEntryModel {
        id: id,
        timestamp: u64_field_or_zero(data, "timestamp"@),
        result: text_field_or_empty(data, "result"@),
        chance: chance_text(data),
        reviver_id: u64_field_or_zero(data, "reviver_id"@),
        reviver_faction: u64_field_or_zero(data, "reviver_faction"@),
        target_id: u64_field_or_zero(data, "target_id"@),
        target_faction: u64_field_or_zero(data, "target_faction"@),
        target_hospital_reason: text_field_or_empty(data, "target_hospital_reason"@),
        target_early_discharge: bool_field_or_false(data, "target_early_discharge"@),
        target_last_action: spec_last_action(data),
    }
}

/// The partition identifier the response reports, if present and integral.
pub open spec fn feed_partition(json: JsonValue) -> Option<u64> {
    match json.spec_field("ID"@) {
        Option::Some(v) => v.spec_u64(),
        Option::None => Option::None,
    }
}

/// The fields of the response's `"revives"` object, if it is an object.
pub open spec fn feed_entries(json: JsonValue) -> Option<Seq<(String, JsonValue)>> {
    match json.spec_field("revives"@) {
        Option::Some(JsonValue::Object(fs)) => Option::Some(fs@),
        _ => Option::None,
    }
}

fn u64_field(data: &JsonValue, key: &str) -> (r: u64)
    ensures
        r == u64_field_or_zero(*data, key@),
{
    match data.get(key) {
        Option::Some(f) => match f.get_u64() {
            Option::Some(u) => u,
            Option::None => 0,
        },
        Option::None => 0,
    }
}

fn text_field(data: &JsonValue, key: &str) -> (r: String)
    ensures
        r@ == text_field_or_empty(*data, key@),
{
    match data.get(key) {
        Option::Some(f) => match f {
            JsonValue::Text(s) => s.clone(),
            _ => String::new(),
        },
        Option::None => String::new(),
    }
}

fn bool_field(data: &JsonValue, key: &str) -> (r: bool)
    ensures
        r == bool_field_or_false(*data, key@),
{
    match data.get(key) {
        Option::Some(f) => match f.get_bool() {
            Option::Some(b) => b,
            Option::None => false,
        },
        Option::None => false,
    }
}

fn chance_field(data: &JsonValue) -> (r: String)
    ensures
        r@ == chance_text(*data),
{
    proof {
        reveal_strlit("0");
    }
    match data.get("chance") {
        Option::Some(f) => match f {
            JsonValue::UInt(u) => u64_to_string(*u),
            JsonValue::NumText(t) => t.clone(),
            _ => {
                let z = "0".to_owned();
                proof {
                    assert(z@ =~= seq!['0']);
                }
                z
            },
        },
        Option::None => {
            let z = "0".to_owned();
            proof {
                assert(z@ =~= seq!['0']);
            }
            z
        },
    }
}

fn last_action_field(data: &JsonValue) -> (r: TargetLastAction)
    ensures
        r@ == spec_last_action(*data),
{
    match data.get("target_last_action") {
        Option::Some(sub) => TargetLastAction {
            status: text_field(sub, "status"),
            timestamp: u64_field(sub, "timestamp"),
        },
        Option::None => TargetLastAction { status: String::new(), timestamp: 0 },
    }
}

/// Builds the event record for one field of the `"revives"` object.
fn entry_from(id: &String, data: &JsonValue) -> (r: ReviveEntry)
    ensures
        r@ == spec_entry(id@, *data),
{
    ReviveEntry {
        id: id.clone(),
        timestamp: u64_field(data, "timestamp"),
        result: text_field(data, "result"),
        chance: chance_field(data),
        reviver_id: u64_field(data, "reviver_id"),
        reviver_faction: u64_field(data, "reviver_faction"),
        target_id: u64_field(data, "target_id"),
        target_faction: u64_field(data, "target_faction"),
        target_hospital_reason: text_field(data, "target_hospital_reason"),
        target_early_discharge: bool_field(data, "target_early_discharge"),
        target_last_action: last_action_field(data),
    }
}

/// Reads the event batch and the reported partition identifier out of a
/// decoded feed response.  Returns `None` — a decode failure for the cycle —
/// when the response carries no `"revives"` object or no integral `"ID"`.
pub fn extract_revives(json: &JsonValue) -> (r: Option<(Vec<ReviveEntry>, u64)>)
    ensures
        r is Some <==> (feed_entries(*json) is Some && feed_partition(*json) is Some),
        match r {
            Option::Some(pair) => {
                &&& feed_partition(*json) == Option::Some(pair.1)
                &&& pair.0@.len() == feed_entries(*json)->Some_0.len()
                &&& forall|i: int|
                    0 <= i < pair.0@.len() ==> pair.0@[i]@ == spec_entry(
                        feed_entries(*json)->Some_0[i].0@,
                        feed_entries(*json)->Some_0[i].1,
                    )
            },
            Option::None => true,
        },
{
    let fs = match json.get("revives") {
        Option::Some(v) => match v {
            JsonValue::Object(fs) => fs,
            _ => {
                return Option::None;
            },
        },
        Option::None => {
            return Option::None;
        },
    };
    let pid = match json.get("ID") {
        Option::Some(v) => match v.get_u64() {
            Option::Some(u) => u,
            Option::None => {
                return Option::None;
            },
        },
        Option::None => {
            return Option::None;
        },
    };
    let n = fs.len();
    let mut out: Vec<ReviveEntry> = Vec::new();
    let mut i: usize = 0;
    while i < n
        invariant
            i <= n,
            n == fs@.len(),
            feed_entries(*json) == Option::Some(fs@),
            out@.len() == i,
            forall|j: int| 0 <= j < i ==> out@[j]@ == spec_entry(fs@[j].0@, fs@[j].1),
        decreases n - i,
    {
        let field = &fs[i];
        out.push(entry_from(&field.0, &field.1));
        i += 1;
    }
    Option::Some((out, pid))
}

} // verus!
