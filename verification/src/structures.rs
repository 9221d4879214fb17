//! Plain data carried through the system: configuration secrets, contract
//! status, and the event records ingested from the remote feed.

use vstd::prelude::*;

verus! {

/// All the secrets the hosting bot needs to run.
#[derive(Clone, Debug)]
pub struct Secrets {
    pub revive_channel: u64,
    pub revive_role: u64,
    pub revive_faction_guild: u64,
    pub revive_faction: u64,
    pub owner_id: u64,
    pub admins: Vec<u64>,
    pub revive_faction_api_key: String,
    pub test_api_key: String,
    pub dev: bool,
}

/// Lifecycle state of a stored contract.
#[derive(Clone, Copy, Debug, PartialEq, Eq, Structural)]
pub enum Status {
    Active,
    Ended,
}

/// The target's last-known-action sub-record of an event.
#[derive(Clone, Debug)]
pub struct TargetLastAction {
    pub status: String,
    pub timestamp: u64,
}

/// Mathematical image of [`TargetLastAction`].
pub struct TargetLastActionModel {
    pub status: Seq<char>,
    pub timestamp: u64,
}

impl View for TargetLastAction {
    type V = TargetLastActionModel;

    open spec fn view(&self) -> TargetLastActionModel {
        TargetLastActionModel { status: self.status@, timestamp: self.timestamp }
    }
}

/// One event record of the remote feed: identity, timestamp and partition
/// fields are what the poller reads; the rest is payload passed through to
/// the ingestion sink unmodified.  The numeric chance is carried as decimal
/// text so that the verified code never holds a floating-point value.
#[derive(Clone, Debug)]
pub struct ReviveEntry {
    pub id: String,
    pub timestamp: u64,
    pub result: String,
    pub chance: String,
    pub reviver_id: u64,
    pub reviver_faction: u64,
    pub target_id: u64,
    pub target_faction: u64,
    pub target_hospital_reason: String,
    pub target_early_discharge: bool,
    pub target_last_action: TargetLastAction,
}

/// Mathematical image of [`ReviveEntry`].
pub struct ReviveEntryModel {
    pub id: Seq<char>,
    pub timestamp: u64,
    pub result: Seq<char>,
    pub chance: Seq<char>,
    pub reviver_id: u64,
    pub reviver_faction: u64,
    pub target_id: u64,
    pub target_faction: u64,
    pub target_hospital_reason: Seq<char>,
    pub target_early_discharge: bool,
    pub target_last_action: TargetLastActionModel,
}

impl View for ReviveEntry {
    type V = ReviveEntryModel;

    open spec fn view(&self) -> ReviveEntryModel {
        ReviveEntryModel {
            id: self.id@,
            timestamp: self.timestamp,
            result: self.result@,
            chance: self.chance@,
            reviver_id: self.reviver_id,
            reviver_faction: self.reviver_faction,
            target_id: self.target_id,
            target_faction: self.target_faction,
            target_hospital_reason: self.target_hospital_reason@,
            target_early_discharge: self.target_early_discharge,
            target_last_action: self.target_last_action@,
        }
    }
}

} // verus!
