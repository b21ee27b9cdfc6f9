//! Heartbeats: the activity reports that editor plugins send.

use vstd::prelude::*;

verus! {

/// What a heartbeat's entity is.
#[derive(Debug, Clone, Copy, PartialEq, Eq, Hash, Structural)]
pub enum HeartbeatType {
    File,
    App,
    Domain,
}

impl HeartbeatType {
    /// The lowercase name under which the type is sent and stored.
    pub fn as_str(&self) -> (r: &'static str)
        ensures
            r@ == match *self {
                HeartbeatType::File => "file"@,
                HeartbeatType::App => "app"@,
                HeartbeatType::Domain => "domain"@,
            },
    {
        match self {
            HeartbeatType::File => "file",
            HeartbeatType::App => "app",
            HeartbeatType::Domain => "domain",
        }
    }

    /// The type sent or stored under `name`, if any.
    pub fn from_name(name: &str) -> (r: Option<HeartbeatType>)
        ensures
            match r {
                Some(t) => t.as_str_spec() == name@,
                None => name@ != "file"@ && name@ != "app"@ && name@ != "domain"@,
            },
    {
        let owned = name.to_owned();
        if owned == "file".to_owned() {
            Some(HeartbeatType::File)
        } else if owned == "app".to_owned() {
            Some(HeartbeatType::App)
        } else if owned == "domain".to_owned() {
            Some(HeartbeatType::Domain)
        } else {
            None
        }
    }

    pub open spec fn as_str_spec(self) -> Seq<char> {
        match self {
            HeartbeatType::File => "file"@,
            HeartbeatType::App => "app"@,
            HeartbeatType::Domain => "domain"@,
        }
    }
}

/// What the user was doing.
#[derive(Debug, Clone, Copy, PartialEq, Eq, Hash, Structural)]
pub enum HeartbeatCategory {
    Coding,
    Building,
    Indexing,
    Debugging,
    Browsing,
    RunningTests,
    WritingTests,
    ManualTesting,
    WritingDocs,
    CodeReview,
    Communicating,
    Researching,
    Learning,
    Designing,
}

/// Lines changed since the previous heartbeat.
#[derive(Debug, Clone, Copy, PartialEq, Eq, Hash, Structural)]
pub struct CodeChanges {
    pub lines_added: u32,
    pub lines_removed: u32,
}

/// A heartbeat in the form of the WakaTime API.
#[derive(Debug, Clone, PartialEq, Eq)]
pub struct WakaTimeHeartbeat {
    pub entity: String,
    pub category: String,
    pub created_at: i64,
    pub editor: String,
    pub language: String,
}

} // verus!
