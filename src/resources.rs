use vstd::prelude::*;

verus! {

/// The access a user has to a calendar, weakest first.
#[derive(Debug, Clone, Copy, PartialEq, Eq, Structural)]
pub enum CalendarAccessRole {
    FreeBusyReader,
    Reader,
    Writer,
    Owner,
}

/// How the service writes an access role.
pub open spec fn role_text(role: CalendarAccessRole) -> Seq<char> {
    match role {
        CalendarAccessRole::FreeBusyReader => "freeBusyReader"@,
        CalendarAccessRole::Reader => "reader"@,
        CalendarAccessRole::Writer => "writer"@,
        CalendarAccessRole::Owner => "owner"@,
    }
}

impl CalendarAccessRole {
    /// The role as the service writes it.
    pub fn as_string(&self) -> (r: String)
        ensures
            r@ == role_text(*self),
    {
        match self {
            CalendarAccessRole::FreeBusyReader => {
                proof {
                    reveal_strlit("freeBusyReader");
                }
                String::from_str("freeBusyReader")
            },
            CalendarAccessRole::Reader => {
                proof {
                    reveal_strlit("reader");
                }
                String::from_str("reader")
            },
            CalendarAccessRole::Writer => {
                proof {
                    reveal_strlit("writer");
                }
                String::from_str("writer")
            },
            CalendarAccessRole::Owner => {
                proof {
                    reveal_strlit("owner");
                }
                String::from_str("owner")
            },
        }
    }
}

/// The kinds of conference that can be attached to events of a calendar.
#[derive(Debug, Clone)]
pub struct ConferenceProperties {
    pub allowed_conference_solution_types: Vec<String>,
}

/// A reminder that applies to every event of a calendar unless the event
/// overrides it.
#[derive(Debug, Clone)]
pub struct DefaultReminder {
    /// How the reminder is delivered (`email` or `popup`).
    pub method: String,
    /// Minutes before the event start.
    pub minutes: i64,
}

} // verus!
