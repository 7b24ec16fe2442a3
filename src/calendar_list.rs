use vstd::prelude::*;
use crate::query::{PairView, QueryParams};
use crate::resources::{CalendarAccessRole, ConferenceProperties, DefaultReminder, role_text};
use crate::sendable::Sendable;

verus! {

/// The kind an entry of the calendar list takes when the service omits it.
pub fn default_entry_kind() -> (r: Option<String>)
    ensures
        r is Some && r->0@ == "calendar#calendarListEntry"@,
{
    proof {
        reveal_strlit("calendar#calendarListEntry");
    }
    Some(String::from_str("calendar#calendarListEntry"))
}

/// The kind the calendar list takes when the service omits it.
pub fn default_list_kind() -> (r: Option<String>)
    ensures
        r is Some && r->0@ == "calendar#calendarList"@,
{
    proof {
        reveal_strlit("calendar#calendarList");
    }
    Some(String::from_str("calendar#calendarList"))
}

/// How a notification is delivered.
#[derive(Debug, Clone, Copy, PartialEq, Eq, Structural)]
pub enum NotificationSettingMethod {
    EMail,
}

/// What a notification is about.
#[derive(Debug, Clone, Copy, PartialEq, Eq, Structural)]
pub enum NotificationSettingType {
    EventCreation,
    EventChange,
    EventCancellation,
    EventResponse,
    Agenda,
}

/// One notification the user receives for a calendar.
#[derive(Debug, Clone, Copy, PartialEq, Eq, Structural)]
pub struct NotificationSetting {
    pub method: NotificationSettingMethod,
    pub typ: NotificationSettingType,
}

/// The notifications the user receives for a calendar.
#[derive(Debug, Clone)]
pub struct NotificationSettings {
    pub notifications: Vec<NotificationSetting>,
}

/// A single calendar as it stands in the user's calendar list (not the
/// calendar resource itself).
#[derive(Debug, Clone)]
pub struct CalendarListItem {
    pub kind: Option<String>,
    pub id: String,
    pub etag: String,
    pub location: Option<String>,
    pub summary: String,
    pub summary_override: Option<String>,
    pub time_zone: Option<String>,
    pub access_role: CalendarAccessRole,
    pub background_color: Option<String>,
    pub foreground_color: Option<String>,
    pub color_id: Option<String>,
    pub conference_properties: Option<ConferenceProperties>,
    pub deleted: Option<bool>,
    pub hidden: Option<bool>,
    pub primary: Option<bool>,
    pub selected: Option<bool>,
    pub description: Option<String>,
    pub notification_settings: Option<NotificationSettings>,
    pub default_reminders: Vec<DefaultReminder>,
    /// The query pairs sent when this value addresses a request.
    pub query_string: QueryParams,
}

/// The user's calendar list: one page of entries.
#[derive(Debug, Clone)]
pub struct CalendarList {
    pub kind: Option<String>,
    pub etag: String,
    pub next_sync_token: Option<String>,
    pub items: Vec<CalendarListItem>,
    /// The query pairs sent when this value addresses a request.
    pub query_string: QueryParams,
}

/// The relative path of the calendar list.
pub open spec fn calendar_list_path() -> Seq<char> {
    "users/me/calendarList"@
}

/// The relative path of one entry of the calendar list.
pub open spec fn calendar_list_item_path(id: Seq<char>) -> Seq<char> {
    "users/me/calendarList/"@ + id
}

/// How a flag is written in a query.
pub open spec fn bool_text(b: bool) -> Seq<char> {
    if b {
        "true"@
    } else {
        "false"@
    }
}

fn bool_string(b: bool) -> (r: String)
    ensures
        r@ == bool_text(b),
{
    if b {
        proof {
            reveal_strlit("true");
        }
        String::from_str("true")
    } else {
        proof {
            reveal_strlit("false");
        }
        String::from_str("false")
    }
}

impl CalendarListItem {
    pub open spec fn wf(&self) -> bool {
        self.query_string.wf()
    }

    /// An entry with the required fields set, the optional ones absent, no
    /// default reminders and no query pairs.
    pub fn new(id: String, etag: String, summary: String, access_role: CalendarAccessRole) -> (r:
        Self)
        ensures
            r.wf(),
            r.id@ == id@,
            r.etag@ == etag@,
            r.summary@ == summary@,
            r.access_role == access_role,
            r.kind is None,
            r.location is None,
            r.summary_override is None,
            r.time_zone is None,
            r.background_color is None,
            r.foreground_color is None,
            r.color_id is None,
            r.conference_properties is None,
            r.deleted is None,
            r.hidden is None,
            r.primary is None,
            r.selected is None,
            r.description is None,
            r.notification_settings is None,
            r.default_reminders@.len() == 0,
            r.query_of().len() == 0,
    {
        CalendarListItem {
            kind: None,
            id,
            etag,
            location: None,
            summary,
            summary_override: None,
            time_zone: None,
            access_role,
            background_color: None,
            foreground_color: None,
            color_id: None,
            conference_properties: None,
            deleted: None,
            hidden: None,
            primary: None,
            selected: None,
            description: None,
            notification_settings: None,
            default_reminders: Vec::new(),
            query_string: QueryParams::new(),
        }
    }
}

impl Sendable for CalendarListItem {
    open spec fn descriptor_wf(&self) -> bool {
        self.wf()
    }

    open spec fn path_of(&self, action: Option<Seq<char>>) -> Seq<char> {
        calendar_list_item_path(self.id@)
    }

    open spec fn query_of(&self) -> Seq<PairView> {
        self.query_string@
    }

    fn path(&self, action: Option<String>) -> (r: String) {
        proof {
            reveal_strlit("users/me/calendarList/");
        }
        let mut r = String::from_str("users/me/calendarList/");
        r.append(self.id.as_str());
        r
    }

    fn query(&self) -> (r: QueryParams) {
        self.query_string.copied()
    }
}

impl Default for CalendarList {
    /// An empty list: no kind, an empty tag, no sync token, no entries and no
    /// query pairs.
    fn default() -> (r: Self)
        ensures
            r.wf(),
            r.kind is None,
            r.etag@.len() == 0,
            r.next_sync_token is None,
            r.items@.len() == 0,
            r.query_of().len() == 0,
    {
        CalendarList {
            kind: None,
            etag: String::new(),
            next_sync_token: None,
            items: Vec::new(),
            query_string: QueryParams::new(),
        }
    }
}

impl CalendarList {
    pub open spec fn wf(&self) -> bool {
        self.query_string.wf()
    }

    /// The request for the first page of the calendar list: entries the user
    /// has at least `access_role` to, hidden ones included when `hidden`.
    pub fn list_request(hidden: bool, access_role: CalendarAccessRole) -> (r: Self)
        ensures
            r.wf(),
            r.query_of() == seq![
                ("minAccessRole"@, role_text(access_role)),
                ("showHidden"@, bool_text(hidden)),
            ],
            r.kind is None,
            r.etag@.len() == 0,
            r.next_sync_token is None,
            r.items@.len() == 0,
    {
        let mut cl = CalendarList::default();
        proof {
            reveal_strlit("minAccessRole");
            reveal_strlit("showHidden");
        }
        let k1 = String::from_str("minAccessRole");
        let k2 = String::from_str("showHidden");
        assert(k1@ != k2@) by {
            assert(k1@[0] != k2@[0]);
        }
        cl.query_string.insert(k1, access_role.as_string());
        cl.query_string.insert(k2, bool_string(hidden));
        assert(cl.query_of() =~= seq![
            ("minAccessRole"@, role_text(access_role)),
            ("showHidden"@, bool_text(hidden)),
        ]);
        cl
    }
}

impl Sendable for CalendarList {
    open spec fn descriptor_wf(&self) -> bool {
        self.wf()
    }

    open spec fn path_of(&self, action: Option<Seq<char>>) -> Seq<char> {
        calendar_list_path()
    }

    open spec fn query_of(&self) -> Seq<PairView> {
        self.query_string@
    }

    fn path(&self, action: Option<String>) -> (r: String) {
        proof {
            reveal_strlit("users/me/calendarList");
        }
        String::from_str("users/me/calendarList")
    }

    fn query(&self) -> (r: QueryParams) {
        self.query_string.copied()
    }
}

} // verus!
