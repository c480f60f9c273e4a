//! The indicator: which tray icon and which notification reflect a mode.

use vstd::prelude::*;
use vstd::string::*;
use crate::mode::ModeId;
use crate::text::same_text;

verus! {

/// The identifier under which the tray icon is registered.
pub const TRAY_ID: &'static str = "mist_tray";

/// The title of every notification that a toggle raises.
pub const NOTIFICATION_TITLE: &'static str = "MistLuna";

/// The closed set of tray icons.
#[derive(Clone, Copy, Debug, PartialEq, Eq, Structural)]
pub enum IconName {
    Normal,
    Cyan,
    Red,
    Idle,
}

/// A notification to show: fire and forget.
#[derive(Clone, Debug, PartialEq, Eq)]
pub struct Notification {
    pub title: String,
    pub body: String,
}

/// A notification as a plain value.
pub struct NotificationModel {
    pub title: Seq<char>,
    pub body: Seq<char>,
}

impl View for Notification {
    type V = NotificationModel;

    open spec fn view(&self) -> NotificationModel {
        NotificationModel { title: self.title@, body: self.body@ }
    }
}

/// The plain value of a notification that may be missing.
pub open spec fn note_model(note: Option<Notification>) -> Option<NotificationModel> {
    match note {
        Some(n) => Some(n@),
        None => None,
    }
}

/// Whether `name` is one of the state names that the tray knows.
pub open spec fn is_state_name(name: Seq<char>) -> bool {
    name == "normal"@ || name == "cyan"@ || name == "red"@ || name == "idle"@
}

/// The icon that a state name selects: the icon of that name, and `Normal`
/// for every other text.
pub open spec fn icon_named(name: Seq<char>) -> IconName {
    if name == "cyan"@ {
        IconName::Cyan
    } else if name == "red"@ {
        IconName::Red
    } else if name == "idle"@ {
        IconName::Idle
    } else {
        IconName::Normal
    }
}

/// The resource that holds an icon's image.
pub open spec fn icon_resource_text(icon: IconName) -> Seq<char> {
    match icon {
        IconName::Normal => "icons/32x32.png"@,
        IconName::Cyan => "icons/tray_cyan.png"@,
        IconName::Red => "icons/tray_red.png"@,
        IconName::Idle => "icons/tray_idle.png"@,
    }
}

/// The icon that goes with a mode's value, if the mode has one. Silence shows
/// the idle icon while it is on and the normal icon while it is off;
/// maintenance leaves the tray alone.
pub open spec fn icon_of_mode(mode: ModeId, value: bool) -> Option<IconName> {
    match mode {
        ModeId::Silence => Some(if value { IconName::Idle } else { IconName::Normal }),
        ModeId::Maintenance => None,
    }
}

/// The notification that goes with a mode's value, if the mode raises one.
/// Silence announces itself; maintenance is announced to the windows instead.
pub open spec fn notification_of(mode: ModeId, value: bool) -> Option<NotificationModel> {
    match mode {
        ModeId::Silence => Some(
            NotificationModel {
                title: NOTIFICATION_TITLE@,
                body: if value {
                    "silence enabled"@
                } else {
                    "silence disabled"@
                },
            },
        ),
        ModeId::Maintenance => None,
    }
}

/// Resolves a state name to an icon. Total: a name that the tray does not
/// know selects the normal icon.
pub fn icon_for_state(name: &str) -> (icon: IconName)
    ensures
        icon == icon_named(name@),
        !is_state_name(name@) ==> icon == IconName::Normal,
{
    if same_text(name, "cyan") {
        IconName::Cyan
    } else if same_text(name, "red") {
        IconName::Red
    } else if same_text(name, "idle") {
        IconName::Idle
    } else {
        IconName::Normal
    }
}

/// The resource path of an icon's image, relative to the resource directory.
pub fn icon_resource(icon: IconName) -> (path: &'static str)
    ensures
        path@ == icon_resource_text(icon),
{
    match icon {
        IconName::Normal => "icons/32x32.png",
        IconName::Cyan => "icons/tray_cyan.png",
        IconName::Red => "icons/tray_red.png",
        IconName::Idle => "icons/tray_idle.png",
    }
}

/// The icon to show once `mode` has taken `value`.
pub fn mode_icon(mode: ModeId, value: bool) -> (icon: Option<IconName>)
    ensures
        icon == icon_of_mode(mode, value),
{
    match mode {
        ModeId::Silence => Some(if value { IconName::Idle } else { IconName::Normal }),
        ModeId::Maintenance => None,
    }
}

/// The notification to raise once `mode` has taken `value`.
pub fn mode_notification(mode: ModeId, value: bool) -> (note: Option<Notification>)
    ensures
        note_model(note) == notification_of(mode, value),
{
    match mode {
        ModeId::Silence => {
            let body = if value { "silence enabled" } else { "silence disabled" };
            Some(Notification { title: NOTIFICATION_TITLE.to_owned(), body: body.to_owned() })
        },
        ModeId::Maintenance => None,
    }
}

/// What the caller of the indicator learns. A failed icon swap is reported;
/// a failed notification is not, it was sent on a best-effort basis.
pub fn indicator_result(swapped: Result<(), String>, notified: Result<(), String>) -> (verdict:
    Result<(), String>)
    ensures
        verdict == swapped,
{
    swapped
}

/// The four state names are different texts, and each selects its own icon.
pub proof fn lemma_state_names_select_their_icons()
    ensures
        icon_named("normal"@) == IconName::Normal,
        icon_named("cyan"@) == IconName::Cyan,
        icon_named("red"@) == IconName::Red,
        icon_named("idle"@) == IconName::Idle,
{
    reveal_strlit("normal");
    reveal_strlit("cyan");
    reveal_strlit("red");
    reveal_strlit("idle");
    assert("normal"@.len() == 6 && "cyan"@.len() == 4 && "red"@.len() == 3 && "idle"@.len() == 4);
    assert("cyan"@[0] == 'c' && "idle"@[0] == 'i');
}

/// A name that the tray does not know resolves to the normal icon.
pub proof fn lemma_unknown_state_is_normal(name: Seq<char>)
    requires
        !is_state_name(name),
    ensures
        icon_named(name) == IconName::Normal,
{
}

} // verus!
