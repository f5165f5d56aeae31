//! The wire-stable records of the notification model.
use crate::schedule::Schedule;
use std::collections::HashMap;
use vstd::prelude::*;

verus! {

/// `url::Url`, carried unread in attachments.
#[verifier::external_type_specification]
#[verifier::external_body]
pub struct ExUrl(url::Url);

/// `serde_json::Value`, carried unread in the extra payload.
#[verifier::external_type_specification]
#[verifier::external_body]
pub struct ExValue(serde_json::Value);

/// The text of an optional string.
pub open spec fn opt_text(o: Option<String>) -> Option<Seq<char>> {
    match o {
        Some(s) => Some(s@),
        None => None,
    }
}

pub open spec fn opt_str_text(o: Option<&str>) -> Option<Seq<char>> {
    match o {
        Some(s) => Some(s@),
        None => None,
    }
}

/// Whether two texts are equal.
pub fn same_text(a: &str, b: &str) -> (r: bool)
    ensures
        r == (a@ == b@),
{
    a.to_owned() == b.to_owned()
}

/// A copy of an optional string, equal to it.
pub fn copy_text(o: &Option<String>) -> (r: Option<String>)
    ensures
        r == *o,
{
    match o {
        Some(s) => Some(s.clone()),
        None => None,
    }
}

/// Borrows the text of an optional string.
pub fn text_ref(o: &Option<String>) -> (r: Option<&str>)
    ensures
        opt_str_text(r) == opt_text(*o),
{
    match o {
        Some(s) => Some(s.as_str()),
        None => None,
    }
}

/// The tri-state answer to a permission query.
#[derive(Clone, Copy, Debug, PartialEq, Eq, Structural)]
pub enum PermissionState {
    Granted,
    Denied,
    Prompt,
    PromptWithRationale,
}

/// A native permission reply.
#[derive(Clone, Copy, Debug)]
pub struct PermissionResponse {
    pub permission_state: PermissionState,
}

/// A native reply to a push registration.
#[derive(Debug)]
pub struct PushNotificationResponse {
    pub device_token: String,
}

/// A file attached to a notification.
#[derive(Debug)]
pub struct Attachment {
    pub id: String,
    pub url: url::Url,
}

impl Attachment {
    pub fn new(id: &str, url: url::Url) -> (r: Attachment)
        ensures
            r.id@ == id@,
            r.url == url,
    {
        Attachment { id: id.to_owned(), url }
    }
}

/// The canonical notification request.
#[derive(Debug)]
pub struct NotificationData {
    /// Numeric identifier; also the native tag.
    pub id: i32,
    pub channel_id: Option<String>,
    pub title: Option<String>,
    pub body: Option<String>,
    pub schedule: Option<Schedule>,
    pub large_body: Option<String>,
    pub summary: Option<String>,
    pub action_type_id: Option<String>,
    pub group: Option<String>,
    pub group_summary: bool,
    pub sound: Option<String>,
    pub inbox_lines: Vec<String>,
    pub icon: Option<String>,
    pub large_icon: Option<String>,
    pub icon_color: Option<String>,
    pub attachments: Vec<Attachment>,
    pub extra: HashMap<String, serde_json::Value>,
    pub ongoing: bool,
    pub auto_cancel: bool,
    pub silent: bool,
}

/// Relies on rand::random::<i32>: any `i32`, drawn from the thread-local generator.
#[verifier::external_body]
fn random_i32() -> (r: i32) {
    rand::random::<i32>()
}

/// The identifier made from a random draw: the draw itself, or 1 for a
/// draw of 0, since an id is never zero.
pub fn id_from_draw(drawn: i32) -> (r: i32)
    ensures
        r == (if drawn == 0 {
            1i32
        } else {
            drawn
        }),
{
    if drawn == 0 {
        1
    } else {
        drawn
    }
}

/// A fresh random identifier, never zero.
pub fn default_id() -> (r: i32)
    ensures
        r != 0,
{
    id_from_draw(random_i32())
}

/// Whether `d` is a request with nothing set but its id.
pub open spec fn is_blank(d: NotificationData) -> bool {
    &&& d.channel_id is None
    &&& d.title is None
    &&& d.body is None
    &&& d.schedule is None
    &&& d.large_body is None
    &&& d.summary is None
    &&& d.action_type_id is None
    &&& d.group is None
    &&& !d.group_summary
    &&& d.sound is None
    &&& d.inbox_lines@.len() == 0
    &&& d.icon is None
    &&& d.large_icon is None
    &&& d.icon_color is None
    &&& d.attachments@.len() == 0
    &&& d.extra@ == Map::<String, serde_json::Value>::empty()
    &&& !d.ongoing
    &&& !d.auto_cancel
    &&& !d.silent
}

impl Default for NotificationData {
    /// A blank request under a fresh, non-zero random id.
    fn default() -> (r: Self)
        ensures
            r.id != 0,
            is_blank(r),
    {
        NotificationData {
            id: default_id(),
            channel_id: None,
            title: None,
            body: None,
            schedule: None,
            large_body: None,
            summary: None,
            action_type_id: None,
            group: None,
            group_summary: false,
            sound: None,
            inbox_lines: Vec::new(),
            icon: None,
            large_icon: None,
            icon_color: None,
            attachments: Vec::new(),
            extra: HashMap::new(),
            ongoing: false,
            auto_cancel: false,
            silent: false,
        }
    }
}

/// A scheduled notification, as the native store reports it.
#[derive(Debug)]
pub struct PendingNotification {
    pub id: i32,
    pub title: Option<String>,
    pub body: Option<String>,
    pub schedule: Schedule,
}

impl PendingNotification {
    pub fn id(&self) -> (r: i32)
        ensures
            r == self.id,
    {
        self.id
    }

    pub fn title(&self) -> (r: Option<&str>)
        ensures
            opt_str_text(r) == opt_text(self.title),
    {
        text_ref(&self.title)
    }

    pub fn body(&self) -> (r: Option<&str>)
        ensures
            opt_str_text(r) == opt_text(self.body),
    {
        text_ref(&self.body)
    }

    pub fn schedule(&self) -> (r: &Schedule)
        ensures
            *r == self.schedule,
    {
        &self.schedule
    }
}

/// A delivered notification, as the native store reports it.
#[derive(Debug)]
pub struct ActiveNotification {
    pub id: i32,
    pub tag: Option<String>,
    pub title: Option<String>,
    pub body: Option<String>,
    pub group: Option<String>,
    pub group_summary: bool,
    pub data: HashMap<String, String>,
    pub extra: HashMap<String, serde_json::Value>,
    pub attachments: Vec<Attachment>,
    pub action_type_id: Option<String>,
    pub schedule: Option<Schedule>,
    pub sound: Option<String>,
}

impl ActiveNotification {
    pub fn id(&self) -> (r: i32)
        ensures
            r == self.id,
    {
        self.id
    }

    pub fn tag(&self) -> (r: Option<&str>)
        ensures
            opt_str_text(r) == opt_text(self.tag),
    {
        text_ref(&self.tag)
    }

    pub fn title(&self) -> (r: Option<&str>)
        ensures
            opt_str_text(r) == opt_text(self.title),
    {
        text_ref(&self.title)
    }

    pub fn body(&self) -> (r: Option<&str>)
        ensures
            opt_str_text(r) == opt_text(self.body),
    {
        text_ref(&self.body)
    }

    pub fn group(&self) -> (r: Option<&str>)
        ensures
            opt_str_text(r) == opt_text(self.group),
    {
        text_ref(&self.group)
    }

    pub fn group_summary(&self) -> (r: bool)
        ensures
            r == self.group_summary,
    {
        self.group_summary
    }

    pub fn data(&self) -> (r: &HashMap<String, String>)
        ensures
            *r == self.data,
    {
        &self.data
    }

    pub fn extra(&self) -> (r: &HashMap<String, serde_json::Value>)
        ensures
            *r == self.extra,
    {
        &self.extra
    }

    pub fn attachments(&self) -> (r: &[Attachment])
        ensures
            r@ == self.attachments@,
    {
        self.attachments.as_slice()
    }

    pub fn action_type_id(&self) -> (r: Option<&str>)
        ensures
            opt_str_text(r) == opt_text(self.action_type_id),
    {
        text_ref(&self.action_type_id)
    }

    pub fn schedule(&self) -> (r: Option<&Schedule>)
        ensures
            r matches Some(s) ==> self.schedule == Some(*s),
            r is None <==> self.schedule is None,
    {
        match &self.schedule {
            Some(s) => Some(s),
            None => None,
        }
    }

    pub fn sound(&self) -> (r: Option<&str>)
        ensures
            opt_str_text(r) == opt_text(self.sound),
    {
        text_ref(&self.sound)
    }
}

/// A named bundle of interactive buttons.
#[derive(Debug)]
pub struct ActionType {
    pub id: String,
    pub actions: Vec<Action>,
    pub hidden_previews_body_placeholder: Option<String>,
    pub custom_dismiss_action: bool,
    pub allow_in_car_play: bool,
    pub hidden_previews_show_title: bool,
    pub hidden_previews_show_subtitle: bool,
}

/// One interactive button.
#[derive(Debug)]
pub struct Action {
    pub id: String,
    pub title: String,
    pub requires_authentication: bool,
    pub foreground: bool,
    pub destructive: bool,
    pub input: bool,
    pub input_button_title: Option<String>,
    pub input_placeholder: Option<String>,
}

impl ActionType {
    /// An action type with these buttons and every other option off.
    pub fn new(id: &str, actions: Vec<Action>) -> (r: ActionType)
        ensures
            r.id@ == id@,
            r.actions == actions,
            r.hidden_previews_body_placeholder is None,
            !r.custom_dismiss_action,
            !r.allow_in_car_play,
            !r.hidden_previews_show_title,
            !r.hidden_previews_show_subtitle,
    {
        ActionType {
            id: id.to_owned(),
            actions,
            hidden_previews_body_placeholder: None,
            custom_dismiss_action: false,
            allow_in_car_play: false,
            hidden_previews_show_title: false,
            hidden_previews_show_subtitle: false,
        }
    }
}

impl Action {
    /// A plain button: no flag set, no text input.
    pub fn new(id: &str, title: &str) -> (r: Action)
        ensures
            r.id@ == id@,
            r.title@ == title@,
            !r.requires_authentication,
            !r.foreground,
            !r.destructive,
            !r.input,
            r.input_button_title is None,
            r.input_placeholder is None,
    {
        Action {
            id: id.to_owned(),
            title: title.to_owned(),
            requires_authentication: false,
            foreground: false,
            destructive: false,
            input: false,
            input_button_title: None,
            input_placeholder: None,
        }
    }
}

/// Channel importance.
#[derive(Clone, Copy, Debug, PartialEq, Eq, Structural)]
pub enum Importance {
    /// Notifications of the channel are not shown.
    Off,
    Min,
    Low,
    Default,
    High,
}

impl Default for Importance {
    fn default() -> (r: Self)
        ensures
            r == Importance::Default,
    {
        Importance::Default
    }
}

impl Importance {
    /// The wire number: 0 for `Off` up to 4 for `High`.
    pub fn code(&self) -> (r: u8)
        ensures
            r == importance_code(*self),
    {
        match self {
            Importance::Off => 0,
            Importance::Min => 1,
            Importance::Low => 2,
            Importance::Default => 3,
            Importance::High => 4,
        }
    }

    pub fn from_code(code: u8) -> (r: Option<Importance>)
        ensures
            r matches Some(i) ==> importance_code(i) == code,
            r is None <==> code > 4,
    {
        match code {
            0 => Some(Importance::Off),
            1 => Some(Importance::Min),
            2 => Some(Importance::Low),
            3 => Some(Importance::Default),
            4 => Some(Importance::High),
            _ => None,
        }
    }
}

pub open spec fn importance_code(i: Importance) -> u8 {
    match i {
        Importance::Off => 0,
        Importance::Min => 1,
        Importance::Low => 2,
        Importance::Default => 3,
        Importance::High => 4,
    }
}

/// Lock-screen visibility of a channel's notifications.
#[derive(Clone, Copy, Debug, PartialEq, Eq, Structural)]
pub enum Visibility {
    Secret,
    Private,
    Public,
}

pub open spec fn visibility_code(v: Visibility) -> int {
    match v {
        Visibility::Secret => -1,
        Visibility::Private => 0,
        Visibility::Public => 1,
    }
}

impl Visibility {
    /// The wire number: -1, 0 or 1.
    pub fn code(&self) -> (r: i8)
        ensures
            r as int == visibility_code(*self),
    {
        match self {
            Visibility::Secret => -1,
            Visibility::Private => 0,
            Visibility::Public => 1,
        }
    }

    pub fn from_code(code: i8) -> (r: Option<Visibility>)
        ensures
            r matches Some(v) ==> visibility_code(v) == code as int,
            r is None <==> (code < -1 || code > 1),
    {
        match code {
            -1 => Some(Visibility::Secret),
            0 => Some(Visibility::Private),
            1 => Some(Visibility::Public),
            _ => None,
        }
    }
}

/// A notification channel.
#[derive(Debug)]
pub struct Channel {
    pub id: String,
    pub name: String,
    pub description: Option<String>,
    pub sound: Option<String>,
    pub lights: Option<bool>,
    pub light_color: Option<String>,
    pub vibration: Option<bool>,
    pub importance: Option<Importance>,
    pub visibility: Option<Visibility>,
}

/// Assembles a [`Channel`].
#[derive(Debug)]
pub struct ChannelBuilder(pub Channel);

impl Channel {
    /// A builder for a channel with lights and vibration off and nothing
    /// else set; an unset importance reads as `Default`.
    pub fn builder(id: &str, name: &str) -> (r: ChannelBuilder)
        ensures
            r.0.id@ == id@,
            r.0.name@ == name@,
            r.0.description is None,
            r.0.sound is None,
            r.0.lights == Some(false),
            r.0.light_color is None,
            r.0.vibration == Some(false),
            r.0.importance is None,
            r.0.visibility is None,
    {
        ChannelBuilder(
            Channel {
                id: id.to_owned(),
                name: name.to_owned(),
                description: None,
                sound: None,
                lights: Some(false),
                light_color: None,
                vibration: Some(false),
                importance: None,
                visibility: None,
            },
        )
    }

    pub fn id(&self) -> (r: &str)
        ensures
            r@ == self.id@,
    {
        self.id.as_str()
    }

    pub fn name(&self) -> (r: &str)
        ensures
            r@ == self.name@,
    {
        self.name.as_str()
    }

    pub fn description(&self) -> (r: Option<&str>)
        ensures
            opt_str_text(r) == opt_text(self.description),
    {
        text_ref(&self.description)
    }

    pub fn sound(&self) -> (r: Option<&str>)
        ensures
            opt_str_text(r) == opt_text(self.sound),
    {
        text_ref(&self.sound)
    }

    /// Whether lights are on; off when unset.
    pub fn lights(&self) -> (r: bool)
        ensures
            r == (self.lights == Some(true)),
    {
        match self.lights {
            Some(on) => on,
            None => false,
        }
    }

    pub fn light_color(&self) -> (r: Option<&str>)
        ensures
            opt_str_text(r) == opt_text(self.light_color),
    {
        text_ref(&self.light_color)
    }

    /// Whether vibration is on; off when unset.
    pub fn vibration(&self) -> (r: bool)
        ensures
            r == (self.vibration == Some(true)),
    {
        match self.vibration {
            Some(on) => on,
            None => false,
        }
    }

    /// The importance; `Default` when unset.
    pub fn importance(&self) -> (r: Importance)
        ensures
            r == (match self.importance {
                Some(i) => i,
                None => Importance::Default,
            }),
    {
        match self.importance {
            Some(i) => i,
            None => Importance::default(),
        }
    }

    pub fn visibility(&self) -> (r: Option<Visibility>)
        ensures
            r == self.visibility,
    {
        self.visibility
    }
}

impl ChannelBuilder {
    pub fn description(self, description: &str) -> (r: ChannelBuilder)
        ensures
            r.0.description matches Some(d) && d@ == description@,
            r.0 == (Channel { description: r.0.description, ..self.0 }),
    {
        let mut b = self;
        b.0.description = Some(description.to_owned());
        b
    }

    pub fn sound(self, sound: &str) -> (r: ChannelBuilder)
        ensures
            r.0.sound matches Some(d) && d@ == sound@,
            r.0 == (Channel { sound: r.0.sound, ..self.0 }),
    {
        let mut b = self;
        b.0.sound = Some(sound.to_owned());
        b
    }

    pub fn lights(self, lights: bool) -> (r: ChannelBuilder)
        ensures
            r.0 == (Channel { lights: Some(lights), ..self.0 }),
    {
        let mut b = self;
        b.0.lights = Some(lights);
        b
    }

    pub fn light_color(self, color: &str) -> (r: ChannelBuilder)
        ensures
            r.0.light_color matches Some(d) && d@ == color@,
            r.0 == (Channel { light_color: r.0.light_color, ..self.0 }),
    {
        let mut b = self;
        b.0.light_color = Some(color.to_owned());
        b
    }

    pub fn vibration(self, vibration: bool) -> (r: ChannelBuilder)
        ensures
            r.0 == (Channel { vibration: Some(vibration), ..self.0 }),
    {
        let mut b = self;
        b.0.vibration = Some(vibration);
        b
    }

    pub fn importance(self, importance: Importance) -> (r: ChannelBuilder)
        ensures
            r.0 == (Channel { importance: Some(importance), ..self.0 }),
    {
        let mut b = self;
        b.0.importance = Some(importance);
        b
    }

    pub fn visibility(self, visibility: Visibility) -> (r: ChannelBuilder)
        ensures
            r.0 == (Channel { visibility: Some(visibility), ..self.0 }),
    {
        let mut b = self;
        b.0.visibility = Some(visibility);
        b
    }

    pub fn build(self) -> (r: Channel)
        ensures
            r == self.0,
    {
        self.0
    }
}

} // verus!
