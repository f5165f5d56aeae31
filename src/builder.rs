//! The chained configuration façade that assembles a notification request.
use crate::models::{is_blank, Attachment, NotificationData};
use crate::schedule::Schedule;
use vstd::std_specs::hash::obeys_key_model;
use vstd::prelude::*;

verus! {

/// Collects the fields of a notification before it is shown.
#[derive(Debug)]
pub struct NotificationsBuilder {
    pub data: NotificationData,
}

impl NotificationsBuilder {
    /// A builder over a blank request with a fresh non-zero id.
    pub fn new() -> (r: NotificationsBuilder)
        ensures
            r.data.id != 0,
            is_blank(r.data),
    {
        NotificationsBuilder { data: NotificationData::default() }
    }

    /// Sets the notification identifier.
    pub fn id(self, id: i32) -> (r: NotificationsBuilder)
        ensures
            r.data == (NotificationData { id: id, ..self.data }),
    {
        let mut b = self;
        b.data.id = id;
        b
    }

    /// The channel that delivers the notification; it does not fire if that channel does not exist.
    pub fn channel_id(self, channel_id: &str) -> (r: NotificationsBuilder)
        ensures
            r.data.channel_id matches Some(v) && v@ == channel_id@,
            r.data == (NotificationData { channel_id: r.data.channel_id, ..self.data }),
    {
        let mut b = self;
        b.data.channel_id = Some(channel_id.to_owned());
        b
    }

    /// Sets the notification title.
    pub fn title(self, title: &str) -> (r: NotificationsBuilder)
        ensures
            r.data.title matches Some(v) && v@ == title@,
            r.data == (NotificationData { title: r.data.title, ..self.data }),
    {
        let mut b = self;
        b.data.title = Some(title.to_owned());
        b
    }

    /// Sets the notification body.
    pub fn body(self, body: &str) -> (r: NotificationsBuilder)
        ensures
            r.data.body matches Some(v) && v@ == body@,
            r.data == (NotificationData { body: r.data.body, ..self.data }),
    {
        let mut b = self;
        b.data.body = Some(body.to_owned());
        b
    }

    /// Fires the notification at a later time or at a fixed interval.
    pub fn schedule(self, schedule: Schedule) -> (r: NotificationsBuilder)
        ensures
            r.data == (NotificationData { schedule: Some(schedule), ..self.data }),
    {
        let mut b = self;
        b.data.schedule = Some(schedule);
        b
    }

    /// Multi-line text in the big-text style; it takes precedence over inbox lines.
    pub fn large_body(self, large_body: &str) -> (r: NotificationsBuilder)
        ensures
            r.data.large_body matches Some(v) && v@ == large_body@,
            r.data == (NotificationData { large_body: r.data.large_body, ..self.data }),
    {
        let mut b = self;
        b.data.large_body = Some(large_body.to_owned());
        b
    }

    /// Detail text shown with the large body, the inbox lines or a group summary.
    pub fn summary(self, summary: &str) -> (r: NotificationsBuilder)
        ensures
            r.data.summary matches Some(v) && v@ == summary@,
            r.data == (NotificationData { summary: r.data.summary, ..self.data }),
    {
        let mut b = self;
        b.data.summary = Some(summary.to_owned());
        b
    }

    /// The registered action type whose buttons the notification shows.
    pub fn action_type_id(self, action_type_id: &str) -> (r: NotificationsBuilder)
        ensures
            r.data.action_type_id matches Some(v) && v@ == action_type_id@,
            r.data == (NotificationData { action_type_id: r.data.action_type_id, ..self.data }),
    {
        let mut b = self;
        b.data.action_type_id = Some(action_type_id.to_owned());
        b
    }

    /// Groups the notification with others of the same group.
    pub fn group(self, group: &str) -> (r: NotificationsBuilder)
        ensures
            r.data.group matches Some(v) && v@ == group@,
            r.data == (NotificationData { group: r.data.group, ..self.data }),
    {
        let mut b = self;
        b.data.group = Some(group.to_owned());
        b
    }

    /// Marks the notification as the summary of its group.
    pub fn group_summary(self) -> (r: NotificationsBuilder)
        ensures
            r.data == (NotificationData { group_summary: true, ..self.data }),
    {
        let mut b = self;
        b.data.group_summary = true;
        b
    }

    /// The sound resource name.
    pub fn sound(self, sound: &str) -> (r: NotificationsBuilder)
        ensures
            r.data.sound matches Some(v) && v@ == sound@,
            r.data == (NotificationData { sound: r.data.sound, ..self.data }),
    {
        let mut b = self;
        b.data.sound = Some(sound.to_owned());
        b
    }

    /// Appends an inbox line, in the inbox style (up to five are shown).
    pub fn inbox_line(self, line: &str) -> (r: NotificationsBuilder)
        ensures
            r.data.inbox_lines@.len() == self.data.inbox_lines@.len() + 1,
            r.data.inbox_lines@.drop_last() == self.data.inbox_lines@,
            r.data.inbox_lines@.last()@ == line@,
            r.data == (NotificationData { inbox_lines: r.data.inbox_lines, ..self.data }),
    {
        let mut b = self;
        b.data.inbox_lines.push(line.to_owned());
        assert(b.data.inbox_lines@.drop_last() =~= self.data.inbox_lines@);
        b
    }

    /// The notification icon.
    pub fn icon(self, icon: &str) -> (r: NotificationsBuilder)
        ensures
            r.data.icon matches Some(v) && v@ == icon@,
            r.data == (NotificationData { icon: r.data.icon, ..self.data }),
    {
        let mut b = self;
        b.data.icon = Some(icon.to_owned());
        b
    }

    /// The large icon.
    pub fn large_icon(self, large_icon: &str) -> (r: NotificationsBuilder)
        ensures
            r.data.large_icon matches Some(v) && v@ == large_icon@,
            r.data == (NotificationData { large_icon: r.data.large_icon, ..self.data }),
    {
        let mut b = self;
        b.data.large_icon = Some(large_icon.to_owned());
        b
    }

    /// The icon color.
    pub fn icon_color(self, icon_color: &str) -> (r: NotificationsBuilder)
        ensures
            r.data.icon_color matches Some(v) && v@ == icon_color@,
            r.data == (NotificationData { icon_color: r.data.icon_color, ..self.data }),
    {
        let mut b = self;
        b.data.icon_color = Some(icon_color.to_owned());
        b
    }

    /// Appends an attachment.
    pub fn attachment(self, attachment: Attachment) -> (r: NotificationsBuilder)
        ensures
            r.data.attachments@ == self.data.attachments@.push(attachment),
            r.data == (NotificationData { attachments: r.data.attachments, ..self.data }),
    {
        let mut b = self;
        b.data.attachments.push(attachment);
        b
    }

    /// Stores `value` under `key` in the extra payload, replacing what was there.
    pub fn extra(self, key: &str, value: serde_json::Value) -> (r: NotificationsBuilder)
        ensures
            obeys_key_model::<String>() ==> exists|k: String|
                k@ == key@ && r.data.extra@ == self.data.extra@.insert(k, value),
            r.data == (NotificationData { extra: r.data.extra, ..self.data }),
    {
        let mut b = self;
        let k = key.to_owned();
        b.data.extra.insert(k, value);
        b
    }

    /// Makes the notification impossible for the user to dismiss.
    pub fn ongoing(self) -> (r: NotificationsBuilder)
        ensures
            r.data == (NotificationData { ongoing: true, ..self.data }),
    {
        let mut b = self;
        b.data.ongoing = true;
        b
    }

    /// Dismisses the notification when the user clicks it.
    pub fn auto_cancel(self) -> (r: NotificationsBuilder)
        ensures
            r.data == (NotificationData { auto_cancel: true, ..self.data }),
    {
        let mut b = self;
        b.data.auto_cancel = true;
        b
    }

    /// Presents the notification without sound, badge or listing.
    pub fn silent(self) -> (r: NotificationsBuilder)
        ensures
            r.data == (NotificationData { silent: true, ..self.data }),
    {
        let mut b = self;
        b.data.silent = true;
        b
    }
}

} // verus!
