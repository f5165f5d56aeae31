//! The decisions of the toast adapter: which action types are registered,
//! what a toast holds, how a shown notification is filed and reported, and
//! how native store entries are read back, cancelled and removed.
use crate::builder::NotificationsBuilder;
use crate::error::{Error, Result};
use crate::models::{
    copy_text, same_text, Action, ActionType, ActiveNotification, NotificationData,
    PendingNotification, PermissionState,
};
use crate::schedule::{
    fire_nanos, from_windows_ticks, in_time_range, nanos_of_ticks, out_of_range_message,
    schedule_to_datetime, ticks_of, Schedule,
};
use crate::tag::{digit_char, id_of_tag, int_text, lemma_parse_int_text, tag_for, tag_id};
use std::collections::HashMap;
use vstd::prelude::*;

verus! {

/// The action types in force after registering `types` in order: a later
/// registration of an id replaces an earlier one.
pub open spec fn registered(types: Seq<ActionType>) -> Map<Seq<char>, ActionType>
    decreases types.len(),
{
    if types.len() == 0 {
        Map::empty()
    } else {
        registered(types.drop_last()).insert(types.last().id@, types.last())
    }
}

proof fn lemma_registered_prefix(types: Seq<ActionType>, i: int, key: Seq<char>)
    requires
        0 <= i <= types.len(),
        forall|j: int| i <= j < types.len() ==> types[j].id@ != key,
    ensures
        registered(types).contains_key(key) == registered(types.subrange(0, i)).contains_key(key),
        registered(types).contains_key(key) ==> registered(types)[key] == registered(
            types.subrange(0, i),
        )[key],
    decreases types.len(),
{
    if types.len() == i {
        assert(types.subrange(0, i) =~= types);
    } else {
        let shorter = types.drop_last();
        lemma_registered_prefix(shorter, i, key);
        assert(shorter.subrange(0, i) =~= types.subrange(0, i));
    }
}

/// `registry` after registering `types` in order: a later registration of
/// an id replaces an earlier one.
pub open spec fn with_types(registry: Map<Seq<char>, ActionType>, types: Seq<ActionType>) -> Map<
    Seq<char>,
    ActionType,
>
    decreases types.len(),
{
    if types.len() == 0 {
        registry
    } else {
        with_types(registry, types.drop_last()).insert(types.last().id@, types.last())
    }
}

/// Whether no two entries of `types` share an id.
pub open spec fn unique_ids(types: Seq<ActionType>) -> bool {
    forall|i: int, j: int|
        0 <= i < types.len() && 0 <= j < types.len() && i != j ==> types[i].id@ != types[j].id@
}

proof fn lemma_registered_update(types: Seq<ActionType>, i: int, t: ActionType)
    requires
        unique_ids(types),
        0 <= i < types.len(),
        types[i].id@ == t.id@,
    ensures
        registered(types.update(i, t)) == registered(types).insert(t.id@, t),
    decreases types.len(),
{
    let updated = types.update(i, t);
    if i == types.len() - 1 {
        assert(updated.drop_last() =~= types.drop_last());
        assert(registered(updated) =~= registered(types).insert(t.id@, t));
    } else {
        let shorter = types.drop_last();
        assert(unique_ids(shorter));
        lemma_registered_update(shorter, i, t);
        assert(updated.drop_last() =~= shorter.update(i, t));
        assert(types.last().id@ != t.id@);
        assert(registered(updated) =~= registered(types).insert(t.id@, t));
    }
}

/// The adapter state shared by every request: the application id, the
/// registered action types and whether activations are reported.
#[derive(Debug)]
pub struct WindowsPlugin {
    app_id: String,
    action_types: Vec<ActionType>,
    click_listener_active: bool,
}

impl WindowsPlugin {
    /// The action types in force, by id.
    pub open spec fn registry(&self) -> Map<Seq<char>, ActionType> {
        registered(self.registrations())
    }

    /// The registered action types, one per id.
    pub closed spec fn registrations(&self) -> Seq<ActionType> {
        self.action_types@
    }

    /// No two registrations share an id.
    pub closed spec fn well_formed(&self) -> bool {
        unique_ids(self.action_types@)
    }

    pub closed spec fn listening(&self) -> bool {
        self.click_listener_active
    }

    /// The application id, under which the toast history is kept.
    pub closed spec fn app(&self) -> String {
        self.app_id
    }

    pub fn app_id(&self) -> (r: &str)
        ensures
            r@ == self.app()@,
    {
        self.app_id.as_str()
    }

    /// A plugin with no action type and activations not reported.
    pub fn new(app_id: String) -> (r: WindowsPlugin)
        ensures
            r.app() == app_id,
            r.well_formed(),
            r.registry() == Map::<Seq<char>, ActionType>::empty(),
            !r.listening(),
    {
        let action_types: Vec<ActionType> = Vec::new();
        WindowsPlugin { app_id, action_types, click_listener_active: false }
    }

    fn register_one(&mut self, t: ActionType)
        requires
            old(self).well_formed(),
        ensures
            final(self).well_formed(),
            final(self).registry() == old(self).registry().insert(t.id@, t),
            final(self).listening() == old(self).listening(),
            final(self).app() == old(self).app(),
    {
        let mut i: usize = 0;
        while i < self.action_types.len()
            invariant
                *self == *old(self),
                i <= self.action_types@.len(),
                unique_ids(self.action_types@),
                forall|j: int| 0 <= j < i ==> self.action_types@[j].id@ != t.id@,
            decreases self.action_types@.len() - i,
        {
            if same_text(self.action_types[i].id.as_str(), t.id.as_str()) {
                proof {
                    lemma_registered_update(self.action_types@, i as int, t);
                    assert(unique_ids(self.action_types@.update(i as int, t)));
                }
                self.action_types.set(i, t);
                return;
            }
            i = i + 1;
        }
        proof {
            let s = self.action_types@;
            assert(unique_ids(s.push(t)));
            assert(s.push(t).drop_last() =~= s);
        }
        self.action_types.push(t);
    }

    /// Registers `types` in order; an id registered again is replaced.
    pub fn register_action_types(&mut self, types: Vec<ActionType>)
        requires
            old(self).well_formed(),
        ensures
            final(self).well_formed(),
            final(self).registry() == with_types(old(self).registry(), types@),
            final(self).listening() == old(self).listening(),
            final(self).app() == old(self).app(),
    {
        let ghost all = types@;
        let n = types.len();
        let mut rest = types;
        let mut k: usize = 0;
        while rest.len() > 0
            invariant
                k <= all.len(),
                all.len() == n,
                rest@ == all.subrange(k as int, all.len() as int),
                self.well_formed(),
                self.registry() == with_types(old(self).registry(), all.subrange(0, k as int)),
                self.listening() == old(self).listening(),
                self.app() == old(self).app(),
            decreases rest@.len(),
        {
            assert(rest@.len() == all.len() - k);
            let t = rest.remove(0);
            proof {
                assert(all.subrange(0, k + 1).drop_last() =~= all.subrange(0, k as int));
                assert(rest@ =~= all.subrange(k + 1, all.len() as int));
            }
            self.register_one(t);
            k = k + 1;
        }
        assert(all.subrange(0, k as int) =~= all);
    }

    /// The action type registered under `id`.
    pub fn action_type(&self, id: &str) -> (r: Option<&ActionType>)
        ensures
            r is Some <==> self.registry().contains_key(id@),
            r matches Some(t) ==> *t == self.registry()[id@],
    {
        let mut i: usize = self.action_types.len();
        while i > 0
            invariant
                i <= self.action_types@.len(),
                forall|j: int| i <= j < self.action_types@.len() ==> self.action_types@[j].id@ != id@,
            decreases i,
        {
            i = i - 1;
            if same_text(self.action_types[i].id.as_str(), id) {
                proof {
                    let s = self.action_types@;
                    lemma_registered_prefix(s, i + 1, id@);
                    assert(s.subrange(0, i + 1).drop_last() =~= s.subrange(0, i as int));
                }
                return Some(&self.action_types[i]);
            }
        }
        proof {
            lemma_registered_prefix(self.action_types@, 0, id@);
        }
        None
    }

    pub fn is_click_listener_active(&self) -> (r: bool)
        ensures
            r == self.listening(),
    {
        self.click_listener_active
    }

    pub fn set_click_listener(&mut self, active: bool)
        ensures
            final(self).listening() == active,
            final(self).well_formed() == old(self).well_formed(),
            final(self).registry() == old(self).registry(),
            final(self).app() == old(self).app(),
    {
        self.click_listener_active = active;
    }
}

/// One button of a toast.
#[derive(Debug)]
pub struct ToastAction {
    /// The button's label.
    pub content: String,
    /// What an activation through the button reports.
    pub arguments: String,
    /// Whether the button brings the application to the foreground.
    pub foreground: bool,
}

/// What a toast shows.
#[derive(Debug)]
pub struct ToastContent {
    /// Text lines: the title, the body and the large body, those that are set.
    pub texts: Vec<String>,
    /// The image that replaces the application logo.
    pub image: Option<String>,
    /// The button row; absent when no registered action type is referenced.
    pub actions: Option<Vec<ToastAction>>,
    /// Whether the toast plays no sound.
    pub silent: bool,
}

pub open spec fn opt_seq(o: Option<String>) -> Seq<String> {
    match o {
        Some(s) => seq![s],
        None => Seq::empty(),
    }
}

/// The text lines of a toast for `data`.
pub open spec fn toast_texts(data: NotificationData) -> Seq<String> {
    opt_seq(data.title) + opt_seq(data.body) + opt_seq(data.large_body)
}

/// Whether `buttons` are the buttons of `actions`, one for one.
pub open spec fn buttons_of(buttons: Seq<ToastAction>, actions: Seq<Action>) -> bool {
    &&& buttons.len() == actions.len()
    &&& forall|i: int|
        0 <= i < buttons.len() ==> {
            &&& (#[trigger] buttons[i]).content@ == actions[i].title@
            &&& buttons[i].arguments@ == actions[i].id@
            &&& buttons[i].foreground == actions[i].foreground
        }
}

/// Whether `toast` is the toast for `data` under the action types `registry`.
pub open spec fn is_toast_for(
    toast: ToastContent,
    data: NotificationData,
    registry: Map<Seq<char>, ActionType>,
) -> bool {
    &&& toast.texts@ == toast_texts(data)
    &&& toast.image == data.icon
    &&& toast.silent == data.silent
    &&& match data.action_type_id {
        Some(k) if registry.contains_key(k@) => toast.actions matches Some(b) && buttons_of(
            b@,
            registry[k@].actions@,
        ),
        _ => toast.actions is None,
    }
}

fn buttons(actions: &Vec<Action>) -> (r: Vec<ToastAction>)
    ensures
        buttons_of(r@, actions@),
{
    let mut r: Vec<ToastAction> = Vec::new();
    let mut i: usize = 0;
    while i < actions.len()
        invariant
            i <= actions@.len(),
            buttons_of(r@, actions@.subrange(0, i as int)),
        decreases actions@.len() - i,
    {
        let a = &actions[i];
        r.push(
            ToastAction {
                content: a.title.clone(),
                arguments: a.id.clone(),
                foreground: a.foreground,
            },
        );
        i = i + 1;
        assert(actions@.subrange(0, i as int).drop_last() =~= actions@.subrange(0, i - 1));
    }
    assert(actions@.subrange(0, i as int) =~= actions@);
    r
}

/// The projection of `data` that activation and show events carry.
pub open spec fn is_projection_of(n: ActiveNotification, data: NotificationData) -> bool {
    &&& n.id == data.id
    &&& n.tag matches Some(t) && t@ == int_text(data.id as int)
    &&& n.title == data.title
    &&& n.body == data.body
    &&& n.group == data.group
    &&& n.group_summary == data.group_summary
    &&& n.data@ == Map::<String, String>::empty()
    &&& n.extra == data.extra
    &&& n.attachments == data.attachments
    &&& n.action_type_id == data.action_type_id
    &&& n.schedule == data.schedule
    &&& n.sound == data.sound
}

/// How a notification is handed to the toast notifier.
#[derive(Debug)]
pub struct ToastRequest {
    pub content: ToastContent,
    /// The native tag: the id in decimal.
    pub tag: String,
    pub group: Option<String>,
    /// Delivery time in ticks since 1601-01-01 for a scheduled toast; `None`
    /// shows it at once.
    pub delivery: Option<i64>,
    /// Whether activations of the toast are to be reported.
    pub watch_activation: bool,
    /// The projection that the show event and activation events carry.
    pub notification: ActiveNotification,
}

impl NotificationsBuilder {
    /// The toast for the request under the plugin's action types. An
    /// action type id that is not registered leaves the button row out.
    pub fn build_toast(&self, plugin: &WindowsPlugin) -> (r: ToastContent)
        ensures
            is_toast_for(r, self.data, plugin.registry()),
    {
        let data = &self.data;
        let mut texts: Vec<String> = Vec::new();
        if let Some(title) = &data.title {
            texts.push(title.clone());
        }
        if let Some(body) = &data.body {
            texts.push(body.clone());
        }
        if let Some(large_body) = &data.large_body {
            texts.push(large_body.clone());
        }
        assert(texts@ =~= toast_texts(*data));
        let actions = match &data.action_type_id {
            Some(k) => match plugin.action_type(k.as_str()) {
                Some(t) => Some(buttons(&t.actions)),
                None => None,
            },
            None => None,
        };
        ToastContent { texts, image: copy_text(&data.icon), actions, silent: data.silent }
    }

    /// Prepares the request for the toast notifier: its content, tag and
    /// group, its delivery time when scheduled, and whether its activations
    /// are reported (only for a toast shown at once, while the click
    /// listener is on).
    pub fn prepare_show(self, plugin: &WindowsPlugin) -> (r: Result<ToastRequest>)
        ensures
            r matches Ok(q) ==> {
                &&& is_toast_for(q.content, self.data, plugin.registry())
                &&& q.tag@ == int_text(self.data.id as int)
                &&& tag_id(q.tag@) == Some(self.data.id)
                &&& q.group == self.data.group
                &&& (q.delivery is None <==> self.data.schedule is None)
                &&& q.watch_activation == (self.data.schedule is None && plugin.listening())
                &&& is_projection_of(q.notification, self.data)
            },
            self.data.schedule matches Some(Schedule::At { date, .. }) ==> r matches Ok(q)
                && q.delivery == Some(ticks_of(date@) as i64),
            self.data.schedule is None ==> r is Ok,
            r matches Ok(q) ==> (q.delivery matches Some(ticks) ==> exists|now: int|
                in_time_range(now) && in_time_range(fire_nanos(self.data.schedule->Some_0, now))
                    && ticks as int == ticks_of(fire_nanos(self.data.schedule->Some_0, now))),
            r matches Err(e) ==> e matches Error::Io(m) && m@
                == out_of_range_message(),
            r is Err ==> self.data.schedule is Some && exists|now: int|
                in_time_range(now) && !in_time_range(fire_nanos(self.data.schedule->Some_0, now)),
    {
        let content = self.build_toast(plugin);
        let delivery = match &self.data.schedule {
            Some(s) => match schedule_to_datetime(s) {
                Ok(ticks) => Some(ticks),
                Err(e) => {
                    return Err(e);
                },
            },
            None => None,
        };
        let watch_activation = delivery.is_none() && plugin.is_click_listener_active();
        let data = self.data;
        let tag = tag_for(data.id);
        let notification = ActiveNotification {
            id: data.id,
            tag: Some(tag.clone()),
            title: data.title,
            body: data.body,
            group: copy_text(&data.group),
            group_summary: data.group_summary,
            data: HashMap::new(),
            extra: data.extra,
            attachments: data.attachments,
            action_type_id: data.action_type_id,
            schedule: data.schedule,
            sound: data.sound,
        };
        Ok(ToastRequest { content, tag, group: data.group, delivery, watch_activation, notification })
    }
}

/// What an activation of a toast reports.
#[derive(Debug)]
pub struct Activation {
    /// The action id: the activation's arguments, or `tap` for a bare click.
    pub action_id: String,
    /// Whether a separate click event is due: only for a bare click.
    pub clicked: bool,
}

pub open spec fn activation_action_id(arguments: Seq<char>) -> Seq<char> {
    if arguments.len() == 0 {
        "tap"@
    } else {
        arguments
    }
}

/// Decides what an activation with `arguments` reports: an action event
/// always, and a click event when the activation carried no arguments.
pub fn on_activated(arguments: &str) -> (r: Activation)
    ensures
        r.action_id@ == activation_action_id(arguments@),
        r.clicked == (arguments@.len() == 0),
{
    if arguments.is_empty() {
        Activation { action_id: "tap".to_owned(), clicked: true }
    } else {
        Activation { action_id: arguments.to_owned(), clicked: false }
    }
}

/// The id that a native tag yields on enumeration: its value, or 0 when it
/// is not the decimal text of an `i32`.
pub open spec fn enumerated_id(tag: Seq<char>) -> i32 {
    match tag_id(tag) {
        Some(id) => id,
        None => 0,
    }
}

pub open spec fn text_at(texts: Seq<String>, i: int) -> Option<String> {
    if 0 <= i < texts.len() {
        Some(texts[i])
    } else {
        None
    }
}

fn copy_text_at(texts: &Vec<String>, i: usize) -> (r: Option<String>)
    ensures
        r == text_at(texts@, i as int),
{
    if i < texts.len() {
        Some(texts[i].clone())
    } else {
        None
    }
}

fn id_or_zero(tag: &str) -> (r: i32)
    ensures
        r == enumerated_id(tag@),
{
    match id_of_tag(tag) {
        Some(id) => id,
        None => 0,
    }
}

/// Rebuilds a delivered notification from a toast history entry: its tag,
/// its group, and the text lines of its content (empty when the content
/// cannot be read). The first line is the title, the second the body; what
/// the history does not keep is left empty.
pub fn active_from_native(tag: String, group: Option<String>, texts: &Vec<String>) -> (r:
    ActiveNotification)
    ensures
        r.id == enumerated_id(tag@),
        r.tag == Some(tag),
        r.title == text_at(texts@, 0),
        r.body == text_at(texts@, 1),
        r.group == group,
        !r.group_summary,
        r.data@ == Map::<String, String>::empty(),
        r.extra@ == Map::<String, serde_json::Value>::empty(),
        r.attachments@.len() == 0,
        r.action_type_id is None,
        r.schedule is None,
        r.sound is None,
{
    ActiveNotification {
        id: id_or_zero(tag.as_str()),
        title: copy_text_at(texts, 0),
        body: copy_text_at(texts, 1),
        tag: Some(tag),
        group,
        group_summary: false,
        data: HashMap::new(),
        extra: HashMap::new(),
        attachments: Vec::new(),
        action_type_id: None,
        schedule: None,
        sound: None,
    }
}

/// Rebuilds a scheduled notification from a scheduled toast: its tag, the
/// text lines of its content and its delivery time in ticks. A toast whose
/// delivery time is unknown or not a representable instant is left out.
pub fn pending_from_native(tag: &str, texts: &Vec<String>, delivery: Option<i64>) -> (r: Option<
    PendingNotification,
>)
    ensures
        r is Some <==> (delivery matches Some(ticks) && in_time_range(
            nanos_of_ticks(ticks as int),
        )),
        r matches Some(p) ==> {
            &&& p.id == enumerated_id(tag@)
            &&& p.title == text_at(texts@, 0)
            &&& p.body == text_at(texts@, 1)
            &&& p.schedule matches Schedule::At { date, repeating, allow_while_idle } && date@
                == nanos_of_ticks(delivery->Some_0 as int) && !repeating && !allow_while_idle
        },
{
    let date = match delivery {
        Some(ticks) => from_windows_ticks(ticks),
        None => None,
    };
    match date {
        Some(date) => Some(
            PendingNotification {
                id: id_or_zero(tag),
                title: copy_text_at(texts, 0),
                body: copy_text_at(texts, 1),
                schedule: Schedule::At { date, repeating: false, allow_while_idle: false },
            },
        ),
        None => None,
    }
}

/// Whether cancelling `ids` removes the scheduled toast tagged `tag`.
pub open spec fn cancels(tag: Seq<char>, ids: Seq<i32>) -> bool {
    tag_id(tag) matches Some(id) && ids.contains(id)
}

/// The tags of the scheduled toasts that remain after cancelling `ids`.
pub open spec fn after_cancel(store: Seq<Seq<char>>, ids: Seq<i32>) -> Seq<Seq<char>>
    decreases store.len(),
{
    if store.len() == 0 {
        store
    } else if cancels(store.last(), ids) {
        after_cancel(store.drop_last(), ids)
    } else {
        after_cancel(store.drop_last(), ids).push(store.last())
    }
}

proof fn lemma_after_cancel_keeps_none(store: Seq<Seq<char>>, ids: Seq<i32>)
    ensures
        forall|i: int|
            0 <= i < after_cancel(store, ids).len() ==> !cancels(
                #[trigger] after_cancel(store, ids)[i],
                ids,
            ),
    decreases store.len(),
{
    if store.len() > 0 {
        let rest = after_cancel(store.drop_last(), ids);
        lemma_after_cancel_keeps_none(store.drop_last(), ids);
        if !cancels(store.last(), ids) {
            let r = rest.push(store.last());
            assert forall|i: int| 0 <= i < r.len() implies !cancels(#[trigger] r[i], ids) by {
                if i < rest.len() {
                    assert(r[i] == rest[i]);
                }
            }
        }
    }
}

proof fn lemma_after_cancel_of_kept(store: Seq<Seq<char>>, ids: Seq<i32>)
    requires
        forall|i: int| 0 <= i < store.len() ==> !cancels(#[trigger] store[i], ids),
    ensures
        after_cancel(store, ids) == store,
    decreases store.len(),
{
    if store.len() > 0 {
        lemma_after_cancel_of_kept(store.drop_last(), ids);
        assert(store.drop_last().push(store.last()) =~= store);
    }
}

/// Cancelling the same ids a second time finds nothing to remove and
/// leaves the scheduled toasts as the first cancel left them.
pub proof fn lemma_cancel_idempotent(store: Seq<Seq<char>>, ids: Seq<i32>)
    ensures
        forall|i: int|
            0 <= i < after_cancel(store, ids).len() ==> !cancels(
                #[trigger] after_cancel(store, ids)[i],
                ids,
            ),
        after_cancel(after_cancel(store, ids), ids) == after_cancel(store, ids),
{
    lemma_after_cancel_keeps_none(store, ids);
    lemma_after_cancel_of_kept(after_cancel(store, ids), ids);
}

/// A toast filed under the tag of `id` is removed by every cancel whose
/// ids include `id`, whichever request showed it.
pub proof fn lemma_tag_cancelled_by_id(id: i32, ids: Seq<i32>)
    requires
        ids.contains(id),
    ensures
        cancels(int_text(id as int), ids),
{
    lemma_parse_int_text(id);
}

fn contains_id(ids: &Vec<i32>, id: i32) -> (r: bool)
    ensures
        r == ids@.contains(id),
{
    let mut i: usize = 0;
    while i < ids.len()
        invariant
            i <= ids@.len(),
            forall|j: int| 0 <= j < i ==> ids@[j] != id,
        decreases ids@.len() - i,
    {
        if ids[i] == id {
            return true;
        }
        i = i + 1;
    }
    false
}

/// For each scheduled toast, by tag, whether cancelling `ids` removes it.
/// An id that no toast carries is no error: it selects nothing.
pub fn cancel_selection(tags: &Vec<String>, ids: &Vec<i32>) -> (r: Vec<bool>)
    ensures
        r@.len() == tags@.len(),
        forall|i: int| 0 <= i < tags@.len() ==> r@[i] == cancels(#[trigger] tags@[i]@, ids@),
{
    let mut r: Vec<bool> = Vec::new();
    let mut i: usize = 0;
    while i < tags.len()
        invariant
            i <= tags@.len(),
            r@.len() == i,
            forall|j: int| 0 <= j < i ==> r@[j] == cancels(#[trigger] tags@[j]@, ids@),
        decreases tags@.len() - i,
    {
        let selected = match id_of_tag(tags[i].as_str()) {
            Some(id) => contains_id(ids, id),
            None => false,
        };
        r.push(selected);
        i = i + 1;
    }
    r
}

/// The history tags under which the notifications `ids` were shown.
pub fn tags_for_ids(ids: &Vec<i32>) -> (r: Vec<String>)
    ensures
        r@.len() == ids@.len(),
        forall|i: int| 0 <= i < ids@.len() ==> (#[trigger] r@[i])@ == int_text(ids@[i] as int),
{
    let mut r: Vec<String> = Vec::new();
    let mut i: usize = 0;
    while i < ids.len()
        invariant
            i <= ids@.len(),
            r@.len() == i,
            forall|j: int| 0 <= j < i ==> (#[trigger] r@[j])@ == int_text(ids@[j] as int),
        decreases ids@.len() - i,
    {
        r.push(tag_for(ids[i]));
        i = i + 1;
    }
    r
}

/// The notifier's setting for the application.
#[derive(Clone, Copy, Debug, PartialEq, Eq, Structural)]
pub enum NotificationSetting {
    Enabled,
    DisabledForApplication,
    DisabledForUser,
    DisabledByGroupPolicy,
    DisabledByManifest,
    /// A setting this adapter does not know.
    Unknown,
}

pub open spec fn permission_of_setting(setting: NotificationSetting) -> PermissionState {
    match setting {
        NotificationSetting::Enabled => PermissionState::Granted,
        NotificationSetting::Unknown => PermissionState::Prompt,
        _ => PermissionState::Denied,
    }
}

/// The permission state that a notifier setting stands for.
pub fn permission_from_setting(setting: NotificationSetting) -> (r: PermissionState)
    ensures
        r == permission_of_setting(setting),
{
    match setting {
        NotificationSetting::Enabled => PermissionState::Granted,
        NotificationSetting::DisabledForApplication
        | NotificationSetting::DisabledForUser
        | NotificationSetting::DisabledByGroupPolicy
        | NotificationSetting::DisabledByManifest => PermissionState::Denied,
        NotificationSetting::Unknown => PermissionState::Prompt,
    }
}

pub open spec fn upper_hex_char(d: int) -> char {
    if d < 10 {
        digit_char(d)
    } else if d == 10 {
        'A'
    } else if d == 11 {
        'B'
    } else if d == 12 {
        'C'
    } else if d == 13 {
        'D'
    } else if d == 14 {
        'E'
    } else {
        'F'
    }
}

/// The last `width` upper-case hexadecimal digits of `n`, zero-padded.
pub open spec fn upper_hex(n: nat, width: nat) -> Seq<char>
    decreases width,
{
    if width == 0 {
        Seq::empty()
    } else {
        upper_hex(n / 16, (width - 1) as nat).push(upper_hex_char((n % 16) as int))
    }
}

/// The 32 bits of a status code, read as unsigned.
pub open spec fn status_bits(code: i32) -> nat {
    if code < 0 {
        (code + 0x1_0000_0000) as nat
    } else {
        code as nat
    }
}

/// How a native status code is shown: `0x` and eight upper-case hex digits.
pub open spec fn status_text(code: i32) -> Seq<char> {
    "0x"@ + upper_hex(status_bits(code), 8)
}

/// Relies on std's formatting of `{:08X}`: an `i32` as the eight upper-case
/// hexadecimal digits of its two's-complement bits.
#[verifier::external_body]
fn format_status(code: i32) -> (r: String)
    ensures
        r@ == status_text(code),
{
    format!("0x{:08X}", code)
}

/// The error for a failed toast API call with status `code` and `message`.
pub fn native_error(code: i32, message: String) -> (r: Error)
    ensures
        r matches Error::InvokeRejected { code: Some(c), message: Some(m) } && c@ == status_text(
            code,
        ) && m == message,
{
    Error::InvokeRejected { code: Some(format_status(code)), message: Some(message) }
}

} // verus!
