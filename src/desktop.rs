//! The desktop adapter's notification, handed to the notification daemon.
use crate::builder::NotificationsBuilder;
use crate::ffi::{ends_with, has_suffix};
use crate::models::copy_text;
use vstd::prelude::*;

verus! {

/// A desktop notification.
#[derive(Debug)]
pub struct Notification {
    pub body: Option<String>,
    pub title: Option<String>,
    pub icon: Option<String>,
    /// The application identifier.
    pub identifier: String,
}

impl Notification {
    /// A notification with nothing but its application identifier.
    pub fn new(identifier: &str) -> (r: Notification)
        ensures
            r.identifier@ == identifier@,
            r.body is None,
            r.title is None,
            r.icon is None,
    {
        Notification { body: None, title: None, icon: None, identifier: identifier.to_owned() }
    }

    pub fn body(self, body: &str) -> (r: Notification)
        ensures
            r.body matches Some(b) && b@ == body@,
            r == (Notification { body: r.body, ..self }),
    {
        let mut n = self;
        n.body = Some(body.to_owned());
        n
    }

    pub fn title(self, title: &str) -> (r: Notification)
        ensures
            r.title matches Some(t) && t@ == title@,
            r == (Notification { title: r.title, ..self }),
    {
        let mut n = self;
        n.title = Some(title.to_owned());
        n
    }

    pub fn icon(self, icon: &str) -> (r: Notification)
        ensures
            r.icon matches Some(i) && i@ == icon@,
            r == (Notification { icon: r.icon, ..self }),
    {
        let mut n = self;
        n.icon = Some(icon.to_owned());
        n
    }
}

/// The tail of an executable directory inside a build tree: the separator,
/// `target`, the separator and the profile name.
pub open spec fn build_tree_tail(separator: Seq<char>, profile: Seq<char>) -> Seq<char> {
    separator + "target"@ + separator + profile
}

fn build_tree_tail_text(separator: &str, profile: &str) -> (r: String)
    ensures
        r@ == build_tree_tail(separator@, profile@),
{
    let mut t = separator.to_owned();
    t.append("target");
    t.append(separator);
    t.append(profile);
    t
}

/// Whether the notification is tagged with the application identifier: only
/// for an installed application, not one run from a `target/debug` or
/// `target/release` build directory (`exe_dir`, with path separator
/// `separator`).
pub fn sets_app_id(exe_dir: &str, separator: &str) -> (r: bool)
    ensures
        r == !(has_suffix(exe_dir@, build_tree_tail(separator@, "debug"@)) || has_suffix(
            exe_dir@,
            build_tree_tail(separator@, "release"@),
        )),
{
    let debug = build_tree_tail_text(separator, "debug");
    let release = build_tree_tail_text(separator, "release");
    !(ends_with(exe_dir, debug.as_str()) || ends_with(exe_dir, release.as_str()))
}

impl NotificationsBuilder {
    /// The desktop notification for this request: the application's
    /// identifier, its title or else the product name, its body and icon.
    pub fn desktop_notification(self, identifier: &str, product_name: &Option<String>) -> (r:
        Notification)
        ensures
            r.identifier@ == identifier@,
            r.title == (if self.data.title is Some {
                self.data.title
            } else {
                *product_name
            }),
            r.body == self.data.body,
            r.icon == self.data.icon,
    {
        let title = match self.data.title {
            Some(t) => Some(t),
            None => copy_text(product_name),
        };
        Notification {
            body: self.data.body,
            title,
            icon: self.data.icon,
            identifier: identifier.to_owned(),
        }
    }
}

} // verus!
