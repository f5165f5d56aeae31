//! Normalisation of the replies of the Swift bridge into the unified result.
use crate::error::{Error, Result};
use crate::models::{opt_str_text, same_text};
use crate::tag::{int_text, tag_for};
use vstd::prelude::*;

verus! {

/// A failure reported by the Swift side of the bridge.
#[derive(Debug)]
pub enum FFIResult {
    /// The error message from Swift.
    Failed(String),
}

/// Whether `e` is the rejection of a native call with message `message`.
pub open spec fn is_rejection(e: Error, message: String) -> bool {
    e == Error::InvokeRejected { code: None, message: Some(message) }
}

/// The error for a native call that failed with `failure`.
pub fn rejected(failure: FFIResult) -> (r: Error)
    ensures
        failure matches FFIResult::Failed(m) && is_rejection(r, m),
{
    match failure {
        FFIResult::Failed(message) => Error::InvokeRejected { code: None, message: Some(message) },
    }
}

/// The result of a native call that returns nothing.
pub fn parse_void(reply: core::result::Result<(), FFIResult>) -> (r: Result<()>)
    ensures
        reply is Ok <==> r is Ok,
        reply matches Err(FFIResult::Failed(m)) ==> r matches Err(e) && is_rejection(e, m),
{
    match reply {
        Ok(()) => Ok(()),
        Err(failure) => Err(rejected(failure)),
    }
}

/// The result of a native call whose success value is a handle to discard.
pub fn parse_void_handle(reply: core::result::Result<i32, FFIResult>) -> (r: Result<()>)
    ensures
        reply is Ok <==> r is Ok,
        reply matches Err(FFIResult::Failed(m)) ==> r matches Err(e) && is_rejection(e, m),
{
    match reply {
        Ok(_) => Ok(()),
        Err(failure) => Err(rejected(failure)),
    }
}

/// The JSON text of a native reply, or the rejection it carries.
pub fn response_text(reply: core::result::Result<String, FFIResult>) -> (r: Result<String>)
    ensures
        reply matches Ok(json) ==> r == Ok::<String, Error>(json),
        reply matches Err(FFIResult::Failed(m)) ==> r matches Err(e) && is_rejection(e, m),
{
    match reply {
        Ok(json) => Ok(json),
        Err(failure) => Err(rejected(failure)),
    }
}

/// The decoded value of a reply, or a decoding error with the parser's
/// diagnostic.
pub fn decoded<T>(value: core::result::Result<T, String>) -> (r: Result<T>)
    ensures
        value matches Ok(v) ==> r matches Ok(w) && w == v,
        value matches Err(d) ==> r matches Err(e) && e == Error::CannotDeserializeResponse(d),
{
    match value {
        Ok(v) => Ok(v),
        Err(diagnostic) => Err(Error::CannotDeserializeResponse(diagnostic)),
    }
}

/// The encoded request payload, or an encoding error with the diagnostic.
pub fn encoded(payload: core::result::Result<String, String>) -> (r: Result<String>)
    ensures
        payload matches Ok(p) ==> r == Ok::<String, Error>(p),
        payload matches Err(d) ==> r matches Err(e) && e == Error::CannotSerializePayload(d),
{
    match payload {
        Ok(p) => Ok(p),
        Err(diagnostic) => Err(Error::CannotSerializePayload(diagnostic)),
    }
}

pub open spec fn trigger_failure_message(event: Seq<char>, error: Seq<char>) -> Seq<char> {
    "Failed to trigger event '"@ + event + "': "@ + error
}

/// What the bridge hands back to Swift after delivering `event`: nothing
/// on success, or a message naming the event and the delivery error.
pub fn bridge_trigger(event: &str, delivery: core::result::Result<(), String>) -> (r:
    core::result::Result<(), FFIResult>)
    ensures
        delivery is Ok <==> r is Ok,
        delivery matches Err(d) ==> r matches Err(FFIResult::Failed(m)) && m@
            == trigger_failure_message(event@, d@),
{
    match delivery {
        Ok(()) => Ok(()),
        Err(error) => {
            let mut message = "Failed to trigger event '".to_owned();
            message.append(event);
            message.append("': ");
            message.append(error.as_str());
            Err(FFIResult::Failed(message))
        },
    }
}

/// The message with which the bridge refuses to run outside an app bundle.
pub open spec fn bundle_message() -> Seq<char> {
    "Notifications plugin requires the app to run from a .app bundle. You can enable notify-rust feature for development."@
}

/// Whether `suffix` is the tail of `s`.
pub open spec fn has_suffix(s: Seq<char>, suffix: Seq<char>) -> bool {
    suffix.len() <= s.len() && s.subrange(s.len() - suffix.len(), s.len() as int) == suffix
}

/// Relies on `str::ends_with` with a `&str` pattern: whether `suffix` is
/// the tail of `s`.
#[verifier::external_body]
pub(crate) fn ends_with(s: &str, suffix: &str) -> (r: bool)
    ensures
        r == has_suffix(s@, suffix@),
{
    s.ends_with(suffix)
}

/// Whether an executable runs from an application bundle, judged by the
/// name of its directory, the name of that directory's parent, and the
/// path of the grandparent: `MacOS`, `Contents`, and a path ending `.app`.
pub open spec fn in_app_bundle(
    exe_dir: Option<Seq<char>>,
    contents_dir: Option<Seq<char>>,
    bundle_path: Option<Seq<char>>,
) -> bool {
    &&& exe_dir == Some("MacOS"@)
    &&& contents_dir == Some("Contents"@)
    &&& bundle_path matches Some(b) && b.len() >= 4 && b.subrange(b.len() - 4, b.len() as int)
        == ".app"@
}

/// `Ok` when the executable runs from an application bundle; otherwise the
/// rejection that every bridge call returns. Each argument is `None` when
/// the executable's path has no such ancestor.
pub fn require_bundle(exe_dir: Option<&str>, contents_dir: Option<&str>, bundle_path: Option<&str>) -> (r: Result<()>)
    ensures
        r is Ok <==> in_app_bundle(
            opt_str_text(exe_dir),
            opt_str_text(contents_dir),
            opt_str_text(bundle_path),
        ),
        r matches Err(e) ==> e matches Error::InvokeRejected { code: None, message: Some(m) } && m@
            == bundle_message(),
{
    proof {
        reveal_strlit(".app");
    }
    let ok = match (exe_dir, contents_dir, bundle_path) {
        (Some(m), Some(c), Some(b)) => same_text(m, "MacOS") && same_text(c, "Contents")
            && ends_with(b, ".app"),
        _ => false,
    };
    if ok {
        Ok(())
    } else {
        Err(
            Error::InvokeRejected {
                code: None,
                message: Some(
                    "Notifications plugin requires the app to run from a .app bundle. You can enable notify-rust feature for development.".to_owned(),
                ),
            },
        )
    }
}

/// `items` joined with commas.
pub open spec fn comma_joined(items: Seq<Seq<char>>) -> Seq<char>
    decreases items.len(),
{
    if items.len() == 0 {
        Seq::empty()
    } else if items.len() == 1 {
        items[0]
    } else {
        comma_joined(items.drop_last()) + ","@ + items.last()
    }
}

/// The texts of `items`.
pub open spec fn texts(items: Seq<String>) -> Seq<Seq<char>> {
    items.map_values(|t: String| t@)
}

proof fn lemma_texts_push(items: Seq<String>, last: String)
    ensures
        texts(items.push(last)) == texts(items).push(last@),
{
    assert(texts(items.push(last)) =~= texts(items).push(last@));
}

proof fn lemma_ids_push<T>(ids: Seq<i32>, i: int, f: spec_fn(i32) -> T)
    requires
        0 <= i < ids.len(),
    ensures
        ids.subrange(0, i + 1).map_values(f) == ids.subrange(0, i).map_values(f).push(f(ids[i])),
{
    assert(ids.subrange(0, i + 1).map_values(f) =~= ids.subrange(0, i).map_values(f).push(f(ids[i])));
}

/// The JSON numbers of `ids`.
pub open spec fn id_numbers(ids: Seq<i32>) -> Seq<Seq<char>> {
    ids.map_values(|id: i32| int_text(id as int))
}

/// The JSON objects `{"id":n}` of `ids`.
pub open spec fn id_objects(ids: Seq<i32>) -> Seq<Seq<char>> {
    ids.map_values(|id: i32| "{\"id\":"@ + int_text(id as int) + "}"@)
}

fn join_with_commas(items: &Vec<String>) -> (r: String)
    ensures
        r@ == comma_joined(texts(items@)),
{
    let mut r = String::new();
    let mut i: usize = 0;
    while i < items.len()
        invariant
            i <= items@.len(),
            r@ == comma_joined(texts(items@.subrange(0, i as int))),
        decreases items@.len() - i,
    {
        if i > 0 {
            r.append(",");
        }
        r.append(items[i].as_str());
        proof {
            let prev = texts(items@.subrange(0, i as int));
            let next = texts(items@.subrange(0, i + 1));
            assert(next.drop_last() =~= prev);
            if i == 0 {
                assert(r@ =~= next[0]);
            }
        }
        i = i + 1;
    }
    assert(items@.subrange(0, i as int) =~= items@);
    r
}

/// The argument of the bridge's cancel call: `{"notifications":[ids]}`.
pub fn cancel_args(ids: &Vec<i32>) -> (r: String)
    ensures
        r@ == "{\"notifications\":["@ + comma_joined(id_numbers(ids@)) + "]}"@,
{
    let mut numbers: Vec<String> = Vec::new();
    let mut i: usize = 0;
    while i < ids.len()
        invariant
            i <= ids@.len(),
            texts(numbers@) == id_numbers(ids@.subrange(0, i as int)),
        decreases ids@.len() - i,
    {
        let ghost before = numbers@;
        let number = tag_for(ids[i]);
        numbers.push(number);
        proof {
            lemma_texts_push(before, number);
            lemma_ids_push(ids@, i as int, |id: i32| int_text(id as int));
        }
        i = i + 1;
    }
    assert(ids@.subrange(0, i as int) =~= ids@);
    let mut r = "{\"notifications\":[".to_owned();
    r.append(join_with_commas(&numbers).as_str());
    r.append("]}");
    r
}

/// The argument of the bridge's remove-active call:
/// `{"notifications":[{"id":n},...]}`.
pub fn remove_active_args(ids: &Vec<i32>) -> (r: String)
    ensures
        r@ == "{\"notifications\":["@ + comma_joined(id_objects(ids@)) + "]}"@,
{
    let mut objects: Vec<String> = Vec::new();
    let mut i: usize = 0;
    while i < ids.len()
        invariant
            i <= ids@.len(),
            texts(objects@) == id_objects(ids@.subrange(0, i as int)),
        decreases ids@.len() - i,
    {
        let mut o = "{\"id\":".to_owned();
        o.append(tag_for(ids[i]).as_str());
        o.append("}");
        let ghost before = objects@;
        objects.push(o);
        proof {
            lemma_texts_push(before, o);
            lemma_ids_push(ids@, i as int, |id: i32| "{\"id\":"@ + int_text(id as int) + "}"@);
        }
        i = i + 1;
    }
    assert(ids@.subrange(0, i as int) =~= ids@);
    let mut r = "{\"notifications\":[".to_owned();
    r.append(join_with_commas(&objects).as_str());
    r.append("]}");
    r
}

/// The argument of the bridge's click-listener call: `{"active":true}` or
/// `{"active":false}`.
pub fn click_listener_args(active: bool) -> (r: String)
    ensures
        r@ == (if active {
            "{\"active\":true}"@
        } else {
            "{\"active\":false}"@
        }),
{
    if active {
        "{\"active\":true}".to_owned()
    } else {
        "{\"active\":false}".to_owned()
    }
}

} // verus!
