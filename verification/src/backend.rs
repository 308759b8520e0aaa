use vstd::prelude::*;

use crate::server_information::PyServerInformation;
use crate::timeout::{timeout_wf, Timeout};
use crate::urgency::Urgency;

verus! {

/// notify-rust's own draft of a notification. It is opaque here: the library
/// keeps its fields as plain values and copies them in through the wrappers
/// below just before delivery.
#[verifier::external_type_specification]
#[verifier::external_body]
pub struct ExNotification(notify_rust::Notification);

/// notify-rust's handle to a delivered notification; opaque here.
#[verifier::external_type_specification]
#[verifier::external_body]
pub struct ExNotificationHandle(notify_rust::NotificationHandle);

/// Relies on notify_rust::Notification::new: a fresh collaborator draft.
#[verifier::external_body]
pub(crate) fn nr_new() -> notify_rust::Notification {
    notify_rust::Notification::new()
}

/// Relies on notify_rust::Notification::new, which fills the `appname` field
/// of a fresh draft with the name of the current executable, and on
/// notify_rust::Notification::auto_icon, which puts that same name (their
/// shared exe_name helper) into the `icon` field. The result depends on the
/// running process, so nothing further is stated of it.
#[verifier::external_body]
pub(crate) fn host_binary_name() -> String {
    notify_rust::Notification::new().appname
}

/// Relies on notify_rust::Notification::appname: overwrites the draft's
/// appname field.
#[verifier::external_body]
pub(crate) fn nr_appname(n: &mut notify_rust::Notification, appname: &str) {
    n.appname(appname);
}

/// Relies on notify_rust::Notification::summary: overwrites the draft's
/// summary field.
#[verifier::external_body]
pub(crate) fn nr_summary(n: &mut notify_rust::Notification, summary: &str) {
    n.summary(summary);
}

/// Relies on notify_rust::Notification::subtitle: sets the draft's subtitle
/// field.
#[verifier::external_body]
pub(crate) fn nr_subtitle(n: &mut notify_rust::Notification, subtitle: &str) {
    n.subtitle(subtitle);
}

/// Relies on notify_rust::Notification::body: overwrites the draft's body
/// field.
#[verifier::external_body]
pub(crate) fn nr_body(n: &mut notify_rust::Notification, body: &str) {
    n.body(body);
}

/// Relies on notify_rust::Notification::icon: overwrites the draft's icon
/// field.
#[verifier::external_body]
pub(crate) fn nr_icon(n: &mut notify_rust::Notification, icon: &str) {
    n.icon(icon);
}

/// Relies on notify_rust::Notification::image_path: records the image path
/// as a hint for the notification server.
#[verifier::external_body]
pub(crate) fn nr_image_path(n: &mut notify_rust::Notification, path: &str) {
    n.image_path(path);
}

/// Relies on notify_rust::Notification::sound_name: records the sound name
/// as a hint for the notification server.
#[verifier::external_body]
pub(crate) fn nr_sound_name(n: &mut notify_rust::Notification, name: &str) {
    n.sound_name(name);
}

/// Relies on notify_rust::Notification::timeout: records the requested
/// lifetime on screen. The collaborator holds the millisecond count as an
/// unsigned number, so a stored count must not be negative.
#[verifier::external_body]
pub(crate) fn nr_timeout(n: &mut notify_rust::Notification, t: &Timeout)
    requires
        timeout_wf(*t),
{
    n.timeout(match t {
        Timeout::ServerDefault => notify_rust::Timeout::Default,
        Timeout::Never => notify_rust::Timeout::Never,
        Timeout::Milliseconds(ms) => notify_rust::Timeout::Milliseconds(*ms as u32),
    });
}

/// Relies on notify_rust::Notification::urgency: records the urgency as a
/// hint for the notification server.
#[verifier::external_body]
pub(crate) fn nr_urgency(n: &mut notify_rust::Notification, u: &Urgency) {
    n.urgency(match u {
        Urgency::Low => notify_rust::Urgency::Low,
        Urgency::Normal => notify_rust::Urgency::Normal,
        Urgency::Critical => notify_rust::Urgency::Critical,
    });
}

/// Relies on notify_rust::Notification::id: sets the identifier under which
/// the server files the notification, so that re-showing updates it.
#[verifier::external_body]
pub(crate) fn nr_id(n: &mut notify_rust::Notification, id: u32) {
    n.id(id);
}

/// Relies on notify_rust::Notification::show: hands the draft to the
/// notification server and blocks until it answers with a handle or an
/// error, whose text is returned verbatim. The outcome depends on the
/// running server, so nothing is promised of it.
#[verifier::external_body]
pub(crate) fn nr_show(n: &notify_rust::Notification) -> Result<
    notify_rust::NotificationHandle,
    String,
> {
    match n.show() {
        Ok(handle) => Ok(handle),
        Err(error) => Err(error.to_string()),
    }
}

/// Relies on notify_rust::NotificationHandle::id: returns the identifier the
/// server assigned to the shown notification.
#[verifier::external_body]
pub(crate) fn nr_handle_id(h: &notify_rust::NotificationHandle) -> u32 {
    h.id()
}

/// Relies on notify_rust::get_server_information: asks the running
/// notification server for its identity and returns its answer field by
/// field, or the error's text verbatim. The outcome depends on the running
/// server, so nothing is promised of it.
#[verifier::external_body]
pub(crate) fn query_server_information() -> Result<PyServerInformation, String> {
    match notify_rust::get_server_information() {
        Ok(info) => Ok(
            PyServerInformation {
                name: info.name,
                vendor: info.vendor,
                version: info.version,
                spec_version: info.spec_version,
            },
        ),
        Err(error) => Err(error.to_string()),
    }
}

} // verus!
