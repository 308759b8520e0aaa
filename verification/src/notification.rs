use vstd::prelude::*;
use vstd::string::StringExecFns;

use crate::backend::{
    host_binary_name, nr_appname, nr_body, nr_handle_id, nr_icon, nr_id, nr_image_path, nr_new,
    nr_show, nr_sound_name, nr_subtitle, nr_summary, nr_timeout, nr_urgency,
};
use crate::errors::NotifyError;
use crate::timeout::{
    decode_timeout, encode_timeout, timeout_code, timeout_code_ok, timeout_of_code, timeout_wf,
    Timeout,
};
use crate::urgency::{decode_urgency, urgency_code_ok, urgency_of_code, Urgency};

verus! {

/// The mathematical content of a notification draft: each text field as a
/// sequence of characters, each optional field as an option, and the tagged
/// timeout and urgency values as they are.
pub struct DraftView {
    /// Application name; used by some desktop environments to group
    /// notifications.
    pub appname: Seq<char>,
    /// Single line to summarize the content.
    pub summary: Seq<char>,
    /// Subtitle; only meaningful on macOS, harmless elsewhere.
    pub subtitle: Option<Seq<char>>,
    /// Multi-line textual content.
    pub body: Seq<char>,
    /// Freedesktop icon name or file URI.
    pub icon: Seq<char>,
    /// Path of an image shown by servers that understand the hint.
    pub image_path: Option<Seq<char>>,
    /// Sound name; its meaning depends on the platform.
    pub sound_name: Option<Seq<char>>,
    /// Lifetime of the notification on screen.
    pub timeout: Timeout,
    /// Urgency level, if one was set.
    pub urgency: Option<Urgency>,
    /// Identifier under which the server files the notification; once set,
    /// re-showing updates the existing notification.
    pub id: Option<u32>,
}

/// A mutable draft of a desktop notification.
///
/// Most fields are empty by default; only the appname starts out as the name
/// of the current executable. Each setter mutates the draft in place and
/// hands the same instance back for chaining; only the integer-coded timeout
/// and urgency setters can fail, and only on an invalid code. The draft is
/// never consumed: `show` may be called any number of times, each call an
/// independent delivery attempt.
#[derive(Debug)]
pub struct PyNotification {
    appname: String,
    summary: String,
    subtitle: Option<String>,
    body: String,
    icon: String,
    image_path: Option<String>,
    sound_name: Option<String>,
    timeout: Timeout,
    urgency: Option<Urgency>,
    id: Option<u32>,
}

impl View for PyNotification {
    type V = DraftView;

    closed spec fn view(&self) -> DraftView {
        DraftView {
            appname: self.appname@,
            summary: self.summary@,
            subtitle: self.subtitle.deep_view(),
            body: self.body@,
            icon: self.icon@,
            image_path: self.image_path.deep_view(),
            sound_name: self.sound_name.deep_view(),
            timeout: self.timeout,
            urgency: self.urgency,
            id: self.id,
        }
    }
}

impl PyNotification {
    /// A stored draft never carries a negative millisecond timeout.
    #[verifier::type_invariant]
    spec fn wf(self) -> bool {
        timeout_wf(self.timeout)
    }

    /// Construct an empty draft: every field unset except the appname, which
    /// the delivery collaborator fills with the host executable's name.
    pub fn new() -> (r: PyNotification)
        ensures
            r@.summary == Seq::<char>::empty(),
            r@.subtitle is None,
            r@.body == Seq::<char>::empty(),
            r@.icon == Seq::<char>::empty(),
            r@.image_path is None,
            r@.sound_name is None,
            r@.timeout == Timeout::ServerDefault,
            r@.urgency is None,
            r@.id is None,
    {
        PyNotification {
            appname: host_binary_name(),
            summary: String::new(),
            subtitle: None,
            body: String::new(),
            icon: String::new(),
            image_path: None,
            sound_name: None,
            timeout: Timeout::ServerDefault,
            urgency: None,
            id: None,
        }
    }

    /// Overwrite the appname field.
    pub fn appname(&mut self, appname: &str) -> (r: &mut PyNotification)
        ensures
            (*r)@ == (DraftView { appname: appname@, ..old(self)@ }),
            *final(self) == *final(r),
    {
        proof {
            use_type_invariant(&*self);
        }
        self.appname = String::from_str(appname);
        self
    }

    /// Set the summary; it often acts as the title of the notification.
    pub fn summary(&mut self, summary: &str) -> (r: &mut PyNotification)
        ensures
            (*r)@ == (DraftView { summary: summary@, ..old(self)@ }),
            *final(self) == *final(r),
    {
        proof {
            use_type_invariant(&*self);
        }
        self.summary = String::from_str(summary);
        self
    }

    /// Set the body: multi-line textual content of the notification.
    pub fn body(&mut self, body: &str) -> (r: &mut PyNotification)
        ensures
            (*r)@ == (DraftView { body: body@, ..old(self)@ }),
            *final(self) == *final(r),
    {
        proof {
            use_type_invariant(&*self);
        }
        self.body = String::from_str(body);
        self
    }

    /// Set the subtitle; only meaningful on macOS, harmless elsewhere.
    pub fn subtitle(&mut self, subtitle: &str) -> (r: &mut PyNotification)
        ensures
            (*r)@ == (DraftView { subtitle: Some(subtitle@), ..old(self)@ }),
            *final(self) == *final(r),
    {
        proof {
            use_type_invariant(&*self);
        }
        self.subtitle = Some(String::from_str(subtitle));
        self
    }

    /// Set the icon field: a freedesktop icon name or an absolute file path.
    pub fn icon(&mut self, icon: &str) -> (r: &mut PyNotification)
        ensures
            (*r)@ == (DraftView { icon: icon@, ..old(self)@ }),
            *final(self) == *final(r),
    {
        proof {
            use_type_invariant(&*self);
        }
        self.icon = String::from_str(icon);
        self
    }

    /// Set the icon field automatically from the host executable's name,
    /// following the delivery collaborator's naming convention. Only the
    /// icon field changes; the name itself depends on the running process,
    /// so nothing further is stated of it.
    pub fn auto_icon(&mut self) -> (r: &mut PyNotification)
        ensures
            (*r)@ == (DraftView { icon: (*r)@.icon, ..old(self)@ }),
            *final(self) == *final(r),
    {
        proof {
            use_type_invariant(&*self);
        }
        self.icon = host_binary_name();
        self
    }

    /// Set the image path, handed to the server as a hint.
    pub fn image_path(&mut self, path: &str) -> (r: &mut PyNotification)
        ensures
            (*r)@ == (DraftView { image_path: Some(path@), ..old(self)@ }),
            *final(self) == *final(r),
    {
        proof {
            use_type_invariant(&*self);
        }
        self.image_path = Some(String::from_str(path));
        self
    }

    /// Set the sound name; its meaning depends on the platform.
    pub fn sound_name(&mut self, name: &str) -> (r: &mut PyNotification)
        ensures
            (*r)@ == (DraftView { sound_name: Some(name@), ..old(self)@ }),
            *final(self) == *final(r),
    {
        proof {
            use_type_invariant(&*self);
        }
        self.sound_name = Some(String::from_str(name));
        self
    }

    /// Set the identifier ahead of time; re-showing then updates the known
    /// notification instead of creating a new one.
    pub fn id(&mut self, id: u32) -> (r: &mut PyNotification)
        ensures
            (*r)@ == (DraftView { id: Some(id), ..old(self)@ }),
            *final(self) == *final(r),
    {
        proof {
            use_type_invariant(&*self);
        }
        self.id = Some(id);
        self
    }

    /// Set the timeout from its boundary integer code.
    ///
    /// The sentinel check takes precedence over the general non-negative
    /// case: `-1` selects the server default and `-2` selects never, then
    /// any non-negative value counts milliseconds. Every other value is
    /// rejected as invalid and leaves the draft untouched.
    pub fn timeout(&mut self, timeout: i32) -> (r: Result<(), NotifyError>)
        ensures
            timeout_code_ok(timeout as int) ==> r == Ok::<(), NotifyError>(()) && (*final(self))@
                == (DraftView { timeout: timeout_of_code(timeout as int), ..old(self)@ }),
            !timeout_code_ok(timeout as int) ==> r == Err::<(), NotifyError>(
                NotifyError::InvalidArgument(timeout),
            ) && *final(self) == *old(self),
    {
        proof {
            use_type_invariant(&*self);
        }
        match decode_timeout(timeout) {
            Ok(t) => {
                self.timeout = t;
                Ok(())
            },
            Err(e) => Err(e),
        }
    }

    /// Set the urgency from its boundary integer code.
    ///
    /// `0` selects low, `1` normal and `2` critical. Every other value is
    /// rejected as invalid and leaves the draft untouched.
    pub fn urgency(&mut self, urgency: i32) -> (r: Result<(), NotifyError>)
        ensures
            urgency_code_ok(urgency as int) ==> r == Ok::<(), NotifyError>(()) && (*final(self))@
                == (DraftView { urgency: Some(urgency_of_code(urgency as int)), ..old(self)@ }),
            !urgency_code_ok(urgency as int) ==> r == Err::<(), NotifyError>(
                NotifyError::InvalidArgument(urgency),
            ) && *final(self) == *old(self),
    {
        proof {
            use_type_invariant(&*self);
        }
        match decode_urgency(urgency) {
            Ok(u) => {
                self.urgency = Some(u);
                Ok(())
            },
            Err(e) => Err(e),
        }
    }

    /// The current appname.
    pub fn get_appname(&self) -> (r: String)
        ensures
            r@ == self@.appname,
    {
        self.appname.clone()
    }

    /// The current summary.
    pub fn get_summary(&self) -> (r: String)
        ensures
            r@ == self@.summary,
    {
        self.summary.clone()
    }

    /// The current body.
    pub fn get_body(&self) -> (r: String)
        ensures
            r@ == self@.body,
    {
        self.body.clone()
    }

    /// The current subtitle, if one was set.
    pub fn get_subtitle(&self) -> (r: Option<String>)
        ensures
            r.deep_view() == self@.subtitle,
    {
        clone_text_option(&self.subtitle)
    }

    /// The current icon.
    pub fn get_icon(&self) -> (r: String)
        ensures
            r@ == self@.icon,
    {
        self.icon.clone()
    }

    /// The current timeout, encoded back into its boundary integer: `-1`
    /// for the server default, `-2` for never, and the millisecond count
    /// otherwise.
    pub fn get_timeout(&self) -> (r: i32)
        ensures
            r as int == timeout_code(self@.timeout),
    {
        encode_timeout(&self.timeout)
    }

    /// Explicit completion hook of the builder: returns a complete copy of
    /// the draft, with every field unchanged. Retained for compatibility
    /// with the delivery collaborator's builder surface; it validates
    /// nothing further.
    pub fn finalize(&self) -> (r: PyNotification)
        ensures
            r@ == self@,
    {
        proof {
            use_type_invariant(&*self);
        }
        PyNotification {
            appname: self.appname.clone(),
            summary: self.summary.clone(),
            subtitle: clone_text_option(&self.subtitle),
            body: self.body.clone(),
            icon: self.icon.clone(),
            image_path: clone_text_option(&self.image_path),
            sound_name: clone_text_option(&self.sound_name),
            timeout: self.timeout,
            urgency: self.urgency,
            id: self.id,
        }
    }

    /// Copy the draft field by field into a fresh collaborator draft and
    /// hand it to the notification server.
    fn deliver(&self) -> Result<notify_rust::NotificationHandle, String> {
        proof {
            use_type_invariant(&*self);
        }
        let mut n = nr_new();
        nr_appname(&mut n, self.appname.as_str());
        nr_summary(&mut n, self.summary.as_str());
        nr_body(&mut n, self.body.as_str());
        nr_icon(&mut n, self.icon.as_str());
        if let Some(subtitle) = &self.subtitle {
            nr_subtitle(&mut n, subtitle.as_str());
        }
        if let Some(path) = &self.image_path {
            nr_image_path(&mut n, path.as_str());
        }
        if let Some(name) = &self.sound_name {
            nr_sound_name(&mut n, name.as_str());
        }
        nr_timeout(&mut n, &self.timeout);
        if let Some(u) = &self.urgency {
            nr_urgency(&mut n, u);
        }
        if let Some(id) = self.id {
            nr_id(&mut n, id);
        }
        nr_show(&n)
    }

    /// Deliver the draft to the notification server.
    ///
    /// On success the collaborator's handle is returned; on failure the
    /// delivery error carries the collaborator's text verbatim, and no
    /// other error kind is possible. The draft itself is untouched: showing
    /// again is an independent delivery attempt, which updates the existing
    /// notification when an identifier was set.
    pub fn show(&self) -> (r: Result<PyNotificationHandle, NotifyError>)
        ensures
            r matches Err(e) ==> e is DeliveryError,
    {
        delivery_outcome(self.deliver())
    }
}

/// Clone an optional text field.
fn clone_text_option(o: &Option<String>) -> (r: Option<String>)
    ensures
        r.deep_view() == o.deep_view(),
{
    match o {
        Some(s) => Some(s.clone()),
        None => None,
    }
}

/// A handle to a shown notification, handed back by the delivery
/// collaborator after a successful delivery.
#[derive(Debug)]
pub struct PyNotificationHandle(pub notify_rust::NotificationHandle);

impl PyNotificationHandle {
    /// The identifier the notification server assigned to the shown
    /// notification.
    pub fn id(&self) -> u32 {
        nr_handle_id(&self.0)
    }
}

/// What `show` returns for each outcome of the delivery attempt: a handle
/// passes through unchanged, and a failure text becomes a delivery error
/// carrying that text verbatim.
pub fn delivery_outcome(outcome: Result<notify_rust::NotificationHandle, String>) -> (r: Result<
    PyNotificationHandle,
    NotifyError,
>)
    ensures
        outcome matches Ok(h) ==> r matches Ok(ph) && ph.0 == h,
        outcome matches Err(text) ==> r == Err::<PyNotificationHandle, NotifyError>(
            NotifyError::DeliveryError(text),
        ),
{
    match outcome {
        Ok(h) => Ok(PyNotificationHandle(h)),
        Err(text) => Err(NotifyError::DeliveryError(text)),
    }
}

/// Chaining law: setting the summary and then the body is two sequential
/// field updates on the same draft — the final draft carries both values,
/// and updates of the two distinct fields commute.
pub proof fn lemma_setter_chaining(v: DraftView, a: Seq<char>, b: Seq<char>)
    ensures
        (DraftView { body: b, ..(DraftView { summary: a, ..v }) }).summary == a,
        (DraftView { body: b, ..(DraftView { summary: a, ..v }) }).body == b,
        (DraftView { body: b, ..(DraftView { summary: a, ..v }) }) == (DraftView {
            summary: a,
            ..(DraftView { body: b, ..v })
        }),
{
}

} // verus!
