//! The producer side of the email dispatch worker: a bounded queue that a
//! single background task drains, rendering and delivering each message.
//!
//! Delivery is fire-and-forget by design: a submission that fails because
//! the queue is full or the worker is gone is reported to the caller as a
//! `false` return and nothing more; no caller ever waits on delivery.
//! What was handed to the queue is tracked in a ghost history, so callers
//! can state exactly which messages they submitted.

use vstd::prelude::*;

use crate::email_address::EmailAddress;

verus! {

/// What is logged about an email: who it goes to and its subject.
#[derive(Clone, Debug)]
pub struct EmailDebug {
    pub to: String,
    pub subject: String,
}

/// One value a template placeholder takes.
#[derive(Clone, Debug)]
pub enum TemplateValue {
    /// A piece of text.
    Text(String),
    /// A yes/no flag, for conditional template sections.
    Flag(bool),
}

/// A message ready for the dispatch worker: where it goes, its subject,
/// the two templates (plain text and HTML) to render, and the values the
/// placeholders take.
#[derive(Clone, Debug)]
pub struct MessageContent {
    pub to: EmailAddress,
    pub subject: String,
    pub template_html: String,
    pub template_txt: String,
    pub values: Vec<(String, TemplateValue)>,
}

/// One unit of work for the dispatch worker, consumed exactly once.
#[derive(Clone, Debug)]
pub struct EmailRequest {
    pub debug_info: Option<EmailDebug>,
    pub message: MessageContent,
}

impl EmailRequest {
    pub fn new(debug_info: Option<EmailDebug>, message: MessageContent) -> (r: Self)
        ensures
            r.debug_info == debug_info,
            r.message == message,
    {
        Self { debug_info, message }
    }
}

/// The exec key/value pairs `v` spell out the spec-level pairs `s`.
pub open spec fn values_match(
    v: Seq<(String, TemplateValue)>,
    s: Seq<(Seq<char>, TemplateValue)>,
) -> bool {
    v.len() == s.len() && forall|i: int|
        0 <= i < v.len() ==> (#[trigger] v[i]).0@ == s[i].0 && v[i].1 == s[i].1
}

/// An email kind: its two templates and subject are fixed, and a value of
/// the kind says who it is for and what its placeholders take.
pub trait Email: Sized {
    /// The HTML template's name.
    spec fn spec_template_html() -> Seq<char>;

    /// The plain-text template's name.
    spec fn spec_template_txt() -> Seq<char>;

    /// The subject line.
    spec fn spec_subject() -> Seq<char>;

    /// Who the debug log names as the recipient.
    spec fn spec_debug_to(&self) -> Seq<char>;

    /// The placeholder assignment this value stands for.
    spec fn spec_values(&self) -> Seq<(Seq<char>, TemplateValue)>;

    fn template_html() -> (r: String)
        ensures
            r@ == Self::spec_template_html(),
    ;

    fn template_txt() -> (r: String)
        ensures
            r@ == Self::spec_template_txt(),
    ;

    fn subject() -> (r: String)
        ensures
            r@ == Self::spec_subject(),
    ;

    fn debug_info(self) -> (r: EmailDebug)
        ensures
            r.to@ == self.spec_debug_to(),
            r.subject@ == Self::spec_subject(),
    ;

    fn template_values(&self) -> (r: Vec<(String, TemplateValue)>)
        ensures
            values_match(r@, self.spec_values()),
    ;
}

#[verifier::external_type_specification]
#[verifier::external_body]
#[verifier::reject_recursive_types(T)]
pub struct ExSender<T>(flume::Sender<T>);

/// Relies on `flume::Sender::try_send`: the value reaches the channel's
/// queue and `true` comes back, unless the queue is full or every
/// receiver is gone, in which case `false` at once — a submitter never
/// blocks on the worker. Which of the two happens depends on the worker,
/// so no more is stated.
#[verifier::external_body]
fn queue_send(queue: &flume::Sender<EmailRequest>, request: EmailRequest) -> (r: bool) {
    queue.try_send(request).is_ok()
}

/// The submission handle to the dispatch worker, shared by everything
/// that sends mail. `spec_history` lists every request handed to the
/// queue through this handle, oldest first.
pub struct EmailAccess {
    queue: flume::Sender<EmailRequest>,
    history: Ghost<Seq<EmailRequest>>,
}

impl EmailAccess {
    /// Every request submitted through this handle, oldest first.
    pub closed spec fn spec_history(&self) -> Seq<EmailRequest> {
        self.history@
    }

    /// Wraps the producer end of the worker's queue.
    pub fn new(queue: flume::Sender<EmailRequest>) -> (r: EmailAccess)
        ensures
            r.spec_history() == Seq::<EmailRequest>::empty(),
    {
        EmailAccess { queue, history: Ghost(Seq::empty()) }
    }

    /// Submits one request to the dispatch queue. Returns whether the
    /// queue took it; a `false` is logged-and-forgotten by design, the
    /// caller proceeds either way.
    pub fn send(&mut self, debug_info: Option<EmailDebug>, message: MessageContent) -> (r: bool)
        ensures
            final(self).spec_history() == old(self).spec_history().push(
                EmailRequest { debug_info, message },
            ),
    {
        let request = EmailRequest::new(debug_info, message);
        let ghost logged = request;
        let queued = queue_send(&self.queue, request);
        proof {
            self.history@ = self.history@.push(logged);
        }
        queued
    }

    /// Renders nothing itself: packs the email's templates, subject and
    /// values into one request for the worker and submits it, with its
    /// debug line attached. Returns whether the queue took it.
    pub fn send_one_fn<E: Email>(&mut self, to: EmailAddress, data: E) -> (r: bool)
        ensures
            final(self).spec_history().len() == old(self).spec_history().len() + 1,
            final(self).spec_history().drop_last() == old(self).spec_history(),
            ({
                let sent = final(self).spec_history().last();
                &&& sent.message.to == to
                &&& sent.message.subject@ == E::spec_subject()
                &&& sent.message.template_html@ == E::spec_template_html()
                &&& sent.message.template_txt@ == E::spec_template_txt()
                &&& values_match(sent.message.values@, data.spec_values())
                &&& sent.debug_info matches Some(d) && d.to@ == data.spec_debug_to()
                    && d.subject@ == E::spec_subject()
            }),
    {
        let values = data.template_values();
        let message = MessageContent {
            to,
            subject: E::subject(),
            template_html: E::template_html(),
            template_txt: E::template_txt(),
            values,
        };
        let debug = data.debug_info();
        self.send(Some(debug), message)
    }
}

} // verus!
