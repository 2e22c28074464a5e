//! Normalized focus-change events and the marshaling rules that produce them
//! from raw native notification payloads.

use vstd::prelude::*;

verus! {

/// A raw native notification payload after the byte-level copy out of native
/// transient memory.  A field is `None` when the native side handed over a
/// null pointer, or when its bytes could not be decoded as text.
pub struct RawEvent {
    pub app_name: Option<String>,
    pub window_title: Option<String>,
    pub bundle_id: Option<String>,
    pub url: Option<String>,
}

/// Mathematical model of a raw payload: each field as an optional character
/// sequence.
pub struct RawEventModel {
    pub app_name: Option<Seq<char>>,
    pub window_title: Option<Seq<char>>,
    pub bundle_id: Option<Seq<char>>,
    pub url: Option<Seq<char>>,
}

/// The optional text a field of a raw payload holds.
pub open spec fn opt_text(f: Option<String>) -> Option<Seq<char>> {
    match f {
        Option::Some(s) => Option::Some(s@),
        Option::None => Option::None,
    }
}

impl View for RawEvent {
    type V = RawEventModel;

    open spec fn view(&self) -> RawEventModel {
        RawEventModel {
            app_name: opt_text(self.app_name),
            window_title: opt_text(self.window_title),
            bundle_id: opt_text(self.bundle_id),
            url: opt_text(self.url),
        }
    }
}

/// A normalized, fully owned focus-change record.  Every field is copied out
/// of the native transient buffers, so the record stays valid after the
/// native callback frame has returned.
pub struct FocusEvent {
    pub application_name: String,
    pub window_title: String,
    pub application_identifier: String,
    pub url: String,
}

/// Mathematical model of a normalized record.
pub struct FocusEventModel {
    pub application_name: Seq<char>,
    pub window_title: Seq<char>,
    pub application_identifier: Seq<char>,
    pub url: Seq<char>,
}

impl View for FocusEvent {
    type V = FocusEventModel;

    open spec fn view(&self) -> FocusEventModel {
        FocusEventModel {
            application_name: self.application_name@,
            window_title: self.window_title@,
            application_identifier: self.application_identifier@,
            url: self.url@,
        }
    }
}

/// The placeholder substituted for a required field whose native payload was
/// null or undecodable.  A malformed payload yields this text instead of
/// aborting the subscription.
pub open spec fn missing_field_text() -> Seq<char> {
    "(invalid)"@
}

/// The sentinel recorded when the native payload carried no URL at all.
pub open spec fn absent_url_text() -> Seq<char> {
    "(none)"@
}

/// How a required text field (name, title, identifier) is normalized.
pub open spec fn marshal_required(f: Option<Seq<char>>) -> Seq<char> {
    match f {
        Option::Some(s) => s,
        Option::None => missing_field_text(),
    }
}

/// How the optional URL field is normalized: an absent URL becomes the
/// sentinel, a present URL (even an empty one) is kept verbatim.
pub open spec fn marshal_url(f: Option<Seq<char>>) -> Seq<char> {
    match f {
        Option::Some(s) => s,
        Option::None => absent_url_text(),
    }
}

/// The normalized record a raw payload marshals to.
pub open spec fn marshal_spec(r: RawEventModel) -> FocusEventModel {
    FocusEventModel {
        application_name: marshal_required(r.app_name),
        window_title: marshal_required(r.window_title),
        application_identifier: marshal_required(r.bundle_id),
        url: marshal_url(r.url),
    }
}

fn copy_required(f: &Option<String>) -> (s: String)
    ensures
        s@ == marshal_required(opt_text(*f)),
{
    match f {
        Option::Some(v) => v.clone(),
        Option::None => "(invalid)".to_owned(),
    }
}

fn copy_url(f: &Option<String>) -> (s: String)
    ensures
        s@ == marshal_url(opt_text(*f)),
{
    match f {
        Option::Some(v) => v.clone(),
        Option::None => "(none)".to_owned(),
    }
}

/// Marshals one raw native payload into an owned normalized record.
///
/// Required fields that arrived null or undecodable are replaced by a
/// placeholder so that one malformed notification never aborts the
/// subscription; an absent URL becomes the documented sentinel while a
/// present-but-empty URL stays empty.
pub fn marshal_event(raw: &RawEvent) -> (e: FocusEvent)
    ensures
        e@ == marshal_spec(raw@),
{
    FocusEvent {
        application_name: copy_required(&raw.app_name),
        window_title: copy_required(&raw.window_title),
        application_identifier: copy_required(&raw.bundle_id),
        url: copy_url(&raw.url),
    }
}

/// An absent URL and a present-but-empty URL marshal to distinguishable
/// records: the sentinel is never the empty text, and a present URL is kept
/// exactly, so the round trip through marshaling loses the distinction for
/// no pair of payloads that differ in URL presence.
pub proof fn lemma_url_presence_distinguishable(r1: RawEventModel, r2: RawEventModel)
    requires
        r1.url is None,
        r2.url == Option::Some(Seq::<char>::empty()),
    ensures
        marshal_spec(r1).url == absent_url_text(),
        marshal_spec(r2).url == Seq::<char>::empty(),
        marshal_spec(r1).url != marshal_spec(r2).url,
{
    reveal_strlit("(none)");
    assert(absent_url_text().len() == 6);
}

} // verus!
