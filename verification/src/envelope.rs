//! The envelope every protocol message travels in.
//!
//! An envelope is a JSON object with a string member `type`, which tells the
//! messages apart, and an optional member `payload`.

use crate::json::{
    entries_view, lemma_lookup_skip, lemma_object_view, lookup, optional_view, Json, JsonView,
};
use crate::text::same_text;
use vstd::prelude::*;

verus! {

/// What a message is, by the `type` of its envelope.
#[derive(Clone, Copy, Debug, PartialEq, Eq)]
pub enum Kind {
    ConnectionInit,
    ConnectionAck,
    ConnectionError,
    Subscribe,
    Next,
    Ping,
    Pong,
    Error,
    Complete,
    /// Any other `type`.
    Other,
}

/// The kind that a `type` names.
pub open spec fn kind_of(tag: Seq<char>) -> Kind {
    if tag == "connection_init"@ {
        Kind::ConnectionInit
    } else if tag == "connection_ack"@ {
        Kind::ConnectionAck
    } else if tag == "connection_error"@ {
        Kind::ConnectionError
    } else if tag == "subscribe"@ {
        Kind::Subscribe
    } else if tag == "next"@ {
        Kind::Next
    } else if tag == "ping"@ {
        Kind::Ping
    } else if tag == "pong"@ {
        Kind::Pong
    } else if tag == "error"@ {
        Kind::Error
    } else if tag == "complete"@ {
        Kind::Complete
    } else {
        Kind::Other
    }
}

/// The mathematical value of an [`Envelope`].
pub struct EnvelopeView {
    pub tag: Seq<char>,
    pub payload: Option<JsonView>,
}

/// One protocol message: its `type` and its payload, where it has one.
#[derive(Debug, PartialEq)]
pub struct Envelope {
    pub tag: String,
    pub payload: Option<Json>,
}

impl View for Envelope {
    type V = EnvelopeView;

    open spec fn view(&self) -> EnvelopeView {
        EnvelopeView { tag: self.tag@, payload: optional_view(self.payload) }
    }
}

/// The value of an envelope that may be absent.
pub open spec fn optional_envelope_view(envelope: Option<Envelope>) -> Option<EnvelopeView> {
    match envelope {
        Some(e) => Some(e@),
        None => None,
    }
}

/// The payload that an envelope carries: its member `payload`, unless that
/// is missing or `null`.
pub open spec fn payload_of(doc: JsonView) -> Option<JsonView> {
    match doc.get("payload"@) {
        Some(JsonView::Null) => None,
        other => other,
    }
}

/// The envelope that the document `doc` is, where it is one: an object
/// whose member `type` is a string.
pub open spec fn envelope_of(doc: JsonView) -> Option<EnvelopeView> {
    match doc.get("type"@) {
        Some(JsonView::Str(tag)) => Some(EnvelopeView { tag, payload: payload_of(doc) }),
        _ => None,
    }
}

/// Tells the messages apart by their `type`.
pub fn classify(tag: &str) -> (kind: Kind)
    ensures
        kind == kind_of(tag@),
{
    if same_text(tag, "connection_init") {
        Kind::ConnectionInit
    } else if same_text(tag, "connection_ack") {
        Kind::ConnectionAck
    } else if same_text(tag, "connection_error") {
        Kind::ConnectionError
    } else if same_text(tag, "subscribe") {
        Kind::Subscribe
    } else if same_text(tag, "next") {
        Kind::Next
    } else if same_text(tag, "ping") {
        Kind::Ping
    } else if same_text(tag, "pong") {
        Kind::Pong
    } else if same_text(tag, "error") {
        Kind::Error
    } else if same_text(tag, "complete") {
        Kind::Complete
    } else {
        Kind::Other
    }
}

impl Envelope {
    /// What the message is.
    pub fn kind(&self) -> (kind: Kind)
        ensures
            kind == kind_of(self@.tag),
    {
        classify(self.tag.as_str())
    }

    /// Reads a document as an envelope. The result is the envelope that the
    /// document is, and `None` exactly when it is none.
    pub fn from_json(doc: Json) -> (envelope: Option<Envelope>)
        ensures
            optional_envelope_view(envelope) == envelope_of(doc@),
    {
        match doc {
            Json::Object(members) => {
                let ghost all = entries_view(members@);
                let mut rest = members;
                let mut tag: Option<Json> = None;
                let mut payload: Option<Json> = None;
                proof {
                    lemma_object_view(members);
                    reveal_strlit("type");
                    reveal_strlit("payload");
                    assert("type"@.len() != "payload"@.len());
                    assert(all.skip(all.len() as int) =~= Seq::empty());
                }
                while rest.len() > 0
                    invariant
                        rest@.len() <= all.len(),
                        entries_view(rest@) == all.take(rest@.len() as int),
                        "type"@ != "payload"@,
                        optional_view(tag) == lookup(all.skip(rest@.len() as int), "type"@),
                        optional_view(payload) == lookup(all.skip(rest@.len() as int), "payload"@),
                    decreases rest.len(),
                {
                    let ghost last = rest@.len() - 1;
                    proof {
                        lemma_lookup_skip(all, "type"@, last);
                        lemma_lookup_skip(all, "payload"@, last);
                        assert(entries_view(rest@)[last] == all[last]);
                    }
                    let ghost before = rest@;
                    let (name, value) = rest.pop().unwrap();
                    proof {
                        assert(entries_view(rest@) =~= all.take(rest@.len() as int)) by {
                            assert forall|i: int| 0 <= i < rest@.len() implies entries_view(
                                rest@,
                            )[i] == all[i] by {
                                assert(entries_view(before)[i] == all[i]);
                            }
                        }
                    }
                    if same_text(name.as_str(), "type") {
                        tag = Some(value);
                    } else if same_text(name.as_str(), "payload") {
                        payload = Some(value);
                    }
                }
                assert(all.skip(0) =~= all);
                match tag {
                    Some(Json::Str(text)) => {
                        let payload = match payload {
                            Some(Json::Null) => None,
                            other => other,
                        };
                        Some(Envelope { tag: text, payload })
                    },
                    _ => None,
                }
            },
            _ => None,
        }
    }
}

} // verus!
