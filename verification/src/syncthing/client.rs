//! The daemon's address, the key that opens it, the requests made of it,
//! and what its answers hold.

use vstd::prelude::*;
use super::decode::FromJson;
use super::errors::NetworkError;
use super::event_structs::{kind_of, SyncthingEvent};
use super::json::{slot, Field, JsonModel, JsonValue, Slot};
use super::json_text::parsed_text;
use super::text::{decimal, decimal_text, join3};

verus! {

/// The name of the header that carries the key.
pub open spec fn key_header() -> Seq<char> {
    "X-API-KEY"@
}

/// A character that may stand in the value of a header: a tab, or anything
/// from the space on but the delete character.
pub open spec fn header_char(c: char) -> bool {
    c == '\t' || (c as u32 >= 32 && c as u32 != 127)
}

/// A text that can be sent as the value of a header.
pub open spec fn header_text(text: Seq<char>) -> bool {
    forall|i: int| 0 <= i < text.len() ==> header_char(#[trigger] text[i])
}

/// `reqwest::header::HeaderValue::from_str` on `text`: whether it takes the
/// text as the value of a header. It goes through the bytes of the text
/// and refuses it at the first byte under 32 that is no tab, or at a byte
/// 127; the bytes of a character beyond ASCII are all above 127.
#[verifier::external_body]
fn header_value_parses(text: &str) -> (r: bool)
    ensures
        r == header_text(text@),
{
    reqwest::header::HeaderValue::from_str(text).is_ok()
}

/// What a request for events came to.
#[derive(Debug, Clone, PartialEq, Eq)]
pub enum Fetched {
    /// The daemon answered.
    Response { status: u16, body: String },
    /// No answer came.
    Failed { cause: String },
}

/// A status that stands for success: 200 to 299.
pub open spec fn success(status: u16) -> bool {
    200 <= status < 300
}

/// The error that a fetch ends in, if it gave no events: no answer, an
/// answer with a status that is no success, or an answer whose body is
/// no list of event records.
pub open spec fn refusal(fetched: Fetched) -> Option<NetworkError> {
    match fetched {
        Fetched::Failed { cause } => Some(NetworkError::Transport(cause)),
        Fetched::Response { status, body } => if !success(status) {
            Some(NetworkError::Status(status))
        } else {
            match parsed_text(body@) {
                Some(m) => if <Vec<SyncthingEvent>>::fits(Slot::Found(m)) {
                    None
                } else {
                    Some(NetworkError::Body)
                },
                None => Some(NetworkError::Body),
            }
        },
    }
}

/// The events of a document: a list of event records, each with its
/// payload classified. Any other document is no body of an answer.
pub fn events_of_document(document: &JsonValue) -> (r: Result<Vec<SyncthingEvent>, NetworkError>)
    ensures
        match r {
            Ok(events) => <Vec<SyncthingEvent>>::fits(Slot::Found(document@)) && events.reads(
                Slot::Found(document@),
            ),
            Err(e) => e == NetworkError::Body && !<Vec<SyncthingEvent>>::fits(
                Slot::Found(document@),
            ),
        },
{
    match <Vec<SyncthingEvent>>::read(&Field::Found(document)) {
        Some(events) => Ok(events),
        None => Err(NetworkError::Body),
    }
}

/// The daemon as a client sees it.
#[derive(Debug, Clone, PartialEq, Eq)]
pub struct Client {
    /// Scheme, host and port, as in `http://127.0.0.1:8384`.
    pub address: String,
    /// The key that is sent with every request.
    pub auth_key: String,
}

impl Client {
    /// Whether a key can be sent in the header.
    pub fn accepts_key(auth_key: &str) -> (r: bool)
        ensures
            r == header_text(auth_key@),
    {
        header_value_parses(auth_key)
    }

    /// The client of the daemon at `address` and `port`.
    pub fn new(auth_key: &String, address: &String, port: &u16) -> (r: Client)
        requires
            header_text(auth_key@),
        ensures
            r.address@ == address@ + ":"@ + decimal(*port as nat),
            r.auth_key@ == auth_key@,
    {
        let port_text = decimal_text(*port as u64);
        Client {
            address: join3(address.as_str(), ":", port_text.as_str()),
            auth_key: auth_key.clone(),
        }
    }

    /// The client of the daemon at `address` and `port`, if the key can be
    /// sent.
    pub fn checked(auth_key: &String, address: &String, port: &u16) -> (r: Option<Client>)
        ensures
            r is Some <==> header_text(auth_key@),
            r matches Some(c) ==> c.address@ == address@ + ":"@ + decimal(*port as nat)
                && c.auth_key@ == auth_key@,
    {
        if Self::accepts_key(auth_key.as_str()) {
            Some(Self::new(auth_key, address, port))
        } else {
            None
        }
    }

    /// The header that opens the daemon: its name and its value.
    pub fn auth_header(validated_auth_key: &String) -> (r: (String, String))
        requires
            header_text(validated_auth_key@),
        ensures
            r.0@ == key_header(),
            r.1@ == validated_auth_key@,
    {
        ("X-API-KEY".to_owned(), validated_auth_key.clone())
    }

    /// Where the events after `last_seen` are asked for, and where all
    /// that the daemon holds are asked for when nothing was seen yet.
    pub fn events_url(&self, last_seen: &Option<u64>) -> (r: String)
        ensures
            r@ == match *last_seen {
                Some(id) => self.address@ + "/rest/events?since="@ + decimal(id as nat),
                None => self.address@ + "/rest/events"@,
            },
    {
        match last_seen {
            Some(id) => {
                let id_text = decimal_text(*id);
                join3(self.address.as_str(), "/rest/events?since=", id_text.as_str())
            },
            None => {
                let r = join3(self.address.as_str(), "/rest/events", "");
                proof {
                    reveal_strlit("");
                    assert(r@ =~= self.address@ + "/rest/events"@);
                }
                r
            },
        }
    }

    /// The events after `last_seen`, out of what the request for them came
    /// to: `fetched` is what came of getting the address of
    /// [`Client::events_url`] with the header of [`Client::auth_header`].
    ///
    /// An answer of success whose body is a list of event records gives
    /// the events of the records, each with its payload classified. No
    /// answer, an answer of another status, and a body that is no such
    /// list give the error that [`refusal`] names. Nothing is asked again.
    pub fn get_events_since(&self, last_seen: &Option<u64>, fetched: &Fetched) -> (r: Result<
        Vec<SyncthingEvent>,
        NetworkError,
    >)
        ensures
            match r {
                Ok(events) => {
                    &&& refusal(*fetched) is None
                    &&& fetched matches Fetched::Response { status, body }
                    &&& parsed_text(body@) matches Some(m)
                    &&& events.reads(Slot::Found(m))
                },
                Err(e) => refusal(*fetched) == Some(e),
            },
    {
        match fetched {
            Fetched::Failed { cause } => Err(NetworkError::Transport(cause.clone())),
            Fetched::Response { status, body } => {
                if *status < 200 || *status >= 300 {
                    return Err(NetworkError::Status(*status));
                }
                match JsonValue::from_text(body.as_str()) {
                    Some(document) => events_of_document(&document),
                    None => Err(NetworkError::Body),
                }
            },
        }
    }
}

/// An answer of a status outside 200 to 299 gives the error of that status
/// and no events, whatever its body holds.
pub proof fn lemma_bad_status_is_refused(status: u16, body: String)
    requires
        !success(status),
    ensures
        refusal(Fetched::Response { status, body }) == Some(NetworkError::Status(status)),
{
}

/// No answer gives the error of its cause.
pub proof fn lemma_no_answer_is_refused(cause: String)
    ensures
        refusal(Fetched::Failed { cause }) == Some(NetworkError::Transport(cause)),
{
}

/// A payload of no known shape comes through a fetch whole: where record
/// `i` of the body holds as its `data` an object that fits none of the
/// known shapes, event `i` has the payload `Unknown`, and the payload holds
/// every member of the object, in its place, under its name and with its
/// value.
pub proof fn lemma_fetched_unknown_is_lossless(
    events: Vec<SyncthingEvent>,
    records: Seq<JsonModel>,
    i: int,
    members: Seq<(Seq<char>, JsonModel)>,
)
    requires
        events.reads(Slot::Found(JsonModel::Array(records))),
        0 <= i < records.len(),
        slot(records[i], "data"@, 4, 5) == Slot::Found(JsonModel::Object(members)),
        kind_of(Slot::Found(JsonModel::Object(members))) is Unknown,
    ensures
        events@.len() == records.len(),
        events@[i].data is Unknown,
        events@[i].data->Unknown_0.entries@.len() == members.len(),
        forall|k: int|
            0 <= k < members.len() ==> (#[trigger] events@[i].data->Unknown_0.entries@[k]).0@
                == members[k].0 && events@[i].data->Unknown_0.entries@[k].1@ == members[k].1,
{
    let s = Slot::Found(JsonModel::Array(records));
    assert(s->Found_0->Array_0 == records);
    assert(events@[i].reads(Slot::Found(records[i])));
    super::event_structs::lemma_unknown_payload_is_lossless(events@[i].data, members);
}

} // verus!
