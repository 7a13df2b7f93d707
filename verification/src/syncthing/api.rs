//! The daemon's event stream, and the cursor that moves over it.

use vstd::prelude::*;
use super::client::{header_text, refusal, Client, Fetched};
use super::configs::Configs;
use super::decode::FromJson;
use super::errors::NetworkError;
use super::event_structs::SyncthingEvent;
use super::json::Slot;
use super::json_text::parsed_text;
use super::text::decimal;

verus! {

/// The ids of a batch of events, in their order.
pub open spec fn ids(events: Seq<SyncthingEvent>) -> Seq<u64> {
    Seq::new(events.len(), |i: int| events[i].id)
}

/// The types of a batch of events, in their order.
pub open spec fn types(events: Seq<SyncthingEvent>) -> Seq<Seq<char>> {
    Seq::new(events.len(), |i: int| events[i].type_@)
}

/// The cursor after a batch: the id of the last event of the batch, and
/// the cursor as it was where the batch is empty.
pub open spec fn cursor_after(cursor: Option<u64>, batch: Seq<u64>) -> Option<u64> {
    if batch.len() == 0 {
        cursor
    } else {
        Some(batch.last())
    }
}

/// The event stream of one daemon, and how far it has been read.
#[derive(Debug, Clone, PartialEq, Eq)]
pub struct SyncthingApi {
    pub client: Client,
    /// The id of the last event that was seen; nothing before the first
    /// event.
    pub last_seen: Option<u64>,
}

impl SyncthingApi {
    /// The stream of the daemon that the settings name, with nothing seen
    /// yet.
    pub fn new(configs: &Configs) -> (r: SyncthingApi)
        requires
            header_text(configs.auth_key@),
        ensures
            r.client.address@ == configs.address@ + ":"@ + decimal(configs.port as nat),
            r.client.auth_key@ == configs.auth_key@,
            r.last_seen is None,
    {
        SyncthingApi {
            client: Client::new(&configs.auth_key, &configs.address, &configs.port),
            last_seen: None,
        }
    }

    /// The stream of the daemon behind `client`, with nothing seen yet.
    pub fn with_client(client: Client) -> (r: SyncthingApi)
        ensures
            r.client == client,
            r.last_seen is None,
    {
        SyncthingApi { client, last_seen: None }
    }

    /// Where the next events are asked for: after the last one seen, or
    /// all that the daemon holds when none was seen.
    pub fn request_url(&self) -> (r: String)
        ensures
            r@ == match self.last_seen {
                Some(id) => self.client.address@ + "/rest/events?since="@ + decimal(id as nat),
                None => self.client.address@ + "/rest/events"@,
            },
    {
        self.client.events_url(&self.last_seen)
    }

    /// Takes in what a fetch came to. Where it gave events, they are
    /// returned and the cursor moves to the last of them; an empty batch
    /// leaves the cursor where it was. Where it gave none, the error is
    /// returned and nothing changes.
    pub fn update(&mut self, fetched: &Fetched) -> (r: Result<Vec<SyncthingEvent>, NetworkError>)
        ensures
            final(self).client == old(self).client,
            match r {
                Ok(events) => {
                    &&& refusal(*fetched) is None
                    &&& fetched matches Fetched::Response { status, body }
                    &&& parsed_text(body@) matches Some(m)
                    &&& events.reads(Slot::Found(m))
                    &&& final(self).last_seen == cursor_after(old(self).last_seen, ids(events@))
                },
                Err(e) => refusal(*fetched) == Some(e) && final(self).last_seen == old(
                    self,
                ).last_seen,
            },
    {
        let events = self.client.get_events_since(&self.last_seen, fetched)?;
        if events.len() > 0 {
            self.last_seen = Some(events[events.len() - 1].id);
        }
        Ok(events)
    }
}

} // verus!
