//! What the bridge does when it starts.
use vstd::prelude::*;
use vstd::string::*;

use crate::error::BridgeError;
use crate::events;
use crate::events::NfcEvent;

verus! {

/// How many events the channel to the WebSocket server holds.
pub const EVENT_CHANNEL_CAPACITY: usize = 64;

/// The status event for the readers found when the bridge starts. If they could not be
/// listed, nothing is sent.
pub fn startup_event(readers: Result<Vec<String>, BridgeError>, version: &str) -> (event: Option<
    NfcEvent,
>)
    ensures
        events::option_view(event) == match readers {
            Ok(readers) => Some(
                events::NfcEventView::Status {
                    readers: readers@.map_values(|s: String| s@),
                    connected: readers@.len() > 0,
                    version: version@,
                },
            ),
            Err(_) => None,
        },
{
    match readers {
        Ok(readers) => {
            let connected = readers.len() > 0;
            Some(NfcEvent::Status { readers, connected, version: version.to_string() })
        },
        Err(_) => None,
    }
}

} // verus!
