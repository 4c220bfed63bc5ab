use vstd::prelude::*;

use crate::clock::now_epoch_seconds;
use crate::store::HeartbeatStore;

verus! {

/// The sorted collection in the key-value store that holds one score per
/// entity: its last heartbeat in seconds since the Unix epoch.
pub const STORE_KEY: &'static str = "entity_healthchecks";

pub const STATUS_OK: u16 = 200;

pub const STATUS_SERVER_ERROR: u16 = 500;

/// The HTTP status that answers a heartbeat: success once the store took the
/// record, a server error when the store could not be reached or refused it.
pub fn heartbeat_status(stored: bool) -> (r: u16)
    ensures
        r == (if stored {
            STATUS_OK
        } else {
            STATUS_SERVER_ERROR
        }),
{
    if stored {
        STATUS_OK
    } else {
        STATUS_SERVER_ERROR
    }
}

/// Records a heartbeat for `entity` at the current wall-clock time and returns
/// that time.
pub fn record_now(store: &mut HeartbeatStore, entity: String) -> (t: i64)
    requires
        old(store).wf(),
    ensures
        t >= 0,
        final(store).wf(),
        final(store)@ == old(store)@.insert(entity@, t as int),
{
    let t = now_epoch_seconds();
    store.record_heartbeat(entity, t);
    t
}

} // verus!
