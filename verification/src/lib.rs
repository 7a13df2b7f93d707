//! Event polling and script dispatch for a file-synchronisation daemon:
//! decoding of the event stream, the cursor of the poll loop, and the
//! launches that each batch of events calls for.

pub mod syncthing;
