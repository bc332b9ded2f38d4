//! Card reading: single responses, the exchange with a card, and polling.
pub mod apdu;
pub mod debounce;
pub mod license;
pub mod reader;
