//! Flight-itinerary search against a provider that answers asynchronously.
//!
//! A create call starts a search; poll calls on the session token bring
//! more complete results until the provider says that the search is
//! complete or has failed. This library holds what is decided and computed
//! on the way, and makes no call itself:
//!
//! - [`req`]: the request and its JSON form;
//! - [`json`]: JSON documents as trees of plain values;
//! - [`decode`] and [`schema`]: the strict decoding of responses;
//! - [`resp`] and [`table`]: the result graph of one snapshot;
//! - [`stream`]: the session, a state machine that says which call comes
//!   next and which snapshots the responses give;
//! - [`util`]: the views over a snapshot, with every id looked up;
//! - [`decimal`] and [`text`]: exact prices and the text of values.

pub mod decimal;
pub mod decode;
pub mod json;
pub mod req;
pub mod resp;
pub mod schema;
pub mod stream;
pub mod table;
pub mod text;
pub mod util;
