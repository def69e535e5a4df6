//! The core of a small HTTP service, as pure functions from request to
//! response: a greeting at `GET /`, the creation of a user at `POST /users`,
//! and a description of both that is made from the route table itself.
//!
//! The service keeps no state. A transport around it reads requests from
//! the network, parses the text of their bodies and sends the answers; what
//! is answered to which request is decided here:
//!
//! - [`routes`] maps verb and path to a handler, or finds none;
//! - [`user`] holds the two records and decodes a request body into one;
//! - [`handlers`] are the greeting and the creation of a user;
//! - [`service`] puts these together into [`service::dispatch`];
//! - [`doc`] describes the application routes, [`schema`] the shapes of
//!   their bodies;
//! - [`http`] and [`json`] are the values all of this speaks of.

pub mod doc;
pub mod handlers;
pub mod http;
pub mod json;
pub mod routes;
pub mod schema;
pub mod service;
pub mod text;
pub mod user;
