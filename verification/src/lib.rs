//! Credential pool and request logic of a relay in front of the Codex backend.
//!
//! - [`codex_actor`] is the pool: credentials are handed out in turn, taken
//!   back, added, listed and deleted. [`actor_handle`] is what its users make
//!   of its replies.
//! - [`exchange`] and [`jwt`] are the login by device code and the refreshing
//!   of tokens; [`api`] is the administration around them.
//! - [`chat`] decides on the attempts to have a request answered, [`forward`]
//!   on one attempt, and [`provider`] on the list of models.
//! - [`organization`] orders the organizations of a chat account.
//! - [`pool_laws`], [`credential_laws`], [`chat_laws`], [`relay_laws`],
//!   [`login_laws`], [`organization_laws`] and [`text_laws`] say what the
//!   operations are for: what their results are made of, and what is true of
//!   several of them together.
//!
//! What has to wait for something outside is a session: it is told what came
//! of the work, and says what is next.
pub mod actor_handle;
pub mod api;
pub mod chat;
pub mod chat_laws;
pub mod codex_actor;
pub mod codex_state;
pub mod config;
pub mod credential_laws;
pub mod endpoint;
pub mod error;
pub mod exchange;
pub mod forward;
pub mod json;
pub mod jwt;
pub mod login_laws;
pub mod organization;
pub mod organization_laws;
pub mod pool_laws;
pub mod provider;
pub mod relay_laws;
pub mod text;
pub mod text_laws;
pub mod wire;
