//! Requests, the query core that sends them, and the errors they end in.

pub mod builder;
pub mod common;
pub mod endpoint;
pub mod error;
pub mod form;
pub mod games;
pub mod paged;
pub mod query;
pub mod runs;
pub mod transport;
pub mod users;

pub use builder::BuilderError;
pub use common::{CategoriesSorting, Direction, VariablesSorting};
pub use endpoint::{Endpoint, Method, Pageable};
pub use error::{ApiError, BodyError, TransportError};
pub use paged::{paginate, Pager, Pull};
pub use query::execute;
pub use transport::{ReplayTransport, Transport, WireRequest, WireResponse};
