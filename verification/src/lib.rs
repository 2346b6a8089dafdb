//! Request routing and request checks of the subscriber data management service.
pub mod template;
pub mod route;
pub mod paths;
pub mod operation;
pub mod dispatch;
pub mod auth;
pub mod pathparam;
pub mod admission;
pub mod queryplan;
pub mod query;
pub mod checks;
pub mod reply;
pub mod documented;
