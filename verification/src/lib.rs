//! A layered user-management library: a domain model with validation, a
//! repository port with an in-memory adapter, the row-mapping and validation
//! logic of a relational adapter, a create-user use case, and the
//! response-shaping logic of the HTTP surface.

pub mod domain;
pub mod json;
pub mod api;
pub mod cli;
pub mod config;
pub mod controller;
pub mod memory;
pub mod rdb;
pub mod repository;
pub mod usecase;

pub use domain::{NewUser, User, UserId, ValidationError};
pub use repository::{CreateError, StoreError, UserRepository};
pub use memory::OnMemoryRepository;
pub use usecase::CreateUser;
pub use config::Config;
