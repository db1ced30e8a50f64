pub mod controller;
pub mod error;
pub mod laws;
pub mod model;
pub mod repo;
pub mod service;
pub mod validator;

pub use error::{DbServiceError, StorageError};
pub use model::{
    RedirectDTO, RedirectListDTO, RedirectObject, RedirectObjectList, UpdateUrlDTO,
    UpdateUrlObject,
};
pub use validator::PayloadValidator;
pub use repo::{MemoryRepo, RedirectRepo};
pub use service::{RedirectService, RedirectServiceImpl};
pub use controller::Reply;
