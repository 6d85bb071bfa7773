//! A minimal identity directory: validated credentials, a user store keyed by
//! email, and the signup workflow over any store.
pub mod error;
pub mod email;
pub mod password;
pub mod user;
pub mod data_stores;
pub mod hashmap_user_store;
pub mod signup;

pub use error::{AuthAPIError, UserStoreError, ValidationError};
pub use email::Email;
pub use password::Password;
pub use user::User;
pub use data_stores::UserStore;
pub use hashmap_user_store::HashmapUserStore;
pub use signup::{signup, SignupRequest, SignupResponse};
