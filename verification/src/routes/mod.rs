//! The three requests: register, log in, open a private chat. Each is a
//! sequence of steps; whoever runs it performs what a step asks for and hands
//! back the answer.

pub mod chats;
pub mod contention;
pub mod signup;
pub mod user;

pub use chats::create_pm;
pub use chats::create_pm_chat;
pub use chats::CreatePMError;
pub use chats::CreatePMModel;
pub use user::authorize_user;
pub use user::login;
pub use user::register;
pub use user::register_user;
pub use user::LoginError;
pub use user::LoginModel;
pub use user::RegisterError;
pub use user::RegisterModel;
