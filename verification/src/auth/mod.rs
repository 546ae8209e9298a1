//! Who is calling, and how that is established: credentials and their rules,
//! password digests, session tokens, and the bearer header of a request.

pub mod bearer;
pub mod credentials;
pub mod password;
pub mod token;

pub use bearer::bearer_token;
pub use bearer::AuthRejection;
pub use bearer::BearerAuth;
pub use credentials::Credentials;
pub use credentials::CredentialsVerifyError;
pub use credentials::CredentialsView;
pub use password::hash_password;
pub use password::verify_password;
pub use password::DigestError;
pub use token::generate_token;
pub use token::generate_token_at;
pub use token::verify_token;
pub use token::verify_token_at;
pub use token::SessionClaims;
pub use token::TokenError;
pub use token::TokenIssueError;
