pub mod csrf;
pub mod oidc;
pub mod session;
