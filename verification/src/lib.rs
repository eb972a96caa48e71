//! Authentication and server start-up logic of a Lore deployment, verified with Verus.
#![allow(unused_imports)]

pub mod auth_service;
pub mod authentication;
pub mod credentials;
pub mod endpoints;
pub mod errors;
pub mod jwk;
pub mod jwt_interceptor;
pub mod keyed;
pub mod laws;
pub mod login;
pub mod obliterate;
pub mod oidc;
pub mod oidc_refresh;
pub mod pkce;
pub mod repository_service;
pub mod runtime;
pub mod seeding;
pub mod session;
pub mod settings;
pub mod shutdown;
pub mod startup;
pub mod status;
pub mod stores;
pub mod text;
pub mod urls;
