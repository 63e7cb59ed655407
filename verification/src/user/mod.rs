//! Users: listing, sign-up and log-in.

pub mod get_user_list;
pub mod models;
pub mod password;
pub mod post_user_login;
pub mod post_user_signup;
pub mod services;
