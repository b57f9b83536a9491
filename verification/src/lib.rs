//! The verified core of the newsletter service: the mail-send request that the
//! email client puts together, and the decisions of the admin dashboard.

pub mod email_client;
pub mod routes;
