//! The decisions of the customer portal of fiducia.cloud.
//!
//! Nothing here reads or sends anything, but for a look at the clock. Where a decision needs
//! something from outside, one function says what is to be asked and another takes what came
//! back. Each function states its result; what they guarantee together is proved in the modules
//! whose names end in `_laws`, and beside the functions themselves.

pub mod account;
pub mod account_laws;
pub mod activity;
pub mod answer_laws;
pub mod api_keys;
pub mod auth;
pub mod auth_laws;
pub mod billing;
pub mod billing_laws;
pub mod digest;
pub mod headers;
pub mod ids;
pub mod json;
pub mod key_laws;
pub mod key_requests;
pub mod key_table;
pub mod orgs;
pub mod orgs_laws;
pub mod queries;
pub mod percent;
pub mod reply;
pub mod security;
pub mod security_laws;
pub mod session_assurance;
pub mod session_laws;
pub mod site;
pub mod site_laws;
pub mod statements;
pub mod store;
pub mod store_laws;
pub mod supabase_answers;
pub mod supabase_auth;
pub mod supabase_laws;
pub mod text;
pub mod text_laws;
pub mod throttle;
pub mod throttle_laws;
pub mod times;
pub mod upstream;
