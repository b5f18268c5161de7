//! The vault: the component that holds the secret keys and uses them.

pub mod api;
pub mod frame;
pub mod laws;
pub mod local_csp_vault;
pub mod messages;
pub mod remote_csp_vault;
pub mod test_utils;
