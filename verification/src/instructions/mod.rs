pub mod add_membership;
pub mod approve_cpi;
pub mod create_text_topic;
pub mod create_transaction;
pub mod create_treasury;
pub mod delete_membership;
pub mod init;
pub mod set_owners_cpi;
pub mod spend;
pub mod update_text_topic;
pub mod update_topology;
pub mod update_url_topic;
