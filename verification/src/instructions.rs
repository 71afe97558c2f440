pub mod admission_market;
pub mod create_identity;
pub mod creator_dao;
pub mod set_authority;
pub mod update_civic;
pub mod update_creator;
pub mod update_developer;
pub mod update_infra;
pub mod update_trading;
