pub mod add_founder_member;
pub mod cast_vote;
pub mod create_dao;
pub mod nominate_creator;
pub mod resolve_nomination;
