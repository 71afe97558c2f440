pub mod claim_winnings;
pub mod create_market;
pub mod take_position;
