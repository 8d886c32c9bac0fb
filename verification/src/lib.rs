pub mod check_diff;
pub mod coin_symbol;
pub mod conf;
pub mod decimal;
pub mod diag;
