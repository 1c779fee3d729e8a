pub mod text;
pub mod luhn;
pub mod idcard;
pub mod text_clean;
