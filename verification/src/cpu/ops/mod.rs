pub mod access;
pub mod arithmetic;
pub mod bitwise;
pub mod branch;
pub mod compare;
pub mod flags;
pub mod jump;
pub mod other;
pub mod shift;
pub mod stack;
pub mod transfer;
