//! Time-value-of-money calculations over exact base-ten decimal arithmetic:
//! the future value of a cash-flow stream, both under the strict cash-flow
//! sign convention and under the spreadsheet convention.

pub mod decimal;
pub mod tvm;
