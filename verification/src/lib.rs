//! Planning of concentrated-liquidity position transactions.
//!
//! The library turns a pool snapshot and a caller's request into the tick
//! range, liquidity, amount bounds, account addresses and ordered
//! instructions of one atomic transaction. It performs no I/O: the caller
//! reads the chain, hands over plain values, and signs and sends what comes
//! back.
//!
//! Every function is verified against its contract. What the protocol's own
//! crates compute (tick and liquidity arithmetic, address derivation,
//! transfer fees) is called, not rebuilt: each such call stands in a private
//! function marked `external_body`, whose doc comment begins with
//! `Trusted:` and says what is believed of the call.

pub mod address;
pub mod amounts;
pub mod assemble;
pub mod close;
pub mod derive;
pub mod error;
pub mod fee;
pub mod instruction;
pub mod liquidity;
pub mod open;
pub mod pool;
pub mod position;
pub mod program;
pub mod run;
pub mod slippage;
pub mod text;
pub mod tick;
pub mod wide;
