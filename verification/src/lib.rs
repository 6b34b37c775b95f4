//! The logic of a multisig-governed program: its accounts and the space they
//! are given, the checks and state changes of each instruction, and the
//! calls into the multisig program that the instructions make, with the
//! seeds the program signs them with.
pub mod cpi;
pub mod error;
pub mod instruction_laws;
pub mod instructions;
pub mod laws;
pub mod model;
pub mod namaph_multisig;
pub mod pda;
pub mod pubkey;
pub mod seeds;
pub mod util;
