//! Builds the two calls that a program makes into the token metadata
//! program: creating the metadata record of a mint, and updating one.
//!
//! The crate works on plain values. An address is a `[u8; 32]`; an
//! instruction is a program address, an ordered list of flagged accounts and
//! a payload of bytes. Handing a finished call to the runtime is left to the
//! embedding program.

pub mod builder;
pub mod handle;
pub mod instruction;
pub mod invoke;
pub mod keys;
pub mod round_trip;
pub mod state;
pub mod wire;

pub use builder::create_metadata_ix;
pub use handle::TokenMetadata;
pub use instruction::{AccountMeta, Instruction};
pub use invoke::{
    create_metadata, update_metadata, CreateMetadata, CreateMetadataHandle, Invocation,
    UpdateMetadataAccount, UpdateMetadataHandle,
};
pub use state::{fits_wire, Creator, Data};
