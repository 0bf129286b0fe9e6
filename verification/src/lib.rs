pub mod primitives;
pub mod text;
pub mod hex;
pub mod abi;
pub mod obligations;
pub mod types;
pub mod arbiters;
pub mod command_signer;
pub mod events;
pub mod oracle;
pub mod client;
