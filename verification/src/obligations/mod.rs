pub mod commit_reveal;
pub mod string_obligation;
pub mod approvals;
pub mod escrow_data;
pub mod erc20;
pub mod erc721;
pub mod erc1155;
pub mod token_bundle;
pub mod native_token;
pub mod attestation;
