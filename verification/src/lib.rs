pub mod challenge;
pub mod external;
pub mod laws;

pub use challenge::AdminError;
pub use challenge::ApprovalOutcome;
pub use challenge::ChallengeMetaData;
pub use challenge::ChallengeView;
pub use challenge::ClaimError;
pub use challenge::ClaimOutcome;
pub use challenge::Contract;
pub use challenge::InitError;
pub use challenge::MintError;
pub use external::NFTTokenMetadata;
pub use external::RoyaltyArgs;
pub use external::SplitBetweenUnparsed;
pub use external::TokenCompliant;
