//! Verified core logic of the StellarLend lending protocol: error codebook,
//! risk and interest mathematics, liquidation planning, oracle aggregation and
//! circuit breakers, flash-loan guards and the decision logic of the
//! protocol's auxiliary contracts.
pub mod errors;
pub mod math;
pub mod table;
pub mod types;
pub mod risk;
pub mod safe_math;
pub mod fixed_point;
pub mod interest;
pub mod liquidation;
pub mod lazy;
pub mod packed_config;
pub mod interest_rate;
pub mod lending_interest;
pub mod risk_dashboard;
pub mod meta;
pub mod deadline;
pub mod signature;
pub mod margin;
pub mod vault;
pub mod assertions;
pub mod fixtures;
pub mod test_helpers;
pub mod gas_benchmark;
pub mod scenarios;
pub mod oracle_math;
pub mod oracle;
pub mod flash_loan;
pub mod credit_oracle;
pub mod wallet;
pub mod migration;
pub mod sns;
pub mod referral;
pub mod parameter_store;
pub mod pool_factory;
pub mod oracle_hub;
pub mod liquidation_strategy;
pub mod swap_router;
pub mod lending_core;
pub mod mocks;
pub mod suite;
