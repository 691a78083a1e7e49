//! Verified core rules of a lending platform.
//!
//! - Accounting: chart-of-account codes and names, the accounting base
//!   configuration, charts and the resolution of a credit module's
//!   integration configuration, ledger transaction templates.
//! - Credit: facility terms and interest periods, the repayment plan and
//!   the history that a facility keeps from its events, collateral and
//!   liquidation entities, the accounts a facility gets and where they are
//!   attached, balances, disbursal checks, payment allocation, and the
//!   decisions of the background jobs.
//! - Access: actions, objects and permission sets of the modules, and what
//!   bootstrapping access control creates.

pub mod text;
pub mod ids;
pub mod account_code;
pub mod initiator;
pub mod account_code_laws;
pub mod accounting_config;
pub mod accounting_config_laws;
pub mod idempotent;
pub mod liquidation;
pub mod collateral;
pub mod time;
pub mod terms;
pub mod credit_event;
pub mod history;
pub mod ledger;
pub mod ledger_balance;
pub mod tx_template;
pub mod receive_proceeds;
pub mod repayment_entry;
pub mod repayment_plan;
pub mod repayment_plan_laws;
pub mod chart;
pub mod chart_integration;
pub mod pending_facility;
pub mod authz;
pub mod accounting_authz;
pub mod credit_authz;
pub mod facility_accounts;
pub mod ledger_setup;
pub mod entity_ref;
pub mod credit_primitives;
pub mod disbursal_policy;
pub mod access_bootstrap;
pub mod obligation_schedule;
pub mod facility_jobs;
pub mod payment_allocation;
