//! Market scanning and purchase decisions for a trading-card marketplace.
//!
//! The library holds what a scanner decides, and proves it with Verus:
//!
//! - [`decimal`] and [`price`]: prices as exact amounts, and the price of an
//!   offer per unit of experience;
//! - [`price_table`]: the trader's reference prices, read from a file of
//!   names and prices;
//! - [`store`]: the scan filter, which keeps the rows of the market that are
//!   at or below their reference price, and the questions the scans ask;
//! - [`engine`]: the buy decision for one item;
//! - [`orchestrator`]: the scan cycle as a state machine;
//! - [`strategy`]: two further rules for buying, by the average price;
//! - [`nft`] and [`card_id`]: the catalog of cards;
//! - [`api`], [`filter`] and the modules of the single questions and answers:
//!   what goes to the marketplace and what comes back;
//! - [`crypto`]: sealing a request;
//! - [`script`]: the rows of the reports.
//!
//! Nothing here touches the network, the disk or the clock of its own accord:
//! whoever runs a scan fetches and buys, and tells the library what happened.

pub mod analyze;
pub mod api;
pub mod buy_nft_detail;
pub mod card_id;
pub mod category_list;
pub mod crypto;
pub mod decimal;
pub mod engine;
pub mod filter;
pub mod market_home;
pub mod market_secondary;
pub mod nft;
pub mod orchestrator;
pub mod payment;
pub mod price;
pub mod price_table;
pub mod script;
pub mod sell;
pub mod sequences;
pub mod store;
pub mod strategy;
pub mod text;
pub mod utils;
