//! Verified core of the SVO game backend services: asset ownership rules,
//! wallet and inventory arithmetic, lootbox drops, the shop order life
//! cycle, referral campaigns, service tokens, notification templates and
//! the match-timeline metrics pipeline.
pub mod text;
pub mod json;
pub mod ids;
pub mod pattern;
pub mod ownership;
pub mod restrictions;
pub mod ledger;
pub mod lootbox;
pub mod shop_order;
pub mod shop_catalog;
pub mod shop_locale;
pub mod yookassa;
pub mod referrals;
pub mod service_tokens;
pub mod littlemice;
pub mod templates;
pub mod discord_api;
pub mod nickname;
pub mod delivery;
pub mod receipts;
pub mod gunskins;
pub mod squads;
pub mod migrations;
pub mod metrics_event;
pub mod count_order;
pub mod metrics_tally;
pub mod metrics_fields;
pub mod metrics_laws;
pub mod metrics_stream;
pub mod metrics_summary;
