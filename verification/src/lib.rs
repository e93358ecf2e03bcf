//! Deterministic inventory evaluation and service logic of the cloud operations backend.
pub mod text;
pub mod json;
pub mod time;
pub mod inventory;
pub mod errors;
pub mod aws;
pub mod aws_account;
pub mod kafka;
pub mod kafka_flows;
pub mod analytics;
pub mod cloudwatch_scraper;
pub mod cost_categories;
pub mod explain_plan;
pub mod chaos;
pub mod calendar;
pub mod budget;
pub mod cost_analytics;
pub mod database;
pub mod data_collection;
