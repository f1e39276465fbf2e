//! Verified core of a project-tracking service: the rules for work items,
//! iterations, projects, accounts and notifications, with the decisions of the
//! service layer written as functions over plain values.

pub mod text;
pub mod model;
pub mod error;
pub mod rules;
pub mod work_items;
pub mod status_change;
pub mod iterations;
pub mod projects;
pub mod auth;
pub mod notifications;
pub mod reports;
pub mod swimlane;
