//! Verified core of the regional network-infrastructure monitoring service:
//! domain entities, alert detection rules, e-mail templates, request DTOs,
//! authentication tokens, role-based access control and rate limiting.

pub mod audit;
pub mod auth;
pub mod boundary;
pub mod config;
pub mod detector;
pub mod dto;
pub mod email;
pub mod entities;
pub mod errors;
pub mod handlers;
pub mod ports;
pub mod rate_limit;
pub mod rbac;
pub mod services;
pub mod text;
pub mod timestamp;
