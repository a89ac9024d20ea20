//! A request-authentication and role-authorization library.
//!
//! The heart of the crate is a signed credential (token) codec and the
//! authorization gate that guards route groups: a request carries a bearer
//! token, which is verified and its role matched against the group's
//! permitted set before the account store is asked whether the account
//! still exists and is not suspended.

pub mod auth;
pub mod base64url;
pub mod claims;
pub mod decimal;
pub mod entities;
pub mod gate;
pub mod requests;
pub mod responses;
pub mod scan;
pub mod services;
pub mod text;
pub mod token;
