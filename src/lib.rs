//! An NFT platform built from cooperating actors: a lock guard, a fund
//! splitter, asset (token) modules, a collection factory, a link permission
//! check, a fixed-price marketplace and a hub registry.
pub mod auth;
pub mod funds;
pub mod hub;
pub mod keymap;
pub mod link;
pub mod locks;
pub mod market;
pub mod metadata;
pub mod mint;
pub mod split;
pub mod token;
