//! Turns the semantic model of compiled Move modules into plain, ordered
//! records that downstream tooling can read as JSON.
//!
//! The compiled modules arrive as plain data ([`model`], [`ast`], [`ty`])
//! together with the pool of their interned names ([`symbol`]). The records
//! come in three shapes: a declaration-level listing ([`basic_full`]), a
//! listing with attributes and function bodies ([`annotated`], with the
//! bodies as trees from [`expression`]), and a short package summary
//! ([`summary`]). [`pipeline`] is the course of one run of a program that
//! prints them, and [`determinism`] states that a listing depends on what
//! was compiled and on nothing else.

pub mod symbol;
pub mod tags;
pub mod text;
pub mod ty;
pub mod ast;
pub mod model;
pub mod expression;
pub mod views;
pub mod annotated;
pub mod basic_full;
pub mod summary;
pub mod pipeline;
pub mod determinism;
