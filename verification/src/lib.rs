//! Decisions of a set-up wizard for a local Lichess development environment:
//! the settings record and its environment-file rendering, the catalogue of
//! optional services, the repositories to clone, and what is derived from a
//! Gitpod workspace. Prompts, files and subprocesses are left to the caller.

pub mod basic;
pub mod cli;
pub mod cloning;
pub mod config;
pub mod gitpod;
pub mod hostname;
pub mod invocation;
pub mod repository;
pub mod services;
pub mod setup;
pub mod text;
pub mod validate;
pub mod welcome;
