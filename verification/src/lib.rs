//! Retrieval-augmented processing of support tickets.
//!
//! A ticket is embedded, the vector store is searched for similar earlier
//! tickets, a reranker orders what was found, and a generative model suggests
//! a resolution from the ticket and the reranked context. The four providers
//! are interfaces ([`embedding`], [`vector_db`], [`reranking`], [`llm`]); the
//! pipeline that sequences them is [`processors`]; [`container`] holds one
//! instance of each with the health of the whole, and [`factory`] selects
//! the backends that a configuration names.
//!
//! Providers sit across a network and are not trusted: every answer is
//! tested against the contract of its provider before it is used, and an
//! answer that breaks the contract is an error of that provider's kind. What
//! the pipeline hands out is therefore well formed whatever the providers do.
//!
//! Scores and confidences are single-precision numbers held by their bit
//! pattern ([`single`]), moments are seconds and nanoseconds ([`clock`]).

pub mod clock;
pub mod common;
pub mod config;
pub mod configuration;
pub mod container;
pub mod embedding;
pub mod errors;
pub mod factory;
pub mod ids;
pub mod llm;
pub mod monitoring;
pub mod processors;
pub mod reranking;
pub mod services;
pub mod single;
pub mod solution;
pub mod text;
pub mod ticket;
pub mod validators;
pub mod vector_db;
pub mod workflows;
