//! Document-to-PDF conversion pipeline built on a dynamic automation layer.
//!
//! A structured input document is converted to a final PDF in three stages:
//! template to Markdown, Markdown to Docx (both plain subprocess calls), and
//! Docx to PDF, which drives an installed word processor through its
//! late-bound automation interface. This crate holds the verified core: the
//! tagged `Variant` value type, the invocation-request and argument-packing
//! layer, the per-provider export adapter, and the two-provider fallback
//! pipeline with guaranteed runtime cleanup. The remote calls themselves are
//! performed by an unverified driver that feeds their outcomes back as
//! events.

pub mod adapter;
pub mod dispatch;
pub mod errors;
pub mod guards;
pub mod paths;
pub mod pipeline;
pub mod providers;
pub mod settings;
pub mod stages;
pub mod variant;
