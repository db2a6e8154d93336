//! Structured, leveled records for the lifecycle of a database connection.
//!
//! Every lifecycle event of a connection (connecting, executing a statement,
//! caching a prepared statement, opening and closing a transaction) becomes
//! one record with a constant name, a severity and named fields. A redaction
//! policy decides whether the connection locator and the statement text may
//! appear in it.

use vstd::prelude::*;

pub mod classify;
pub mod connection;
pub mod event;
pub mod identity;
pub mod mysql;
pub mod pg;
pub mod policy;
pub mod record;
pub mod sqlite;
pub mod taxonomy;
pub mod text;
pub mod transaction;

use diesel::connection::InstrumentationEvent;

use crate::classify::{classify, reported_event};
use crate::event::LifecycleEvent;
use crate::policy::EmissionPolicy;
use crate::record::Record;
use crate::taxonomy::{render, render_spec};

verus! {

/// Renders connection lifecycle events under a fixed redaction policy.
pub struct TracingInstrumentation {
    policy: EmissionPolicy,
}

impl TracingInstrumentation {
    /// The policy this instrumentation was made with.
    pub closed spec fn policy(&self) -> EmissionPolicy {
        self.policy
    }

    /// An instrumentation that records statement text, and the connection
    /// locator only if `include_url` is set.
    #[must_use]
    pub fn new(include_url: bool) -> (instrumentation: Self)
        ensures
            instrumentation.policy() == (EmissionPolicy {
                include_target: include_url,
                include_statement_text: true,
            }),
    {
        TracingInstrumentation {
            policy: EmissionPolicy { include_target: include_url, include_statement_text: true },
        }
    }

    /// An instrumentation that records what `policy` admits.
    #[must_use]
    pub fn with_policy(policy: EmissionPolicy) -> (instrumentation: Self)
        ensures
            instrumentation.policy() == policy,
    {
        TracingInstrumentation { policy }
    }

    /// The policy this instrumentation was made with.
    pub fn emission_policy(&self) -> (policy: EmissionPolicy)
        ensures
            policy == self.policy(),
    {
        self.policy
    }

    /// The record of one event that diesel reports: the event is
    /// classified, and the lifecycle event it stands for is rendered. Every
    /// event has its record, also one whose payload cannot be printed. The
    /// policy is the one fixed at construction and stays as it is.
    pub fn on_connection_event(&mut self, event: InstrumentationEvent<'_>) -> (record: Record)
        ensures
            record@ == render_spec(reported_event(event), old(self).policy()),
            reported_event(event).well_formed(),
            final(self).policy() == old(self).policy(),
    {
        let classified = classify(&event);
        self.on_lifecycle_event(&classified)
    }

    /// The record of one lifecycle event. The policy is the one fixed at
    /// construction and stays as it is.
    pub fn on_lifecycle_event(&mut self, event: &LifecycleEvent) -> (record: Record)
        ensures
            record@ == render_spec(event@, old(self).policy()),
            final(self).policy() == old(self).policy(),
    {
        render(event, self.policy)
    }
}

} // verus!
