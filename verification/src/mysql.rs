//! The instrumented connection to a MySQL server.

use vstd::prelude::*;

use crate::connection::{
    Decorator, DecoratorView, EstablishError, EstablishErrorView, Establishing, EstablishingView,
    PendingQuery, Step, record_view,
};
use crate::event::{EventView, LifecycleEvent};
use crate::identity::{Backend, base_identity};
use crate::policy::EmissionPolicy;
use crate::record::{Level, Record};
use crate::transaction::{Demarcation, accepts};

verus! {

/// The state of an established, instrumented MySQL connection.
#[derive(Debug)]
pub struct InstrumentedMysqlConnection {
    decorator: Decorator,
}

impl View for InstrumentedMysqlConnection {
    type V = DecoratorView;

    closed spec fn view(&self) -> DecoratorView {
        self.decorator@
    }
}

impl InstrumentedMysqlConnection {
    /// Starts to establish a connection to `database_url`: the start
    /// record, and the token that `establish` takes.
    pub fn begin_establish(
        database_url: &str,
        policy: EmissionPolicy,
    ) -> (begun: (Establishing, Record))
        ensures
            begun.0@ == (EstablishingView {
                policy,
                target: database_url@,
                identity: base_identity(Backend::Mysql),
            }),
            begun.1@ == begun.0@.start_record(),
    {
        Establishing::begin_for(Backend::Mysql, policy, database_url)
    }

    /// Ends the establishment with the outcome of connecting, `None` for
    /// success and the failure's display form otherwise. The connection
    /// comes to be exactly on success; the finish record reports the
    /// outcome either way.
    pub fn establish(
        pending: Establishing,
        failure: Option<&str>,
    ) -> (ended: (Result<InstrumentedMysqlConnection, EstablishError>, Record))
        ensures
            match ended.0 {
                Ok(connection) => {
                    &&& failure is None
                    &&& connection@ == (DecoratorView {
                        policy: pending@.policy,
                        identity: base_identity(Backend::Mysql),
                        depth: 0,
                    })
                    &&& ended.1@ == pending@.finish_record(None, base_identity(Backend::Mysql))
                    &&& ended.1@.level == Level::Debug
                },
                Err(error) => {
                    &&& failure matches Some(text)
                    &&& error@ == EstablishErrorView::Connection(text@)
                    &&& ended.1@ == pending@.finish_record(Some(text@), pending@.identity)
                    &&& ended.1@.level == Level::Error
                },
            },
    {
        let (state, record) = pending.conclude(Backend::Mysql, failure);
        match state {
            Ok(decorator) => (Ok(InstrumentedMysqlConnection { decorator }), record),
            Err(error) => (Err(error), record),
        }
    }

    /// Starts the liveness check that a connection pool runs before it
    /// hands the connection out: the execution of `SELECT 1`.
    pub fn ping(&self) -> (started: (PendingQuery, Record))
        ensures
            started.0@ == "SELECT 1"@,
            started.1@ == self@.record_of(EventView::QueryStart { statement: "SELECT 1"@ }),
    {
        self.decorator.start_query("SELECT 1")
    }

    /// The decorator core of this connection.
    pub fn decorator(&self) -> (decorator: &Decorator)
        ensures
            decorator@ == self@,
    {
        &self.decorator
    }

    /// The record of an event that the wrapped connection reports. A
    /// transaction boundary that fits the current depth is recorded as it
    /// is and moves the depth. One that does not fit is recorded as an
    /// unclassified event that holds its line, and moves nothing. No event
    /// is dropped.
    pub fn observe(&mut self, event: &LifecycleEvent) -> (record: Record)
        ensures
            Some(record@) == old(self)@.emits(Step::Reported(event@)),
            final(self)@ == old(self)@.after(Step::Reported(event@)),
    {
        self.decorator.observe(event)
    }

    /// Opens or closes a transaction: the boundary record of the request,
    /// and the depth moves by one. A request that cannot be served has no
    /// record and changes nothing.
    pub fn demarcate(&mut self, request: Demarcation) -> (record: Option<Record>)
        ensures
            record_view(record) == old(self)@.emits(Step::Requested(request)),
            final(self)@ == old(self)@.after(Step::Requested(request)),
            record is Some <==> accepts(old(self)@.depth, request),
    {
        self.decorator.demarcate(request)
    }
}

} // verus!
