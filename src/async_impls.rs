//! Shared handles on the application's handlers, for servers that run each call on a task
//! or thread of its own.
use crate::application::{Consensus, Info, Mempool, Snapshot};
use std::sync::Arc;
use vstd::prelude::*;

verus! {

/// A consensus handler shared by the tasks of a server.
pub struct AsyncConsensusImpl<C: Consensus> {
    inner: Arc<C>,
}

impl<C: Consensus> AsyncConsensusImpl<C> {
    /// Shares `inner`.
    pub fn new(inner: C) -> (r: Self)
        ensures
            r.spec_inner() == inner,
    {
        AsyncConsensusImpl { inner: Arc::new(inner) }
    }

    /// The shared handler.
    pub closed spec fn spec_inner(&self) -> Arc<C> {
        self.inner
    }

    /// The shared handler.
    pub fn inner(&self) -> (r: &Arc<C>)
        ensures
            *r == self.spec_inner(),
    {
        &self.inner
    }
}

/// An info handler shared by the tasks of a server.
pub struct AsyncInfoImpl<I: Info> {
    inner: Arc<I>,
}

impl<I: Info> AsyncInfoImpl<I> {
    /// Shares `inner`.
    pub fn new(inner: I) -> (r: Self)
        ensures
            r.spec_inner() == inner,
    {
        AsyncInfoImpl { inner: Arc::new(inner) }
    }

    /// The shared handler.
    pub closed spec fn spec_inner(&self) -> Arc<I> {
        self.inner
    }

    /// The shared handler.
    pub fn inner(&self) -> (r: &Arc<I>)
        ensures
            *r == self.spec_inner(),
    {
        &self.inner
    }
}

/// A mempool handler shared by the tasks of a server.
pub struct AsyncMempoolImpl<M: Mempool> {
    inner: Arc<M>,
}

impl<M: Mempool> AsyncMempoolImpl<M> {
    /// Shares `inner`.
    pub fn new(inner: M) -> (r: Self)
        ensures
            r.spec_inner() == inner,
    {
        AsyncMempoolImpl { inner: Arc::new(inner) }
    }

    /// The shared handler.
    pub closed spec fn spec_inner(&self) -> Arc<M> {
        self.inner
    }

    /// The shared handler.
    pub fn inner(&self) -> (r: &Arc<M>)
        ensures
            *r == self.spec_inner(),
    {
        &self.inner
    }
}

/// A snapshot handler shared by the tasks of a server.
pub struct AsyncSnapshotImpl<S: Snapshot> {
    inner: Arc<S>,
}

impl<S: Snapshot> AsyncSnapshotImpl<S> {
    /// Shares `inner`.
    pub fn new(inner: S) -> (r: Self)
        ensures
            r.spec_inner() == inner,
    {
        AsyncSnapshotImpl { inner: Arc::new(inner) }
    }

    /// The shared handler.
    pub closed spec fn spec_inner(&self) -> Arc<S> {
        self.inner
    }

    /// The shared handler.
    pub fn inner(&self) -> (r: &Arc<S>)
        ensures
            *r == self.spec_inner(),
    {
        &self.inner
    }
}

} // verus!
