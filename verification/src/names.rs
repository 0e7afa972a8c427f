//! Names that their owners choose.

use vstd::prelude::*;
use vstd::string::*;

verus! {

/// Name of a submission lane.
#[derive(Debug, PartialEq, Eq, Hash)]
pub struct LaneId(pub String);

/// Name of a logical worker.
#[derive(Debug, PartialEq, Eq, Hash)]
pub struct WorkerId(pub String);

/// Name of a worker process.
#[derive(Debug, PartialEq, Eq, Hash)]
pub struct WorkerInstanceId(pub String);

/// Name of a tenant.
#[derive(Debug, PartialEq, Eq, Hash)]
pub struct Namespace(pub String);

impl View for LaneId {
    type V = Seq<char>;

    open spec fn view(&self) -> Seq<char> {
        self.0@
    }
}

impl LaneId {
    /// The name of this text.
    pub fn new(text: &str) -> (r: LaneId)
        ensures
            r@ == text@,
    {
        LaneId(text.to_owned())
    }

    /// The text.
    pub fn as_str(&self) -> (r: &str)
        ensures
            r@ == self@,
    {
        self.0.as_str()
    }

    /// The same name.
    pub fn copy(&self) -> (r: LaneId)
        ensures
            r@ == self@,
    {
        LaneId(self.0.clone())
    }
}

impl View for WorkerId {
    type V = Seq<char>;

    open spec fn view(&self) -> Seq<char> {
        self.0@
    }
}

impl WorkerId {
    /// The name of this text.
    pub fn new(text: &str) -> (r: WorkerId)
        ensures
            r@ == text@,
    {
        WorkerId(text.to_owned())
    }

    /// The text.
    pub fn as_str(&self) -> (r: &str)
        ensures
            r@ == self@,
    {
        self.0.as_str()
    }

    /// The same name.
    pub fn copy(&self) -> (r: WorkerId)
        ensures
            r@ == self@,
    {
        WorkerId(self.0.clone())
    }
}

impl View for WorkerInstanceId {
    type V = Seq<char>;

    open spec fn view(&self) -> Seq<char> {
        self.0@
    }
}

impl WorkerInstanceId {
    /// The name of this text.
    pub fn new(text: &str) -> (r: WorkerInstanceId)
        ensures
            r@ == text@,
    {
        WorkerInstanceId(text.to_owned())
    }

    /// The text.
    pub fn as_str(&self) -> (r: &str)
        ensures
            r@ == self@,
    {
        self.0.as_str()
    }

    /// The same name.
    pub fn copy(&self) -> (r: WorkerInstanceId)
        ensures
            r@ == self@,
    {
        WorkerInstanceId(self.0.clone())
    }
}

impl View for Namespace {
    type V = Seq<char>;

    open spec fn view(&self) -> Seq<char> {
        self.0@
    }
}

impl Namespace {
    /// The name of this text.
    pub fn new(text: &str) -> (r: Namespace)
        ensures
            r@ == text@,
    {
        Namespace(text.to_owned())
    }

    /// The text.
    pub fn as_str(&self) -> (r: &str)
        ensures
            r@ == self@,
    {
        self.0.as_str()
    }

    /// The same name.
    pub fn copy(&self) -> (r: Namespace)
        ensures
            r@ == self@,
    {
        Namespace(self.0.clone())
    }
}

} // verus!
