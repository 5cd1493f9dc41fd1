//! Opaque textual identifiers.

use vstd::prelude::*;

verus! {

/// Identifier of one static site in the compiler's output.
#[derive(Debug, PartialEq, Eq, PartialOrd, Ord, Hash)]
pub struct SiteId(pub String);

/// Site key that is stable across builds.
#[derive(Debug, PartialEq, Eq, PartialOrd, Ord, Hash)]
pub struct SemanticSiteKey(pub String);

/// Identifier of one record.
#[derive(Debug, PartialEq, Eq, PartialOrd, Ord, Hash)]
pub struct RecordId(pub String);

/// Identifier of one build.
#[derive(Debug, PartialEq, Eq, PartialOrd, Ord, Hash)]
pub struct BuildId(pub String);

/// Identifier of one run.
#[derive(Debug, PartialEq, Eq, PartialOrd, Ord, Hash)]
pub struct RunId(pub String);

/// Identifier of one runtime trace.
#[derive(Debug, PartialEq, Eq, PartialOrd, Ord, Hash)]
pub struct TraceId(pub String);

/// Identifier of one runtime instance of an object or a callback.
#[derive(Debug, PartialEq, Eq, PartialOrd, Ord, Hash)]
pub struct InstanceId(pub String);

impl Clone for SiteId {
    fn clone(&self) -> (r: Self)
        ensures
            r == *self,
    {
        SiteId(self.0.clone())
    }
}

impl SiteId {
    pub fn as_str(&self) -> (s: &str)
        ensures
            s@ == self.0@,
    {
        self.0.as_str()
    }
}

impl Clone for SemanticSiteKey {
    fn clone(&self) -> (r: Self)
        ensures
            r == *self,
    {
        SemanticSiteKey(self.0.clone())
    }
}

impl SemanticSiteKey {
    pub fn as_str(&self) -> (s: &str)
        ensures
            s@ == self.0@,
    {
        self.0.as_str()
    }
}

impl Clone for RecordId {
    fn clone(&self) -> (r: Self)
        ensures
            r == *self,
    {
        RecordId(self.0.clone())
    }
}

impl RecordId {
    pub fn as_str(&self) -> (s: &str)
        ensures
            s@ == self.0@,
    {
        self.0.as_str()
    }
}

impl Clone for BuildId {
    fn clone(&self) -> (r: Self)
        ensures
            r == *self,
    {
        BuildId(self.0.clone())
    }
}

impl BuildId {
    pub fn as_str(&self) -> (s: &str)
        ensures
            s@ == self.0@,
    {
        self.0.as_str()
    }
}

impl Clone for RunId {
    fn clone(&self) -> (r: Self)
        ensures
            r == *self,
    {
        RunId(self.0.clone())
    }
}

impl RunId {
    pub fn as_str(&self) -> (s: &str)
        ensures
            s@ == self.0@,
    {
        self.0.as_str()
    }
}

impl Clone for TraceId {
    fn clone(&self) -> (r: Self)
        ensures
            r == *self,
    {
        TraceId(self.0.clone())
    }
}

impl TraceId {
    pub fn as_str(&self) -> (s: &str)
        ensures
            s@ == self.0@,
    {
        self.0.as_str()
    }
}

impl Clone for InstanceId {
    fn clone(&self) -> (r: Self)
        ensures
            r == *self,
    {
        InstanceId(self.0.clone())
    }
}

impl InstanceId {
    pub fn as_str(&self) -> (s: &str)
        ensures
            s@ == self.0@,
    {
        self.0.as_str()
    }
}

} // verus!
