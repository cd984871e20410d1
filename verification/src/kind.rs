use vstd::prelude::*;

verus! {

/// The set of primitive value shapes that an expression may produce or
/// that a parameter accepts. One flag per shape; the full set plays the
/// role of "any" and accepts every shape.
#[derive(Clone, Copy, Debug, PartialEq, Eq, Structural)]
pub struct Kind {
    pub null: bool,
    pub boolean: bool,
    pub bytes: bool,
    pub integer: bool,
    pub float: bool,
    pub timestamp: bool,
    pub array: bool,
    pub mapping: bool,
    pub regex: bool,
}

impl Kind {
    /// True when no shape at all is accepted. A reachable expression
    /// never carries an empty classification.
    pub open spec fn is_empty(self) -> bool {
        !self.null && !self.boolean && !self.bytes && !self.integer && !self.float
            && !self.timestamp && !self.array && !self.mapping && !self.regex
    }

    /// Shape-wise inclusion: every shape of `self` is also a shape of
    /// `other`.
    pub open spec fn subset_of(self, other: Kind) -> bool {
        &&& self.null ==> other.null
        &&& self.boolean ==> other.boolean
        &&& self.bytes ==> other.bytes
        &&& self.integer ==> other.integer
        &&& self.float ==> other.float
        &&& self.timestamp ==> other.timestamp
        &&& self.array ==> other.array
        &&& self.mapping ==> other.mapping
        &&& self.regex ==> other.regex
    }

    /// The empty classification, the starting point for the builders.
    pub fn empty() -> (k: Kind)
        ensures
            k.is_empty(),
            k == (Kind {
                null: false,
                boolean: false,
                bytes: false,
                integer: false,
                float: false,
                timestamp: false,
                array: false,
                mapping: false,
                regex: false,
            }),
    {
        Kind {
            null: false,
            boolean: false,
            bytes: false,
            integer: false,
            float: false,
            timestamp: false,
            array: false,
            mapping: false,
            regex: false,
        }
    }

    /// The classification that accepts the bytes shape alone.
    pub fn bytes_only() -> (k: Kind)
        ensures
            k == (Kind { bytes: true, ..Kind::empty_spec() }),
    {
        Kind { bytes: true, ..Kind::empty() }
    }

    /// The catch-all classification: every shape is accepted.
    pub fn any() -> (k: Kind)
        ensures
            k == (Kind {
                null: true,
                boolean: true,
                bytes: true,
                integer: true,
                float: true,
                timestamp: true,
                array: true,
                mapping: true,
                regex: true,
            }),
    {
        Kind {
            null: true,
            boolean: true,
            bytes: true,
            integer: true,
            float: true,
            timestamp: true,
            array: true,
            mapping: true,
            regex: true,
        }
    }

    /// The empty classification as a specification-level constant.
    pub open spec fn empty_spec() -> Kind {
        Kind {
            null: false,
            boolean: false,
            bytes: false,
            integer: false,
            float: false,
            timestamp: false,
            array: false,
            mapping: false,
            regex: false,
        }
    }

    /// The bytes-only classification as a specification-level constant.
    pub open spec fn bytes_only_spec() -> Kind {
        Kind { bytes: true, ..Kind::empty_spec() }
    }

    /// Subset test used by parameter validation: true exactly when every
    /// shape that `offered` may take is acceptable to `self`. The
    /// catch-all set therefore accepts everything.
    pub fn accepts(&self, offered: &Kind) -> (r: bool)
        ensures
            r == offered.subset_of(*self),
    {
        (!offered.null || self.null) && (!offered.boolean || self.boolean)
            && (!offered.bytes || self.bytes) && (!offered.integer || self.integer)
            && (!offered.float || self.float) && (!offered.timestamp || self.timestamp)
            && (!offered.array || self.array) && (!offered.mapping || self.mapping)
            && (!offered.regex || self.regex)
    }
}

} // verus!
