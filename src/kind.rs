use vstd::prelude::*;

use crate::value::Tag;

verus! {

/// A static description of the values an expression may produce: the set of
/// tags it admits. Kinds form a lattice under union, with `any` on top.
#[derive(Clone, Copy, Debug, PartialEq, Eq, Structural)]
pub struct Kind {
    pub null: bool,
    pub boolean: bool,
    pub integer: bool,
    pub float: bool,
    pub bytes: bool,
    pub timestamp: bool,
    pub regex: bool,
    pub array: bool,
    pub object: bool,
}

impl Kind {
    /// Whether the kind admits values of tag `t`.
    pub open spec fn contains(self, t: Tag) -> bool {
        match t {
            Tag::Null => self.null,
            Tag::Boolean => self.boolean,
            Tag::Integer => self.integer,
            Tag::Float => self.float,
            Tag::Bytes => self.bytes,
            Tag::Timestamp => self.timestamp,
            Tag::Regex => self.regex,
            Tag::Array => self.array,
            Tag::Object => self.object,
        }
    }

    /// The set of tags the kind admits.
    pub open spec fn view(self) -> Set<Tag> {
        Set::new(|t: Tag| self.contains(t))
    }

    pub open spec fn spec_is_subset(self, other: Kind) -> bool {
        forall|t: Tag| self.contains(t) ==> #[trigger] other.contains(t)
    }

    pub open spec fn spec_intersects(self, other: Kind) -> bool {
        exists|t: Tag| self.contains(t) && #[trigger] other.contains(t)
    }

    pub open spec fn spec_any() -> Kind {
        Kind {
            null: true,
            boolean: true,
            integer: true,
            float: true,
            bytes: true,
            timestamp: true,
            regex: true,
            array: true,
            object: true,
        }
    }

    pub open spec fn spec_of_tag(t: Tag) -> Kind {
        Kind {
            null: t == Tag::Null,
            boolean: t == Tag::Boolean,
            integer: t == Tag::Integer,
            float: t == Tag::Float,
            bytes: t == Tag::Bytes,
            timestamp: t == Tag::Timestamp,
            regex: t == Tag::Regex,
            array: t == Tag::Array,
            object: t == Tag::Object,
        }
    }

    /// The kind that admits every value.
    pub fn any() -> (r: Kind)
        ensures
            r == Kind::spec_any(),
            forall|t: Tag| r.contains(t),
    {
        Kind {
            null: true,
            boolean: true,
            integer: true,
            float: true,
            bytes: true,
            timestamp: true,
            regex: true,
            array: true,
            object: true,
        }
    }

    /// The kind that admits values of tag `t` alone.
    pub fn of_tag(t: Tag) -> (r: Kind)
        ensures
            r == Kind::spec_of_tag(t),
            forall|u: Tag| r.contains(u) <==> u == t,
    {
        Kind {
            null: t == Tag::Null,
            boolean: t == Tag::Boolean,
            integer: t == Tag::Integer,
            float: t == Tag::Float,
            bytes: t == Tag::Bytes,
            timestamp: t == Tag::Timestamp,
            regex: t == Tag::Regex,
            array: t == Tag::Array,
            object: t == Tag::Object,
        }
    }

    /// An object with any fields.
    pub fn object() -> (r: Kind)
        ensures
            r == Kind::spec_of_tag(Tag::Object),
            forall|u: Tag| r.contains(u) <==> u == Tag::Object,
    {
        Kind::of_tag(Tag::Object)
    }

    /// An array with any elements.
    pub fn array() -> (r: Kind)
        ensures
            r == Kind::spec_of_tag(Tag::Array),
            forall|u: Tag| r.contains(u) <==> u == Tag::Array,
    {
        Kind::of_tag(Tag::Array)
    }

    pub fn contains_tag(&self, t: Tag) -> (r: bool)
        ensures
            r == self.contains(t),
    {
        match t {
            Tag::Null => self.null,
            Tag::Boolean => self.boolean,
            Tag::Integer => self.integer,
            Tag::Float => self.float,
            Tag::Bytes => self.bytes,
            Tag::Timestamp => self.timestamp,
            Tag::Regex => self.regex,
            Tag::Array => self.array,
            Tag::Object => self.object,
        }
    }

    /// The join of two kinds.
    pub fn union(&self, other: &Kind) -> (r: Kind)
        ensures
            forall|t: Tag| r.contains(t) <==> self.contains(t) || other.contains(t),
    {
        Kind {
            null: self.null || other.null,
            boolean: self.boolean || other.boolean,
            integer: self.integer || other.integer,
            float: self.float || other.float,
            bytes: self.bytes || other.bytes,
            timestamp: self.timestamp || other.timestamp,
            regex: self.regex || other.regex,
            array: self.array || other.array,
            object: self.object || other.object,
        }
    }

    /// Whether every value that `self` admits is admitted by `other`.
    pub fn is_subset(&self, other: &Kind) -> (r: bool)
        ensures
            r == self.spec_is_subset(*other),
    {
        let r = (!self.null || other.null) && (!self.boolean || other.boolean) && (!self.integer
            || other.integer) && (!self.float || other.float) && (!self.bytes || other.bytes) && (
        !self.timestamp || other.timestamp) && (!self.regex || other.regex) && (!self.array
            || other.array) && (!self.object || other.object);
        proof {
            if !r {
                assert(!self.spec_is_subset(*other)) by {
                    if !(!self.null || other.null) {
                        assert(self.contains(Tag::Null) && !other.contains(Tag::Null));
                    } else if !(!self.boolean || other.boolean) {
                        assert(self.contains(Tag::Boolean) && !other.contains(Tag::Boolean));
                    } else if !(!self.integer || other.integer) {
                        assert(self.contains(Tag::Integer) && !other.contains(Tag::Integer));
                    } else if !(!self.float || other.float) {
                        assert(self.contains(Tag::Float) && !other.contains(Tag::Float));
                    } else if !(!self.bytes || other.bytes) {
                        assert(self.contains(Tag::Bytes) && !other.contains(Tag::Bytes));
                    } else if !(!self.timestamp || other.timestamp) {
                        assert(self.contains(Tag::Timestamp) && !other.contains(Tag::Timestamp));
                    } else if !(!self.regex || other.regex) {
                        assert(self.contains(Tag::Regex) && !other.contains(Tag::Regex));
                    } else if !(!self.array || other.array) {
                        assert(self.contains(Tag::Array) && !other.contains(Tag::Array));
                    } else {
                        assert(self.contains(Tag::Object) && !other.contains(Tag::Object));
                    }
                }
            }
        }
        r
    }

    /// Whether some value is admitted by both kinds.
    pub fn intersects(&self, other: &Kind) -> (r: bool)
        ensures
            r == self.spec_intersects(*other),
    {
        let r = (self.null && other.null) || (self.boolean && other.boolean) || (self.integer
            && other.integer) || (self.float && other.float) || (self.bytes && other.bytes) || (
        self.timestamp && other.timestamp) || (self.regex && other.regex) || (self.array
            && other.array) || (self.object && other.object);
        proof {
            if r {
                assert(self.spec_intersects(*other)) by {
                    if self.null && other.null {
                        assert(self.contains(Tag::Null) && other.contains(Tag::Null));
                    } else if self.boolean && other.boolean {
                        assert(self.contains(Tag::Boolean) && other.contains(Tag::Boolean));
                    } else if self.integer && other.integer {
                        assert(self.contains(Tag::Integer) && other.contains(Tag::Integer));
                    } else if self.float && other.float {
                        assert(self.contains(Tag::Float) && other.contains(Tag::Float));
                    } else if self.bytes && other.bytes {
                        assert(self.contains(Tag::Bytes) && other.contains(Tag::Bytes));
                    } else if self.timestamp && other.timestamp {
                        assert(self.contains(Tag::Timestamp) && other.contains(Tag::Timestamp));
                    } else if self.regex && other.regex {
                        assert(self.contains(Tag::Regex) && other.contains(Tag::Regex));
                    } else if self.array && other.array {
                        assert(self.contains(Tag::Array) && other.contains(Tag::Array));
                    } else {
                        assert(self.contains(Tag::Object) && other.contains(Tag::Object));
                    }
                }
            }
        }
        r
    }
}

/// The static type of an expression: the kind of what it produces, and
/// whether it may fail at run time.
#[derive(Clone, Copy, Debug, PartialEq, Eq, Structural)]
pub struct TypeDef {
    pub kind: Kind,
    pub fallible: bool,
}

impl TypeDef {
    pub fn infallible(kind: Kind) -> (r: TypeDef)
        ensures
            r == (TypeDef { kind, fallible: false }),
    {
        TypeDef { kind, fallible: false }
    }

    pub fn is_fallible(&self) -> (r: bool)
        ensures
            r == self.fallible,
    {
        self.fallible
    }

    /// Marks the type fallible unless its kind already lies within `required`.
    pub fn fallible_unless(self, required: &Kind) -> (r: TypeDef)
        ensures
            r.kind == self.kind,
            r.fallible == (self.fallible || !self.kind.spec_is_subset(*required)),
    {
        let inside = self.kind.is_subset(required);
        TypeDef { kind: self.kind, fallible: self.fallible || !inside }
    }

    /// Narrows the kind to an object with any fields, keeping the fallibility.
    pub fn restrict_object(self) -> (r: TypeDef)
        ensures
            r.kind == Kind::spec_of_tag(Tag::Object),
            r.fallible == self.fallible,
    {
        TypeDef { kind: Kind::object(), fallible: self.fallible }
    }
}

} // verus!
