use vstd::prelude::*;
use crate::uri::Uri;

verus! {

/// An entity embedded in an activity's object field in place of a bare
/// reference, carrying its own identifier when the sender supplied one.
pub struct Entity {
    pub id: Option<Uri>,
}

/// The polymorphic object field of an activity.
///
/// Older senders embedded the full target object inside "Like" and "Dislike"
/// activities instead of a bare reference, so the field is a sum of both
/// shapes; a field holding zero or several values carries no single
/// reference at all.
pub enum ObjectField {
    /// The field is directly a single URI.
    Bare(Uri),
    /// The field is exactly one embedded entity.
    Embedded(Entity),
    /// The field holds zero or several values: no single reference.
    NotSingle,
}

impl ObjectField {
    /// The single reference this field carries, if any: the text of the
    /// referenced URI together with its domain.
    pub open spec fn reference(&self) -> Option<(Seq<char>, Option<Seq<char>>)> {
        match *self {
            ObjectField::Bare(ref u) => Some((u@, u.domain_spec())),
            ObjectField::Embedded(ref e) => match e.id {
                Some(ref u) => Some((u@, u.domain_spec())),
                None => None,
            },
            ObjectField::NotSingle => None,
        }
    }

    /// Read the single reference out of the field, if it carries one.
    pub fn single_reference(&self) -> (r: Option<&Uri>)
        ensures
            match r {
                Some(u) => self.reference() == Some((u@, u.domain_spec())),
                None => self.reference() is None,
            },
    {
        match self {
            ObjectField::Bare(u) => Some(u),
            ObjectField::Embedded(e) => match &e.id {
                Some(u) => Some(u),
                None => None,
            },
            ObjectField::NotSingle => None,
        }
    }
}

/// An inbound activity, already parsed out of its wire form by the transport
/// layer: its own identifier, its actor reference when the actor field held
/// a single well-formed URI, its object field, and the discriminant tag of
/// its concrete kind.
pub struct Activity {
    pub id: Uri,
    pub actor: Option<Uri>,
    pub object: ObjectField,
    pub kind: String,
}

} // verus!
