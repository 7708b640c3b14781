//! The relationships part: typed, identified references from one part to
//! others.

use vstd::prelude::*;

verus! {

/// A relationships part: the references that one owning part declares.
#[derive(Debug, PartialEq)]
pub struct XMLRelationships {
    pub relationship: Vec<XMLRelationship>,
}

/// One reference: its id, unique within its relationships part, its type and
/// the path it points to.
#[derive(Debug, PartialEq)]
pub struct XMLRelationship {
    pub id: String,
    pub rel_type: String,
    pub target: String,
}

/// An [`XMLRelationship`] with its texts as sequences of characters.
pub struct RelationshipView {
    pub id: Seq<char>,
    pub rel_type: Seq<char>,
    pub target: Seq<char>,
}

impl View for XMLRelationship {
    type V = RelationshipView;

    open spec fn view(&self) -> RelationshipView {
        RelationshipView { id: self.id@, rel_type: self.rel_type@, target: self.target@ }
    }
}

impl View for XMLRelationships {
    type V = Seq<RelationshipView>;

    open spec fn view(&self) -> Seq<RelationshipView> {
        self.relationship@.map_values(|r: XMLRelationship| r@)
    }
}

} // verus!
