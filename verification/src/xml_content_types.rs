//! The content-types part: which media type each part of the package has.

use vstd::prelude::*;

verus! {

/// The content-types part, entry by entry.
#[derive(Debug, PartialEq)]
pub struct XMLTypes {
    pub fields: Vec<XMLOverride>,
}

/// One entry: a media type for one part, or for every part with an extension.
#[derive(Debug, PartialEq)]
pub enum XMLOverride {
    Override { part_name: String, content_type: String },
    Default { extension: String, content_type: String },
}

/// An [`XMLOverride`] with its texts as sequences of characters.
pub enum ContentTypeView {
    Override { part_name: Seq<char>, content_type: Seq<char> },
    Default { extension: Seq<char>, content_type: Seq<char> },
}

impl View for XMLOverride {
    type V = ContentTypeView;

    open spec fn view(&self) -> ContentTypeView {
        match *self {
            XMLOverride::Override { part_name, content_type } => ContentTypeView::Override {
                part_name: part_name@,
                content_type: content_type@,
            },
            XMLOverride::Default { extension, content_type } => ContentTypeView::Default {
                extension: extension@,
                content_type: content_type@,
            },
        }
    }
}

impl View for XMLTypes {
    type V = Seq<ContentTypeView>;

    open spec fn view(&self) -> Seq<ContentTypeView> {
        self.fields@.map_values(|e: XMLOverride| e@)
    }
}

} // verus!
