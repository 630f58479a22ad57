use vstd::prelude::*;
use crate::Error;
use crate::views::BoolView;

verus! {

/// Reads any row of a boolean column by index.
#[derive(Debug, Clone, PartialEq)]
pub struct BoolDeserializer {
    pub path: String,
    pub view: BoolView,
}

impl BoolDeserializer {
    pub open spec fn wf(self) -> bool {
        self.view.wf()
    }

    pub fn new(path: String, view: BoolView) -> (r: Self)
        ensures
            r.path == path,
            r.view == view,
    {
        BoolDeserializer { path, view }
    }

    /// Supplies this column's error context where absent.
    pub fn annotate(&self, annotations: &mut Vec<(String, String)>)
        ensures
            crate::context::spec_annotated(
                old(annotations)@,
                final(annotations)@,
                self.path@,
                "Boolean"@,
            ),
    {
        crate::context::annotate_with(annotations, self.path.as_str(), "Boolean");
    }

    pub fn is_some(&self, idx: usize) -> (r: Result<bool, Error>)
        requires
            self.wf(),
        ensures
            r == self.view.spec_is_some(idx as int),
    {
        self.view.is_some(idx)
    }

    pub fn deserialize_bool(&self, idx: usize) -> (r: Result<bool, Error>)
        requires
            self.wf(),
        ensures
            r == self.view.spec_get_required(idx as int),
    {
        self.view.get_required(idx)
    }
}

} // verus!
