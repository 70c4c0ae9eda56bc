use vstd::prelude::*;

verus! {

/// One section (a course offering) that the user is enrolled in.
#[derive(Debug, Default)]
pub struct Section {
    pub section_id: String,
    pub section_name: String,
}

/// The sections that the user is enrolled in.
#[derive(Debug, Default)]
pub struct Enrollments {
    pub user_sections: Vec<Section>,
}

} // verus!
