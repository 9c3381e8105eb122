use vstd::prelude::*;

verus! {

/// One project record. Its `id` is the key under which a store holds it.
#[derive(Debug, PartialEq, Eq)]
pub struct Project {
    pub id: i32,
    pub name: String,
    pub description: String,
    pub status: String,
    pub start_date: String,
    pub end_date: String,
    pub progress: i32,
}

impl Clone for Project {
    /// A copy equal to `self` in every field.
    fn clone(&self) -> (r: Self)
        ensures
            r == *self,
    {
        Project {
            id: self.id,
            name: self.name.clone(),
            description: self.description.clone(),
            status: self.status.clone(),
            start_date: self.start_date.clone(),
            end_date: self.end_date.clone(),
            progress: self.progress,
        }
    }
}

} // verus!
