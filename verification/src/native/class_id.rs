//! The identifier of a class of foreign objects.

use vstd::prelude::*;
use crate::api::uuid::UUID;

verus! {

/// The identifier under which a class is registered.
///
/// The host resolves the name of a class to its identifier, and
/// instantiates the class by it.
#[derive(Debug, Clone, Copy, PartialEq, Eq, Structural, Hash)]
pub struct ClassID {
    id: UUID,
}

impl ClassID {
    /// The identifier `id` as that of a class.
    pub fn from_uuid(id: UUID) -> (class_id: ClassID)
        ensures
            class_id.id_spec() == id,
    {
        ClassID { id }
    }

    /// The identifier of the class.
    pub closed spec fn id_spec(self) -> UUID {
        self.id
    }

    /// Returns the identifier of the class.
    pub fn as_guid(&self) -> (id: &UUID)
        ensures
            *id == self.id_spec(),
    {
        &self.id
    }

    /// Returns the class identifier as a reader sees it: the canonical text
    /// of the identifier in braces.
    pub fn to_string(&self) -> (text: String)
        ensures
            text@ == "{"@ + self.id_spec().canonical() + "}"@,
    {
        String::from_str("{").concat(self.id.to_string().as_str()).concat("}")
    }
}

impl Default for ClassID {
    fn default() -> (class_id: ClassID)
        ensures
            class_id.id_spec() == (UUID { data1: 0, data2: 0, data3: 0, data4: 0 }),
    {
        ClassID { id: UUID::nil() }
    }
}

} // verus!
