//! The person record: the four client-supplied attributes, the stored row that
//! adds the server-assigned id, and their ghost views.

use vstd::prelude::*;

verus! {

/// The four client-supplied attributes of a person. Every attribute is
/// required; none may be absent or null.
pub struct PersonFields {
    pub first_name: String,
    pub last_name: String,
    pub dni: String,
    pub address: String,
}

/// Ghost view of `PersonFields`: the four attributes as character sequences.
#[verifier::ext_equal]
pub struct FieldsView {
    pub first_name: Seq<char>,
    pub last_name: Seq<char>,
    pub dni: Seq<char>,
    pub address: Seq<char>,
}

impl View for PersonFields {
    type V = FieldsView;

    open spec fn view(&self) -> FieldsView {
        FieldsView {
            first_name: self.first_name@,
            last_name: self.last_name@,
            dni: self.dni@,
            address: self.address@,
        }
    }
}

/// A stored row: the server-assigned id plus the four client attributes.
#[derive(Debug, PartialEq, Eq)]
pub struct Person {
    pub id: i64,
    pub first_name: String,
    pub last_name: String,
    pub dni: String,
    pub address: String,
}

/// Ghost view of a stored row.
#[verifier::ext_equal]
pub struct PersonView {
    pub id: int,
    pub first_name: Seq<char>,
    pub last_name: Seq<char>,
    pub dni: Seq<char>,
    pub address: Seq<char>,
}

impl View for Person {
    type V = PersonView;

    open spec fn view(&self) -> PersonView {
        PersonView {
            id: self.id as int,
            first_name: self.first_name@,
            last_name: self.last_name@,
            dni: self.dni@,
            address: self.address@,
        }
    }
}

/// The row that storing the attributes `f` under the id `id` produces.
pub open spec fn row_of(id: int, f: FieldsView) -> PersonView {
    PersonView {
        id: id,
        first_name: f.first_name,
        last_name: f.last_name,
        dni: f.dni,
        address: f.address,
    }
}

impl Person {
    /// Attach a freshly assigned id to the client attributes.
    pub fn from_fields(id: i64, fields: PersonFields) -> (r: Person)
        ensures
            r@ == row_of(id as int, fields@),
    {
        Person {
            id: id,
            first_name: fields.first_name,
            last_name: fields.last_name,
            dni: fields.dni,
            address: fields.address,
        }
    }

    /// A copy of the row whose view is the same; the string clones keep their
    /// contents exactly.
    pub fn duplicate(&self) -> (r: Person)
        ensures
            r@ == self@,
    {
        Person {
            id: self.id,
            first_name: self.first_name.clone(),
            last_name: self.last_name.clone(),
            dni: self.dni.clone(),
            address: self.address.clone(),
        }
    }
}

} // verus!
