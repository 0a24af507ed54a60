//! What is known of the individuals and companies that are checked.

use crate::api::{DocumentCategory, DocumentType};
use crate::ident::Id;
use vstd::prelude::*;

verus! {

/// A date that may lack its day or its month, as text.
pub type PartialDate = String;

/// A date that is known only roughly, as text.
pub type ApproxDate = String;

/// The parts of a person's name.
#[derive(Debug, Clone, PartialEq, Eq)]
pub struct FullName {
    pub title: Option<String>,
    pub given_names: Option<Vec<String>>,
    pub family_name: Option<String>,
    pub alt_family_names: Option<Vec<String>>,
}

impl FullName {
    /// Whether no part of the name is given.
    pub open spec fn is_blank(self) -> bool {
        &&& self.title is None
        &&& self.given_names is None
        &&& self.family_name is None
        &&& self.alt_family_names is None
    }
}

impl Default for FullName {
    fn default() -> (name: FullName)
        ensures
            name.is_blank(),
    {
        FullName { title: None, given_names: None, family_name: None, alt_family_names: None }
    }
}

/// A person's name, date of birth and nationality.
#[derive(Debug, Clone, PartialEq, Eq)]
pub struct PersonalDetails {
    pub name: FullName,
    pub dob: Option<PartialDate>,
    pub nationality: Option<String>,
}

impl PersonalDetails {
    /// Whether nothing is known of the person.
    pub open spec fn is_blank(self) -> bool {
        &&& self.name.is_blank()
        &&& self.dob is None
        &&& self.nationality is None
    }
}

impl Default for PersonalDetails {
    fn default() -> (details: PersonalDetails)
        ensures
            details.is_blank(),
    {
        PersonalDetails { name: FullName::default(), dob: None, nationality: None }
    }
}

/// An address in its parts.
#[derive(Debug, Clone, PartialEq, Eq)]
pub struct StructuredAddress {
    pub country: String,
    pub state_province: Option<String>,
    pub county: Option<String>,
    pub postal_code: String,
    pub locality: Option<String>,
    pub postal_town: Option<String>,
    pub route: Option<String>,
    pub street_number: Option<String>,
    pub premise: Option<String>,
    pub subpremise: Option<String>,
}

impl StructuredAddress {
    /// Whether every part of the address is empty or absent.
    pub open spec fn is_blank(self) -> bool {
        &&& self.country@.len() == 0
        &&& self.state_province is None
        &&& self.county is None
        &&& self.postal_code@.len() == 0
        &&& self.locality is None
        &&& self.postal_town is None
        &&& self.route is None
        &&& self.street_number is None
        &&& self.premise is None
        &&& self.subpremise is None
    }
}

impl Default for StructuredAddress {
    fn default() -> (address: StructuredAddress)
        ensures
            address.is_blank(),
    {
        StructuredAddress {
            country: String::new(),
            state_province: None,
            county: None,
            postal_code: String::new(),
            locality: None,
            postal_town: None,
            route: None,
            street_number: None,
            premise: None,
            subpremise: None,
        }
    }
}

/// An address as one piece of text, with its country.
#[derive(Debug, Clone, PartialEq, Eq)]
pub struct FreeformAddress {
    pub country: String,
    pub text: String,
}

impl FreeformAddress {
    /// Whether the country and the text are both empty.
    pub open spec fn is_blank(self) -> bool {
        &&& self.country@.len() == 0
        &&& self.text@.len() == 0
    }
}

impl Default for FreeformAddress {
    fn default() -> (address: FreeformAddress)
        ensures
            address.is_blank(),
    {
        FreeformAddress { country: String::new(), text: String::new() }
    }
}

/// An address, in parts or as text.
#[derive(Debug, Clone, PartialEq, Eq)]
pub enum Address {
    StructuredAddress(StructuredAddress),
    FreeformAddress(FreeformAddress),
}

/// An address with the time during which it was held.
#[derive(Debug, Clone, PartialEq, Eq)]
pub struct DatedAddress {
    pub start_date: Option<ApproxDate>,
    pub end_date: Option<ApproxDate>,
    pub address: Address,
}

/// A document that was supplied.
#[derive(Debug, Clone, Copy, PartialEq, Eq, Structural)]
pub struct Document {
    pub id: Option<Id>,
    pub category: DocumentCategory,
    pub document_type: DocumentType,
}

/// What is known of an individual.
#[derive(Debug, Clone, PartialEq, Eq)]
pub struct IndividualData {
    pub personal_details: PersonalDetails,
    pub address_history: Option<Vec<DatedAddress>>,
    pub documents: Option<Vec<Document>>,
}

impl IndividualData {
    /// Whether nothing is known of the individual.
    pub open spec fn is_blank(self) -> bool {
        &&& self.personal_details.is_blank()
        &&& self.address_history is None
        &&& self.documents is None
    }
}

impl Default for IndividualData {
    fn default() -> (data: IndividualData)
        ensures
            data.is_blank(),
    {
        IndividualData {
            personal_details: PersonalDetails::default(),
            address_history: None,
            documents: None,
        }
    }
}

/// What is known of a company.
#[derive(Debug, Clone, Copy, PartialEq, Eq, Structural)]
pub struct CompanyData {

}

impl Default for CompanyData {
    fn default() -> (data: CompanyData) {
        CompanyData {  }
    }
}

/// What is known of an entity, be it an individual or a company.
#[derive(Debug, Clone, PartialEq, Eq)]
pub enum EntityData {
    IndividualData(IndividualData),
    CompanyData(CompanyData),
}

} // verus!
