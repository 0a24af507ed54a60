//! The vocabulary of compliance work: tasks, checks, documents, and the
//! collection steps that say which information is still needed.

use crate::document_set::DocumentTypeSet;
use crate::ident::Id;
use vstd::prelude::*;

verus! {

/// The business goal that a check serves.
#[derive(Debug, Hash, Eq, PartialEq, Structural, Copy, Clone)]
pub enum TaskType {
    IndividualVerifyIdentity,
    IndividualVerifyAddress,
    IndividualVerifySourceOfFunds,
    IndividualAssessPoliticalExposure,
    IndividualAssessSanctionsExposure,
    IndividualAssessMediaExposure,
    IndividualAssessRegulatoryStatus,
    CompanyVerifyIdentity,
    CompanyIdentifyAuthorizedPersons,
    CompanyIdentifyOfficers,
    CompanyIdentifyBeneficialOwners,
    CompanyReviewFilings,
    CompanyAssessPoliticalExposure,
    CompanyAssessSanctionsExposure,
}

/// The mechanism by which a check is carried out.
#[derive(Debug, Hash, Eq, PartialEq, Structural, Copy, Clone)]
pub enum CheckType {
    IdentityCheck,
    DocumentVerification,
    DocumentFetch,
    PepsScreen,
    SanctionsScreen,
    PepsAndSanctionsScreen,
    AdverseMediaScreen,
    CompanyRegistry,
    CompanyOwnership,
    CompanyFilings,
    CompanyFilingPurchase,
    CompanyPepsAndSanctionsScreen,
}

/// How finely a date of birth must be known. The variants are ordered by
/// granularity: a year, then a year and month, then a full date.
#[derive(Debug, Hash, Eq, PartialEq, Structural, Copy, Clone, Ord, PartialOrd)]
pub enum DatePrecision {
    Year,
    YearMonth,
    YearMonthDay,
}

impl DatePrecision {
    /// The position of a precision in the order of granularity.
    pub open spec fn level(self) -> nat {
        match self {
            DatePrecision::Year => 0,
            DatePrecision::YearMonth => 1,
            DatePrecision::YearMonthDay => 2,
        }
    }

    /// The finer of two precisions.
    pub open spec fn finer(self, other: DatePrecision) -> DatePrecision {
        if other.level() > self.level() {
            other
        } else {
            self
        }
    }

    /// Whether `self` is strictly finer than `other`.
    pub fn is_finer_than(&self, other: &DatePrecision) -> (finer: bool)
        ensures
            finer == (self.level() > other.level()),
    {
        match (self, other) {
            (DatePrecision::YearMonth, DatePrecision::Year) => true,
            (DatePrecision::YearMonthDay, DatePrecision::Year) => true,
            (DatePrecision::YearMonthDay, DatePrecision::YearMonth) => true,
            _ => false,
        }
    }
}

/// What a requested document is meant to prove.
#[derive(Debug, Hash, Eq, PartialEq, Structural, Copy, Clone)]
pub enum DocumentCategory {
    ProofOfIdentity,
    ProofOfAddress,
    Supporting,
    CompanyFiling,
    DataSummary,
}

/// The kinds of document that can be asked for or supplied.
#[derive(Debug, Hash, Eq, PartialEq, Structural, Ord, PartialOrd, Copy, Clone)]
pub enum DocumentType {
    Passport,
    DrivingLicence,
    StateId,
    BirthCertificate,
    BankStatement,
    FaceImage,
    Unknown,
    CompanyAccounts,
    CompanyChangeOfAddress,
    AnnualReturn,
    ConfirmationStatement,
    StatementOfCaptital,
    ChangeOfName,
    Incorporation,
    Liquidation,
    Miscellaneous,
    Mortgage,
    ChangeOfOfficers,
    Resolution,
    CreditReport,
    CreditCheck,
    RegisterReport,
    RegisterCheck,
    DataSummary,
}

/// The number of document types.
pub const DOCUMENT_TYPE_COUNT: u8 = 24;

impl DocumentType {
    /// The position of a document type in the order of declaration.
    pub open spec fn ordinal(self) -> u8 {
        match self {
            DocumentType::Passport => 0,
            DocumentType::DrivingLicence => 1,
            DocumentType::StateId => 2,
            DocumentType::BirthCertificate => 3,
            DocumentType::BankStatement => 4,
            DocumentType::FaceImage => 5,
            DocumentType::Unknown => 6,
            DocumentType::CompanyAccounts => 7,
            DocumentType::CompanyChangeOfAddress => 8,
            DocumentType::AnnualReturn => 9,
            DocumentType::ConfirmationStatement => 10,
            DocumentType::StatementOfCaptital => 11,
            DocumentType::ChangeOfName => 12,
            DocumentType::Incorporation => 13,
            DocumentType::Liquidation => 14,
            DocumentType::Miscellaneous => 15,
            DocumentType::Mortgage => 16,
            DocumentType::ChangeOfOfficers => 17,
            DocumentType::Resolution => 18,
            DocumentType::CreditReport => 19,
            DocumentType::CreditCheck => 20,
            DocumentType::RegisterReport => 21,
            DocumentType::RegisterCheck => 22,
            DocumentType::DataSummary => 23,
        }
    }

    /// The document type at a position, if the position is in range.
    pub open spec fn at(ordinal: u8) -> Option<DocumentType> {
        if ordinal == 0 {
            Some(DocumentType::Passport)
        } else if ordinal == 1 {
            Some(DocumentType::DrivingLicence)
        } else if ordinal == 2 {
            Some(DocumentType::StateId)
        } else if ordinal == 3 {
            Some(DocumentType::BirthCertificate)
        } else if ordinal == 4 {
            Some(DocumentType::BankStatement)
        } else if ordinal == 5 {
            Some(DocumentType::FaceImage)
        } else if ordinal == 6 {
            Some(DocumentType::Unknown)
        } else if ordinal == 7 {
            Some(DocumentType::CompanyAccounts)
        } else if ordinal == 8 {
            Some(DocumentType::CompanyChangeOfAddress)
        } else if ordinal == 9 {
            Some(DocumentType::AnnualReturn)
        } else if ordinal == 10 {
            Some(DocumentType::ConfirmationStatement)
        } else if ordinal == 11 {
            Some(DocumentType::StatementOfCaptital)
        } else if ordinal == 12 {
            Some(DocumentType::ChangeOfName)
        } else if ordinal == 13 {
            Some(DocumentType::Incorporation)
        } else if ordinal == 14 {
            Some(DocumentType::Liquidation)
        } else if ordinal == 15 {
            Some(DocumentType::Miscellaneous)
        } else if ordinal == 16 {
            Some(DocumentType::Mortgage)
        } else if ordinal == 17 {
            Some(DocumentType::ChangeOfOfficers)
        } else if ordinal == 18 {
            Some(DocumentType::Resolution)
        } else if ordinal == 19 {
            Some(DocumentType::CreditReport)
        } else if ordinal == 20 {
            Some(DocumentType::CreditCheck)
        } else if ordinal == 21 {
            Some(DocumentType::RegisterReport)
        } else if ordinal == 22 {
            Some(DocumentType::RegisterCheck)
        } else if ordinal == 23 {
            Some(DocumentType::DataSummary)
        } else {
            None
        }
    }

    /// Every document type has a position below the count, and `at` finds
    /// the type again from its position.
    pub proof fn lemma_ordinal_round_trip(self)
        ensures
            self.ordinal() < DOCUMENT_TYPE_COUNT,
            DocumentType::at(self.ordinal()) == Some(self),
    {
    }

    /// Every position below the count holds a document type, whose position
    /// it is.
    pub proof fn lemma_at_round_trip(ordinal: u8)
        ensures
            ordinal < DOCUMENT_TYPE_COUNT <==> DocumentType::at(ordinal) is Some,
            DocumentType::at(ordinal) matches Some(t) ==> t.ordinal() == ordinal,
    {
    }

    /// The position of this document type.
    pub fn position(&self) -> (ordinal: u8)
        ensures
            ordinal == self.ordinal(),
            ordinal < DOCUMENT_TYPE_COUNT,
    {
        match self {
            DocumentType::Passport => 0,
            DocumentType::DrivingLicence => 1,
            DocumentType::StateId => 2,
            DocumentType::BirthCertificate => 3,
            DocumentType::BankStatement => 4,
            DocumentType::FaceImage => 5,
            DocumentType::Unknown => 6,
            DocumentType::CompanyAccounts => 7,
            DocumentType::CompanyChangeOfAddress => 8,
            DocumentType::AnnualReturn => 9,
            DocumentType::ConfirmationStatement => 10,
            DocumentType::StatementOfCaptital => 11,
            DocumentType::ChangeOfName => 12,
            DocumentType::Incorporation => 13,
            DocumentType::Liquidation => 14,
            DocumentType::Miscellaneous => 15,
            DocumentType::Mortgage => 16,
            DocumentType::ChangeOfOfficers => 17,
            DocumentType::Resolution => 18,
            DocumentType::CreditReport => 19,
            DocumentType::CreditCheck => 20,
            DocumentType::RegisterReport => 21,
            DocumentType::RegisterCheck => 22,
            DocumentType::DataSummary => 23,
        }
    }

    /// The document type at `ordinal`, or `None` when `ordinal` is out of
    /// range.
    pub fn from_position(ordinal: u8) -> (found: Option<DocumentType>)
        ensures
            found == DocumentType::at(ordinal),
    {
        match ordinal {
            0 => Some(DocumentType::Passport),
            1 => Some(DocumentType::DrivingLicence),
            2 => Some(DocumentType::StateId),
            3 => Some(DocumentType::BirthCertificate),
            4 => Some(DocumentType::BankStatement),
            5 => Some(DocumentType::FaceImage),
            6 => Some(DocumentType::Unknown),
            7 => Some(DocumentType::CompanyAccounts),
            8 => Some(DocumentType::CompanyChangeOfAddress),
            9 => Some(DocumentType::AnnualReturn),
            10 => Some(DocumentType::ConfirmationStatement),
            11 => Some(DocumentType::StatementOfCaptital),
            12 => Some(DocumentType::ChangeOfName),
            13 => Some(DocumentType::Incorporation),
            14 => Some(DocumentType::Liquidation),
            15 => Some(DocumentType::Miscellaneous),
            16 => Some(DocumentType::Mortgage),
            17 => Some(DocumentType::ChangeOfOfficers),
            18 => Some(DocumentType::Resolution),
            19 => Some(DocumentType::CreditReport),
            20 => Some(DocumentType::CreditCheck),
            21 => Some(DocumentType::RegisterReport),
            22 => Some(DocumentType::RegisterCheck),
            23 => Some(DocumentType::DataSummary),
            _ => None,
        }
    }
}

/// One piece of information that still has to be collected.
#[derive(Debug, Eq, PartialEq, Hash)]
pub enum CollectionStep {
    /// The full name.
    FullName {  },
    /// The date of birth, to the given precision.
    Dob { precision: DatePrecision },
    /// The addresses of the last `months` months.
    AddressHistory { months: u32 },
    /// The nationality.
    Nationality {  },
    /// A document, of one of the allowed types.
    Document { id: Id, category: DocumentCategory, allowed_types: DocumentTypeSet },
}

/// What a collection step asks for, with the allowed document types as a
/// mathematical set.
#[verifier::ext_equal]
pub enum StepModel {
    FullName,
    Dob { precision: DatePrecision },
    AddressHistory { months: u32 },
    Nationality,
    Document { id: Id, category: DocumentCategory, allowed_types: Set<DocumentType> },
}

impl StepModel {
    /// Two steps can be merged when they are of the same kind; two document
    /// requests, only when they also carry the same identifier.
    pub open spec fn merges_with(self, other: StepModel) -> bool {
        match (self, other) {
            (StepModel::FullName, StepModel::FullName) => true,
            (StepModel::Dob { .. }, StepModel::Dob { .. }) => true,
            (StepModel::AddressHistory { .. }, StepModel::AddressHistory { .. }) => true,
            (StepModel::Nationality, StepModel::Nationality) => true,
            (StepModel::Document { id, .. }, StepModel::Document { id: other_id, .. }) => id
                == other_id,
            _ => false,
        }
    }

    /// The step that stands for both `self` and `other`: the finer precision,
    /// the longer history, the document types that both allow. A step that
    /// cannot be merged with `other` stays as it is.
    pub open spec fn merge(self, other: StepModel) -> StepModel {
        match (self, other) {
            (StepModel::Dob { precision }, StepModel::Dob { precision: other_precision }) => {
                StepModel::Dob { precision: precision.finer(other_precision) }
            },
            (
                StepModel::AddressHistory { months },
                StepModel::AddressHistory { months: other_months },
            ) => StepModel::AddressHistory {
                months: if other_months > months {
                    other_months
                } else {
                    months
                },
            },
            (
                StepModel::Document { id, category, allowed_types },
                StepModel::Document { id: other_id, allowed_types: other_types, .. },
            ) => if id == other_id {
                StepModel::Document {
                    id,
                    category,
                    allowed_types: allowed_types.intersect(other_types),
                }
            } else {
                self
            },
            _ => self,
        }
    }
}

impl View for CollectionStep {
    type V = StepModel;

    open spec fn view(&self) -> StepModel {
        match *self {
            CollectionStep::FullName {  } => StepModel::FullName,
            CollectionStep::Dob { precision } => StepModel::Dob { precision },
            CollectionStep::AddressHistory { months } => StepModel::AddressHistory { months },
            CollectionStep::Nationality {  } => StepModel::Nationality,
            CollectionStep::Document { id, category, allowed_types } => StepModel::Document {
                id,
                category,
                allowed_types: allowed_types@,
            },
        }
    }
}

impl Clone for CollectionStep {
    fn clone(&self) -> (copy: CollectionStep)
        ensures
            copy@ == self@,
    {
        match self {
            CollectionStep::FullName {  } => CollectionStep::FullName {  },
            CollectionStep::Dob { precision } => CollectionStep::Dob { precision: *precision },
            CollectionStep::AddressHistory { months } => CollectionStep::AddressHistory {
                months: *months,
            },
            CollectionStep::Nationality {  } => CollectionStep::Nationality {  },
            CollectionStep::Document { id, category, allowed_types } => CollectionStep::Document {
                id: *id,
                category: *category,
                allowed_types: allowed_types.clone(),
            },
        }
    }
}

impl CollectionStep {
    /// Merges `other` into `self` if the two can be merged, and says whether
    /// they could. A step that cannot take `other` is left as it was.
    pub fn try_merge(&mut self, other: &CollectionStep) -> (merged: bool)
        ensures
            merged == old(self)@.merges_with(other@),
            final(self)@ == old(self)@.merge(other@),
    {
        match self {
            CollectionStep::FullName {  } => match other {
                CollectionStep::FullName {  } => true,
                _ => false,
            },
            CollectionStep::Dob { precision } => match other {
                CollectionStep::Dob { precision: other_precision } => {
                    if other_precision.is_finer_than(precision) {
                        *precision = *other_precision;
                    }
                    true
                },
                _ => false,
            },
            CollectionStep::AddressHistory { months } => match other {
                CollectionStep::AddressHistory { months: other_months } => {
                    if *other_months > *months {
                        *months = *other_months;
                    }
                    true
                },
                _ => false,
            },
            CollectionStep::Nationality {  } => match other {
                CollectionStep::Nationality {  } => true,
                _ => false,
            },
            CollectionStep::Document { id, category: _, allowed_types } => match other {
                CollectionStep::Document { id: other_id, category: _, allowed_types: other_types } => {
                    if id.same_as(other_id) {
                        *allowed_types = allowed_types.intersection(other_types);
                        true
                    } else {
                        false
                    }
                },
                _ => false,
            },
        }
    }
}

} // verus!
