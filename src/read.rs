//! Reading a CityGML document held in memory.
use crate::model::CitygmlModel;
use crate::parser::{doc_tokens, model_of, model_warnings, read_model, warning_views, ParseWarning, ReadError};
use crate::report::Report;
use crate::validate::{info_of, validate_document};
use crate::xml::tokens_of;
use vstd::prelude::*;

verus! {

/// The file extension of CityGML documents in GML form.
pub const FILE_EXTENSION_CITYGML_GML_FORMAT: &'static str = "gml";

/// The file extension of CityGML documents in XML form.
pub const FILE_EXTENSION_CITYGML_XML_FORMAT: &'static str = "xml";

/// Reads a CityGML document: into a city model, or into a validation report.
pub struct CitygmlReader {
    pub document: String,
}

impl CitygmlReader {
    pub fn new(document: String) -> (r: Self)
        ensures
            r.document@ == document@,
    {
        CitygmlReader { document }
    }

    /// Validates the document (see `validate_document`).
    pub fn validate(self) -> (r: Result<Report, ReadError>)
        ensures
            r is Ok <==> tokens_of(self.document@) is Some,
            r matches Ok(report) ==> report.compiled_from(info_of(doc_tokens(self.document@))),
    {
        validate_document(self.document.as_str())
    }

    /// Reads the document into a city model; geometry that does not read is
    /// reported in `warnings` and left out.
    pub fn finish(self, warnings: &mut Vec<ParseWarning>) -> (r: Result<CitygmlModel, ReadError>)
        ensures
            r is Ok <==> tokens_of(self.document@) is Some,
            r matches Ok(m) ==> m@ == model_of(self.document@, doc_tokens(self.document@), 0, doc_tokens(self.document@).len() as int),
            r is Ok ==> warning_views(final(warnings)@) == model_warnings(
                self.document@,
                doc_tokens(self.document@),
                0,
                doc_tokens(self.document@).len() as int,
                warning_views(old(warnings)@),
            ),
            r is Err ==> final(warnings)@ == old(warnings)@,
    {
        read_model(self.document.as_str(), warnings)
    }
}

} // verus!
