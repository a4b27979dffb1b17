use vstd::prelude::*;
use crate::error::MetaStoreError;

verus! {

/// Classifier epoch written by this build.
pub const CLASSIFIER_EPOCH: &'static str = "resume-classifier.v1";

/// Longest accepted contract component, in bytes.
pub const MAX_CONTRACT_COMPONENT_BYTES: usize = 64;

/// Whether a contract component is acceptable: non-empty and bounded.
pub open spec fn valid_component(text: Seq<char>) -> bool {
    0 < vstd::utf8::encode_utf8(text).len() <= MAX_CONTRACT_COMPONENT_BYTES
}

/// The processing components whose outputs the store keeps: the primary
/// document parser, the OCR engine, the normalization schema and the
/// classifier epoch.
#[derive(Clone, Debug, PartialEq, Eq)]
pub struct ImportProcessingContract {
    primary_parser: String,
    ocr_engine: String,
    normalization_schema: String,
    classifier_epoch: String,
}

/// Mathematical value of a processing contract.
pub struct ContractView {
    pub primary_parser: Seq<char>,
    pub ocr_engine: Seq<char>,
    pub normalization_schema: Seq<char>,
    pub classifier_epoch: Seq<char>,
}

impl View for ImportProcessingContract {
    type V = ContractView;

    closed spec fn view(&self) -> ContractView {
        ContractView {
            primary_parser: self.primary_parser@,
            ocr_engine: self.ocr_engine@,
            normalization_schema: self.normalization_schema@,
            classifier_epoch: self.classifier_epoch@,
        }
    }
}

impl ImportProcessingContract {
    /// Builds a contract; every component must be non-empty and at most
    /// `MAX_CONTRACT_COMPONENT_BYTES` long.
    pub fn new(
        primary_parser: &str,
        ocr_engine: &str,
        normalization_schema: &str,
        classifier_epoch: &str,
    ) -> (r: Result<Self, MetaStoreError>)
        ensures
            r is Ok <==> (valid_component(primary_parser@) && valid_component(ocr_engine@)
                && valid_component(normalization_schema@) && valid_component(classifier_epoch@)),
            r matches Ok(contract) ==> contract@ == (ContractView {
                primary_parser: primary_parser@,
                ocr_engine: ocr_engine@,
                normalization_schema: normalization_schema@,
                classifier_epoch: classifier_epoch@,
            }),
            r matches Err(e) ==> e == MetaStoreError::InvalidValue("import_processing_contract"),
    {
        let ok = component_ok(primary_parser) && component_ok(ocr_engine)
            && component_ok(normalization_schema) && component_ok(classifier_epoch);
        if !ok {
            return Err(MetaStoreError::InvalidValue("import_processing_contract"));
        }
        Ok(ImportProcessingContract {
            primary_parser: primary_parser.to_owned(),
            ocr_engine: ocr_engine.to_owned(),
            normalization_schema: normalization_schema.to_owned(),
            classifier_epoch: classifier_epoch.to_owned(),
        })
    }

    pub fn primary_parser(&self) -> (r: &str)
        ensures
            r@ == self@.primary_parser,
    {
        self.primary_parser.as_str()
    }

    pub fn ocr_engine(&self) -> (r: &str)
        ensures
            r@ == self@.ocr_engine,
    {
        self.ocr_engine.as_str()
    }

    pub fn normalization_schema(&self) -> (r: &str)
        ensures
            r@ == self@.normalization_schema,
    {
        self.normalization_schema.as_str()
    }

    pub fn classifier_epoch(&self) -> (r: &str)
        ensures
            r@ == self@.classifier_epoch,
    {
        self.classifier_epoch.as_str()
    }
}

fn component_ok(text: &str) -> (r: bool)
    ensures
        r == valid_component(text@),
{
    let n = text.as_bytes().len();
    0 < n && n <= MAX_CONTRACT_COMPONENT_BYTES
}

/// How a change of processing contract is carried out.
#[derive(Clone, Copy, Debug, PartialEq, Eq, Structural)]
pub enum ContractTransitionStrategy {
    AlreadyActive,
    PdfRootRescan,
    OcrRequeue,
    ClassifierReclassify,
    DerivedRebuild,
    Unsupported,
}

/// Which components differ between the committed and the desired contract.
#[derive(Clone, Copy, Debug, PartialEq, Eq, Structural)]
pub struct ContractDelta {
    pub strategy: ContractTransitionStrategy,
    pub primary_parser_changed: bool,
    pub ocr_engine_changed: bool,
    pub normalization_schema_changed: bool,
    pub classifier_epoch_changed: bool,
}

/// Strategy chosen for a set of changed components: the most expensive
/// change decides. A parser change rescans the PDF roots, an OCR change
/// requeues OCR, a classifier change reclassifies, and a schema change alone
/// rebuilds derived state. Without a committed contract everything derived
/// is rebuilt.
pub open spec fn strategy_for(
    committed: Option<ContractView>,
    desired: ContractView,
) -> ContractTransitionStrategy {
    match committed {
        None => ContractTransitionStrategy::DerivedRebuild,
        Some(c) => if c.primary_parser != desired.primary_parser {
            ContractTransitionStrategy::PdfRootRescan
        } else if c.ocr_engine != desired.ocr_engine {
            ContractTransitionStrategy::OcrRequeue
        } else if c.classifier_epoch != desired.classifier_epoch {
            ContractTransitionStrategy::ClassifierReclassify
        } else if c.normalization_schema != desired.normalization_schema {
            ContractTransitionStrategy::DerivedRebuild
        } else {
            ContractTransitionStrategy::AlreadyActive
        },
    }
}

/// The delta between a committed and a desired contract: the strategy, and
/// for each component whether it differs; without a committed contract every
/// component counts as changed.
pub open spec fn contract_delta(committed: Option<ContractView>, desired: ContractView) -> ContractDelta {
    ContractDelta {
        strategy: strategy_for(committed, desired),
        primary_parser_changed: match committed {
            Some(c) => c.primary_parser != desired.primary_parser,
            None => true,
        },
        ocr_engine_changed: match committed {
            Some(c) => c.ocr_engine != desired.ocr_engine,
            None => true,
        },
        normalization_schema_changed: match committed {
            Some(c) => c.normalization_schema != desired.normalization_schema,
            None => true,
        },
        classifier_epoch_changed: match committed {
            Some(c) => c.classifier_epoch != desired.classifier_epoch,
            None => true,
        },
    }
}

pub open spec fn option_view(c: Option<&ImportProcessingContract>) -> Option<ContractView> {
    match c {
        None => None,
        Some(c) => Some(c@),
    }
}

impl ContractDelta {
    /// Compares the committed contract with the desired one.
    pub fn between(
        committed: Option<&ImportProcessingContract>,
        desired: &ImportProcessingContract,
    ) -> (r: ContractDelta)
        ensures
            r == contract_delta(option_view(committed), desired@),
            r.strategy == strategy_for(option_view(committed), desired@),
            committed matches Some(c) ==> {
                &&& r.primary_parser_changed == (c@.primary_parser != desired@.primary_parser)
                &&& r.ocr_engine_changed == (c@.ocr_engine != desired@.ocr_engine)
                &&& r.normalization_schema_changed == (c@.normalization_schema
                    != desired@.normalization_schema)
                &&& r.classifier_epoch_changed == (c@.classifier_epoch != desired@.classifier_epoch)
            },
            committed is None ==> r.primary_parser_changed && r.ocr_engine_changed
                && r.normalization_schema_changed && r.classifier_epoch_changed,
    {
        match committed {
            None => ContractDelta {
                strategy: ContractTransitionStrategy::DerivedRebuild,
                primary_parser_changed: true,
                ocr_engine_changed: true,
                normalization_schema_changed: true,
                classifier_epoch_changed: true,
            },
            Some(c) => {
                let parser = !(c.primary_parser == desired.primary_parser);
                let ocr = !(c.ocr_engine == desired.ocr_engine);
                let schema = !(c.normalization_schema == desired.normalization_schema);
                let classifier = !(c.classifier_epoch == desired.classifier_epoch);
                let strategy = if parser {
                    ContractTransitionStrategy::PdfRootRescan
                } else if ocr {
                    ContractTransitionStrategy::OcrRequeue
                } else if classifier {
                    ContractTransitionStrategy::ClassifierReclassify
                } else if schema {
                    ContractTransitionStrategy::DerivedRebuild
                } else {
                    ContractTransitionStrategy::AlreadyActive
                };
                ContractDelta {
                    strategy,
                    primary_parser_changed: parser,
                    ocr_engine_changed: ocr,
                    normalization_schema_changed: schema,
                    classifier_epoch_changed: classifier,
                }
            },
        }
    }
}

} // verus!
