//! The scoring collaborator: its state, its descriptors and the categories
//! of income frequency that it accepts. The score itself is computed
//! outside this library.

use crate::descriptors::{owned, NO_PROMPTS, SCORE_TOOLS};
use vstd::prelude::*;

verus! {

/// The label of a high, consistent income.
pub const LABEL_HIGH: &'static str = "High – Consistent";

/// The label of a medium, variable income.
pub const LABEL_MEDIUM: &'static str = "Medium – Variable";

/// The label of a low, unpredictable income.
pub const LABEL_LOW: &'static str = "Low-Unpredictable";

/// How regularly income arrives.
#[derive(Clone, Copy, Debug, PartialEq, Eq, Structural)]
pub enum IncomeFrequency {
    High,
    Medium,
    Low,
}

impl IncomeFrequency {
    /// The text that names this category.
    pub open spec fn label(self) -> Seq<char> {
        match self {
            IncomeFrequency::High => LABEL_HIGH@,
            IncomeFrequency::Medium => LABEL_MEDIUM@,
            IncomeFrequency::Low => LABEL_LOW@,
        }
    }

    /// The category that `text` names, if it is one of the three labels.
    pub fn parse(text: &String) -> (r: Option<IncomeFrequency>)
        ensures
            match r {
                Some(f) => text@ == f.label(),
                None => forall|f: IncomeFrequency| text@ != f.label(),
            },
    {
        if *text == owned(LABEL_HIGH) {
            Some(IncomeFrequency::High)
        } else if *text == owned(LABEL_MEDIUM) {
            Some(IncomeFrequency::Medium)
        } else if *text == owned(LABEL_LOW) {
            Some(IncomeFrequency::Low)
        } else {
            None
        }
    }
}

/// The state of the scoring collaborator. It holds nothing.
#[allow(non_camel_case_types)]
pub struct credit_scoreContractState {}

impl credit_scoreContractState {
    /// The collaborator's state.
    pub fn new() -> (r: Result<Self, String>)
        ensures
            r is Ok,
    {
        Ok(credit_scoreContractState {  })
    }

    /// The descriptor of the scoring operation.
    pub fn tools(&self) -> (s: String)
        ensures
            s@ == SCORE_TOOLS@,
    {
        owned(SCORE_TOOLS)
    }

    /// The prompt list, which is empty.
    pub fn prompts(&self) -> (s: String)
        ensures
            s@ == NO_PROMPTS@,
    {
        owned(NO_PROMPTS)
    }
}

} // verus!
