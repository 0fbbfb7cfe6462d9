//! The rules of the chat endpoints: which model a path names, and the columns of the bills.

use vstd::prelude::*;
use crate::text::text_eq;

verus! {

/// The models the gateway passes prompts to.
#[derive(Clone, Copy, Debug, PartialEq, Eq, Structural)]
pub enum Model {
    Gpt35Turbo,
    Gpt4,
}

impl Model {
    /// The name under which the provider knows the model.
    pub open spec fn spec_name(self) -> Seq<char> {
        match self {
            Model::Gpt35Turbo => "gpt-3.5-turbo"@,
            Model::Gpt4 => "gpt-4-0613"@,
        }
    }

    /// The name under which the provider knows the model.
    pub fn name(self) -> (name: &'static str)
        ensures
            name@ == self.spec_name(),
    {
        match self {
            Model::Gpt35Turbo => "gpt-3.5-turbo",
            Model::Gpt4 => "gpt-4-0613",
        }
    }
}

/// The model that a path under the chat routes names: `/gpt3` and `/gpt4` name one, every
/// other path names none.
pub open spec fn spec_model_for_path(path: Seq<char>) -> Option<Model> {
    if path == "/gpt3"@ {
        Some(Model::Gpt35Turbo)
    } else if path == "/gpt4"@ {
        Some(Model::Gpt4)
    } else {
        None
    }
}

/// The model that a path under the chat routes names.
pub fn model_for_path(path: &str) -> (model: Option<Model>)
    ensures
        model == spec_model_for_path(path@),
{
    if text_eq(path, "/gpt3") {
        Some(Model::Gpt35Turbo)
    } else if text_eq(path, "/gpt4") {
        Some(Model::Gpt4)
    } else {
        None
    }
}

/// One bill as the ledger holds it. The cost is carried as the bits of the number the
/// ledger gave.
pub struct Bill {
    pub billed_to: String,
    pub model: String,
    pub prompt_tokens: i64,
    pub completion_tokens: i64,
    pub total_cost_bits: u64,
}

/// The bills by column, as the bills endpoint reports them.
pub struct BillColumns {
    pub billed_to: Vec<String>,
    pub model: Vec<String>,
    pub prompt_tokens: Vec<i64>,
    pub completion_tokens: Vec<i64>,
    pub total_cost_bits: Vec<u64>,
}

impl BillColumns {
    /// Whether the columns hold exactly the given bills, row by row and in their order.
    pub open spec fn holds(&self, bills: Seq<Bill>) -> bool {
        &&& self.billed_to@.len() == bills.len()
        &&& self.model@.len() == bills.len()
        &&& self.prompt_tokens@.len() == bills.len()
        &&& self.completion_tokens@.len() == bills.len()
        &&& self.total_cost_bits@.len() == bills.len()
        &&& forall|i: int|
            0 <= i < bills.len() ==> {
                &&& (#[trigger] self.billed_to@[i])@ == bills[i].billed_to@
                &&& self.model@[i]@ == bills[i].model@
                &&& self.prompt_tokens@[i] == bills[i].prompt_tokens
                &&& self.completion_tokens@[i] == bills[i].completion_tokens
                &&& self.total_cost_bits@[i] == bills[i].total_cost_bits
            }
    }
}

/// Turns the rows of the ledger into columns.
pub fn bill_columns(bills: Vec<Bill>) -> (columns: BillColumns)
    ensures
        columns.holds(bills@),
{
    let mut columns = BillColumns {
        billed_to: Vec::new(),
        model: Vec::new(),
        prompt_tokens: Vec::new(),
        completion_tokens: Vec::new(),
        total_cost_bits: Vec::new(),
    };
    let mut at: usize = 0;
    while at < bills.len()
        invariant
            at <= bills.len(),
            columns.billed_to@.len() == at,
            columns.model@.len() == at,
            columns.prompt_tokens@.len() == at,
            columns.completion_tokens@.len() == at,
            columns.total_cost_bits@.len() == at,
            forall|i: int|
                0 <= i < at ==> {
                    &&& (#[trigger] columns.billed_to@[i])@ == bills@[i].billed_to@
                    &&& columns.model@[i]@ == bills@[i].model@
                    &&& columns.prompt_tokens@[i] == bills@[i].prompt_tokens
                    &&& columns.completion_tokens@[i] == bills@[i].completion_tokens
                    &&& columns.total_cost_bits@[i] == bills@[i].total_cost_bits
                },
        decreases bills.len() - at,
    {
        let bill = &bills[at];
        columns.billed_to.push(bill.billed_to.clone());
        columns.model.push(bill.model.clone());
        columns.prompt_tokens.push(bill.prompt_tokens);
        columns.completion_tokens.push(bill.completion_tokens);
        columns.total_cost_bits.push(bill.total_cost_bits);
        at += 1;
    }
    columns
}

} // verus!
