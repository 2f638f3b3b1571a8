//! What goes into budget requests.
use vstd::prelude::*;
use crate::text::opt_string;

verus! {

/// Parameters for filtering transaction list queries.
#[derive(Debug, Clone)]
pub struct TransactionListParams {
    pub budget_id: String,
    pub since_date: Option<String>,
    pub transaction_type: Option<String>,
    pub account_id: Option<String>,
    pub category_id: Option<String>,
    pub payee_id: Option<String>,
    pub last_knowledge_of_server: Option<i64>,
}

/// What a [`TransactionListParams`] says.
pub struct TransactionListParamsModel {
    pub budget_id: Seq<char>,
    pub since_date: Option<Seq<char>>,
    pub transaction_type: Option<Seq<char>>,
    pub account_id: Option<Seq<char>>,
    pub category_id: Option<Seq<char>>,
    pub payee_id: Option<Seq<char>>,
    pub last_knowledge_of_server: Option<i64>,
}

impl View for TransactionListParams {
    type V = TransactionListParamsModel;

    open spec fn view(&self) -> TransactionListParamsModel {
        TransactionListParamsModel {
            budget_id: self.budget_id@,
            since_date: opt_string(self.since_date),
            transaction_type: opt_string(self.transaction_type),
            account_id: opt_string(self.account_id),
            category_id: opt_string(self.category_id),
            payee_id: opt_string(self.payee_id),
            last_knowledge_of_server: self.last_knowledge_of_server,
        }
    }
}

impl Default for TransactionListParams {
    fn default() -> (value: Self)
        ensures
            value@ == (TransactionListParamsModel {
                budget_id: Seq::empty(),
                since_date: None,
                transaction_type: None,
                account_id: None,
                category_id: None,
                payee_id: None,
                last_knowledge_of_server: None,
            }),
    {
        let budget_id = String::new();
        assert(budget_id@ =~= Seq::empty());
        TransactionListParams {
            budget_id,
            since_date: None,
            transaction_type: None,
            account_id: None,
            category_id: None,
            payee_id: None,
            last_knowledge_of_server: None,
        }
    }
}

/// Input fields for creating a transaction.
#[derive(Debug, Clone)]
pub struct TransactionInput {
    pub account_id: String,
    pub date: String,
    pub amount: i64,
    pub payee_name: Option<String>,
    pub payee_id: Option<String>,
    pub category_id: Option<String>,
    pub memo: Option<String>,
    pub cleared: Option<String>,
    pub approved: Option<bool>,
    pub flag_color: Option<String>,
}

/// What a [`TransactionInput`] says.
pub struct TransactionInputModel {
    pub account_id: Seq<char>,
    pub date: Seq<char>,
    pub amount: i64,
    pub payee_name: Option<Seq<char>>,
    pub payee_id: Option<Seq<char>>,
    pub category_id: Option<Seq<char>>,
    pub memo: Option<Seq<char>>,
    pub cleared: Option<Seq<char>>,
    pub approved: Option<bool>,
    pub flag_color: Option<Seq<char>>,
}

impl View for TransactionInput {
    type V = TransactionInputModel;

    open spec fn view(&self) -> TransactionInputModel {
        TransactionInputModel {
            account_id: self.account_id@,
            date: self.date@,
            amount: self.amount,
            payee_name: opt_string(self.payee_name),
            payee_id: opt_string(self.payee_id),
            category_id: opt_string(self.category_id),
            memo: opt_string(self.memo),
            cleared: opt_string(self.cleared),
            approved: self.approved,
            flag_color: opt_string(self.flag_color),
        }
    }
}

/// Input fields for updating a transaction. All fields are optional.
#[derive(Debug, Clone)]
pub struct TransactionUpdateInput {
    pub account_id: Option<String>,
    pub date: Option<String>,
    pub amount: Option<i64>,
    pub payee_name: Option<String>,
    pub payee_id: Option<String>,
    pub category_id: Option<String>,
    pub memo: Option<String>,
    pub cleared: Option<String>,
    pub approved: Option<bool>,
    pub flag_color: Option<String>,
}

/// What a [`TransactionUpdateInput`] says.
pub struct TransactionUpdateInputModel {
    pub account_id: Option<Seq<char>>,
    pub date: Option<Seq<char>>,
    pub amount: Option<i64>,
    pub payee_name: Option<Seq<char>>,
    pub payee_id: Option<Seq<char>>,
    pub category_id: Option<Seq<char>>,
    pub memo: Option<Seq<char>>,
    pub cleared: Option<Seq<char>>,
    pub approved: Option<bool>,
    pub flag_color: Option<Seq<char>>,
}

impl View for TransactionUpdateInput {
    type V = TransactionUpdateInputModel;

    open spec fn view(&self) -> TransactionUpdateInputModel {
        TransactionUpdateInputModel {
            account_id: opt_string(self.account_id),
            date: opt_string(self.date),
            amount: self.amount,
            payee_name: opt_string(self.payee_name),
            payee_id: opt_string(self.payee_id),
            category_id: opt_string(self.category_id),
            memo: opt_string(self.memo),
            cleared: opt_string(self.cleared),
            approved: self.approved,
            flag_color: opt_string(self.flag_color),
        }
    }
}

/// Input fields for creating a category.
#[derive(Debug, Clone)]
pub struct CategoryInput {
    pub category_group_id: String,
    pub name: String,
}

/// What a [`CategoryInput`] says.
pub struct CategoryInputModel {
    pub category_group_id: Seq<char>,
    pub name: Seq<char>,
}

impl View for CategoryInput {
    type V = CategoryInputModel;

    open spec fn view(&self) -> CategoryInputModel {
        CategoryInputModel {
            category_group_id: self.category_group_id@,
            name: self.name@,
        }
    }
}

} // verus!
