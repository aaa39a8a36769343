//! The values that pass between the node and its store.

use vstd::prelude::*;

verus! {

/// One value bound to a statement, or one cell of a row that a query
/// returned.
#[derive(Debug, PartialEq, Eq)]
pub enum DatabaseParam {
    String(String),
}

impl View for DatabaseParam {
    type V = Seq<char>;

    open spec fn view(&self) -> Seq<char> {
        match self {
            DatabaseParam::String(text) => text@,
        }
    }
}

impl DeepView for DatabaseParam {
    type V = Seq<char>;

    open spec fn deep_view(&self) -> Seq<char> {
        self@
    }
}

impl Clone for DatabaseParam {
    fn clone(&self) -> (copy: DatabaseParam)
        ensures
            copy@ == self@,
    {
        match self {
            DatabaseParam::String(text) => DatabaseParam::String(text.clone()),
        }
    }
}

impl DatabaseParam {
    /// The value as text.
    pub fn string(&self) -> (text: String)
        ensures
            text@ == self@,
    {
        match self {
            DatabaseParam::String(text) => text.clone(),
        }
    }
}

/// The values bound to the placeholders of one statement, in order.
#[derive(Clone, Debug, PartialEq, Eq)]
pub struct DatabaseParams {
    params: Vec<DatabaseParam>,
}

impl View for DatabaseParams {
    type V = Seq<Seq<char>>;

    closed spec fn view(&self) -> Seq<Seq<char>> {
        self.params.deep_view()
    }
}

impl DatabaseParams {
    /// The given values.
    pub fn new(params: Vec<DatabaseParam>) -> (bound: DatabaseParams)
        ensures
            bound@ == params.deep_view(),
    {
        DatabaseParams { params }
    }

    /// No values, for a statement without placeholders.
    pub fn empty() -> (bound: DatabaseParams)
        ensures
            bound@ == Seq::<Seq<char>>::empty(),
    {
        let bound = DatabaseParams { params: Vec::new() };
        assert(bound@ =~= Seq::<Seq<char>>::empty());
        bound
    }

    /// One value.
    pub fn single(param: DatabaseParam) -> (bound: DatabaseParams)
        ensures
            bound@ == seq![param@],
    {
        let mut params: Vec<DatabaseParam> = Vec::new();
        params.push(param);
        let bound = DatabaseParams { params };
        assert(bound@ =~= seq![param@]);
        bound
    }

    /// The values, in order.
    pub fn values(&self) -> (params: &Vec<DatabaseParam>)
        ensures
            params.deep_view() == self@,
    {
        &self.params
    }
}

/// A statement for the store to run: its text and the values bound to it.
#[derive(Clone, Debug, PartialEq, Eq)]
pub struct Statement {
    pub sql: &'static str,
    pub params: DatabaseParams,
}

/// What a `Statement` holds: the text and the bound values.
pub struct StatementView {
    pub sql: Seq<char>,
    pub params: Seq<Seq<char>>,
}

impl View for Statement {
    type V = StatementView;

    open spec fn view(&self) -> StatementView {
        StatementView { sql: self.sql@, params: self.params@ }
    }
}

impl DeepView for Statement {
    type V = StatementView;

    open spec fn deep_view(&self) -> StatementView {
        self@
    }
}

/// The rows that a query returned.
pub type Rows = Vec<Vec<DatabaseParam>>;

/// One item of a query whose rows arrive one by one.
#[derive(Debug, PartialEq, Eq)]
pub enum ItemStream {
    /// A row.
    Value(Vec<DatabaseParam>),
    /// The query failed.
    Error,
    /// There are no more rows.
    End,
}

/// What an `ItemStream` holds, with each cell as a sequence of characters.
pub enum ItemStreamView {
    Value(Seq<Seq<char>>),
    Error,
    End,
}

impl View for ItemStream {
    type V = ItemStreamView;

    open spec fn view(&self) -> ItemStreamView {
        match self {
            ItemStream::Value(row) => ItemStreamView::Value(row.deep_view()),
            ItemStream::Error => ItemStreamView::Error,
            ItemStream::End => ItemStreamView::End,
        }
    }
}

} // verus!
