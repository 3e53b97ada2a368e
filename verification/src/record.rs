//! Structured log records.
//!
//! A record is a value: the crate builds it, the program hands it to its log
//! sink. Nothing here writes anywhere.

use vstd::prelude::*;

verus! {

/// How severe a record is.
#[derive(Clone, Copy, Debug, PartialEq, Eq, Structural)]
pub enum Level {
    Debug,
    Info,
    Warn,
    Error,
}

/// The key-value pair that a record carries beside its message, if any.
#[derive(Clone, Debug, PartialEq, Eq)]
pub enum Context {
    /// No pair.
    Empty,
    /// The pair `address`: the socket address that a listener is bound to.
    Address(String),
    /// The pair `error`: the cause of a failure, as text.
    Error(String),
}

/// The mathematical value of a [`Context`].
pub enum ContextView {
    Empty,
    Address(Seq<char>),
    Error(Seq<char>),
}

impl View for Context {
    type V = ContextView;

    open spec fn view(&self) -> ContextView {
        match self {
            Context::Empty => ContextView::Empty,
            Context::Address(text) => ContextView::Address(text@),
            Context::Error(text) => ContextView::Error(text@),
        }
    }
}

impl Context {
    /// The name of the pair's key: `address`, `error`, or nothing.
    pub fn key(&self) -> (key: Option<&'static str>)
        ensures
            key is None <==> self@ is Empty,
            self@ is Address ==> key is Some && key->0@ == "address"@,
            self@ is Error ==> key is Some && key->0@ == "error"@,
    {
        match self {
            Context::Empty => None,
            Context::Address(_) => Some("address"),
            Context::Error(_) => Some("error"),
        }
    }
}

/// One log event: a severity, a message and at most one key-value pair.
#[derive(Clone, Debug, PartialEq, Eq)]
pub struct Record {
    pub level: Level,
    pub message: &'static str,
    pub context: Context,
}

/// The mathematical value of a [`Record`].
pub struct RecordView {
    pub level: Level,
    pub message: Seq<char>,
    pub context: ContextView,
}

impl View for Record {
    type V = RecordView;

    open spec fn view(&self) -> RecordView {
        RecordView { level: self.level, message: self.message@, context: self.context@ }
    }
}

} // verus!
