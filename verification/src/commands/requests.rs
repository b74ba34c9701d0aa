//! How a fill request that arrives as JSON is read.

use crate::commands::plans::{
    fill_columns, fill_plan_of, missing_strategy_text, plan_fill_request, unsupported_fill_text,
    EngineFill,
};
use crate::models::history::FillStrategy;
use crate::text::{opt_view, opt_views, views};
use serde_json::Value;
use vstd::prelude::*;

verus! {

/// A JSON value of `serde_json`. Read only through the functions of this
/// module.
#[verifier::external_type_specification]
#[verifier::external_body]
pub struct ExJsonValue(Value);

/// `Value::get` with a key, then `Value::as_str`: the text under `key`
/// where `request` is an object that holds a string there. Nothing is
/// claimed of the result.
#[verifier::external_body]
fn text_field(request: &Value, key: &str) -> (text: Option<String>) {
    request.get(key).and_then(|v| v.as_str()).map(|s| s.to_string())
}

/// `Value::get` with a key, then `Value::as_array`, with `Value::as_str`
/// on each item: the items under `key` where `request` is an object that
/// holds an array there, each as its text if it is a string. Nothing is
/// claimed of the result.
#[verifier::external_body]
fn list_field(request: &Value, key: &str) -> (items: Option<Vec<Option<String>>>) {
    request.get(key).and_then(|v| v.as_array()).map(
        |a| a.iter().map(|v| v.as_str().map(|s| s.to_string())).collect(),
    )
}

/// The texts among `items`, in order.
pub open spec fn texts_of(items: Seq<Option<String>>) -> Seq<Seq<char>>
    decreases items.len(),
{
    if items.len() == 0 {
        Seq::empty()
    } else {
        match items.last() {
            Some(text) => texts_of(items.drop_last()).push(text@),
            None => texts_of(items.drop_last()),
        }
    }
}

/// Keeps the items that are texts, in order.
pub fn keep_texts(items: Vec<Option<String>>) -> (texts: Vec<String>)
    ensures
        views(texts@) == texts_of(items@),
{
    let mut texts: Vec<String> = Vec::new();
    let mut i: usize = 0;
    while i < items.len()
        invariant
            i <= items.len(),
            views(texts@) == texts_of(items@.take(i as int)),
        decreases items.len() - i,
    {
        let ghost before = views(texts@);
        assert(items@.take(i + 1).drop_last() =~= items@.take(i as int));
        assert(items@.take(i + 1).last() == items@[i as int]);
        match &items[i] {
            Some(text) => {
                texts.push(text.clone());
                assert(views(texts@) =~= before.push(text@));
            },
            None => {},
        }
        i = i + 1;
    }
    assert(items@.take(i as int) =~= items@);
    texts
}

/// What a fill request asks for.
#[derive(Debug)]
pub struct FillRequest {
    /// How the engine fills.
    pub engine: EngineFill,
    /// What the history records.
    pub record: FillStrategy,
    /// The columns to which the fill is confined; `None` stands for all.
    pub columns: Option<Vec<String>>,
}

/// The columns that a request names: the texts of its list, where it
/// has a list with a text in it.
pub open spec fn named_columns(items: Option<Seq<Option<String>>>) -> Option<Seq<Seq<char>>> {
    match items {
        Some(list) => if texts_of(list).len() > 0 {
            Some(texts_of(list))
        } else {
            None
        },
        None => None,
    }
}

/// The view of an optional list of optional strings.
pub open spec fn opt_items(items: Option<Vec<Option<String>>>) -> Option<Seq<Option<String>>> {
    match items {
        Some(list) => Some(list@),
        None => None,
    }
}

/// `made` is what a request with these parts asks for.
pub open spec fn asks(
    made: Result<FillRequest, String>,
    strategy: Option<Seq<char>>,
    items: Option<Seq<Option<String>>>,
    value: Option<Seq<char>>,
) -> bool {
    match strategy {
        None => made is Err && made->Err_0@ == missing_strategy_text(),
        Some(name) => match fill_plan_of(
            name,
            match value {
                Some(v) => v,
                None => Seq::empty(),
            },
        ) {
            Some(found) => made is Ok && made->Ok_0.engine == found.0 && made->Ok_0.record@
                == found.1 && opt_views(made->Ok_0.columns) == named_columns(items),
            None => made is Err && made->Err_0@ == unsupported_fill_text(name),
        },
    }
}

/// Puts a fill request together from the parts that were read from it.
/// Refused for a request without a strategy and for an unknown strategy.
pub fn fill_request_from(
    strategy: Option<String>,
    items: Option<Vec<Option<String>>>,
    value: Option<String>,
) -> (made: Result<FillRequest, String>)
    ensures
        asks(made, opt_view(strategy), opt_items(items), opt_view(value)),
{
    let columns = match items {
        Some(list) => fill_columns(Some(keep_texts(list))),
        None => None,
    };
    let plan = match &strategy {
        Some(name) => plan_fill_request(Some(name.as_str()), value),
        None => plan_fill_request(None, value),
    };
    match plan {
        Ok((engine, record)) => Ok(FillRequest { engine, record, columns }),
        Err(message) => Err(message),
    }
}

/// Reads a fill request: the strategy under `strategy`, the columns
/// under `columns`, the constant under `value`.
pub fn read_fill_request(request: &Value) -> (made: Result<FillRequest, String>)
    ensures
        exists|
            strategy: Option<Seq<char>>,
            items: Option<Seq<Option<String>>>,
            value: Option<Seq<char>>,
        |
            asks(made, strategy, items, value),
{
    let strategy = text_field(request, "strategy");
    let items = list_field(request, "columns");
    let value = text_field(request, "value");
    let ghost parts = (opt_view(strategy), opt_items(items), opt_view(value));
    let made = fill_request_from(strategy, items, value);
    assert(asks(made, parts.0, parts.1, parts.2));
    made
}

} // verus!
