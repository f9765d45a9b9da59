//! A runner that drives a browser adapter and reports its result.

use vstd::prelude::*;
use crate::json::{JsonValue, JsonView, JsonMember, member, object, text, items_view, members_view,
    lemma_members_view_len};
use super::lightpanda::models::BrowserRunResult;

verus! {

/// A runner over the browser adapter `A`.
#[derive(Debug)]
pub struct BrowserRunner<A> {
    adapter: A,
}

/// The JSON list of a list of texts.
pub open spec fn text_list(items: Seq<String>) -> JsonView {
    JsonView::Array(items.map_values(|s: String| JsonView::Text(s@)))
}

/// The JSON array of the texts in `items`.
fn text_array(items: Vec<String>) -> (v: JsonValue)
    ensures
        v@ == text_list(items@),
{
    let mut out: Vec<JsonValue> = Vec::new();
    let mut i: usize = 0;
    while i < items.len()
        invariant
            i <= items@.len(),
            items_view(out@) == items@.take(i as int).map_values(|s: String| JsonView::Text(s@)),
        decreases items@.len() - i,
    {
        let v = text(items[i].as_str());
        let ghost before = out@;
        out.push(v);
        proof {
            assert(out@.drop_last() == before);
            assert(items@.take(i + 1).map_values(|s: String| JsonView::Text(s@))
                =~= items@.take(i as int).map_values(|s: String| JsonView::Text(s@)).push(JsonView::Text(items@[i as int]@)));
        }
        i = i + 1;
    }
    assert(items@.take(items@.len() as int) =~= items@);
    JsonValue::Array(out)
}

impl<A> BrowserRunner<A> {
    /// The adapter this runner drives.
    pub closed spec fn driven(self) -> A {
        self.adapter
    }

    /// A runner over `adapter`.
    pub fn new(adapter: A) -> (r: Self)
        ensures
            r.driven() == adapter,
    {
        BrowserRunner { adapter }
    }

    /// The adapter this runner drives.
    pub fn adapter(&self) -> (a: &A)
        ensures
            *a == self.driven(),
    {
        &self.adapter
    }

    /// The report of a browser run: its result, logs and artifacts.
    pub fn convert_result(result: BrowserRunResult) -> (v: JsonValue)
        ensures
            v@ == JsonView::Object(seq![
                ("result"@, result.result_json@),
                ("logs"@, text_list(result.logs@)),
                ("artifacts"@, text_list(result.artifacts@)),
            ]),
    {
        let mut ms: Vec<JsonMember> = Vec::new();
        ms.push(member("result", result.result_json));
        ms.push(member("logs", text_array(result.logs)));
        ms.push(member("artifacts", text_array(result.artifacts)));
        proof {
            lemma_members_view_len(ms@);
            assert(members_view(ms@) =~= seq![
                ("result"@, result.result_json@),
                ("logs"@, text_list(result.logs@)),
                ("artifacts"@, text_list(result.artifacts@)),
            ]);
            reveal_strlit("result");
            reveal_strlit("logs");
            reveal_strlit("artifacts");
            assert(("result"@).len() == 6);
            assert(("logs"@).len() == 4);
            assert(("artifacts"@).len() == 9);
        }
        object(ms)
    }
}

} // verus!
