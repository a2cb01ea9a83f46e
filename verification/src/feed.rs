//! Lists of strings as the discovery service sends them: as a JSON list, as a
//! string that holds a JSON list, as a single string, or not at all.

use vstd::prelude::*;
use vstd::string::*;
use crate::store::{decode_texts, texts_of_json, texts_or_message};
use crate::text::{text_of_two, texts};

verus! {

/// One item of a JSON list.
#[derive(Debug)]
pub enum JsonItem {
    /// A JSON string, by its content.
    Text(String),
    /// Any other JSON value, written as JSON.
    Other(String),
}

/// The value of a field that is to hold a list of strings.
#[derive(Debug)]
pub enum JsonField {
    Null,
    /// A JSON string, by its content.
    Text(String),
    /// A JSON list.
    Items(Vec<JsonItem>),
    /// Any other JSON value, written as JSON.
    Other(String),
}

/// What a `JsonItem` holds, as plain values.
pub enum JsonItemView {
    Text(Seq<char>),
    Other(Seq<char>),
}

/// What a `JsonField` holds, as plain values.
pub enum JsonFieldView {
    Null,
    Text(Seq<char>),
    Items(Seq<JsonItemView>),
    Other(Seq<char>),
}

impl View for JsonItem {
    type V = JsonItemView;

    open spec fn view(&self) -> JsonItemView {
        match self {
            JsonItem::Text(text) => JsonItemView::Text(text@),
            JsonItem::Other(written) => JsonItemView::Other(written@),
        }
    }
}

impl View for JsonField {
    type V = JsonFieldView;

    open spec fn view(&self) -> JsonFieldView {
        match self {
            JsonField::Null => JsonFieldView::Null,
            JsonField::Text(text) => JsonFieldView::Text(text@),
            JsonField::Items(items) => JsonFieldView::Items(items@.map_values(|i: JsonItem| i@)),
            JsonField::Other(written) => JsonFieldView::Other(written@),
        }
    }
}

/// The text without the double quotes at its start.
pub open spec fn without_leading_quotes(text: Seq<char>) -> Seq<char>
    decreases text.len(),
{
    if text.len() > 0 && text[0] == '"' {
        without_leading_quotes(text.drop_first())
    } else {
        text
    }
}

/// The text without the double quotes at its end.
pub open spec fn without_trailing_quotes(text: Seq<char>) -> Seq<char>
    decreases text.len(),
{
    if text.len() > 0 && text.last() == '"' {
        without_trailing_quotes(text.drop_last())
    } else {
        text
    }
}

/// The text without the double quotes at its two ends.
pub open spec fn without_quotes(text: Seq<char>) -> Seq<char> {
    without_trailing_quotes(without_leading_quotes(text))
}

/// The string that an item of a list gives: a string gives its content, any
/// other value its JSON text without double quotes at the ends.
pub open spec fn item_text(item: JsonItemView) -> Seq<char> {
    match item {
        JsonItemView::Text(text) => text,
        JsonItemView::Other(written) => without_quotes(written),
    }
}

/// The list of strings that a field gives. A list gives one string per item.
/// A string that starts with `[` is read as a JSON list of strings; an empty
/// string gives no string, any other string gives itself. A missing value
/// gives no string. Any other value is an error.
pub open spec fn string_list_of(field: JsonFieldView) -> Result<Seq<Seq<char>>, Seq<char>> {
    match field {
        JsonFieldView::Items(items) => Ok(items.map_values(|i: JsonItemView| item_text(i))),
        JsonFieldView::Text(text) => if text.len() > 0 && text[0] == '[' {
            texts_of_json(text)
        } else if text.len() == 0 {
            Ok(Seq::empty())
        } else {
            Ok(seq![text])
        },
        JsonFieldView::Null => Ok(Seq::empty()),
        JsonFieldView::Other(written) => Err("expected array or string, found: "@ + written),
    }
}

/// Drops the double quotes at the two ends of a text.
pub fn trim_quotes(text: &str) -> (r: String)
    ensures
        r@ == without_quotes(text@),
{
    let n = text.unicode_len();
    let mut start: usize = 0;
    assert(text@.skip(0) == text@);
    while start < n && text.get_char(start) == '"'
        invariant
            start <= n,
            n == text@.len(),
            without_leading_quotes(text@) == without_leading_quotes(text@.skip(start as int)),
        decreases n - start,
    {
        assert(text@.skip(start as int).drop_first() == text@.skip(start + 1));
        start = start + 1;
    }
    let ghost rest = text@.skip(start as int);
    assert(without_leading_quotes(text@) == rest);
    let mut end: usize = n;
    assert(rest.take(n - start) == rest);
    while end > start && text.get_char(end - 1) == '"'
        invariant
            start <= end <= n,
            n == text@.len(),
            rest == text@.skip(start as int),
            without_trailing_quotes(rest) == without_trailing_quotes(rest.take(end - start)),
        decreases end,
    {
        assert(rest.take(end - start).drop_last() == rest.take(end - start - 1));
        end = end - 1;
    }
    proof {
        assert(rest.take(n - start) == rest);
        assert(rest.take(end - start) == text@.subrange(start as int, end as int));
    }
    text.substring_char(start, end).to_owned()
}

/// The list of strings that a field of the discovery service holds.
pub fn string_list(field: JsonField) -> (r: Result<Vec<String>, String>)
    ensures
        texts_or_message(r) == string_list_of(field@),
{
    match field {
        JsonField::Items(items) => {
            let mut out: Vec<String> = Vec::new();
            let ghost all = items@.map_values(|i: JsonItem| i@).map_values(
                |i: JsonItemView| item_text(i),
            );
            let mut i: usize = 0;
            while i < items.len()
                invariant
                    i <= items.len(),
                    all == items@.map_values(|i: JsonItem| i@).map_values(
                        |i: JsonItemView| item_text(i),
                    ),
                    texts(out@) == all.take(i as int),
                decreases items.len() - i,
            {
                let ghost before = out@;
                let text = match &items[i] {
                    JsonItem::Text(text) => text.clone(),
                    JsonItem::Other(written) => trim_quotes(written.as_str()),
                };
                out.push(text);
                assert(texts(out@) =~= texts(before).push(text@));
                assert(texts(out@) =~= all.take(i + 1));
                i = i + 1;
            }
            assert(all.take(items.len() as int) == all);
            Ok(out)
        },
        JsonField::Text(text) => {
            if text.as_str().unicode_len() > 0 && text.as_str().get_char(0) == '[' {
                decode_texts(text.as_str())
            } else if text.as_str().unicode_len() == 0 {
                let none: Vec<String> = Vec::new();
                assert(texts(none@) =~= Seq::<Seq<char>>::empty());
                Ok(none)
            } else {
                let mut one: Vec<String> = Vec::new();
                one.push(text);
                assert(texts(one@) =~= seq![text@]);
                Ok(one)
            }
        },
        JsonField::Null => {
            let none: Vec<String> = Vec::new();
            assert(texts(none@) =~= Seq::<Seq<char>>::empty());
            Ok(none)
        },
        JsonField::Other(written) => Err(
            text_of_two("expected array or string, found: ", written.as_str()),
        ),
    }
}

} // verus!
