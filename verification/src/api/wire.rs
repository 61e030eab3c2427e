//! What one HTTP exchange puts on the wire, as plain data.

use crate::api::schema::types::item::ItemSlot;
use vstd::prelude::*;

verus! {

/// The HTTP methods that the API is spoken with.
#[derive(Clone, Copy, Debug, PartialEq, Eq, Structural)]
pub enum Method {
    Get,
    Post,
}

/// The value of one member of a JSON request body.
#[derive(Debug)]
pub enum FieldValue {
    /// A JSON number without a fraction.
    Integer(i64),
    /// A JSON string.
    Text(String),
    /// An equipment slot, which goes on the wire under the slot's wire name.
    Slot(ItemSlot),
}

/// One member of a JSON request body.
#[derive(Debug)]
pub struct Field {
    pub name: String,
    pub value: FieldValue,
}

/// The mathematical value of a [`FieldValue`].
pub ghost enum FieldValueView {
    Integer(int),
    Text(Seq<char>),
    Slot(ItemSlot),
}

/// The mathematical value of a [`Field`].
pub ghost struct FieldView {
    pub name: Seq<char>,
    pub value: FieldValueView,
}

impl DeepView for FieldValue {
    type V = FieldValueView;

    open spec fn deep_view(&self) -> FieldValueView {
        match self {
            FieldValue::Integer(n) => FieldValueView::Integer(*n as int),
            FieldValue::Text(text) => FieldValueView::Text(text@),
            FieldValue::Slot(slot) => FieldValueView::Slot(*slot),
        }
    }
}

impl DeepView for Field {
    type V = FieldView;

    open spec fn deep_view(&self) -> FieldView {
        FieldView { name: self.name@, value: self.value.deep_view() }
    }
}

/// A member that holds an integer.
pub open spec fn integer_field(name: Seq<char>, n: int) -> FieldView {
    FieldView { name, value: FieldValueView::Integer(n) }
}

/// A member that holds a text.
pub open spec fn text_field(name: Seq<char>, text: Seq<char>) -> FieldView {
    FieldView { name, value: FieldValueView::Text(text) }
}

/// A member that holds an equipment slot.
pub open spec fn slot_field(name: Seq<char>, slot: ItemSlot) -> FieldView {
    FieldView { name, value: FieldValueView::Slot(slot) }
}

impl Clone for FieldValue {
    fn clone(&self) -> (copy: Self)
        ensures
            copy.deep_view() == self.deep_view(),
    {
        match self {
            FieldValue::Integer(n) => FieldValue::Integer(*n),
            FieldValue::Text(text) => FieldValue::Text(text.clone()),
            FieldValue::Slot(slot) => FieldValue::Slot(*slot),
        }
    }
}

impl Clone for Field {
    fn clone(&self) -> (copy: Self)
        ensures
            copy.deep_view() == self.deep_view(),
    {
        Field { name: self.name.clone(), value: self.value.clone() }
    }
}

impl Field {
    pub fn integer(name: &str, n: i64) -> (field: Field)
        ensures
            field.deep_view() == integer_field(name@, n as int),
    {
        Field { name: name.to_owned(), value: FieldValue::Integer(n) }
    }

    pub fn text(name: &str, text: &str) -> (field: Field)
        ensures
            field.deep_view() == text_field(name@, text@),
    {
        Field { name: name.to_owned(), value: FieldValue::Text(text.to_owned()) }
    }

    pub fn slot(name: &str, slot: ItemSlot) -> (field: Field)
        ensures
            field.deep_view() == slot_field(name@, slot),
    {
        Field { name: name.to_owned(), value: FieldValue::Slot(slot) }
    }
}

/// Copies the members of a request body.
pub(crate) fn copy_fields(fields: &Vec<Field>) -> (copy: Vec<Field>)
    ensures
        copy.deep_view() == fields.deep_view(),
{
    let mut copy: Vec<Field> = Vec::new();
    let mut i: usize = 0;
    while i < fields.len()
        invariant
            i <= fields.len(),
            copy.len() == i,
            forall|j: int| 0 <= j < i ==> copy[j].deep_view() == fields[j].deep_view(),
        decreases fields.len() - i,
    {
        copy.push(fields[i].clone());
        i = i + 1;
    }
    assert(copy.deep_view() =~= fields.deep_view());
    copy
}

/// Copies a list of name and value pairs.
pub(crate) fn copy_pairs(pairs: &Vec<(String, String)>) -> (copy: Vec<(String, String)>)
    ensures
        copy.deep_view() == pairs.deep_view(),
{
    let mut copy: Vec<(String, String)> = Vec::new();
    let mut i: usize = 0;
    while i < pairs.len()
        invariant
            i <= pairs.len(),
            copy.len() == i,
            forall|j: int| 0 <= j < i ==> copy[j].deep_view() == pairs[j].deep_view(),
        decreases pairs.len() - i,
    {
        copy.push((pairs[i].0.clone(), pairs[i].1.clone()));
        i = i + 1;
    }
    assert(copy.deep_view() =~= pairs.deep_view());
    copy
}

/// Turns borrowed name and value pairs into owned ones.
pub(crate) fn own_pairs(pairs: &Vec<(&str, &str)>) -> (owned: Vec<(String, String)>)
    ensures
        owned.deep_view() == pairs.deep_view(),
{
    let mut owned: Vec<(String, String)> = Vec::new();
    let mut i: usize = 0;
    while i < pairs.len()
        invariant
            i <= pairs.len(),
            owned.len() == i,
            forall|j: int| 0 <= j < i ==> owned[j].deep_view() == pairs[j].deep_view(),
        decreases pairs.len() - i,
    {
        owned.push((pairs[i].0.to_owned(), pairs[i].1.to_owned()));
        i = i + 1;
    }
    assert(owned.deep_view() =~= pairs.deep_view());
    owned
}

/// One HTTP request, ready to be sent: everything the transport needs and
/// nothing it has to decide.
#[derive(Debug)]
pub struct Outgoing {
    pub method: Method,
    /// The absolute URL, without the query.
    pub url: String,
    /// The headers, in the order in which they are set.
    pub headers: Vec<(String, String)>,
    /// The query parameters, if the request has a query.
    pub query: Option<Vec<(String, String)>>,
    /// The members of the JSON object sent as the body, if there is a body.
    pub body: Option<Vec<Field>>,
}

/// The mathematical value of an [`Outgoing`].
pub ghost struct OutgoingView {
    pub method: Method,
    pub url: Seq<char>,
    pub headers: Seq<(Seq<char>, Seq<char>)>,
    pub query: Option<Seq<(Seq<char>, Seq<char>)>>,
    pub body: Option<Seq<FieldView>>,
}

impl View for Outgoing {
    type V = OutgoingView;

    open spec fn view(&self) -> OutgoingView {
        OutgoingView {
            method: self.method,
            url: self.url@,
            headers: self.headers.deep_view(),
            query: self.query.deep_view(),
            body: self.body.deep_view(),
        }
    }
}

impl Clone for Outgoing {
    fn clone(&self) -> (copy: Self)
        ensures
            copy@ == self@,
    {
        let query = match &self.query {
            Some(pairs) => Some(copy_pairs(pairs)),
            None => None,
        };
        let body = match &self.body {
            Some(fields) => Some(copy_fields(fields)),
            None => None,
        };
        Outgoing {
            method: self.method,
            url: self.url.clone(),
            headers: copy_pairs(&self.headers),
            query,
            body,
        }
    }
}

} // verus!
