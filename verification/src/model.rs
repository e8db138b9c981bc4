//! The order record, the creation payload, the sparse update request and the
//! values that travel to the store as bound parameters.

use vstd::prelude::*;

verus! {

/// The four attributes of an order that a client may set. The variants are
/// listed in the fixed order in which assignments and bound values are
/// generated.
#[derive(Clone, Copy, Debug, PartialEq, Eq, Structural)]
pub enum Field {
    Name,
    CoffeeName,
    Size,
    Total,
}

/// The name of the column that stores `field`.
pub open spec fn column_name(field: Field) -> Seq<char> {
    match field {
        Field::Name => "name"@,
        Field::CoffeeName => "coffee_name"@,
        Field::Size => "size"@,
        Field::Total => "total"@,
    }
}

impl Field {
    /// The name of the column that stores this field.
    pub fn column(self) -> (name: &'static str)
        ensures
            name@ == column_name(self),
    {
        match self {
            Field::Name => "name",
            Field::CoffeeName => "coffee_name",
            Field::Size => "size",
            Field::Total => "total",
        }
    }
}

/// A value bound to a placeholder. Values are handed to the driver beside the
/// statement text and never become part of it.
#[derive(Clone, Debug, PartialEq, Eq)]
pub enum Value {
    Int(i32),
    Text(String),
}

/// What a [`Value`] stands for.
pub enum ValueView {
    Int(int),
    Text(Seq<char>),
}

impl View for Value {
    type V = ValueView;

    open spec fn view(&self) -> ValueView {
        match *self {
            Value::Int(n) => ValueView::Int(n as int),
            Value::Text(s) => ValueView::Text(s@),
        }
    }
}

/// The views of a list of bound values, position by position.
pub open spec fn values_view(values: Seq<Value>) -> Seq<ValueView> {
    Seq::new(values.len(), |i: int| values[i]@)
}

/// A stored order. `id` is assigned by the store; the other columns may hold
/// no value.
#[derive(Clone, Debug, PartialEq, Eq)]
pub struct Order {
    pub id: i32,
    pub name: Option<String>,
    pub coffee_name: Option<String>,
    pub size: Option<String>,
    pub total: Option<i32>,
}

/// What an [`Order`] stands for.
pub struct OrderView {
    pub id: int,
    pub name: Option<Seq<char>>,
    pub coffee_name: Option<Seq<char>>,
    pub size: Option<Seq<char>>,
    pub total: Option<int>,
}

/// The characters of an optional string.
pub open spec fn text_view(text: Option<String>) -> Option<Seq<char>> {
    match text {
        Some(s) => Some(s@),
        None => None,
    }
}

/// The mathematical value of an optional number.
pub open spec fn number_view(number: Option<i32>) -> Option<int> {
    match number {
        Some(n) => Some(n as int),
        None => None,
    }
}

impl View for Order {
    type V = OrderView;

    open spec fn view(&self) -> OrderView {
        OrderView {
            id: self.id as int,
            name: text_view(self.name),
            coffee_name: text_view(self.coffee_name),
            size: text_view(self.size),
            total: number_view(self.total),
        }
    }
}

/// What a client supplies to create an order: all four attributes.
#[derive(Clone, Debug, PartialEq, Eq)]
pub struct NewOrder {
    pub name: String,
    pub coffee_name: String,
    pub size: String,
    pub total: i32,
}

/// What a [`NewOrder`] stands for.
pub struct NewOrderView {
    pub name: Seq<char>,
    pub coffee_name: Seq<char>,
    pub size: Seq<char>,
    pub total: int,
}

impl View for NewOrder {
    type V = NewOrderView;

    open spec fn view(&self) -> NewOrderView {
        NewOrderView {
            name: self.name@,
            coffee_name: self.coffee_name@,
            size: self.size@,
            total: self.total as int,
        }
    }
}

/// A sparse update request. A field is either present with its new value or
/// absent; an absent field is left untouched.
#[derive(Clone, Debug, PartialEq, Eq)]
pub struct Patch {
    pub name: Option<String>,
    pub coffee_name: Option<String>,
    pub size: Option<String>,
    pub total: Option<i32>,
}

/// What a [`Patch`] stands for.
pub struct PatchView {
    pub name: Option<Seq<char>>,
    pub coffee_name: Option<Seq<char>>,
    pub size: Option<Seq<char>>,
    pub total: Option<int>,
}

impl PatchView {
    /// Whether `field` is present.
    pub open spec fn has(self, field: Field) -> bool {
        match field {
            Field::Name => self.name is Some,
            Field::CoffeeName => self.coffee_name is Some,
            Field::Size => self.size is Some,
            Field::Total => self.total is Some,
        }
    }

    /// The new value of `field`; meaningful where the field is present.
    pub open spec fn value_of(self, field: Field) -> ValueView
        recommends
            self.has(field),
    {
        match field {
            Field::Name => ValueView::Text(self.name->0),
            Field::CoffeeName => ValueView::Text(self.coffee_name->0),
            Field::Size => ValueView::Text(self.size->0),
            Field::Total => ValueView::Int(self.total->0),
        }
    }

    /// `field` alone where it is present, nothing where it is absent.
    pub open spec fn only(self, field: Field) -> Seq<Field> {
        if self.has(field) {
            seq![field]
        } else {
            Seq::empty()
        }
    }

    /// The present fields, in the fixed order name, coffee_name, size, total.
    pub open spec fn present(self) -> Seq<Field> {
        self.only(Field::Name) + self.only(Field::CoffeeName) + self.only(Field::Size)
            + self.only(Field::Total)
    }

    /// Whether no field is present.
    pub open spec fn is_empty(self) -> bool {
        self.name is None && self.coffee_name is None && self.size is None && self.total is None
    }
}

impl View for Patch {
    type V = PatchView;

    open spec fn view(&self) -> PatchView {
        PatchView {
            name: text_view(self.name),
            coffee_name: text_view(self.coffee_name),
            size: text_view(self.size),
            total: number_view(self.total),
        }
    }
}

impl Patch {
    /// The patch that changes nothing.
    pub fn empty() -> (patch: Patch)
        ensures
            patch@.is_empty(),
            patch@ == (PatchView { name: None, coffee_name: None, size: None, total: None }),
    {
        Patch { name: None, coffee_name: None, size: None, total: None }
    }

    /// Whether `field` is present.
    pub fn has(&self, field: Field) -> (present: bool)
        ensures
            present == self@.has(field),
    {
        match field {
            Field::Name => self.name.is_some(),
            Field::CoffeeName => self.coffee_name.is_some(),
            Field::Size => self.size.is_some(),
            Field::Total => self.total.is_some(),
        }
    }

    /// Whether no field is present.
    pub fn is_empty(&self) -> (empty: bool)
        ensures
            empty == self@.is_empty(),
            empty == (self@.present().len() == 0),
    {
        self.name.is_none() && self.coffee_name.is_none() && self.size.is_none()
            && self.total.is_none()
    }

    /// The number of present fields.
    pub fn count(&self) -> (n: usize)
        ensures
            n == self@.present().len(),
            n <= 4,
    {
        let mut n: usize = 0;
        if self.name.is_some() {
            n = n + 1;
        }
        if self.coffee_name.is_some() {
            n = n + 1;
        }
        if self.size.is_some() {
            n = n + 1;
        }
        if self.total.is_some() {
            n = n + 1;
        }
        n
    }
}

} // verus!
