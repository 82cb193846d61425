//! The two kinds of catalog rows.

use vstd::prelude::*;
use crate::field::Field;

verus! {

/// A chair offered for sale.
#[derive(Debug, Clone, PartialEq, Eq)]
pub struct Chair {
    pub id: i64,
    pub name: String,
    pub description: String,
    pub thumbnail: String,
    pub price: i64,
    pub height: i64,
    pub width: i64,
    pub depth: i64,
    pub color: String,
    pub features: String,
    pub kind: String,
    pub popularity: i64,
    pub stock: i64,
}

/// An estate offered for rent. `latitude` and `longitude` are order keys:
/// integers that stand for the two angles and grow as the angles grow. The
/// library compares them and hands them back, and never does arithmetic on
/// them.
#[derive(Debug, Clone, PartialEq, Eq)]
pub struct Estate {
    pub id: i64,
    pub name: String,
    pub description: String,
    pub thumbnail: String,
    pub address: String,
    pub latitude: i64,
    pub longitude: i64,
    pub rent: i64,
    pub door_height: i64,
    pub door_width: i64,
    pub features: String,
    pub popularity: i64,
}

/// What a search condition reads of one row: its numbers, its texts and how
/// many units are left of it.
pub struct Row {
    pub number: spec_fn(Field) -> int,
    pub text: spec_fn(Field) -> Seq<char>,
    pub stock: int,
}

impl Chair {
    /// The number a chair holds in a ranged column.
    pub open spec fn number(&self, field: Field) -> int {
        match field {
            Field::Price => self.price as int,
            Field::Height => self.height as int,
            Field::Width => self.width as int,
            Field::Depth => self.depth as int,
            _ => 0,
        }
    }

    /// The text a chair holds in a text column.
    pub open spec fn text(&self, field: Field) -> Seq<char> {
        match field {
            Field::Kind => self.kind@,
            Field::Color => self.color@,
            Field::Features => self.features@,
            _ => Seq::empty(),
        }
    }

    /// The chair as search conditions see it.
    pub open spec fn row(&self) -> Row {
        Row {
            number: |field: Field| self.number(field),
            text: |field: Field| self.text(field),
            stock: self.stock as int,
        }
    }
}

impl Estate {
    /// The number an estate holds in a ranged column.
    pub open spec fn number(&self, field: Field) -> int {
        match field {
            Field::DoorHeight => self.door_height as int,
            Field::DoorWidth => self.door_width as int,
            Field::Rent => self.rent as int,
            _ => 0,
        }
    }

    /// The text an estate holds in a text column.
    pub open spec fn text(&self, field: Field) -> Seq<char> {
        match field {
            Field::Features => self.features@,
            _ => Seq::empty(),
        }
    }

    /// The estate as search conditions see it. An estate never runs out.
    pub open spec fn row(&self) -> Row {
        Row {
            number: |field: Field| self.number(field),
            text: |field: Field| self.text(field),
            stock: 1,
        }
    }
}

} // verus!
