//! The catalogs and the columns a search can constrain.

use vstd::prelude::*;

verus! {

/// Which of the two catalogs a search runs over.
#[derive(Debug, Clone, Copy, PartialEq, Eq, Structural)]
pub enum EntityKind {
    Chair,
    Estate,
}

/// A column that a filter selection can constrain.
#[derive(Debug, Clone, Copy, PartialEq, Eq, Structural)]
pub enum Field {
    Price,
    Height,
    Width,
    Depth,
    Kind,
    Color,
    Features,
    DoorHeight,
    DoorWidth,
    Rent,
}

impl EntityKind {
    /// The name of the table that holds this catalog.
    pub open spec fn table_name(self) -> Seq<char> {
        match self {
            EntityKind::Chair => "chair"@,
            EntityKind::Estate => "estate"@,
        }
    }

    /// Whether rows of this catalog can run out, and so carry the
    /// availability condition in every search.
    pub open spec fn tracks_stock(self) -> bool {
        self == EntityKind::Chair
    }

    pub fn table(self) -> (name: &'static str)
        ensures
            name@ == self.table_name(),
    {
        match self {
            EntityKind::Chair => "chair",
            EntityKind::Estate => "estate",
        }
    }
}

impl Field {
    /// The name of the column, as the store knows it.
    pub open spec fn column_name(self) -> Seq<char> {
        match self {
            Field::Price => "price"@,
            Field::Height => "height"@,
            Field::Width => "width"@,
            Field::Depth => "depth"@,
            Field::Kind => "kind"@,
            Field::Color => "color"@,
            Field::Features => "features"@,
            Field::DoorHeight => "door_height"@,
            Field::DoorWidth => "door_width"@,
            Field::Rent => "rent"@,
        }
    }

    /// Whether the column holds a number that range buckets divide.
    pub open spec fn is_ranged(self) -> bool {
        self != Field::Kind && self != Field::Color && self != Field::Features
    }

    pub fn column(self) -> (name: &'static str)
        ensures
            name@ == self.column_name(),
    {
        match self {
            Field::Price => "price",
            Field::Height => "height",
            Field::Width => "width",
            Field::Depth => "depth",
            Field::Kind => "kind",
            Field::Color => "color",
            Field::Features => "features",
            Field::DoorHeight => "door_height",
            Field::DoorWidth => "door_width",
            Field::Rent => "rent",
        }
    }
}

} // verus!
