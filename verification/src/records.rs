//! The catalog record and the projection of it that search hits are
//! rendered from.
//!
//! A record's cost is a decimal and is carried as the digits of its
//! JSON number token, so that no precision is lost between the catalog
//! file and the rendered output.

use vstd::prelude::*;

verus! {

/// One clothing item of the catalog, as the catalog file stores it.
///
/// The field `seaon` keeps the misspelled name that the catalog file
/// and the index configuration use on the wire.
pub struct Clothes {
    pub id: usize,
    pub seaon: String,
    pub article: String,
    pub cost: String,
    pub size: String,
    pub pattern: String,
}

/// Mathematical image of a [`Clothes`] record.
pub ghost struct ClothesV {
    pub id: int,
    pub seaon: Seq<char>,
    pub article: Seq<char>,
    pub cost: Seq<char>,
    pub size: Seq<char>,
    pub pattern: Seq<char>,
}

impl View for Clothes {
    type V = ClothesV;

    open spec fn view(&self) -> ClothesV {
        ClothesV {
            id: self.id as int,
            seaon: self.seaon@,
            article: self.article@,
            cost: self.cost@,
            size: self.size@,
            pattern: self.pattern@,
        }
    }
}

/// The shape a search hit is rendered from: a catalog record without
/// its identifier and season.
pub struct ClothesDisplay {
    pub article: String,
    pub cost: String,
    pub size: String,
    pub pattern: String,
}

/// Mathematical image of a [`ClothesDisplay`].
pub ghost struct ClothesDisplayV {
    pub article: Seq<char>,
    pub cost: Seq<char>,
    pub size: Seq<char>,
    pub pattern: Seq<char>,
}

impl View for ClothesDisplay {
    type V = ClothesDisplayV;

    open spec fn view(&self) -> ClothesDisplayV {
        ClothesDisplayV {
            article: self.article@,
            cost: self.cost@,
            size: self.size@,
            pattern: self.pattern@,
        }
    }
}

/// The views of a sequence of catalog records.
pub open spec fn views_of_clothes(v: Seq<Clothes>) -> Seq<ClothesV> {
    v.map_values(|c: Clothes| c@)
}

/// The views of a sequence of display records.
pub open spec fn views_of_display(v: Seq<ClothesDisplay>) -> Seq<ClothesDisplayV> {
    v.map_values(|d: ClothesDisplay| d@)
}

} // verus!
