use vstd::prelude::*;

verus! {

/// Which pane of the interactive browser owns the keyboard.
#[derive(Debug, Clone, Copy, PartialEq, Eq, Structural)]
pub enum Focus {
    SearchInput,
    AutocompleteList,
    ResultsList,
    FilterPanel,
    FilterEditing,
}

/// Which filter row of the filter panel is selected.
#[derive(Debug, Clone, Copy, PartialEq, Eq, Structural)]
pub enum FilterField {
    Type,
    Radius,
    MinRating,
    Price,
    OpenNow,
}

/// The filter row at cyclic position `i` among the five rows, in their
/// display order.
pub open spec fn filter_field_at(i: int) -> FilterField {
    let r = i % 5;
    if r == 0 {
        FilterField::Type
    } else if r == 1 {
        FilterField::Radius
    } else if r == 2 {
        FilterField::MinRating
    } else if r == 3 {
        FilterField::Price
    } else {
        FilterField::OpenNow
    }
}

impl FilterField {
    /// Selects a filter row by position, wrapping past the last row.
    pub fn from_index(i: usize) -> (f: FilterField)
        ensures
            f == filter_field_at(i as int),
    {
        let r: usize = i % 5;
        if r == 0 {
            FilterField::Type
        } else if r == 1 {
            FilterField::Radius
        } else if r == 2 {
            FilterField::MinRating
        } else if r == 3 {
            FilterField::Price
        } else {
            FilterField::OpenNow
        }
    }
}

} // verus!
