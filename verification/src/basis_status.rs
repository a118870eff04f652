//! Where a column or a row stands in the basis, and the integers by which the
//! engine reports it.

use vstd::prelude::*;

verus! {

/// Column basis status
#[derive(Debug, Clone, Copy, PartialEq, Eq, Structural)]
pub enum ColBasisStatus {
    /// column is set to its upper bound
    AtUpper,
    /// column is set to its lower bound
    AtLower,
    /// column is fixed to its identical bounds
    Fixed,
    /// column is free and fixed to zero
    Free,
    /// column is basic
    Basic,
    /// nothing known about basis status
    Unknown,
}

/// Row basis status
#[derive(Debug, Clone, Copy, PartialEq, Eq, Structural)]
pub enum RowBasisStatus {
    /// row is set to its upper bound
    AtUpper,
    /// row is set to its lower bound
    AtLower,
    /// row is fixed to its identical bounds
    Fixed,
    /// row is basic
    Basic,
    /// nothing known about basis status
    Unknown,
}

impl ColBasisStatus {
    /// The integer by which the engine reports this status.
    pub open spec fn spec_code(self) -> i32 {
        match self {
            ColBasisStatus::AtUpper => 0i32,
            ColBasisStatus::AtLower => 1i32,
            ColBasisStatus::Fixed => 2i32,
            ColBasisStatus::Free => 3i32,
            ColBasisStatus::Basic => 4i32,
            ColBasisStatus::Unknown => 5i32,
        }
    }

    /// Whether the engine's table for columns holds `item`.
    pub open spec fn is_code(item: i32) -> bool {
        0 <= item <= 5
    }

    /// The status that the table for columns gives for `item`; for an integer
    /// outside the table the result is of no use.
    pub open spec fn of_code(item: i32) -> ColBasisStatus {
        if item == 0 {
            ColBasisStatus::AtUpper
        } else if item == 1 {
            ColBasisStatus::AtLower
        } else if item == 2 {
            ColBasisStatus::Fixed
        } else if item == 3 {
            ColBasisStatus::Free
        } else if item == 4 {
            ColBasisStatus::Basic
        } else {
            ColBasisStatus::Unknown
        }
    }

    /// Decodes an integer of the table for columns. Outside the table there is
    /// no status to give: `None`.
    pub fn from_code(item: i32) -> (status: Option<ColBasisStatus>)
        ensures
            status.is_some() <==> ColBasisStatus::is_code(item),
            status matches Some(s) ==> s == ColBasisStatus::of_code(item) && s.spec_code() == item,
    {
        match item {
            0 => Some(ColBasisStatus::AtUpper),
            1 => Some(ColBasisStatus::AtLower),
            2 => Some(ColBasisStatus::Fixed),
            3 => Some(ColBasisStatus::Free),
            4 => Some(ColBasisStatus::Basic),
            5 => Some(ColBasisStatus::Unknown),
            _ => None,
        }
    }

    /// Decodes an integer that the table for columns holds.
    pub fn from(item: i32) -> (status: ColBasisStatus)
        requires
            ColBasisStatus::is_code(item),
        ensures
            status == ColBasisStatus::of_code(item),
            status.spec_code() == item,
    {
        match ColBasisStatus::from_code(item) {
            Some(status) => status,
            None => vstd::pervasive::unreached(),
        }
    }

    /// The integer by which the engine reports this status.
    #[verifier::when_used_as_spec(spec_code)]
    pub fn code(self) -> (item: i32)
        ensures
            item == self.spec_code(),
            ColBasisStatus::is_code(item),
    {
        match self {
            ColBasisStatus::AtUpper => 0,
            ColBasisStatus::AtLower => 1,
            ColBasisStatus::Fixed => 2,
            ColBasisStatus::Free => 3,
            ColBasisStatus::Basic => 4,
            ColBasisStatus::Unknown => 5,
        }
    }
}

impl RowBasisStatus {
    /// The integer by which the engine reports this status.
    pub open spec fn spec_code(self) -> i32 {
        match self {
            RowBasisStatus::AtUpper => 0i32,
            RowBasisStatus::AtLower => 1i32,
            RowBasisStatus::Fixed => 2i32,
            RowBasisStatus::Basic => 4i32,
            RowBasisStatus::Unknown => 5i32,
        }
    }

    /// Whether the engine's table for rows holds `item`: it is the table for
    /// columns without 3.
    pub open spec fn is_code(item: i32) -> bool {
        0 <= item <= 5 && item != 3
    }

    /// The status that the table for rows gives for `item`; for an integer
    /// outside the table the result is of no use.
    pub open spec fn of_code(item: i32) -> RowBasisStatus {
        if item == 0 {
            RowBasisStatus::AtUpper
        } else if item == 1 {
            RowBasisStatus::AtLower
        } else if item == 2 {
            RowBasisStatus::Fixed
        } else if item == 4 {
            RowBasisStatus::Basic
        } else {
            RowBasisStatus::Unknown
        }
    }

    /// Decodes an integer of the table for rows. Outside the table there is no
    /// status to give: `None`.
    pub fn from_code(item: i32) -> (status: Option<RowBasisStatus>)
        ensures
            status.is_some() <==> RowBasisStatus::is_code(item),
            status matches Some(s) ==> s == RowBasisStatus::of_code(item) && s.spec_code() == item,
    {
        match item {
            0 => Some(RowBasisStatus::AtUpper),
            1 => Some(RowBasisStatus::AtLower),
            2 => Some(RowBasisStatus::Fixed),
            4 => Some(RowBasisStatus::Basic),
            5 => Some(RowBasisStatus::Unknown),
            _ => None,
        }
    }

    /// Decodes an integer that the table for rows holds.
    pub fn from(item: i32) -> (status: RowBasisStatus)
        requires
            RowBasisStatus::is_code(item),
        ensures
            status == RowBasisStatus::of_code(item),
            status.spec_code() == item,
    {
        match RowBasisStatus::from_code(item) {
            Some(status) => status,
            None => vstd::pervasive::unreached(),
        }
    }

    /// The integer by which the engine reports this status.
    #[verifier::when_used_as_spec(spec_code)]
    pub fn code(self) -> (item: i32)
        ensures
            item == self.spec_code(),
            RowBasisStatus::is_code(item),
    {
        match self {
            RowBasisStatus::AtUpper => 0,
            RowBasisStatus::AtLower => 1,
            RowBasisStatus::Fixed => 2,
            RowBasisStatus::Basic => 4,
            RowBasisStatus::Unknown => 5,
        }
    }
}

/// Every integer of the table for columns decodes to the status that encodes
/// back to it, and every column status encodes to an integer of the table
/// that decodes back to that status.
pub proof fn lemma_col_basis_round_trip(item: i32, status: ColBasisStatus)
    ensures
        ColBasisStatus::is_code(item) ==> ColBasisStatus::of_code(item).spec_code() == item,
        ColBasisStatus::is_code(status.spec_code()),
        ColBasisStatus::of_code(status.spec_code()) == status,
{
}

/// Every integer of the table for rows decodes to the status that encodes
/// back to it, and every row status encodes to an integer of the table that
/// decodes back to that status.
pub proof fn lemma_row_basis_round_trip(item: i32, status: RowBasisStatus)
    ensures
        RowBasisStatus::is_code(item) ==> RowBasisStatus::of_code(item).spec_code() == item,
        RowBasisStatus::is_code(status.spec_code()),
        RowBasisStatus::of_code(status.spec_code()) == status,
{
}

/// A row status and a column status of the same name have the same integer:
/// the table for rows is the table for columns with one entry left out.
pub proof fn lemma_row_codes_are_col_codes(item: i32)
    requires
        RowBasisStatus::is_code(item),
    ensures
        ColBasisStatus::is_code(item),
        ColBasisStatus::of_code(item) != ColBasisStatus::Free,
        match RowBasisStatus::of_code(item) {
            RowBasisStatus::AtUpper => ColBasisStatus::of_code(item) == ColBasisStatus::AtUpper,
            RowBasisStatus::AtLower => ColBasisStatus::of_code(item) == ColBasisStatus::AtLower,
            RowBasisStatus::Fixed => ColBasisStatus::of_code(item) == ColBasisStatus::Fixed,
            RowBasisStatus::Basic => ColBasisStatus::of_code(item) == ColBasisStatus::Basic,
            RowBasisStatus::Unknown => ColBasisStatus::of_code(item) == ColBasisStatus::Unknown,
        },
{
}

} // verus!
