//! Castling rights as a 4-bit mask, granted and revoked one named
//! right at a time.

use vstd::prelude::*;
use crate::types::CastlingRights;

verus! {

/// One of the four castling rights.
#[derive(Eq, PartialEq, Copy, Clone, Structural, Debug)]
pub enum CastlingRightType {
    WhiteKingSide,
    WhiteQueenSide,
    BlackKingSide,
    BlackQueenSide,
}

/// The mask bit of one castling right.
pub open spec fn right_mask(right: CastlingRightType) -> u8 {
    match right {
        CastlingRightType::WhiteKingSide => 1,
        CastlingRightType::WhiteQueenSide => 2,
        CastlingRightType::BlackKingSide => 4,
        CastlingRightType::BlackQueenSide => 8,
    }
}

impl CastlingRightType {
    /// The mask bit of this right.
    pub fn bit_mask(&self) -> (r: u8)
        ensures
            r == right_mask(*self),
    {
        match self {
            CastlingRightType::WhiteKingSide => 1,
            CastlingRightType::WhiteQueenSide => 2,
            CastlingRightType::BlackKingSide => 4,
            CastlingRightType::BlackQueenSide => 8,
        }
    }
}

impl CastlingRights {
    /// Adds one right to the mask.
    pub fn grant(&mut self, right: CastlingRightType)
        ensures
            final(self).0 == old(self).0 | right_mask(right),
    {
        self.0 = self.0 | right.bit_mask();
    }

    /// Removes one right from the mask.
    pub fn revoke(&mut self, right: CastlingRightType)
        ensures
            final(self).0 == old(self).0 & !right_mask(right),
    {
        self.0 = self.0 & !right.bit_mask();
    }
}

} // verus!
