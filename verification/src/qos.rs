//! Quality of service levels.

use vstd::prelude::*;

verus! {

/// Delivery quality: at most once, at least once, exactly once.
#[derive(Debug, Eq, PartialEq, Ord, PartialOrd, Copy, Clone, Structural)]
pub enum QualityOfService {
    Level0,
    Level1,
    Level2,
}

/// The numeric level (0, 1 or 2) of a quality-of-service value.
pub open spec fn qos_val(q: QualityOfService) -> u8 {
    match q {
        QualityOfService::Level0 => 0,
        QualityOfService::Level1 => 1,
        QualityOfService::Level2 => 2,
    }
}

/// The quality of service named by a level byte, for bytes 0, 1 and 2.
pub open spec fn sp_qos(v: u8) -> Option<QualityOfService> {
    if v == 0 {
        Some(QualityOfService::Level0)
    } else if v == 1 {
        Some(QualityOfService::Level1)
    } else if v == 2 {
        Some(QualityOfService::Level2)
    } else {
        None
    }
}

impl QualityOfService {
    /// The wire byte of this level.
    pub fn to_u8(self) -> (r: u8)
        ensures
            r == qos_val(self),
    {
        match self {
            QualityOfService::Level0 => 0,
            QualityOfService::Level1 => 1,
            QualityOfService::Level2 => 2,
        }
    }

    /// Reads a level byte back; returns `None` exactly on bytes above 2.
    pub fn from_u8(v: u8) -> (r: Option<QualityOfService>)
        ensures
            r == sp_qos(v),
    {
        if v == 0 {
            Some(QualityOfService::Level0)
        } else if v == 1 {
            Some(QualityOfService::Level1)
        } else if v == 2 {
            Some(QualityOfService::Level2)
        } else {
            None
        }
    }
}

} // verus!
