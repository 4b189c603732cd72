//! Stable integer codes for path prefixes and checker modes. These integers are
//! part of the on-disk format: they never change for a given variant.

use vstd::prelude::*;

verus! {

/// The root that a relative path is measured from.
#[derive(Clone, Copy, Debug, PartialEq, Eq, Structural)]
pub enum PrefixKind {
    Root,
    Hhi,
    Dummy,
    Tmp,
}

/// The strictness level that the checker applies to a file.
#[derive(Clone, Copy, Debug, PartialEq, Eq, Structural)]
pub enum ModeKind {
    Mphp,
    Mdecl,
    Mstrict,
    Mpartial,
    Mexperimental,
}

/// A stored value that matches no known encoding.
#[derive(Clone, Copy, Debug, PartialEq, Eq, Structural)]
pub enum CorruptRecordError {
    UnknownPrefix(i64),
    UnknownMode(i64),
    MalformedNameList,
}

pub open spec fn prefix_code(p: PrefixKind) -> i64 {
    match p {
        PrefixKind::Root => 0,
        PrefixKind::Hhi => 1,
        PrefixKind::Dummy => 2,
        PrefixKind::Tmp => 3,
    }
}

pub open spec fn prefix_of_code(i: i64) -> Option<PrefixKind> {
    if i == 0 {
        Some(PrefixKind::Root)
    } else if i == 1 {
        Some(PrefixKind::Hhi)
    } else if i == 2 {
        Some(PrefixKind::Dummy)
    } else if i == 3 {
        Some(PrefixKind::Tmp)
    } else {
        None
    }
}

pub open spec fn mode_code(m: ModeKind) -> i64 {
    match m {
        ModeKind::Mphp => 0,
        ModeKind::Mdecl => 1,
        ModeKind::Mstrict => 2,
        ModeKind::Mpartial => 3,
        ModeKind::Mexperimental => 4,
    }
}

pub open spec fn mode_of_code(i: i64) -> Option<ModeKind> {
    if i == 0 {
        Some(ModeKind::Mphp)
    } else if i == 1 {
        Some(ModeKind::Mdecl)
    } else if i == 2 {
        Some(ModeKind::Mstrict)
    } else if i == 3 {
        Some(ModeKind::Mpartial)
    } else if i == 4 {
        Some(ModeKind::Mexperimental)
    } else {
        None
    }
}

pub open spec fn optional_mode_code(m: Option<ModeKind>) -> Option<i64> {
    match m {
        Some(k) => Some(mode_code(k)),
        None => None,
    }
}

/// The stored integer of a path prefix.
pub fn prefix_to_i64(p: PrefixKind) -> (r: i64)
    ensures
        r == prefix_code(p),
{
    match p {
        PrefixKind::Root => 0,
        PrefixKind::Hhi => 1,
        PrefixKind::Dummy => 2,
        PrefixKind::Tmp => 3,
    }
}

/// The path prefix of a stored integer; an unknown integer is a corrupt record.
pub fn prefix_from_i64(i: i64) -> (r: Result<PrefixKind, CorruptRecordError>)
    ensures
        match prefix_of_code(i) {
            Some(p) => r == Ok::<PrefixKind, CorruptRecordError>(p),
            None => r == Err::<PrefixKind, CorruptRecordError>(
                CorruptRecordError::UnknownPrefix(i),
            ),
        },
{
    if i == 0 {
        Ok(PrefixKind::Root)
    } else if i == 1 {
        Ok(PrefixKind::Hhi)
    } else if i == 2 {
        Ok(PrefixKind::Dummy)
    } else if i == 3 {
        Ok(PrefixKind::Tmp)
    } else {
        Err(CorruptRecordError::UnknownPrefix(i))
    }
}

/// The stored integer of a checker mode; a file without a mode stores null.
pub fn mode_to_i64(m: Option<ModeKind>) -> (r: Option<i64>)
    ensures
        r == optional_mode_code(m),
{
    match m {
        None => None,
        Some(ModeKind::Mphp) => Some(0),
        Some(ModeKind::Mdecl) => Some(1),
        Some(ModeKind::Mstrict) => Some(2),
        Some(ModeKind::Mpartial) => Some(3),
        Some(ModeKind::Mexperimental) => Some(4),
    }
}

/// The checker mode of a stored value; null is no mode, an unknown integer is a
/// corrupt record.
pub fn mode_from_i64(i: Option<i64>) -> (r: Result<Option<ModeKind>, CorruptRecordError>)
    ensures
        match i {
            None => r == Ok::<Option<ModeKind>, CorruptRecordError>(None),
            Some(k) => match mode_of_code(k) {
                Some(m) => r == Ok::<Option<ModeKind>, CorruptRecordError>(Some(m)),
                None => r == Err::<Option<ModeKind>, CorruptRecordError>(
                    CorruptRecordError::UnknownMode(k),
                ),
            },
        },
{
    match i {
        None => Ok(None),
        Some(k) => {
            if k == 0 {
                Ok(Some(ModeKind::Mphp))
            } else if k == 1 {
                Ok(Some(ModeKind::Mdecl))
            } else if k == 2 {
                Ok(Some(ModeKind::Mstrict))
            } else if k == 3 {
                Ok(Some(ModeKind::Mpartial))
            } else if k == 4 {
                Ok(Some(ModeKind::Mexperimental))
            } else {
                Err(CorruptRecordError::UnknownMode(k))
            }
        },
    }
}

/// Decoding the stored integer of a prefix gives the prefix back.
pub proof fn lemma_prefix_round_trip(p: PrefixKind)
    ensures
        prefix_of_code(prefix_code(p)) == Some(p),
{
}

/// Decoding the stored integer of a mode gives the mode back.
pub proof fn lemma_mode_round_trip(m: ModeKind)
    ensures
        mode_of_code(mode_code(m)) == Some(m),
{
}

/// Two prefixes with the same stored integer are the same prefix.
pub proof fn lemma_prefix_code_injective(p: PrefixKind, q: PrefixKind)
    requires
        prefix_code(p) == prefix_code(q),
    ensures
        p == q,
{
    lemma_prefix_round_trip(p);
    lemma_prefix_round_trip(q);
}

} // verus!
