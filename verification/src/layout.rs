//! The layout registry: the versioned, append-only table of fields that the
//! publisher writes into a process's shared buffer.
//!
//! Version 1 packs three fields with no padding, all little-endian:
//! a 4-byte switch counter at offset 0, a 4-byte pending-task count at
//! offset 4, and an 8-byte monotonic tick count at offset 8 (16 bytes total).
//! Later versions may only append fields after the highest offset already in
//! use; they never move, resize or remove an existing field.

use vstd::prelude::*;

verus! {

/// The single layout version this build implements and publishes.
pub const VERSION: u32 = 1;

/// Total size in bytes of the full version-1 record.
pub const RECORD_SIZE: usize = 16;

/// Identity of one published field.
#[derive(Clone, Copy, PartialEq, Eq, Structural, Debug)]
pub enum FieldKind {
    /// Number of completed context switches away from the process.
    SwitchCount,
    /// The process's pending-task count at the last switch.
    PendingTasks,
    /// The monotonic tick reading taken during the last switch.
    TickCount,
}

/// One row of the layout registry: a field, the version that introduced it,
/// and its fixed placement in the shared buffer.
#[derive(Clone, Copy, PartialEq, Eq, Structural, Debug)]
pub struct Field {
    /// Which value is published at this location.
    pub kind: FieldKind,
    /// The first layout version that defines this field.
    pub since: u32,
    /// Byte offset of the field in the shared buffer.
    pub offset: usize,
    /// Width of the field in bytes.
    pub width: usize,
}

/// The full registry: every field any version defines, in offset order.
pub open spec fn registry() -> Seq<Field> {
    seq![
        (Field { kind: FieldKind::SwitchCount, since: 1u32, offset: 0usize, width: 4usize }),
        (Field { kind: FieldKind::PendingTasks, since: 1u32, offset: 4usize, width: 4usize }),
        (Field { kind: FieldKind::TickCount, since: 1u32, offset: 8usize, width: 8usize }),
    ]
}

/// The fields valid at a given version: the rows the registry had introduced
/// by that version. Version 0 predates the mechanism and has no fields.
pub open spec fn fields_at(version: u32) -> Seq<Field> {
    if version >= 1 {
        registry()
    } else {
        Seq::empty()
    }
}

/// Yields the field set and offsets valid for the given version. Pure data;
/// no errors.
pub fn layout_fields(version: u32) -> (r: Vec<Field>)
    ensures
        r@ == fields_at(version),
{
    let mut r: Vec<Field> = Vec::new();
    if version >= 1 {
        r.push(Field { kind: FieldKind::SwitchCount, since: 1, offset: 0, width: 4 });
        r.push(Field { kind: FieldKind::PendingTasks, since: 1, offset: 4, width: 4 });
        r.push(Field { kind: FieldKind::TickCount, since: 1, offset: 8, width: 8 });
    }
    proof {
        assert(r@ =~= fields_at(version));
    }
    r
}

/// The registry evolves additively only: the table at an older version is a
/// prefix of the table at any newer version, so every field defined at the
/// older version keeps its offset and width unchanged at the newer one.
pub proof fn lemma_layout_append_only(v1: u32, v2: u32)
    requires
        v1 <= v2,
    ensures
        fields_at(v1) == fields_at(v2).take(fields_at(v1).len() as int),
{
    assert(fields_at(v1) =~= fields_at(v2).take(fields_at(v1).len() as int));
}

} // verus!
