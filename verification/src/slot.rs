//! Slot identity: the storage location inside a foreign component that outlives a call.
//!
//! A field slot is identified by its struct type and field path only, never by where the
//! struct pointer came from in some function: the registration and the dispatch must talk
//! about the same slot.

use vstd::prelude::*;

use crate::compatibility::texts;
use crate::text::owned;

verus! {

/// Base of a slot.
#[derive(Clone, Debug, PartialEq, Eq, PartialOrd, Ord, Hash)]
pub enum SlotBase {
    /// A module-level global variable.
    Global { symbol: String },
    /// A field of some struct type.
    StructField { struct_type: String },
}

/// A storage location that survives across calls.
#[derive(Clone, Debug, PartialEq, Eq, PartialOrd, Ord, Hash)]
pub struct SlotId {
    pub base: SlotBase,
    /// Index path of the `getelementptr`. Empty means the base itself is the slot.
    pub field_path: Vec<String>,
}

/// The texts joined with `sep` between neighbours.
pub open spec fn join_with(parts: Seq<Seq<char>>, sep: Seq<char>) -> Seq<char>
    decreases parts.len(),
{
    if parts.len() == 0 {
        Seq::empty()
    } else if parts.len() == 1 {
        parts[0]
    } else {
        join_with(parts.drop_last(), sep) + sep + parts.last()
    }
}

/// The stable readable form of a slot.
pub open spec fn spec_describe(slot: SlotId) -> Seq<char> {
    let base = match slot.base {
        SlotBase::Global { symbol } => "@"@ + symbol@,
        SlotBase::StructField { struct_type } => struct_type@,
    };
    if slot.field_path@.len() == 0 {
        base
    } else {
        base + "["@ + join_with(texts(slot.field_path@), "."@) + "]"@
    }
}

/// Joins the texts with `sep` between neighbours.
pub fn join_strings(parts: &Vec<String>, sep: &str) -> (r: String)
    ensures
        r@ == join_with(texts(parts@), sep@),
{
    let mut r = String::new();
    let mut i: usize = 0;
    while i < parts.len()
        invariant
            0 <= i <= parts.len(),
            r@ == join_with(texts(parts@).take(i as int), sep@),
        decreases parts.len() - i,
    {
        let ghost prev = texts(parts@).take(i as int);
        if i > 0 {
            r.append(sep);
        }
        r.append(parts[i].as_str());
        assert(texts(parts@).take(i + 1).drop_last() =~= prev);
        i = i + 1;
    }
    assert(texts(parts@).take(parts@.len() as int) =~= texts(parts@));
    r
}

impl SlotId {
    /// A module-level global slot.
    pub fn global(symbol: &str) -> (res: Self)
        ensures
            res.base matches SlotBase::Global { symbol: s } && s@ == symbol@,
            res.field_path@.len() == 0,
    {
        SlotId { base: SlotBase::Global { symbol: owned(symbol) }, field_path: Vec::new() }
    }

    /// A field slot of a struct type.
    pub fn field(struct_type: &str, field_path: Vec<String>) -> (res: Self)
        ensures
            res.base matches SlotBase::StructField { struct_type: s } && s@ == struct_type@,
            res.field_path == field_path,
    {
        SlotId { base: SlotBase::StructField { struct_type: owned(struct_type) }, field_path }
    }

    /// The stable readable form, used in evidence strings and diagnostics.
    pub fn describe(&self) -> (d: String)
        ensures
            d@ == spec_describe(*self),
    {
        let mut base = match &self.base {
            SlotBase::Global { symbol } => {
                let mut b = owned("@");
                b.append(symbol.as_str());
                b
            },
            SlotBase::StructField { struct_type } => struct_type.clone(),
        };
        if self.field_path.len() == 0 {
            base
        } else {
            base.append("[");
            let joined = join_strings(&self.field_path, ".");
            base.append(joined.as_str());
            base.append("]");
            base
        }
    }
}

} // verus!
