//! Draft-initialization policies.
//!
//! Before a draft catalog is built and validated, an initializer may add
//! specs to it or rewrite parts of it. The database reads and the schema
//! rewriting belong to the surrounding services; what is verified here is
//! each policy's decision: which drafted collections take an inferred
//! schema, and which expanded rows are admitted into the draft.

use vstd::prelude::*;

verus! {

/// What an initializer reads of one drafted collection.
pub struct DraftCollection {
    /// The collection's catalog name.
    pub name: String,
    /// The collection was drafted only as a touch, not as a real change.
    pub is_touch: bool,
    /// The drafted model carries a read schema.
    pub has_read_schema: bool,
    /// That read schema refers to the collection's inferred schema.
    pub schema_references_inferred: bool,
}

/// A collection takes an inferred schema when it is a real change whose
/// read schema refers to one.
pub open spec fn spec_uses_inferred_schema(c: DraftCollection) -> bool {
    !c.is_touch && c.has_read_schema && c.schema_references_inferred
}

/// Whether one drafted collection takes an inferred schema.
pub fn uses_inferred_schema(c: &DraftCollection) -> (b: bool)
    ensures
        b == spec_uses_inferred_schema(*c),
{
    !c.is_touch && c.has_read_schema && c.schema_references_inferred
}

/// The names of the collections that take an inferred schema, in draft
/// order.
pub open spec fn spec_selected_names(s: Seq<DraftCollection>) -> Seq<String>
    decreases s.len(),
{
    if s.len() == 0 {
        Seq::empty()
    } else if spec_uses_inferred_schema(s.last()) {
        spec_selected_names(s.drop_last()).push(s.last().name)
    } else {
        spec_selected_names(s.drop_last())
    }
}

/// An initializer that expands nothing: it selects no collection and adds
/// no spec.
pub struct NoExpansion;

impl NoExpansion {
    /// No collection is selected for a schema update.
    pub fn collections_to_update(&self, _draft: &Vec<DraftCollection>) -> (names: Vec<String>)
        ensures
            names@.len() == 0,
    {
        Vec::new()
    }
}

/// An initializer that replaces drafted read schemas with the collections'
/// current inferred schemas.
pub struct UpdateInferredSchemas;

impl UpdateInferredSchemas {
    /// The collections whose inferred schemas must be fetched: exactly
    /// those that take an inferred schema, in draft order.
    pub fn collections_to_update(&self, draft: &Vec<DraftCollection>) -> (names: Vec<String>)
        ensures
            names@ == spec_selected_names(draft@),
    {
        let mut names: Vec<String> = Vec::new();
        let mut i: usize = 0;
        while i < draft.len()
            invariant
                i <= draft@.len(),
                names@ == spec_selected_names(draft@.subrange(0, i as int)),
            decreases draft@.len() - i,
        {
            let c = &draft[i];
            if uses_inferred_schema(c) {
                names.push(c.name.clone());
            }
            proof {
                assert(draft@.subrange(0, i + 1 as int).drop_last() =~= draft@.subrange(
                    0,
                    i as int,
                ));
            }
            i += 1;
        }
        proof {
            assert(draft@.subrange(0, draft@.len() as int) =~= draft@);
        }
        names
    }
}

/// What the admission decision reads of one expanded live spec row.
pub struct ExpandedRow {
    /// The row's catalog name.
    pub catalog_name: String,
    /// The requesting user holds the admin capability on this spec.
    pub user_has_admin: bool,
    /// The row names a spec type.
    pub has_spec_type: bool,
    /// The row carries a model.
    pub has_model: bool,
}

/// What becomes of one expanded row.
#[derive(Clone, Copy, Debug, PartialEq, Eq, Structural)]
pub enum RowDisposition {
    /// Left out: the user may not change this spec.
    Skip,
    /// The whole expansion fails: the row names no spec type.
    MissingSpecType,
    /// The whole expansion fails: the row carries no model.
    MissingModel,
    /// Added to the draft as a touch.
    Add,
}

/// How `ExpandDraft` disposes of a row: a capability check first, then
/// completeness of the row, then admission.
pub open spec fn spec_disposition(filter_user_has_admin: bool, row: ExpandedRow) -> RowDisposition {
    if filter_user_has_admin && !row.user_has_admin {
        RowDisposition::Skip
    } else if !row.has_spec_type {
        RowDisposition::MissingSpecType
    } else if !row.has_model {
        RowDisposition::MissingModel
    } else {
        RowDisposition::Add
    }
}

/// An initializer that expands the draft with the live specs that read
/// from or write to any drafted collection.
pub struct ExpandDraft {
    /// When set, only specs the user holds the admin capability on are
    /// added to the draft.
    pub filter_user_has_admin: bool,
}

impl ExpandDraft {
    /// Decide what becomes of one expanded row.
    pub fn disposition(&self, row: &ExpandedRow) -> (d: RowDisposition)
        ensures
            d == spec_disposition(self.filter_user_has_admin, *row),
    {
        if self.filter_user_has_admin && !row.user_has_admin {
            RowDisposition::Skip
        } else if !row.has_spec_type {
            RowDisposition::MissingSpecType
        } else if !row.has_model {
            RowDisposition::MissingModel
        } else {
            RowDisposition::Add
        }
    }
}

} // verus!
