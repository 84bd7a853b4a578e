//! Per-frame instance extraction: the snapshot of which visible entity is
//! drawn with which material.
//!
//! The map is cleared and rebuilt from scratch every frame; nothing of the
//! previous frame survives, which is what makes the visibility filter easy to
//! state: an entity whose view-visibility flag is false is absent, whatever
//! the map held before.

use vstd::prelude::*;
use crate::table::IdTable;

verus! {

/// One row of the frame's entity snapshot: an entity that carries a material
/// assignment, with its view-visibility flag. Entities without an assignment
/// have no row.
#[derive(Clone, Copy, Debug)]
pub struct ExtractedMaterialEntity {
    /// The entity's identifier.
    pub entity: u64,
    /// Whether the entity is visible in any view this frame.
    pub view_visibility: bool,
    /// Identifier of the material assigned to the entity.
    pub material: u64,
}

/// Per-frame map from visible entity to material identifier.
pub type RenderMaterial2dInstances = IdTable<u64>;

/// The instance map a snapshot describes: every visible row's binding, later
/// rows winning, and nothing else.
pub open spec fn spec_extracted_instances(rows: Seq<ExtractedMaterialEntity>) -> Map<u64, u64>
    decreases rows.len(),
{
    if rows.len() == 0 {
        Map::empty()
    } else {
        let prev = spec_extracted_instances(rows.drop_last());
        if rows.last().view_visibility {
            prev.insert(rows.last().entity, rows.last().material)
        } else {
            prev
        }
    }
}

/// Rebuilds the instance map for this frame: clears it, then inserts every
/// row whose view-visibility flag is true.
pub fn extract_material_meshes_2d(
    material_instances: &mut RenderMaterial2dInstances,
    rows: &Vec<ExtractedMaterialEntity>,
)
    ensures
        final(material_instances)@ == spec_extracted_instances(rows@),
{
    material_instances.clear();
    let n = rows.len();
    let mut i: usize = 0;
    while i < n
        invariant
            n == rows@.len(),
            i <= n,
            material_instances@ == spec_extracted_instances(rows@.take(i as int)),
        decreases n - i,
    {
        let row = rows[i];
        if row.view_visibility {
            material_instances.insert(row.entity, row.material);
        }
        proof {
            assert(rows@.take(i + 1).drop_last() =~= rows@.take(i as int));
            assert(rows@.take(i + 1).last() == rows@[i as int]);
        }
        i = i + 1;
    }
    proof {
        assert(rows@.take(n as int) =~= rows@);
    }
}

/// Law: visibility filtering. An entity all of whose rows are invisible this
/// frame — in particular one with no row at all — is absent from the
/// extracted instance map, regardless of any prior frame's contents.
pub proof fn lemma_visibility_filtering(rows: Seq<ExtractedMaterialEntity>, entity: u64)
    requires
        forall|i: int|
            0 <= i < rows.len() && (#[trigger] rows[i]).entity == entity
                ==> !rows[i].view_visibility,
    ensures
        !spec_extracted_instances(rows).contains_key(entity),
    decreases rows.len(),
{
    if rows.len() > 0 {
        assert forall|i: int|
            0 <= i < rows.drop_last().len() && (#[trigger] rows.drop_last()[i]).entity
                == entity implies !rows.drop_last()[i].view_visibility by {
            assert(rows.drop_last()[i] == rows[i]);
        }
        lemma_visibility_filtering(rows.drop_last(), entity);
        assert(rows.last() == rows[rows.len() - 1]);
    }
}

} // verus!
