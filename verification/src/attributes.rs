use vstd::prelude::*;
use crate::error::MapError;

verus! {

/// Number of corners of the bounding quad, each with a mix color of its own.
pub const CORNERS: usize = 4;

/// Bit pattern of the channel value one in IEEE 754 single precision. A mix
/// color is multiplied onto the tile color, so this value leaves it as it is.
pub const CHANNEL_ONE: u32 = 0x3F80_0000;

/// Mix color of one corner of the bounding quad. Each channel holds the bit
/// pattern of a single-precision number; the library only stores and compares
/// the channels, bit for bit.
#[derive(Clone, Copy, Debug, PartialEq, Eq, Structural)]
pub struct CornerColor {
    pub r: u32,
    pub g: u32,
    pub b: u32,
    pub a: u32,
}

impl CornerColor {
    /// The color that changes nothing: every channel one.
    pub open spec fn neutral() -> CornerColor {
        CornerColor { r: CHANNEL_ONE, g: CHANNEL_ONE, b: CHANNEL_ONE, a: CHANNEL_ONE }
    }
}

/// Mathematical model of a map's per-corner attributes: the four mix colors,
/// in the order of `MapSize::corners`, and whether the mesh has yet to take
/// them over.
pub struct AttributesModel {
    pub mix_color: Seq<CornerColor>,
    pub sync_due: bool,
}

impl AttributesModel {
    pub open spec fn wf(self) -> bool {
        self.mix_color.len() == CORNERS
    }

    /// Attributes that were just created with the given colors: the mesh has
    /// not seen them.
    pub open spec fn fresh(mix_color: Seq<CornerColor>) -> AttributesModel {
        AttributesModel { mix_color, sync_due: true }
    }

    /// The attributes after the colors are set to `mix_color`: a sync becomes
    /// due only if a color differs from what was there.
    pub open spec fn with_colors(self, mix_color: Seq<CornerColor>) -> AttributesModel {
        AttributesModel { mix_color, sync_due: self.sync_due || mix_color != self.mix_color }
    }

    /// The attributes after the mesh has taken the colors over.
    pub open spec fn synced(self) -> AttributesModel {
        AttributesModel { mix_color: self.mix_color, sync_due: false }
    }
}

/// Per-corner rendering attributes of a map. They live apart from the tile
/// buffer and reach the mesh on a path of their own, so recoloring a map never
/// asks for a tile upload, and editing tiles never asks for an attribute sync.
#[derive(Debug)]
pub struct MapAttributes {
    mix_color: [CornerColor; 4],
    sync_due: bool,
}

impl View for MapAttributes {
    type V = AttributesModel;

    closed spec fn view(&self) -> AttributesModel {
        AttributesModel { mix_color: self.mix_color@, sync_due: self.sync_due }
    }
}

/// Whether two sets of corner colors agree in every channel of every corner.
fn same_colors(a: &[CornerColor; 4], b: &[CornerColor; 4]) -> (same: bool)
    ensures
        same == (a@ == b@),
{
    let same = a[0] == b[0] && a[1] == b[1] && a[2] == b[2] && a[3] == b[3];
    proof {
        if same {
            assert(a@ =~= b@);
        } else {
            assert(a@[0] != b@[0] || a@[1] != b@[1] || a@[2] != b@[2] || a@[3] != b@[3]);
        }
    }
    same
}

impl MapAttributes {
    /// Attributes with the given mix colors. The mesh has not seen them, so a
    /// sync is due.
    pub fn new(mix_color: [CornerColor; 4]) -> (attributes: MapAttributes)
        ensures
            attributes@ == AttributesModel::fresh(mix_color@),
            attributes@.wf(),
    {
        MapAttributes { mix_color, sync_due: true }
    }

    /// The four mix colors.
    pub fn mix_color(&self) -> (mix_color: [CornerColor; 4])
        ensures
            mix_color@ == self@.mix_color,
            self@.wf(),
    {
        self.mix_color
    }

    /// Whether the mesh has yet to take the colors over.
    pub fn sync_due(&self) -> (due: bool)
        ensures
            due == self@.sync_due,
    {
        self.sync_due
    }

    /// Sets all four mix colors. A sync becomes due only if some color
    /// actually changes.
    pub fn set_mix_color(&mut self, mix_color: [CornerColor; 4])
        ensures
            final(self)@ == old(self)@.with_colors(mix_color@),
            final(self)@.wf(),
    {
        if !same_colors(&self.mix_color, &mix_color) {
            self.mix_color = mix_color;
            self.sync_due = true;
        }
    }

    /// Sets the mix color of one corner. A sync becomes due only if the color
    /// actually changes. A corner index of four or more changes nothing and is
    /// reported as `OutOfBoundsAccess`.
    pub fn set_corner(&mut self, corner: usize, color: CornerColor) -> (r: Result<(), MapError>)
        ensures
            r is Ok <==> corner < CORNERS,
            r is Ok ==> final(self)@ == old(self)@.with_colors(
                old(self)@.mix_color.update(corner as int, color),
            ),
            r is Err ==> final(self)@ == old(self)@,
            r matches Err(e) ==> e == MapError::OutOfBoundsAccess,
    {
        if corner < CORNERS {
            let mut mix_color: [CornerColor; 4] = self.mix_color;
            mix_color[corner] = color;
            self.set_mix_color(mix_color);
            Ok(())
        } else {
            Err(MapError::OutOfBoundsAccess)
        }
    }

    /// Hands the colors to the mesh if a sync is due, and records that the
    /// mesh has them. Returns `None` when nothing changed since the last sync.
    pub fn take_sync(&mut self) -> (update: Option<[CornerColor; 4]>)
        ensures
            final(self)@ == old(self)@.synced(),
            update is Some <==> old(self)@.sync_due,
            update matches Some(colors) ==> colors@ == old(self)@.mix_color,
    {
        if self.sync_due {
            self.sync_due = false;
            Some(self.mix_color)
        } else {
            None
        }
    }
}

impl Clone for MapAttributes {
    fn clone(&self) -> (copy: MapAttributes)
        ensures
            copy@ == self@,
    {
        MapAttributes { mix_color: self.mix_color, sync_due: self.sync_due }
    }
}

impl Default for MapAttributes {
    /// Attributes that leave the tile colors as they are.
    fn default() -> (attributes: MapAttributes)
        ensures
            attributes@ == AttributesModel::fresh(Seq::new(4, |i: int| CornerColor::neutral())),
    {
        let neutral = CornerColor {
            r: CHANNEL_ONE,
            g: CHANNEL_ONE,
            b: CHANNEL_ONE,
            a: CHANNEL_ONE,
        };
        let attributes = MapAttributes::new([neutral, neutral, neutral, neutral]);
        assert(attributes@.mix_color =~= Seq::new(4, |i: int| CornerColor::neutral()));
        attributes
    }
}

/// Setting the colors that are already there never asks for a sync, and once
/// the mesh has taken the colors over nothing is due until a color changes.
pub proof fn lemma_sync_only_on_change(a: AttributesModel, mix_color: Seq<CornerColor>)
    requires
        a.wf(),
    ensures
        a.with_colors(a.mix_color) == a,
        a.synced().with_colors(mix_color).sync_due <==> mix_color != a.mix_color,
        a.with_colors(mix_color).synced().sync_due == false,
{
}

} // verus!
